use ministat::{CriticalValueTable, CRIT_SCALE};

struct Summary {
    n: usize,
    mean: f64,
    var: f64,
}

fn summarize(data: &[f64]) -> Summary {
    let mut m = data[0];
    let mut s = 0.0f64;
    let mut total = m;
    for (k, &datum) in data.iter().enumerate().skip(1) {
        total += datum;
        let old_m = m;
        m = old_m + (datum - old_m) / ((k + 1) as f64);
        s += (datum - old_m) * (datum - m);
    }
    Summary {
        n: data.len(),
        mean: total / (data.len() as f64),
        var: s / ((data.len() - 1) as f64),
    }
}

/// Welch's t-statistic, the floored degrees of freedom, the mean difference
/// and the pooled variance term, comparing `second` against the reference
/// `first`.
fn welch(first: &Summary, second: &Summary) -> (f64, usize, f64, f64) {
    let val = second.var / (second.n as f64) + first.var / (first.n as f64);
    let t = ((second.mean - first.mean) / val.sqrt()).abs();
    let a = second.var.powi(2) / (second.n * second.n * (second.n - 1)) as f64;
    let b = first.var.powi(2) / (first.n * first.n * (first.n - 1)) as f64;
    let v = val.powi(2) / (a + b);
    (t, v as usize, second.mean - first.mean, val)
}

fn critical(df: usize, confidence_idx: usize) -> f64 {
    let table = CriticalValueTable::new();
    table.critical_value(df, confidence_idx).unwrap() as f64 / CRIT_SCALE as f64
}

#[test]
fn same_verdict_at_95() {
    // [1,2,4,8,16] vs [5,6,7,8,9]: no difference proven at 95% confidence.
    let first = summarize(&[1., 2., 4., 8., 16.]);
    let second = summarize(&[5., 6., 7., 8., 9.]);
    assert_eq!(first.n, 5);
    assert!((first.mean - 6.2).abs() < 1e-12);
    assert!((second.mean - 7.0).abs() < 1e-12);
    let (t, df, _delta, _val) = welch(&first, &second);
    assert_eq!(df, 4);
    let t_required = critical(df, 2);
    assert!(t <= t_required, "t = {} exceeds {}", t, t_required);
}

#[test]
fn different_verdict_at_95() {
    // [1,2,4,8,16] vs [15,16,17,18,19]: a difference at 95% confidence,
    // with delta about 10.8 and Welch's t about 3.8328.
    let first = summarize(&[1., 2., 4., 8., 16.]);
    let second = summarize(&[15., 16., 17., 18., 19.]);
    assert!((second.mean - 17.0).abs() < 1e-12);
    let (t, df, delta, val) = welch(&first, &second);
    assert_eq!(df, 4);
    let t_required = critical(df, 2);
    assert!(t > t_required, "t = {} not above {}", t, t_required);
    assert!((delta - 10.8).abs() < 1e-9);
    assert!((t - 3.8328).abs() < 5e-5, "t = {}", t);
    // the reported margin, using the table's five-decimal critical value
    let margin = t_required * val;
    assert!((margin - 22.045013).abs() < 5e-7, "margin = {}", margin);
}

#[test]
fn comparison_symmetric_in_sign() {
    // Swapping the two datasets keeps the t-statistic magnitude and the
    // verdict, and negates the reported difference.
    let a = summarize(&[1., 2., 4., 8., 16.]);
    let b = summarize(&[15., 16., 17., 18., 19.]);
    let (t_ab, df_ab, delta_ab, _) = welch(&a, &b);
    let (t_ba, df_ba, delta_ba, _) = welch(&b, &a);
    assert_eq!(t_ab.to_bits(), t_ba.to_bits());
    assert_eq!(df_ab, df_ba);
    assert_eq!(delta_ab, -delta_ba);
    let t_required = critical(df_ab, 2);
    assert_eq!(t_ab > t_required, t_ba > t_required);
}
