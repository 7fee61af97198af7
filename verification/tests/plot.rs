use ministat::{classic_symbols, render_plot, unicode_symbols, BarPositions};

struct Summary {
    min: f64,
    max: f64,
    mean: f64,
    stddev: f64,
    median: f64,
}

fn summarize(data: &[f64]) -> Summary {
    let mut m = data[0];
    let mut max = m;
    let mut min = m;
    let mut s = 0.0f64;
    let mut total = m;
    for (k, &datum) in data.iter().enumerate().skip(1) {
        total += datum;
        if datum < min {
            min = datum;
        }
        if datum > max {
            max = datum;
        }
        let old_m = m;
        m = old_m + (datum - old_m) / ((k + 1) as f64);
        s += (datum - old_m) * (datum - m);
    }
    let var = s / ((data.len() - 1) as f64);
    let mean = total / (data.len() as f64);
    let stddev = var.sqrt();
    let median = if data.len() % 2 == 1 {
        data[data.len() / 2]
    } else {
        (data[data.len() / 2] + data[data.len() / 2 - 1]) / 2.0
    };
    Summary {
        min,
        max,
        mean,
        stddev,
        median,
    }
}

fn plot_text(
    width: u16,
    data: &[Vec<f64>],
    symbols: &[char],
    stack: bool,
    separate_lines: bool,
    modern_chars: bool,
) -> String {
    let stats: Vec<Summary> = data.iter().map(|d| summarize(d)).collect();
    let gmax = stats
        .iter()
        .map(|s| s.max)
        .chain(stats.iter().map(|s| s.mean + s.stddev))
        .fold(f64::NEG_INFINITY, f64::max);
    let gmin = stats
        .iter()
        .map(|s| s.min)
        .chain(stats.iter().map(|s| s.mean - s.stddev))
        .fold(f64::INFINITY, f64::min);
    let col_count = (width - 2) as usize;
    let dx = (gmax - gmin) / ((col_count - 1) as f64);
    let zero_point = gmin - 0.5 * dx;
    let discretize = |pt: f64| ((pt - zero_point) / dx) as usize;
    let binned: Vec<Vec<usize>> = data
        .iter()
        .map(|d| d.iter().map(|&v| discretize(v)).collect())
        .collect();
    let bars: Vec<BarPositions> = stats
        .iter()
        .map(|s| BarPositions {
            sigma_lo: discretize(s.mean - s.stddev),
            sigma_hi: discretize(s.mean + s.stddev),
            mean: discretize(s.mean),
            median: discretize(s.median),
        })
        .collect();
    let rows = render_plot(
        width,
        &binned,
        &bars,
        &symbols.to_vec(),
        stack,
        separate_lines,
        modern_chars,
    )
    .unwrap();
    let mut out = String::new();
    for row in rows {
        out.push_str(&row);
        out.push('\n');
    }
    out
}

#[test]
fn test_plot() {
    let data = vec![
        vec![1., 2., 4., 8., 16.], // mean 6.2, median 4.0
        vec![5., 6., 7., 8., 9.],  // mean and median: 7.0
    ];
    let text = plot_text(30, &data, &classic_symbols(), true, true, false);
    assert_eq!(
        "\
+----------------------------+
|             +              |
|  xx   x+ + +x +           x|
||______M__A__________|      |
|         |__M_|             |
+----------------------------+
",
        text
    );
}

#[test]
fn test_plot_stacked() {
    let data = vec![
        vec![1., 2., 4., 8., 16.], // mean 6.2, median 4.0
        vec![5., 6., 7., 8., 9.],  // mean and median: 7.0
    ];
    let text = plot_text(
        30,
        &data,
        &[' ', '1', '2', '3', '4', '5', '6'],
        false,
        false,
        false,
    );
    assert_eq!(
        "\
+----------------------------+
|  11   12 2 23 2           1|
||______M_|A_M_|______|      |
+----------------------------+
",
        text
    );
}

#[test]
fn test_plot_modern() {
    let data = vec![
        vec![1., 2., 4., 8., 16.], // mean 6.2, median 4.0
        vec![5., 6., 7., 8., 9.],  // mean and median: 7.0
    ];
    let text = plot_text(30, &data, &unicode_symbols(), false, false, true);
    assert_eq!(
        "\
┌────────────────────────────┐
│  ●●   ●○ ○ ○◾ ○           ●│
│├──────M─├A─M─┤──────┤      │
└────────────────────────────┘
",
        text
    );
}
