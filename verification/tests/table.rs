use ministat::{t_confidences, CriticalValueTable, MinistatFailure, CRIT_SCALE};

#[test]
fn confidence_labels_in_order() {
    assert_eq!(vec!["80", "90", "95", "98", "99", "99.5"], t_confidences());
}

#[test]
fn scale_is_five_decimals() {
    assert_eq!(100000, CRIT_SCALE);
}

#[test]
fn one_degree_of_freedom_row() {
    let table = CriticalValueTable::new();
    // df = 1: 3.07768, 6.31375, 12.70620, 31.82052, 63.65674, 127.32134
    assert_eq!(Ok(307768), table.critical_value(1, 0));
    assert_eq!(Ok(631375), table.critical_value(1, 1));
    assert_eq!(Ok(1270620), table.critical_value(1, 2));
    assert_eq!(Ok(3182052), table.critical_value(1, 3));
    assert_eq!(Ok(6365674), table.critical_value(1, 4));
    assert_eq!(Ok(12732134), table.critical_value(1, 5));
}

#[test]
fn four_degrees_of_freedom_at_95() {
    let table = CriticalValueTable::new();
    // t(0.975, 4) = 2.77645 to five decimals
    assert_eq!(Ok(277645), table.critical_value(4, 2));
}

#[test]
fn large_sample_rows() {
    let table = CriticalValueTable::new();
    // df = 1000 keeps its own row; anything above uses the asymptotic row
    assert_eq!(Ok(196234), table.critical_value(1000, 2));
    assert_eq!(Ok(195996), table.critical_value(1001, 2));
    assert_eq!(Ok(195996), table.critical_value(50000, 2));
}

#[test]
fn zero_degrees_of_freedom_is_an_error() {
    let table = CriticalValueTable::new();
    assert_eq!(
        Err(MinistatFailure::InsufficientDegreesOfFreedom),
        table.critical_value(0, 2)
    );
}
