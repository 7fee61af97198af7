use ministat::{Column, Confidence, MinistatFailure, Opt};

#[test]
fn column_accepts_positive_bytes() {
    assert_eq!(1, Column::from_str("1").unwrap().0);
    assert_eq!(5, Column::from_str("+5").unwrap().0);
    assert_eq!(127, Column::from_str("127").unwrap().0);
    assert_eq!(42, Column::from_str("00042").unwrap().0);
}

#[test]
fn column_rejects_everything_else() {
    for bad in ["0", "-3", "abc", "", "+", "128", "1 ", "1.5"] {
        match Column::from_str(bad) {
            Err(MinistatFailure::InvalidColumn { provided_column }) => {
                assert_eq!(bad, provided_column);
            }
            other => panic!("{:?} accepted for {:?}", other, bad),
        }
    }
}

#[test]
fn confidence_maps_to_table_column() {
    assert_eq!(0, Confidence::from_str("80").unwrap().0);
    assert_eq!(1, Confidence::from_str("90").unwrap().0);
    assert_eq!(2, Confidence::from_str("95").unwrap().0);
    assert_eq!(3, Confidence::from_str("98").unwrap().0);
    assert_eq!(4, Confidence::from_str("99").unwrap().0);
    assert_eq!(5, Confidence::from_str("99.5").unwrap().0);
}

#[test]
fn confidence_rejects_unknown_levels() {
    for bad in ["97", "95.0", "", "ninety"] {
        match Confidence::from_str(bad) {
            Err(MinistatFailure::InvalidConfidence {
                provided_confidence,
            }) => {
                assert_eq!(bad, provided_confidence);
            }
            other => panic!("{:?} accepted for {:?}", other, bad),
        }
    }
}

#[test]
fn default_options() {
    let opt = Opt::default();
    assert!(!opt.raw_stats);
    assert!(!opt.separate_lines);
    assert!(!opt.stats_only);
    assert!(!opt.modern_chars);
    assert!(!opt.stack);
    assert_eq!(1, opt.column.0);
    assert_eq!(2, opt.confidence_level.0);
    assert_eq!(" \t", opt.delimiter);
    assert!(opt.width.is_none());
    assert!(opt.symbols.is_none());
    assert!(opt.files.is_empty());
}
