use ministat::{select_column, validate_dataset_sizes, MinistatFailure};

#[test]
fn picks_the_requested_column() {
    assert_eq!(Some("1".to_string()), select_column("1 2\t3", " \t", 1));
    assert_eq!(Some("2".to_string()), select_column("1 2\t3", " \t", 2));
    assert_eq!(Some("3".to_string()), select_column("1 2\t3", " \t", 3));
    assert_eq!(None, select_column("1 2\t3", " \t", 4));
}

#[test]
fn consecutive_delimiters_yield_empty_tokens() {
    assert_eq!(Some("".to_string()), select_column("5  7", " \t", 2));
    assert_eq!(Some("7".to_string()), select_column("5  7", " \t", 3));
    assert_eq!(Some("".to_string()), select_column(" 5", " \t", 1));
    assert_eq!(Some("5".to_string()), select_column(" 5", " \t", 2));
}

#[test]
fn empty_line_is_one_empty_token() {
    assert_eq!(Some("".to_string()), select_column("", " \t", 1));
    assert_eq!(None, select_column("", " \t", 2));
}

#[test]
fn sizes_of_three_or_more_pass() {
    let names = vec!["a".to_string(), "b".to_string()];
    assert_eq!(Ok(()), validate_dataset_sizes(&names, &vec![3, 5]));
}

#[test]
fn first_small_dataset_is_reported() {
    let names = vec!["a".to_string(), "b".to_string(), "c".to_string()];
    match validate_dataset_sizes(&names, &vec![4, 2, 1]) {
        Err(MinistatFailure::InsufficientData { file }) => assert_eq!("b", file),
        other => panic!("unexpected: {:?}", other),
    }
}
