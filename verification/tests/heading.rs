use ministat::{classic_symbols, print_heading, unicode_symbols};

fn labels(names: &[&str]) -> Vec<String> {
    names.iter().map(|n| n.to_string()).collect()
}

#[test]
fn test_print_heading_classic() {
    let files = labels(&[
        "file1", "file2", "file3", "file4", "file5", "file6", "file7",
    ]);
    let heading = print_heading(&files, &classic_symbols());
    assert_eq!(
        "x file1\n+ file2\n* file3\n% file4\n# file5\n@ file6\nO file7\n",
        heading.as_str()
    );
}

#[test]
fn test_print_heading_modern() {
    let files = labels(&[
        "file1", "file2", "file3", "file4", "file5", "file6", "file7",
    ]);
    let heading = print_heading(&files, &unicode_symbols());
    assert_eq!(
        "● file1\n○ file2\n◾ file3\n◽ file4\n◆ file5\n◇ file6\n▲ file7\n",
        heading.as_str()
    );
}

#[test]
// We only handle 7 datasets, because that's how many symbols we have.
// The dataset count is checked against the symbol count before this point.
fn test_print_heading_too_many() {
    let files = labels(&[
        "file1", "file2", "file3", "file4", "file5", "file6", "file7", "file8",
    ]);
    let heading = print_heading(&files, &classic_symbols());
    assert_eq!(
        "x file1\n+ file2\n* file3\n% file4\n# file5\n@ file6\nO file7\n",
        heading.as_str()
    );
}
