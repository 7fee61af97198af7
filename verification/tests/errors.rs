use ministat::MinistatFailure;

#[test]
fn invalid_data_message() {
    let e = MinistatFailure::InvalidData {
        line_no: 12,
        file: "data.txt".to_string(),
    };
    assert_eq!("Invalid data on line 12 of data.txt", e.message());
}

#[test]
fn invalid_column_message() {
    let e = MinistatFailure::InvalidColumn {
        provided_column: "zero".to_string(),
    };
    assert_eq!(
        "'zero' is not a valid column (must be at least 1)",
        e.message()
    );
}

#[test]
fn invalid_confidence_message() {
    let e = MinistatFailure::InvalidConfidence {
        provided_confidence: "97".to_string(),
    };
    assert_eq!(
        "'97' is not a valid confidence (must be one of 80, 90, 95, 98, 99 and 99.5)",
        e.message()
    );
}

#[test]
fn insufficient_data_message() {
    let e = MinistatFailure::InsufficientData {
        file: "a.txt".to_string(),
    };
    assert_eq!(
        "Dataset a.txt must contain at least 3 datapoints. (Perhaps there was not enough data in the column you selected?)",
        e.message()
    );
}

#[test]
fn plain_messages() {
    assert_eq!(
        "Unable to create a plot for this data",
        MinistatFailure::NoPlotPossible.message()
    );
    assert_eq!(
        "Not enough degrees of freedom to index the critical-value table",
        MinistatFailure::InsufficientDegreesOfFreedom.message()
    );
}

#[test]
fn too_many_datasets_message() {
    let e = MinistatFailure::TooManyDatasets { dataset_count: 9 };
    assert_eq!(
        "Too many datasets. You may have at most 7; you had 9",
        e.message()
    );
}
