//! The closed error type for the statistics report: one variant per failure
//! kind, and a verified rendering of each variant's display message.

use vstd::prelude::*;

verus! {

/// Everything that can go wrong while producing one report.
#[derive(Debug, Clone, PartialEq, Eq)]
pub enum MinistatFailure {
    /// A line of an input file held no parseable number in the chosen column.
    InvalidData { line_no: usize, file: String },
    /// The column argument was not a positive integer.
    InvalidColumn { provided_column: String },
    /// The confidence argument was not one of the supported levels.
    InvalidConfidence { provided_confidence: String },
    /// A dataset was too small for variance and median to mean anything.
    InsufficientData { file: String },
    /// The comparison's degrees of freedom fell below the table's first row.
    InsufficientDegreesOfFreedom,
    /// No dataset was given to the plot renderer.
    NoPlotPossible,
    /// More datasets than plot symbols to draw them with.
    TooManyDatasets { dataset_count: usize },
}

/// The character for a single decimal digit.
pub open spec fn digit_char(d: nat) -> char {
    (48 + d) as char
}

/// The decimal digits of `n`, most significant first.
pub open spec fn dec_digits(n: nat) -> Seq<char>
    decreases n,
{
    if n < 10 {
        seq![digit_char(n)]
    } else {
        dec_digits(n / 10).push(digit_char(n % 10))
    }
}

/// Append the decimal rendering of `n` to `out`.
fn push_dec_digits(n: u64, out: &mut Vec<char>)
    ensures
        final(out)@ == old(out)@ + dec_digits(n as nat),
    decreases n,
{
    if n >= 10 {
        push_dec_digits(n / 10, out);
    }
    let d: u8 = (n % 10) as u8;
    let c: char = (48 + d) as char;
    assert(c == digit_char((n % 10) as nat));
    out.push(c);
    assert(out@ =~= old(out)@ + dec_digits(n as nat));
}

/// The decimal rendering of `n` as a string.
pub(crate) fn u64_to_string(n: u64) -> (r: String)
    ensures
        r@ == dec_digits(n as nat),
{
    let mut digits: Vec<char> = Vec::new();
    push_dec_digits(n, &mut digits);
    assert(digits@ =~= dec_digits(n as nat));
    chars_to_string(&digits)
}

/// Relies on std's `String: FromIterator<&char>`: collecting characters
/// yields the string of exactly those characters in order.
#[verifier::external_body]
pub(crate) fn chars_to_string(chars: &Vec<char>) -> (r: String)
    ensures
        r@ == chars@,
{
    chars.iter().collect()
}

impl MinistatFailure {
    /// The display message of each failure, character for character.
    pub open spec fn message_spec(&self) -> Seq<char> {
        match self {
            MinistatFailure::InvalidData { line_no, file } => {
                "Invalid data on line "@ + dec_digits(*line_no as nat) + " of "@ + file@
            },
            MinistatFailure::InvalidColumn { provided_column } => {
                "'"@ + provided_column@ + "' is not a valid column (must be at least 1)"@
            },
            MinistatFailure::InvalidConfidence { provided_confidence } => {
                "'"@ + provided_confidence@
                    + "' is not a valid confidence (must be one of 80, 90, 95, 98, 99 and 99.5)"@
            },
            MinistatFailure::InsufficientData { file } => {
                "Dataset "@ + file@
                    + " must contain at least 3 datapoints. (Perhaps there was not enough data in the column you selected?)"@
            },
            MinistatFailure::InsufficientDegreesOfFreedom => {
                "Not enough degrees of freedom to index the critical-value table"@
            },
            MinistatFailure::NoPlotPossible => "Unable to create a plot for this data"@,
            MinistatFailure::TooManyDatasets { dataset_count } => {
                "Too many datasets. You may have at most 7; you had "@ + dec_digits(
                    *dataset_count as nat,
                )
            },
        }
    }

    /// Render the failure's display message.
    pub fn message(&self) -> (r: String)
        ensures
            r@ == self.message_spec(),
    {
        match self {
            MinistatFailure::InvalidData { line_no, file } => {
                let mut s = String::from_str("Invalid data on line ");
                let num = u64_to_string(*line_no as u64);
                s.append(num.as_str());
                s.append(" of ");
                s.append(file.as_str());
                s
            },
            MinistatFailure::InvalidColumn { provided_column } => {
                let mut s = String::from_str("'");
                s.append(provided_column.as_str());
                s.append("' is not a valid column (must be at least 1)");
                s
            },
            MinistatFailure::InvalidConfidence { provided_confidence } => {
                let mut s = String::from_str("'");
                s.append(provided_confidence.as_str());
                s.append("' is not a valid confidence (must be one of 80, 90, 95, 98, 99 and 99.5)");
                s
            },
            MinistatFailure::InsufficientData { file } => {
                let mut s = String::from_str("Dataset ");
                s.append(file.as_str());
                s.append(
                    " must contain at least 3 datapoints. (Perhaps there was not enough data in the column you selected?)",
                );
                s
            },
            MinistatFailure::InsufficientDegreesOfFreedom => {
                String::from_str("Not enough degrees of freedom to index the critical-value table")
            },
            MinistatFailure::NoPlotPossible => {
                String::from_str("Unable to create a plot for this data")
            },
            MinistatFailure::TooManyDatasets { dataset_count } => {
                let mut s = String::from_str("Too many datasets. You may have at most 7; you had ");
                let num = u64_to_string(*dataset_count as u64);
                s.append(num.as_str());
                s
            },
        }
    }
}

} // verus!
