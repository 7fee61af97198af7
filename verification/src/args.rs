//! The configuration values of one report, and the verified parsing of the
//! column and confidence arguments from their command-line strings.

use vstd::prelude::*;

use crate::err::MinistatFailure;
use crate::t_table::{confidence_labels, t_confidences};

verus! {

/// A one-based input column choice.
#[derive(Debug, Clone, Copy)]
pub struct Column(pub u8);

/// An index into the supported confidence levels.
#[derive(Debug, Clone, Copy)]
pub struct Confidence(pub usize);

/// All the knobs of one report.
#[derive(Debug, Clone)]
pub struct Opt {
    /// Report the raw statistics only, suppressing plot and comparisons.
    pub raw_stats: bool,
    /// One indicator-bar row per dataset instead of a shared row.
    pub separate_lines: bool,
    /// Print statistics only, suppressing the plot.
    pub stats_only: bool,
    /// Draw with box-drawing characters instead of ASCII.
    pub modern_chars: bool,
    /// Stack same-column points instead of merging runs.
    pub stack: bool,
    /// Which column of the input to read.
    pub column: Column,
    /// Confidence level for the significance comparison.
    pub confidence_level: Confidence,
    /// Column delimiter characters.
    pub delimiter: String,
    /// Plot width in characters, if fixed by the user.
    pub width: Option<u16>,
    /// A custom plot symbol per dataset, if given.
    pub symbols: Option<String>,
    /// The input files.
    pub files: Vec<String>,
}

impl Default for Opt {
    /// The defaults: first column, 95% confidence, space-or-tab delimiters.
    fn default() -> (d: Opt)
        ensures
            !d.raw_stats && !d.separate_lines && !d.stats_only && !d.modern_chars && !d.stack,
            d.column.0 == 1,
            d.confidence_level.0 == 2,
            d.delimiter@ == " \t"@,
            d.width is None,
            d.symbols is None,
            d.files@.len() == 0,
    {
        Opt {
            raw_stats: false,
            separate_lines: false,
            stats_only: false,
            modern_chars: false,
            stack: false,
            column: Column(1),
            confidence_level: Confidence(2),
            delimiter: String::from_str(" \t"),
            width: None,
            symbols: None,
            files: Vec::new(),
        }
    }
}

/// Whether a character is a decimal digit.
pub open spec fn is_digit_char(c: char) -> bool {
    48 <= c as int <= 57
}

/// The numeric value of a digit character.
pub open spec fn digit_value(c: char) -> int {
    c as int - 48
}

/// The value of a digit string read in base ten.
pub open spec fn digits_value(s: Seq<char>) -> int
    decreases s.len(),
{
    if s.len() == 0 {
        0
    } else {
        digits_value(s.drop_last()) * 10 + digit_value(s.last())
    }
}

/// Whether every character of `s` is a decimal digit.
pub open spec fn all_digits(s: Seq<char>) -> bool {
    forall|i: int| 0 <= i < s.len() ==> is_digit_char(#[trigger] s[i])
}

/// `s` without its optional leading sign.
pub open spec fn signed_body(s: Seq<char>) -> Seq<char> {
    if s.len() > 0 && (s[0] == '+' || s[0] == '-') {
        s.drop_first()
    } else {
        s
    }
}

/// Whether `s` starts with a minus sign.
pub open spec fn is_negative(s: Seq<char>) -> bool {
    s.len() > 0 && s[0] == '-'
}

/// Whether `s` is a decimal literal that a signed byte can hold: an optional
/// sign, then at least one digit, with the value in range.
pub open spec fn parses_to_i8(s: Seq<char>) -> bool {
    let b = signed_body(s);
    &&& b.len() > 0
    &&& all_digits(b)
    &&& if is_negative(s) {
        digits_value(b) <= 128
    } else {
        digits_value(b) <= 127
    }
}

/// The value such a literal denotes.
pub open spec fn i8_value(s: Seq<char>) -> int {
    if is_negative(s) {
        -digits_value(signed_body(s))
    } else {
        digits_value(signed_body(s))
    }
}

/// Extending a digit string multiplies its value by ten and adds the digit.
proof fn lemma_digits_value_step(s: Seq<char>, i: int)
    requires
        0 <= i < s.len(),
    ensures
        digits_value(s.subrange(0, i + 1)) == digits_value(s.subrange(0, i)) * 10 + digit_value(
            s[i],
        ),
{
    let pre = s.subrange(0, i + 1);
    assert(pre.drop_last() =~= s.subrange(0, i));
    assert(pre.last() == s[i]);
}

/// Parse a signed-byte decimal literal, exactly as the parser of the
/// standard numeric types accepts it.
fn parse_i8(s: &str) -> (r: Option<i8>)
    ensures
        match r {
            Some(v) => parses_to_i8(s@) && v as int == i8_value(s@),
            None => !parses_to_i8(s@),
        },
{
    let n = s.unicode_len();
    if n == 0 {
        return None;
    }
    let first = s.get_char(0);
    let neg = first == '-';
    let start: usize = if first == '-' || first == '+' {
        1
    } else {
        0
    };
    if start >= n {
        // a sign with no digits
        return None;
    }
    let ghost body = signed_body(s@);
    proof {
        assert(body =~= s@.subrange(start as int, n as int));
    }
    let mut i = start;
    let mut acc: u64 = 0;
    let mut too_big = false;
    while i < n
        invariant
            start <= i <= n,
            n == s@.len(),
            body == s@.subrange(start as int, n as int),
            body == signed_body(s@),
            neg == is_negative(s@),
            all_digits(s@.subrange(start as int, i as int)),
            !too_big ==> acc <= 128 && acc as int == digits_value(
                s@.subrange(start as int, i as int),
            ),
            too_big ==> digits_value(s@.subrange(start as int, i as int)) > 128,
        decreases n - i,
    {
        let c = s.get_char(i);
        let u = c as u32;
        if u < 48 || u > 57 {
            proof {
                assert(c as int == u as int);
                assert(!is_digit_char(s@[i as int]));
                assert(body[i - start] == s@[i as int]);
                assert(!all_digits(body));
                assert(!parses_to_i8(s@));
            }
            return None;
        }
        let d: u64 = (u - 48) as u64;
        let ghost prefix = s@.subrange(start as int, i as int);
        let ghost prefix2 = s@.subrange(start as int, i + 1);
        proof {
            assert(prefix2.drop_last() =~= prefix);
            assert(prefix2.last() == s@[i as int]);
            assert(forall|j: int|
                0 <= j < prefix2.len() ==> prefix2[j] == s@.subrange(
                    start as int,
                    n as int,
                )[j]);
        }
        if too_big {
            proof {
                assert(digits_value(prefix2) == digits_value(prefix) * 10 + digit_value(
                    s@[i as int],
                ));
            }
        } else {
            let next = acc * 10 + d;
            if next > 128 {
                too_big = true;
            } else {
                acc = next;
            }
        }
        i = i + 1;
    }
    proof {
        assert(s@.subrange(start as int, n as int) =~= body);
    }
    if too_big {
        return None;
    }
    if neg {
        proof {
            assert(is_negative(s@));
        }
        if acc == 128 {
            Some(i8::MIN)
        } else {
            Some(-((acc as u8) as i8))
        }
    } else {
        proof {
            assert(!is_negative(s@));
        }
        if acc <= 127 {
            Some(acc as i8)
        } else {
            None
        }
    }
}

impl Column {
    /// Parse the column argument: any signed-byte literal of value at least
    /// one is accepted, anything else is an `InvalidColumn` failure carrying
    /// the offending text.
    pub fn from_str(s: &str) -> (r: Result<Column, MinistatFailure>)
        ensures
            r is Ok ==> parses_to_i8(s@) && 1 <= i8_value(s@) && r->Ok_0.0 as int == i8_value(s@),
            r is Err ==> !(parses_to_i8(s@) && 1 <= i8_value(s@)) && (r->Err_0 matches
                MinistatFailure::InvalidColumn { provided_column } && provided_column@ == s@),
    {
        match parse_i8(s) {
            Some(c) if c >= 1 => Ok(Column(c as u8)),
            _ => Err(
                MinistatFailure::InvalidColumn { provided_column: String::from_str(s) },
            ),
        }
    }
}

/// Whether two strings hold the same characters.
fn str_eq(a: &str, b: &str) -> (r: bool)
    ensures
        r == (a@ == b@),
{
    let na = a.unicode_len();
    let nb = b.unicode_len();
    if na != nb {
        return false;
    }
    let mut i: usize = 0;
    while i < na
        invariant
            i <= na,
            na == a@.len() && na == b@.len(),
            forall|j: int| 0 <= j < i ==> a@[j] == b@[j],
        decreases na - i,
    {
        if a.get_char(i) != b.get_char(i) {
            return false;
        }
        i = i + 1;
    }
    proof {
        assert(a@ =~= b@);
    }
    true
}

impl Confidence {
    /// Parse the confidence argument: the index of the matching supported
    /// level, or an `InvalidConfidence` failure carrying the offending text.
    pub fn from_str(s: &str) -> (r: Result<Confidence, MinistatFailure>)
        ensures
            r is Ok ==> {
                &&& r->Ok_0.0 < confidence_labels().len()
                &&& confidence_labels()[r->Ok_0.0 as int] == s@
                &&& forall|j: int| 0 <= j < r->Ok_0.0 ==> confidence_labels()[j] != s@
            },
            r is Err ==> (forall|j: int|
                0 <= j < confidence_labels().len() ==> confidence_labels()[j] != s@) && (r->Err_0
                matches MinistatFailure::InvalidConfidence { provided_confidence }
                && provided_confidence@ == s@),
    {
        let labels = t_confidences();
        let mut i: usize = 0;
        while i < labels.len()
            invariant
                i <= labels@.len(),
                labels@.len() == confidence_labels().len(),
                forall|k: int|
                    0 <= k < labels@.len() ==> (#[trigger] labels@[k])@ == confidence_labels()[k],
                forall|j: int| 0 <= j < i ==> confidence_labels()[j] != s@,
            decreases labels@.len() - i,
        {
            if str_eq(labels[i], s) {
                return Ok(Confidence(i));
            }
            i = i + 1;
        }
        Err(MinistatFailure::InvalidConfidence { provided_confidence: String::from_str(s) })
    }
}

} // verus!
