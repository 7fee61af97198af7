//! Picking one column out of a delimited input line, and checking that every
//! dataset is large enough to summarize. Reading lines and parsing numbers is
//! the caller's affair; the tokenizing rule lives here.

use vstd::prelude::*;

use crate::err::MinistatFailure;

verus! {

/// Whether `c` is one of the delimiter characters.
pub open spec fn is_delim(c: char, delims: Seq<char>) -> bool {
    delims.contains(c)
}

/// The tokens of a line split at every delimiter occurrence: consecutive
/// delimiters yield empty tokens, and a line always yields at least one
/// token, so an empty line yields one empty token.
pub open spec fn split_spec(s: Seq<char>, delims: Seq<char>) -> Seq<Seq<char>>
    decreases s.len(),
{
    if s.len() == 0 {
        seq![Seq::<char>::empty()]
    } else if is_delim(s[0], delims) {
        seq![Seq::<char>::empty()] + split_spec(s.drop_first(), delims)
    } else {
        let rest = split_spec(s.drop_first(), delims);
        rest.update(0, seq![s[0]] + rest[0])
    }
}

/// A split always yields at least one token.
proof fn lemma_split_len_pos(s: Seq<char>, delims: Seq<char>)
    ensures
        split_spec(s, delims).len() >= 1,
    decreases s.len(),
{
    if s.len() > 0 {
        lemma_split_len_pos(s.drop_first(), delims);
    }
}

/// Whether `c` occurs in the delimiter string.
fn contains_char(delims: &str, c: char) -> (r: bool)
    ensures
        r == is_delim(c, delims@),
{
    let n = delims.unicode_len();
    let mut i: usize = 0;
    while i < n
        invariant
            i <= n,
            n == delims@.len(),
            forall|j: int| 0 <= j < i ==> delims@[j] != c,
        decreases n - i,
    {
        if delims.get_char(i) == c {
            return true;
        }
        i = i + 1;
    }
    false
}

/// The one-based `col`-th token of the line, split at the delimiter
/// characters: exactly the token the split yields at that position, or
/// nothing when the line has fewer tokens.
pub fn select_column(line: &str, delimiters: &str, col: u8) -> (r: Option<String>)
    requires
        col >= 1,
    ensures
        match r {
            Some(tok) => col - 1 < split_spec(line@, delimiters@).len() && tok@ == split_spec(
                line@,
                delimiters@,
            )[col - 1],
            None => col - 1 >= split_spec(line@, delimiters@).len(),
        },
{
    let ghost toks_all = split_spec(line@, delimiters@);
    let target: usize = (col - 1) as usize;
    let n = line.unicode_len();
    let mut i: usize = 0;
    let mut d: usize = 0;
    let mut buf: Vec<char> = Vec::new();
    proof {
        assert(line@.skip(0) =~= line@);
        lemma_split_len_pos(line@, delimiters@);
        assert(buf@ + toks_all[0] =~= toks_all[0]);
    }
    while i < n
        invariant
            i <= n,
            n == line@.len(),
            target as int == col - 1,
            d <= target,
            toks_all == split_spec(line@, delimiters@),
            toks_all.len() == d + split_spec(line@.skip(i as int), delimiters@).len(),
            toks_all[d as int] == buf@ + split_spec(line@.skip(i as int), delimiters@)[0],
            forall|k: int|
                1 <= k < split_spec(line@.skip(i as int), delimiters@).len() ==> toks_all[d + k]
                    == split_spec(line@.skip(i as int), delimiters@)[k],
        decreases n - i,
    {
        let ghost suffix = line@.skip(i as int);
        let ghost toks_suf = split_spec(suffix, delimiters@);
        proof {
            lemma_split_len_pos(suffix.drop_first(), delimiters@);
            assert(suffix.len() > 0);
            assert(suffix[0] == line@[i as int]);
            assert(suffix.drop_first() =~= line@.skip(i + 1));
        }
        let c = line.get_char(i);
        if contains_char(delimiters, c) {
            proof {
                assert(toks_suf == seq![Seq::<char>::empty()] + split_spec(
                    suffix.drop_first(),
                    delimiters@,
                ));
                assert(toks_suf[0] =~= Seq::<char>::empty());
                assert(buf@ + toks_suf[0] =~= buf@);
                assert(toks_all[d as int] =~= buf@);
            }
            if d == target {
                return Some(crate::err::chars_to_string(&buf));
            }
            proof {
                let next = split_spec(line@.skip(i + 1), delimiters@);
                lemma_split_len_pos(line@.skip(i + 1), delimiters@);
                assert(toks_suf.len() == 1 + next.len());
                assert(toks_all[d + 1] == toks_suf[1]);
                assert(toks_suf[1] == next[0]);
                assert(Seq::<char>::empty() + next[0] =~= next[0]);
                assert forall|k: int| 1 <= k < next.len() implies toks_all[(d + 1) + k] == next[k] by {
                    assert(toks_all[d + (k + 1)] == toks_suf[k + 1]);
                    assert(toks_suf[k + 1] == next[k]);
                }
            }
            d = d + 1;
            buf = Vec::new();
            proof {
                let next = split_spec(line@.skip(i + 1), delimiters@);
                assert(buf@ + next[0] =~= next[0]);
                assert(toks_all[d as int] =~= buf@ + next[0]);
            }
        } else {
            let ghost buf_old = buf@;
            buf.push(c);
            proof {
                let next = split_spec(line@.skip(i + 1), delimiters@);
                assert(toks_suf == next.update(0, seq![suffix[0]] + next[0]));
                assert(toks_suf[0] == seq![suffix[0]] + next[0]);
                assert(toks_all[d as int] == buf_old + toks_suf[0]);
                assert(buf_old + (seq![suffix[0]] + next[0]) =~= buf@ + next[0]);
                assert(toks_all[d as int] =~= buf@ + next[0]);
                assert(toks_suf.len() == next.len());
                assert forall|k: int| 1 <= k < next.len() implies toks_all[d + k] == next[k] by {
                    assert(toks_all[d + k] == toks_suf[k]);
                    assert(toks_suf[k] == next[k]);
                }
            }
        }
        i = i + 1;
    }
    proof {
        assert(line@.skip(n as int) =~= Seq::<char>::empty());
        assert(split_spec(line@.skip(n as int), delimiters@) =~~= seq![Seq::<char>::empty()]);
        assert(toks_all.len() == d + 1);
        assert(toks_all[d as int] =~= buf@);
    }
    if d == target {
        Some(crate::err::chars_to_string(&buf))
    } else {
        None
    }
}

/// Check that every dataset holds at least three points: the summary needs a
/// median and a sample variance. Reports the first dataset that is too
/// small, by name.
pub fn validate_dataset_sizes(names: &Vec<String>, sizes: &Vec<usize>) -> (r: Result<
    (),
    MinistatFailure,
>)
    requires
        names@.len() == sizes@.len(),
    ensures
        r is Ok <==> (forall|i: int| 0 <= i < sizes@.len() ==> sizes@[i] >= 3),
        r matches Err(e) ==> exists|i: int|
            {
                &&& 0 <= i < sizes@.len()
                &&& sizes@[i] < 3
                &&& (forall|j: int| 0 <= j < i ==> sizes@[j] >= 3)
                &&& (e matches MinistatFailure::InsufficientData { file } && file@ == names@[i]@)
            },
{
    let n = sizes.len();
    let mut i: usize = 0;
    while i < n
        invariant
            i <= n,
            n == sizes@.len(),
            names@.len() == sizes@.len(),
            forall|j: int| 0 <= j < i ==> sizes@[j] >= 3,
        decreases n - i,
    {
        if sizes[i] < 3 {
            let e = MinistatFailure::InsufficientData {
                file: String::from_str(names[i].as_str()),
            };
            proof {
                let w = i as int;
                assert({
                    &&& 0 <= w < sizes@.len()
                    &&& sizes@[w] < 3
                    &&& (forall|j: int| 0 <= j < w ==> sizes@[j] >= 3)
                    &&& (e matches MinistatFailure::InsufficientData { file } && file@
                        == names@[w]@)
                });
            }
            return Err(e);
        }
        i = i + 1;
    }
    Ok(())
}

} // verus!
