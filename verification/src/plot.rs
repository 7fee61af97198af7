//! The plot rasterizer: it takes each dataset already discretized to raw
//! column indices, bins the points into a character grid, and renders the
//! grid as text rows with border rows and mean/median/deviation indicator
//! bars. Everything here works on integers and characters; turning a sample
//! value into a raw column index is the caller's affair.

use vstd::prelude::*;

use crate::args::Opt;
use crate::err::MinistatFailure;
use crate::err::chars_to_string;
use vstd::arithmetic::power2::{pow2, lemma2_to64, lemma2_to64_rest, lemma_pow2_unfold, lemma_pow2_strictly_increases};
use vstd::bits::{lemma_u64_shl_is_mul, lemma_u64_pow2_no_overflow};

verus! {

/// The default ASCII plot symbols: one per dataset, index zero reserved.
pub open spec fn classic_symbols_spec() -> Seq<char> {
    seq![' ', 'x', '+', '*', '%', '#', '@', 'O']
}

/// The box-drawing plot symbols: one per dataset, index zero reserved.
pub open spec fn unicode_symbols_spec() -> Seq<char> {
    seq![' ', '\u{25cf}', '\u{25cb}', '\u{25fe}', '\u{25fd}', '\u{25c6}', '\u{25c7}', '\u{25b2}']
}

/// The default ASCII plot symbols.
pub fn classic_symbols() -> (r: Vec<char>)
    ensures
        r@ == classic_symbols_spec(),
{
    let v: Vec<char> = vec![' ', 'x', '+', '*', '%', '#', '@', 'O'];
    assert(v@ =~= classic_symbols_spec());
    v
}

/// The box-drawing plot symbols.
pub fn unicode_symbols() -> (r: Vec<char>)
    ensures
        r@ == unicode_symbols_spec(),
{
    let v: Vec<char> = vec![
        ' ',
        '\u{25cf}',
        '\u{25cb}',
        '\u{25fe}',
        '\u{25fd}',
        '\u{25c6}',
        '\u{25c7}',
        '\u{25b2}',
    ];
    assert(v@ =~= unicode_symbols_spec());
    v
}

/// The symbol set a report uses: a custom set behind the reserved blank, or
/// one of the two built-in sets.
pub open spec fn symbols_spec(opt: &Opt) -> Seq<char> {
    match opt.symbols {
        Some(custom) => seq![' '] + custom@,
        None => if opt.modern_chars {
            unicode_symbols_spec()
        } else {
            classic_symbols_spec()
        },
    }
}

/// Pick the symbol set for a report.
pub fn get_symbols(opt: &Opt) -> (r: Vec<char>)
    ensures
        r@ == symbols_spec(opt),
{
    match &opt.symbols {
        Some(custom) => {
            let mut v: Vec<char> = Vec::new();
            v.push(' ');
            let s = custom.as_str();
            let n = s.unicode_len();
            let mut i: usize = 0;
            while i < n
                invariant
                    i <= n,
                    n == s@.len(),
                    s@ == custom@,
                    v@ =~= seq![' '] + s@.subrange(0, i as int),
                decreases n - i,
            {
                v.push(s.get_char(i));
                assert(v@ =~= seq![' '] + s@.subrange(0, i + 1));
                i = i + 1;
            }
            assert(s@.subrange(0, n as int) =~= s@);
            assert(v@ =~= symbols_spec(opt));
            v
        },
        None => {
            if opt.modern_chars {
                unicode_symbols()
            } else {
                classic_symbols()
            }
        },
    }
}

/// The border and indicator-bar glyphs of one character-set mode.
#[derive(Clone, Copy)]
pub struct DrawingChars {
    /// Upper-left corner.
    pub ul: char,
    /// Upper-right corner.
    pub ur: char,
    /// Horizontal border fill.
    pub horiz: char,
    /// Vertical border.
    pub vert: char,
    /// Lower-left corner.
    pub ll: char,
    /// Lower-right corner.
    pub lr: char,
    /// Left end of a deviation bar.
    pub bar_start: char,
    /// Right end of a deviation bar.
    pub bar_end: char,
    /// Deviation-bar fill.
    pub bar: char,
}

/// The ASCII drawing glyphs.
pub open spec fn classic_chars_spec() -> DrawingChars {
    DrawingChars {
        ul: '+',
        ur: '+',
        horiz: '-',
        vert: '|',
        ll: '+',
        lr: '+',
        bar_start: '|',
        bar_end: '|',
        bar: '_',
    }
}

/// The box-drawing glyphs.
pub open spec fn modern_chars_spec() -> DrawingChars {
    DrawingChars {
        ul: '\u{250c}',
        ur: '\u{2510}',
        horiz: '\u{2500}',
        vert: '\u{2502}',
        ll: '\u{2514}',
        lr: '\u{2518}',
        bar_start: '\u{251c}',
        bar_end: '\u{2524}',
        bar: '\u{2500}',
    }
}

/// The drawing glyphs of the chosen character-set mode.
pub open spec fn drawing_chars_spec(modern: bool) -> DrawingChars {
    if modern {
        modern_chars_spec()
    } else {
        classic_chars_spec()
    }
}

/// Pick the drawing glyphs for a character-set mode.
fn drawing_chars(modern: bool) -> (r: DrawingChars)
    ensures
        r == drawing_chars_spec(modern),
{
    if modern {
        DrawingChars {
            ul: '\u{250c}',
            ur: '\u{2510}',
            horiz: '\u{2500}',
            vert: '\u{2502}',
            ll: '\u{2514}',
            lr: '\u{2518}',
            bar_start: '\u{251c}',
            bar_end: '\u{2524}',
            bar: '\u{2500}',
        }
    } else {
        DrawingChars {
            ul: '+',
            ur: '+',
            horiz: '-',
            vert: '|',
            ll: '+',
            lr: '+',
            bar_start: '|',
            bar_end: '|',
            bar: '_',
        }
    }
}

/// The column a raw bin index lands in: itself when in range, else the last
/// column. Discretization at the extreme of the data range can round one
/// past the end, so every raw index is clamped before use.
pub open spec fn clamp_col_spec(raw: int, col_count: int) -> int {
    if raw >= col_count {
        col_count - 1
    } else {
        raw
    }
}

/// Clamp a raw column index into the valid range of a plot with
/// `col_count` columns.
pub fn clamp_col(raw: usize, col_count: usize) -> (r: usize)
    requires
        col_count >= 1,
    ensures
        r == clamp_col_spec(raw as int, col_count as int),
        r < col_count,
{
    if raw >= col_count {
        col_count - 1
    } else {
        raw
    }
}

/// The raw discretized indicator positions of one dataset: where its
/// mean minus one standard deviation, mean plus one standard deviation,
/// mean and median land on the column axis, before clamping.
#[derive(Clone, Copy)]
pub struct BarPositions {
    /// Column of mean minus one standard deviation.
    pub sigma_lo: usize,
    /// Column of mean plus one standard deviation.
    pub sigma_hi: usize,
    /// Column of the mean.
    pub mean: usize,
    /// Column of the median.
    pub median: usize,
}

/// A border row: a corner, `col_count` fill characters, a corner.
pub open spec fn border_row_spec(col_count: int, left: char, fill: char, right: char) -> Seq<
    char,
> {
    seq![left] + Seq::new(col_count as nat, |i: int| fill) + seq![right]
}

/// Build a border row.
fn border_row(col_count: usize, left: char, fill: char, right: char) -> (r: String)
    ensures
        r@ == border_row_spec(col_count as int, left, fill, right),
{
    let mut v: Vec<char> = Vec::new();
    v.push(left);
    let mut i: usize = 0;
    while i < col_count
        invariant
            i <= col_count,
            v@ =~= seq![left] + Seq::new(i as nat, |j: int| fill),
        decreases col_count - i,
    {
        v.push(fill);
        assert(v@ =~= seq![left] + Seq::new((i + 1) as nat, |j: int| fill));
        i = i + 1;
    }
    v.push(right);
    assert(v@ =~= border_row_spec(col_count as int, left, fill, right));
    chars_to_string(&v)
}

/// One dataset's indicator marks written over a bar row: the deviation-bar
/// ends at the clamped sigma columns, the fill between them where the row is
/// still blank, and the mean and median markers written last, the median on
/// top of everything.
pub open spec fn bar_apply_spec(
    row: Seq<char>,
    b: BarPositions,
    col_count: int,
    dc: DrawingChars,
) -> Seq<char> {
    let lo = clamp_col_spec(b.sigma_lo as int, col_count);
    let hi = clamp_col_spec(b.sigma_hi as int, col_count);
    let mean = clamp_col_spec(b.mean as int, col_count);
    let median = clamp_col_spec(b.median as int, col_count);
    Seq::new(
        row.len(),
        |i: int|
            if i == median {
                'M'
            } else if i == mean {
                'A'
            } else if i == hi {
                dc.bar_end
            } else if i == lo {
                dc.bar_start
            } else if lo < i < hi && row[i] == ' ' {
                dc.bar
            } else {
                row[i]
            },
    )
}

/// Write one dataset's indicator marks onto a bar row.
fn apply_bar(row: &mut Vec<char>, b: &BarPositions, col_count: usize, dc: &DrawingChars)
    requires
        old(row)@.len() == col_count,
        col_count >= 1,
    ensures
        final(row)@ == bar_apply_spec(old(row)@, *b, col_count as int, *dc),
{
    let lo = clamp_col(b.sigma_lo, col_count);
    let hi = clamp_col(b.sigma_hi, col_count);
    let mean = clamp_col(b.mean, col_count);
    let median = clamp_col(b.median, col_count);
    row[lo] = dc.bar_start;
    row[hi] = dc.bar_end;
    let ghost s2 = row@;
    let mut i = lo + 1;
    while i < hi
        invariant
            lo + 1 <= i <= hi || i == lo + 1,
            hi < col_count,
            row@.len() == col_count,
            s2.len() == col_count,
            forall|j: int| lo + 1 <= j < i ==> row@[j] == (if s2[j] == ' ' {
                dc.bar
            } else {
                s2[j]
            }),
            forall|j: int| 0 <= j < col_count && !(lo + 1 <= j < i) ==> row@[j] == s2[j],
        decreases hi - i,
    {
        if row[i] == ' ' {
            row[i] = dc.bar;
        }
        i = i + 1;
    }
    row[mean] = 'A';
    row[median] = 'M';
    proof {
        let result = bar_apply_spec(old(row)@, *b, col_count as int, *dc);
        assert forall|j: int| 0 <= j < col_count implies row@[j] == result[j] by {
            assert(s2 == old(row)@.update(lo as int, dc.bar_start).update(hi as int, dc.bar_end));
            if j == median as int {
            } else if j == mean as int {
            } else if j == hi as int {
                assert(s2[j] == dc.bar_end);
            } else if j == lo as int {
                assert(s2[j] == dc.bar_start);
            } else {
                assert(s2[j] == old(row)@[j]);
            }
        }
        assert(row@ =~= result);
    }
}

/// The least power of two strictly above `n`: with dataset codes `1..=n`,
/// every bitwise-OR combination of codes stays below it.
pub open spec fn code_limit(n: nat) -> nat
    decreases n,
{
    if n == 0 {
        1
    } else {
        2 * code_limit(n / 2)
    }
}

/// How many symbols a plot of `n` datasets needs: merged cells carry OR-combined
/// codes, so overlap mode needs the full combination range, while stacked mode
/// only ever stores plain codes.
pub open spec fn plot_code_limit(n: nat, stack: bool) -> nat {
    if stack {
        n + 1
    } else {
        code_limit(n)
    }
}

/// Every code from `1` to `n` lies below `code_limit(n)`.
proof fn lemma_code_limit_above(n: nat)
    ensures
        n < code_limit(n),
    decreases n,
{
    if n > 0 {
        lemma_code_limit_above(n / 2);
    }
}

/// `code_limit` always yields a power of two.
proof fn lemma_code_limit_pow2(n: nat)
    ensures
        exists|k: nat| code_limit(n) == pow2(k),
    decreases n,
{
    if n == 0 {
        assert(pow2(0) == 1) by {
            lemma2_to64();
        }
        assert(code_limit(0) == pow2(0));
    } else {
        lemma_code_limit_pow2(n / 2);
        let k = choose|k: nat| code_limit(n / 2) == pow2(k);
        assert(pow2(k + 1) == 2 * pow2(k)) by {
            lemma_pow2_unfold(k + 1);
        }
        assert(code_limit(n) == pow2(k + 1));
    }
}

/// The bitwise OR of two values below a power of two stays below it.
proof fn lemma_or_below_pow2(a: u64, b: u64, k: nat)
    requires
        k < 64,
        a < pow2(k),
        b < pow2(k),
    ensures
        (a | b) < pow2(k),
{
    let kk = k as u64;
    assert(1u64 * pow2(k) <= u64::MAX) by {
        lemma_u64_pow2_no_overflow(k);
    }
    lemma_u64_shl_is_mul(1u64, kk);
    assert((a | b) < (1u64 << kk)) by (bit_vector)
        requires
            a < (1u64 << kk),
            b < (1u64 << kk),
            kk < 64,
    ;
}

/// An empty grid: `col_count` columns with nothing binned yet.
pub open spec fn empty_grid(col_count: nat) -> Seq<Seq<u64>> {
    Seq::new(col_count, |i: int| Seq::<u64>::empty())
}

/// The code a dataset is drawn with: its one-based position.
pub open spec fn dataset_code(i: int) -> u64 {
    (i + 1) as u64
}

/// The grid after stacking the first `k` points of one dataset: every point
/// appends the dataset's code to its clamped column.
pub open spec fn bin_stacked(cols: Seq<Seq<u64>>, pts: Seq<usize>, code: u64, k: int) -> Seq<
    Seq<u64>,
>
    decreases k,
{
    if k <= 0 {
        cols
    } else {
        let prev = bin_stacked(cols, pts, code, k - 1);
        let c = clamp_col_spec(pts[k - 1] as int, cols.len() as int);
        prev.update(c, prev[c].push(code))
    }
}

/// The grid, current run height and last column after merging the first `k`
/// points of one dataset: consecutive points in one column grow a run one
/// row at a time, and a cell another dataset already holds is OR-combined
/// rather than overwritten.
pub open spec fn bin_overlapped(cols: Seq<Seq<u64>>, pts: Seq<usize>, code: u64, k: int) -> (
    Seq<Seq<u64>>,
    nat,
    Option<int>,
)
    decreases k,
{
    if k <= 0 {
        (cols, 0nat, None)
    } else {
        let (g, height, last) = bin_overlapped(cols, pts, code, k - 1);
        let c = clamp_col_spec(pts[k - 1] as int, cols.len() as int);
        let h: nat = if last == Some(c) {
            height + 1
        } else {
            1nat
        };
        let col = g[c];
        if col.len() < h {
            (g.update(c, col.push(code)), h, Some(c))
        } else {
            (g.update(c, col.update(h - 1, col[h - 1] | code)), h, Some(c))
        }
    }
}

/// The grid after binning the first `k` points of one dataset in the chosen
/// mode.
pub open spec fn bin_one(cols: Seq<Seq<u64>>, pts: Seq<usize>, code: u64, stack: bool) -> Seq<
    Seq<u64>,
> {
    if stack {
        bin_stacked(cols, pts, code, pts.len() as int)
    } else {
        bin_overlapped(cols, pts, code, pts.len() as int).0
    }
}

/// The grid after binning the first `k` datasets, each under its own code,
/// in input order.
pub open spec fn bin_datasets(
    cols: Seq<Seq<u64>>,
    datasets: Seq<Seq<usize>>,
    k: int,
    stack: bool,
) -> Seq<Seq<u64>>
    decreases k,
{
    if k <= 0 {
        cols
    } else {
        bin_one(bin_datasets(cols, datasets, k - 1, stack), datasets[k - 1], dataset_code(k - 1), stack)
    }
}

/// Stacking never changes the number of columns.
proof fn lemma_bin_stacked_len(cols: Seq<Seq<u64>>, pts: Seq<usize>, code: u64, k: int)
    requires
        cols.len() >= 1,
    ensures
        bin_stacked(cols, pts, code, k).len() == cols.len(),
    decreases k,
{
    if k > 0 {
        lemma_bin_stacked_len(cols, pts, code, k - 1);
        let c = clamp_col_spec(pts[k - 1] as int, cols.len() as int);
        assert(0 <= c < cols.len());
    }
}

/// Merging never changes the number of columns, and the run height never
/// exceeds the number of points seen.
proof fn lemma_bin_overlapped_len(cols: Seq<Seq<u64>>, pts: Seq<usize>, code: u64, k: int)
    requires
        cols.len() >= 1,
    ensures
        bin_overlapped(cols, pts, code, k).0.len() == cols.len(),
        bin_overlapped(cols, pts, code, k).1 <= if k <= 0 {
            0
        } else {
            k
        },
    decreases k,
{
    if k > 0 {
        lemma_bin_overlapped_len(cols, pts, code, k - 1);
        let c = clamp_col_spec(pts[k - 1] as int, cols.len() as int);
        assert(0 <= c < cols.len());
    }
}

/// Binning any number of datasets never changes the number of columns.
proof fn lemma_bin_datasets_len(
    cols: Seq<Seq<u64>>,
    datasets: Seq<Seq<usize>>,
    k: int,
    stack: bool,
)
    requires
        cols.len() >= 1,
    ensures
        bin_datasets(cols, datasets, k, stack).len() == cols.len(),
    decreases k,
{
    if k > 0 {
        lemma_bin_datasets_len(cols, datasets, k - 1, stack);
        let prev = bin_datasets(cols, datasets, k - 1, stack);
        if stack {
            lemma_bin_stacked_len(prev, datasets[k - 1], dataset_code(k - 1), datasets[k - 1].len() as int);
        } else {
            lemma_bin_overlapped_len(prev, datasets[k - 1], dataset_code(k - 1), datasets[k - 1].len() as int);
        }
    }
}

/// Every cell of every column lies below `bound`.
spec fn cells_lt(cols: Seq<Seq<u64>>, bound: nat) -> bool {
    forall|i: int, j: int|
        0 <= i < cols.len() && 0 <= j < cols[i].len() ==> (#[trigger] cols[i][j]) < bound
}

/// Stacking a code below the bound keeps every cell below the bound.
proof fn lemma_bin_stacked_cells(
    cols: Seq<Seq<u64>>,
    pts: Seq<usize>,
    code: u64,
    k: int,
    bound: nat,
)
    requires
        cols.len() >= 1,
        cells_lt(cols, bound),
        code < bound,
    ensures
        cells_lt(bin_stacked(cols, pts, code, k), bound),
    decreases k,
{
    if k > 0 {
        lemma_bin_stacked_cells(cols, pts, code, k - 1, bound);
        lemma_bin_stacked_len(cols, pts, code, k - 1);
        let prev = bin_stacked(cols, pts, code, k - 1);
        let c = clamp_col_spec(pts[k - 1] as int, cols.len() as int);
        let next = prev.update(c, prev[c].push(code));
        assert forall|i: int, j: int|
            0 <= i < next.len() && 0 <= j < next[i].len() implies (#[trigger] next[i][j])
            < bound by {
            if i == c {
                if j < prev[c].len() {
                    assert(next[i][j] == prev[c][j]);
                } else {
                    assert(next[i][j] == code);
                }
            } else {
                assert(next[i][j] == prev[i][j]);
            }
        }
    }
}

/// Merging a code below a power-of-two bound keeps every cell below it:
/// an OR of two such cells cannot set a higher bit.
proof fn lemma_bin_overlapped_cells(
    cols: Seq<Seq<u64>>,
    pts: Seq<usize>,
    code: u64,
    k: int,
    bound: nat,
    e: nat,
)
    requires
        cols.len() >= 1,
        cells_lt(cols, bound),
        code < bound,
        bound == pow2(e),
        e < 64,
    ensures
        cells_lt(bin_overlapped(cols, pts, code, k).0, bound),
    decreases k,
{
    if k > 0 {
        lemma_bin_overlapped_cells(cols, pts, code, k - 1, bound, e);
        lemma_bin_overlapped_len(cols, pts, code, k - 1);
        let (g, height, last) = bin_overlapped(cols, pts, code, k - 1);
        let c = clamp_col_spec(pts[k - 1] as int, cols.len() as int);
        let h: nat = if last == Some(c) {
            height + 1
        } else {
            1nat
        };
        let next = bin_overlapped(cols, pts, code, k).0;
        if g[c].len() < h {
            assert(next == g.update(c, g[c].push(code)));
            assert forall|i: int, j: int|
                0 <= i < next.len() && 0 <= j < next[i].len() implies (#[trigger] next[i][j])
                < bound by {
                if i == c {
                    if j < g[c].len() {
                        assert(next[i][j] == g[c][j]);
                    } else {
                        assert(next[i][j] == code);
                    }
                } else {
                    assert(next[i][j] == g[i][j]);
                }
            }
        } else {
            lemma_or_below_pow2(g[c][h - 1], code, e);
            assert(next == g.update(c, g[c].update(h - 1, g[c][h - 1] | code)));
            assert forall|i: int, j: int|
                0 <= i < next.len() && 0 <= j < next[i].len() implies (#[trigger] next[i][j])
                < bound by {
                if i == c {
                    if j == h - 1 {
                        assert(next[i][j] == (g[c][h - 1] | code));
                    } else {
                        assert(next[i][j] == g[c][j]);
                    }
                } else {
                    assert(next[i][j] == g[i][j]);
                }
            }
        }
    }
}

/// Binning datasets whose codes lie below the bound keeps every cell below
/// it; in overlap mode the bound must be a power of two.
proof fn lemma_bin_datasets_cells(
    cols: Seq<Seq<u64>>,
    datasets: Seq<Seq<usize>>,
    k: int,
    stack: bool,
    bound: nat,
    e: nat,
)
    requires
        cols.len() >= 1,
        cells_lt(cols, bound),
        k <= datasets.len(),
        forall|i: int| 0 <= i < k ==> dataset_code(i) < bound,
        !stack ==> bound == pow2(e) && e < 64,
    ensures
        cells_lt(bin_datasets(cols, datasets, k, stack), bound),
    decreases k,
{
    if k > 0 {
        lemma_bin_datasets_cells(cols, datasets, k - 1, stack, bound, e);
        lemma_bin_datasets_len(cols, datasets, k - 1, stack);
        let prev = bin_datasets(cols, datasets, k - 1, stack);
        if stack {
            lemma_bin_stacked_cells(prev, datasets[k - 1], dataset_code(k - 1), datasets[k - 1].len() as int, bound);
        } else {
            lemma_bin_overlapped_cells(prev, datasets[k - 1], dataset_code(k - 1), datasets[k - 1].len() as int, bound, e);
        }
    }
}

/// The spec-level value of the running "last column seen" state.
spec fn last_view(last: Option<usize>) -> Option<int> {
    match last {
        None => None,
        Some(v) => Some(v as int),
    }
}

/// Bin one dataset's clamped points into the grid under its code.
fn bin_dataset(columns: &mut Vec<Vec<u64>>, pts: &Vec<usize>, code: u64, stack: bool)
    requires
        old(columns)@.len() >= 1,
    ensures
        final(columns).deep_view() == bin_one(old(columns).deep_view(), pts@, code, stack),
        final(columns)@.len() == old(columns)@.len(),
{
    let ghost g0 = old(columns).deep_view();
    let col_count = columns.len();
    let n = pts.len();
    if stack {
        let mut i: usize = 0;
        while i < n
            invariant
                i <= n,
                n == pts@.len(),
                col_count == g0.len(),
                col_count >= 1,
                columns@.len() == col_count,
                columns.deep_view() == bin_stacked(g0, pts@, code, i as int),
            decreases n - i,
        {
            proof {
                lemma_bin_stacked_len(g0, pts@, code, i as int);
            }
            let ghost prev = columns.deep_view();
            let x = clamp_col(pts[i], col_count);
            columns[x].push(code);
            proof {
                assert(columns.deep_view() =~~= prev.update(
                    x as int,
                    prev[x as int].push(code),
                ));
                assert(columns.deep_view() =~~= bin_stacked(g0, pts@, code, i + 1));
            }
            i = i + 1;
        }
        proof {
            assert(bin_stacked(g0, pts@, code, n as int) == bin_one(g0, pts@, code, stack));
        }
    } else {
        let mut i: usize = 0;
        let mut height: usize = 0;
        let mut last: Option<usize> = None;
        while i < n
            invariant
                i <= n,
                n == pts@.len(),
                col_count == g0.len(),
                col_count >= 1,
                columns@.len() == col_count,
                columns.deep_view() == bin_overlapped(g0, pts@, code, i as int).0,
                height as nat == bin_overlapped(g0, pts@, code, i as int).1,
                last_view(last) == bin_overlapped(g0, pts@, code, i as int).2,
                height <= i,
            decreases n - i,
        {
            proof {
                lemma_bin_overlapped_len(g0, pts@, code, i as int);
            }
            let ghost prev = columns.deep_view();
            let x = clamp_col(pts[i], col_count);
            let h: usize = match last {
                Some(l) if l == x => height + 1,
                _ => 1,
            };
            if columns[x].len() < h {
                columns[x].push(code);
                proof {
                    assert(columns.deep_view() =~~= prev.update(
                        x as int,
                        prev[x as int].push(code),
                    ));
                }
            } else {
                let cur = columns[x][h - 1];
                columns[x][h - 1] = cur | code;
                proof {
                    assert(columns.deep_view() =~~= prev.update(
                        x as int,
                        prev[x as int].update(h - 1, prev[x as int][h - 1] | code),
                    ));
                }
            }
            proof {
                assert(columns.deep_view() =~~= bin_overlapped(g0, pts@, code, i + 1).0);
                assert(h as nat == bin_overlapped(g0, pts@, code, i + 1).1);
                assert(last_view(Some(x)) == bin_overlapped(g0, pts@, code, i + 1).2);
            }
            height = h;
            last = Some(x);
            i = i + 1;
        }
        proof {
            assert(bin_overlapped(g0, pts@, code, n as int).0 == bin_one(g0, pts@, code, stack));
        }
    }
}

/// The tallest stack among the first `k` columns.
pub open spec fn max_height(cols: Seq<Seq<u64>>, k: int) -> int
    decreases k,
{
    if k <= 0 {
        0
    } else {
        let m = max_height(cols, k - 1);
        if cols[k - 1].len() > m {
            cols[k - 1].len() as int
        } else {
            m
        }
    }
}

/// One data row of the grid between its vertical borders: the symbol of the
/// cell's code where the column reaches this row, a blank where it does not.
pub open spec fn data_row_spec(cols: Seq<Seq<u64>>, row: int, symbols: Seq<char>, vert: char) -> Seq<
    char,
> {
    seq![vert] + Seq::new(
        cols.len(),
        |j: int|
            if row < cols[j].len() {
                symbols[cols[j][row] as int]
            } else {
                ' '
            },
    ) + seq![vert]
}

/// A bar row before any dataset has drawn on it.
pub open spec fn blank_row(col_count: nat) -> Seq<char> {
    Seq::new(col_count, |i: int| ' ')
}

/// A shared bar row after the first `k` datasets have drawn on it in order.
pub open spec fn bars_fold(
    row: Seq<char>,
    bars: Seq<BarPositions>,
    k: int,
    col_count: int,
    dc: DrawingChars,
) -> Seq<char>
    decreases k,
{
    if k <= 0 {
        row
    } else {
        bar_apply_spec(bars_fold(row, bars, k - 1, col_count, dc), bars[k - 1], col_count, dc)
    }
}

/// A row's characters between the vertical borders.
pub open spec fn wrap_row_spec(mid: Seq<char>, vert: char) -> Seq<char> {
    seq![vert] + mid + seq![vert]
}

/// The full rendered plot: a top border; the grid's data rows, tallest stack
/// first; one bar row per dataset or one shared bar row; a bottom border.
pub open spec fn rendered_plot(
    col_count: nat,
    datasets: Seq<Seq<usize>>,
    bars: Seq<BarPositions>,
    symbols: Seq<char>,
    stack: bool,
    separate_lines: bool,
    modern: bool,
) -> Seq<Seq<char>> {
    let cc = col_count as int;
    let dc = drawing_chars_spec(modern);
    let cols = bin_datasets(empty_grid(col_count), datasets, datasets.len() as int, stack);
    let mh = max_height(cols, cc);
    let top = seq![border_row_spec(cc, dc.ul, dc.horiz, dc.ur)];
    let data = Seq::new(mh as nat, |r: int| data_row_spec(cols, mh - 1 - r, symbols, dc.vert));
    let bar_rows = if separate_lines {
        Seq::new(
            bars.len(),
            |i: int| wrap_row_spec(bar_apply_spec(blank_row(col_count), bars[i], cc, dc), dc.vert),
        )
    } else {
        seq![wrap_row_spec(bars_fold(blank_row(col_count), bars, bars.len() as int, cc, dc), dc.vert)]
    };
    let bottom = seq![border_row_spec(cc, dc.ll, dc.horiz, dc.lr)];
    top + data + bar_rows + bottom
}

/// On a fresh bar row, the median marker lands in exactly one cell, the
/// clamped median column, and the mean marker in exactly one cell, the
/// clamped mean column, unless the median lands there too: the median is
/// written last and covers it. This needs bar glyphs that are not themselves
/// the marker letters, which holds of both built-in glyph sets.
pub proof fn lemma_bar_row_markers(b: BarPositions, col_count: int, dc: DrawingChars)
    requires
        col_count >= 1,
        dc.bar_start != 'M' && dc.bar_end != 'M' && dc.bar != 'M',
        dc.bar_start != 'A' && dc.bar_end != 'A' && dc.bar != 'A',
    ensures
        ({
            let out = bar_apply_spec(blank_row(col_count as nat), b, col_count, dc);
            let mean = clamp_col_spec(b.mean as int, col_count);
            let median = clamp_col_spec(b.median as int, col_count);
            &&& out.len() == col_count
            &&& forall|i: int| 0 <= i < out.len() ==> ((#[trigger] out[i]) == 'M' <==> i == median)
            &&& forall|i: int|
                0 <= i < out.len() ==> ((#[trigger] out[i]) == 'A' <==> i == mean && mean != median)
        }),
{
    let out = bar_apply_spec(blank_row(col_count as nat), b, col_count, dc);
    let mean = clamp_col_spec(b.mean as int, col_count);
    let median = clamp_col_spec(b.median as int, col_count);
    assert forall|i: int| 0 <= i < out.len() implies ((#[trigger] out[i]) == 'M' <==> i == median)
        && (out[i] == 'A' <==> i == mean && mean != median) by {
        assert(blank_row(col_count as nat)[i] == ' ');
    }
}

/// Rendering is a pure function of its inputs: two renders of identical
/// inputs are identical, character for character.
pub proof fn lemma_render_deterministic(
    r1: Seq<Seq<char>>,
    r2: Seq<Seq<char>>,
    col_count: nat,
    datasets: Seq<Seq<usize>>,
    bars: Seq<BarPositions>,
    symbols: Seq<char>,
    stack: bool,
    separate_lines: bool,
    modern: bool,
)
    requires
        r1 == rendered_plot(col_count, datasets, bars, symbols, stack, separate_lines, modern),
        r2 == rendered_plot(col_count, datasets, bars, symbols, stack, separate_lines, modern),
    ensures
        r1 == r2,
{
}

/// Wrap a bar row's characters in the vertical borders.
fn wrap_bar(bar: &Vec<char>, vert: char) -> (r: String)
    ensures
        r@ == wrap_row_spec(bar@, vert),
{
    let mut v: Vec<char> = Vec::new();
    v.push(vert);
    let n = bar.len();
    let mut i: usize = 0;
    while i < n
        invariant
            i <= n,
            n == bar@.len(),
            v@ =~= seq![vert] + bar@.subrange(0, i as int),
        decreases n - i,
    {
        v.push(bar[i]);
        assert(v@ =~= seq![vert] + bar@.subrange(0, i + 1));
        i = i + 1;
    }
    assert(bar@.subrange(0, n as int) =~= bar@);
    v.push(vert);
    assert(v@ =~= wrap_row_spec(bar@, vert));
    chars_to_string(&v)
}

/// The symbol count a plot of `n` datasets needs, when it fits the machine.
fn code_limit_exec(n: usize) -> (r: Option<usize>)
    ensures
        match r {
            Some(v) => v as nat == code_limit(n as nat),
            None => code_limit(n as nat) > usize::MAX,
        },
    decreases n,
{
    if n == 0 {
        Some(1)
    } else {
        match code_limit_exec(n / 2) {
            Some(h) => {
                if h <= usize::MAX / 2 {
                    Some(2 * h)
                } else {
                    None
                }
            },
            None => None,
        }
    }
}

/// How many symbols `render_plot` asks for with `n` datasets in the given
/// mode; `None` when that count exceeds the machine's range.
pub fn required_symbols(n: usize, stack: bool) -> (r: Option<usize>)
    ensures
        match r {
            Some(v) => v as nat == plot_code_limit(n as nat, stack),
            None => plot_code_limit(n as nat, stack) > usize::MAX,
        },
{
    if stack {
        if n == usize::MAX {
            None
        } else {
            Some(n + 1)
        }
    } else {
        code_limit_exec(n)
    }
}

/// Render the plot of all datasets: each dataset's points and indicator
/// positions already discretized to raw column indices, which are clamped
/// here. Fails only when there is no dataset to plot.
pub fn render_plot(
    width: u16,
    datasets: &Vec<Vec<usize>>,
    bars: &Vec<BarPositions>,
    symbols: &Vec<char>,
    stack: bool,
    separate_lines: bool,
    modern_chars: bool,
) -> (r: Result<Vec<String>, MinistatFailure>)
    requires
        width >= 3,
        bars@.len() == datasets@.len(),
        symbols@.len() >= plot_code_limit(datasets@.len() as nat, stack),
    ensures
        match r {
            Ok(rows) => datasets@.len() > 0 && rows.deep_view() == rendered_plot(
                (width - 2) as nat,
                datasets.deep_view(),
                bars@,
                symbols@,
                stack,
                separate_lines,
                modern_chars,
            ),
            Err(e) => datasets@.len() == 0 && e == MinistatFailure::NoPlotPossible,
        },
{
    if datasets.len() == 0 {
        return Err(MinistatFailure::NoPlotPossible);
    }
    let col_count = (width - 2) as usize;
    let dc = drawing_chars(modern_chars);
    let n = datasets.len();
    let ghost dsv = datasets.deep_view();
    let ghost g0 = empty_grid(col_count as nat);
    let ghost bound = plot_code_limit(dsv.len() as nat, stack);
    let ghost rendered = rendered_plot(
        (width - 2) as nat,
        dsv,
        bars@,
        symbols@,
        stack,
        separate_lines,
        modern_chars,
    );

    let mut columns: Vec<Vec<u64>> = Vec::new();
    let mut ci: usize = 0;
    while ci < col_count
        invariant
            ci <= col_count,
            columns@.len() == ci,
            forall|i: int| 0 <= i < ci ==> (#[trigger] columns.deep_view()[i]).len() == 0,
        decreases col_count - ci,
    {
        let ghost prev = columns.deep_view();
        columns.push(Vec::new());
        proof {
            assert forall|i: int|
                0 <= i < ci + 1 implies (#[trigger] columns.deep_view()[i]).len() == 0 by {
                assert(columns.deep_view()[i] == columns@[i]@);
                if i < ci {
                    assert(prev[i] == columns@[i]@);
                }
            }
        }
        ci = ci + 1;
    }
    proof {
        assert(columns.deep_view() =~~= g0);
    }

    let mut di: usize = 0;
    while di < n
        invariant
            di <= n,
            n == dsv.len(),
            n == datasets@.len(),
            dsv == datasets.deep_view(),
            col_count >= 1,
            g0 == empty_grid(col_count as nat),
            g0.len() == col_count,
            columns@.len() == col_count,
            columns.deep_view() == bin_datasets(g0, dsv, di as int, stack),
        decreases n - di,
    {
        let code: u64 = (di as u64) + 1;
        let pts = &datasets[di];
        proof {
            assert(pts@ == dsv[di as int]);
            assert(code == dataset_code(di as int));
        }
        bin_dataset(&mut columns, pts, code, stack);
        proof {
            assert(columns.deep_view() == bin_datasets(g0, dsv, di + 1, stack));
        }
        di = di + 1;
    }
    let ghost cols = bin_datasets(g0, dsv, dsv.len() as int, stack);
    let sym_len = symbols.len();
    proof {
        assert(symbols@.len() == sym_len);
        assert(columns.deep_view() == cols);
        if stack {
            assert forall|i: int| 0 <= i < dsv.len() implies dataset_code(i) < bound by {}
            lemma_bin_datasets_cells(g0, dsv, dsv.len() as int, stack, bound, 0);
        } else {
            lemma_code_limit_pow2(dsv.len() as nat);
            let e = choose|e: nat| code_limit(dsv.len() as nat) == pow2(e);
            assert(bound == pow2(e));
            assert(bound <= symbols@.len());
            assert(symbols@.len() <= usize::MAX);
            assert(e < 64) by {
                if e >= 64 {
                    lemma2_to64();
                    lemma2_to64_rest();
                    if e > 64 {
                        lemma_pow2_strictly_increases(64, e);
                    }
                    assert(pow2(e) >= pow2(64));
                }
            }
            lemma_code_limit_above(dsv.len() as nat);
            assert forall|i: int| 0 <= i < dsv.len() implies dataset_code(i) < bound by {}
            lemma_bin_datasets_cells(g0, dsv, dsv.len() as int, stack, bound, e);
        }
        assert(cells_lt(cols, bound));
    }

    let mut mh: usize = 0;
    let mut hj: usize = 0;
    while hj < col_count
        invariant
            hj <= col_count,
            columns@.len() == col_count,
            columns.deep_view() == cols,
            cols.len() == col_count,
            mh as int == max_height(cols, hj as int),
        decreases col_count - hj,
    {
        proof {
            assert(columns.deep_view()[hj as int] == columns@[hj as int]@);
        }
        if columns[hj].len() > mh {
            mh = columns[hj].len();
        }
        hj = hj + 1;
    }

    let ghost cc = col_count as int;
    let ghost top_s = border_row_spec(cc, dc.ul, dc.horiz, dc.ur);
    let ghost data_s = Seq::new(
        mh as nat,
        |r: int| data_row_spec(cols, mh - 1 - r, symbols@, dc.vert),
    );
    let ghost bottom_s = border_row_spec(cc, dc.ll, dc.horiz, dc.lr);

    let mut rows: Vec<String> = Vec::new();
    rows.push(border_row(col_count, dc.ul, dc.horiz, dc.ur));
    proof {
        assert(rows.deep_view() =~~= seq![top_s]);
    }

    let mut k: usize = 0;
    while k < mh
        invariant
            k <= mh,
            col_count >= 1,
            cols.len() == col_count,
            columns@.len() == col_count,
            columns.deep_view() == cols,
            cells_lt(cols, bound),
            bound <= symbols@.len(),
            sym_len == symbols@.len(),
            data_s == Seq::new(
                mh as nat,
                |r: int| data_row_spec(cols, mh - 1 - r, symbols@, dc.vert),
            ),
            rows@.len() == 1 + k,
            rows.deep_view() =~~= seq![top_s] + data_s.subrange(0, k as int),
        decreases mh - k,
    {
        let r = mh - 1 - k;
        let mut rowv: Vec<char> = Vec::new();
        rowv.push(dc.vert);
        let mut j: usize = 0;
        while j < col_count
            invariant
                j <= col_count,
                columns@.len() == col_count,
                columns.deep_view() == cols,
                cols.len() == col_count,
                cells_lt(cols, bound),
                bound <= symbols@.len(),
                sym_len == symbols@.len(),
                rowv@ =~= seq![dc.vert] + Seq::new(
                    j as nat,
                    |jj: int|
                        if r < cols[jj].len() {
                            symbols@[cols[jj][r as int] as int]
                        } else {
                            ' '
                        },
                ),
            decreases col_count - j,
        {
            proof {
                assert(columns.deep_view()[j as int] == columns@[j as int]@);
            }
            let col = &columns[j];
            if col.len() > r {
                let cell = col[r];
                proof {
                    assert(cols[j as int][r as int] == cell);
                    assert(cell < bound);
                    assert(cell < sym_len);
                }
                let ch = symbols[cell as usize];
                proof {
                    assert(ch == symbols@[cols[j as int][r as int] as int]);
                }
                rowv.push(ch);
            } else {
                rowv.push(' ');
            }
            proof {
                assert(rowv@ =~= seq![dc.vert] + Seq::new(
                    (j + 1) as nat,
                    |jj: int|
                        if r < cols[jj].len() {
                            symbols@[cols[jj][r as int] as int]
                        } else {
                            ' '
                        },
                ));
            }
            j = j + 1;
        }
        rowv.push(dc.vert);
        proof {
            assert(rowv@ =~= data_row_spec(cols, r as int, symbols@, dc.vert));
            assert(data_s[k as int] == data_row_spec(cols, r as int, symbols@, dc.vert));
        }
        let ghost prev_dv = rows.deep_view();
        let row_text = chars_to_string(&rowv);
        rows.push(row_text);
        proof {
            assert(rows.deep_view() =~~= prev_dv.push(rowv@));
            assert(data_s.subrange(0, k + 1) =~= data_s.subrange(0, k as int).push(
                data_s[k as int],
            ));
            assert(rows.deep_view() =~~= seq![top_s] + data_s.subrange(0, k + 1));
        }
        k = k + 1;
    }
    proof {
        assert(data_s.subrange(0, mh as int) =~= data_s);
        assert(rows.deep_view() =~~= seq![top_s] + data_s);
    }

    let nb = bars.len();
    if separate_lines {
        let ghost bars_s = Seq::new(
            bars@.len(),
            |i: int|
                wrap_row_spec(bar_apply_spec(blank_row(col_count as nat), bars@[i], cc, dc), dc.vert),
        );
        let mut bi: usize = 0;
        while bi < nb
            invariant
                bi <= nb,
                nb == bars@.len(),
                col_count >= 1,
                cc == col_count as int,
                bars_s == Seq::new(
                    bars@.len(),
                    |i: int|
                        wrap_row_spec(
                            bar_apply_spec(blank_row(col_count as nat), bars@[i], cc, dc),
                            dc.vert,
                        ),
                ),
                rows@.len() == 1 + mh + bi,
                rows.deep_view() =~~= seq![top_s] + data_s + bars_s.subrange(0, bi as int),
                data_s.len() == mh,
            decreases nb - bi,
        {
            let mut bar: Vec<char> = vec![' '; col_count];
            proof {
                assert(bar@ =~= blank_row(col_count as nat));
            }
            apply_bar(&mut bar, &bars[bi], col_count, &dc);
            let wrapped = wrap_bar(&bar, dc.vert);
            let ghost prev_dv = rows.deep_view();
            rows.push(wrapped);
            proof {
                assert(rows.deep_view() =~~= prev_dv.push(wrapped@));
                assert(wrapped@ == bars_s[bi as int]);
                assert(bars_s.subrange(0, bi + 1) =~= bars_s.subrange(0, bi as int).push(
                    bars_s[bi as int],
                ));
                assert(rows.deep_view() =~~= seq![top_s] + data_s + bars_s.subrange(0, bi + 1));
            }
            bi = bi + 1;
        }
        proof {
            assert(bars_s.subrange(0, nb as int) =~= bars_s);
            assert(rows.deep_view() =~~= seq![top_s] + data_s + bars_s);
        }
    } else {
        let ghost blank = blank_row(col_count as nat);
        let mut bar: Vec<char> = vec![' '; col_count];
        proof {
            assert(bar@ =~= blank);
        }
        let mut bi: usize = 0;
        while bi < nb
            invariant
                bi <= nb,
                nb == bars@.len(),
                col_count >= 1,
                cc == col_count as int,
                blank == blank_row(col_count as nat),
                bar@.len() == col_count,
                bar@ == bars_fold(blank, bars@, bi as int, cc, dc),
            decreases nb - bi,
        {
            apply_bar(&mut bar, &bars[bi], col_count, &dc);
            bi = bi + 1;
        }
        let wrapped = wrap_bar(&bar, dc.vert);
        let ghost prev_dv = rows.deep_view();
        rows.push(wrapped);
        proof {
            assert(rows.deep_view() =~~= prev_dv.push(wrapped@));
            assert(rows.deep_view() =~~= seq![top_s] + data_s + seq![
                wrap_row_spec(bars_fold(blank, bars@, bars@.len() as int, cc, dc), dc.vert),
            ]);
        }
    }

    let bottom = border_row(col_count, dc.ll, dc.horiz, dc.lr);
    let ghost prev_dv = rows.deep_view();
    rows.push(bottom);
    proof {
        assert(rows.deep_view() =~~= prev_dv.push(bottom@));
        assert(rows.deep_view() =~~= rendered);
    }
    Ok(rows)
}

/// The plot's heading: one line per dataset pairing its symbol with its
/// label, for as many datasets as there are symbols to give out.
pub open spec fn heading_spec(labels: Seq<Seq<char>>, symbols: Seq<char>, k: int) -> Seq<char>
    decreases k,
{
    if k <= 0 {
        Seq::empty()
    } else {
        heading_spec(labels, symbols, k - 1) + seq![symbols[k], ' '] + labels[k - 1] + seq!['\n']
    }
}

/// How many heading lines a label list gets: every label that still has a
/// symbol after the reserved one.
pub open spec fn heading_count(labels: Seq<Seq<char>>, symbols: Seq<char>) -> int {
    if symbols.len() == 0 {
        0
    } else if labels.len() < symbols.len() - 1 {
        labels.len() as int
    } else {
        symbols.len() - 1
    }
}

/// Render the heading lines.
pub fn print_heading(labels: &Vec<String>, symbols: &Vec<char>) -> (r: String)
    ensures
        r@ == heading_spec(labels.deep_view(), symbols@, heading_count(labels.deep_view(), symbols@)),
{
    let ghost lv = labels.deep_view();
    let count: usize = if symbols.len() == 0 {
        0
    } else if labels.len() < symbols.len() - 1 {
        labels.len()
    } else {
        symbols.len() - 1
    };
    let mut v: Vec<char> = Vec::new();
    let mut i: usize = 0;
    while i < count
        invariant
            i <= count,
            lv == labels.deep_view(),
            count == heading_count(lv, symbols@),
            count <= lv.len(),
            count < symbols@.len() || count == 0,
            v@ =~= heading_spec(lv, symbols@, i as int),
        decreases count - i,
    {
        v.push(symbols[i + 1]);
        v.push(' ');
        let label = labels[i].as_str();
        let ln = label.unicode_len();
        let mut ci: usize = 0;
        while ci < ln
            invariant
                ci <= ln,
                ln == label@.len(),
                label@ == lv[i as int],
                v@ =~= heading_spec(lv, symbols@, i as int) + seq![symbols@[i + 1], ' ']
                    + label@.subrange(0, ci as int),
            decreases ln - ci,
        {
            v.push(label.get_char(ci));
            assert(v@ =~= heading_spec(lv, symbols@, i as int) + seq![symbols@[i + 1], ' ']
                + label@.subrange(0, ci + 1));
            ci = ci + 1;
        }
        assert(label@.subrange(0, ln as int) =~= label@);
        v.push('\n');
        assert(v@ =~= heading_spec(lv, symbols@, i + 1));
        i = i + 1;
    }
    chars_to_string(&v)
}

} // verus!
