//! The amplitude display: each block becomes rows of glyph indices, one row
//! per terminal-width chunk, and each row a line of glyphs ending in a
//! carriage return.
use vstd::prelude::*;

verus! {

/// The highest glyph index of the amplitude table.
pub const TOP_GLYPH: usize = 7;

/// The glyph index for an amplitude level, that is for the absolute value of
/// a sample scaled by seven and truncated: levels above the top are clamped.
pub open spec fn glyph_of(level: int) -> int {
    if level > TOP_GLYPH as int {
        TOP_GLYPH as int
    } else {
        level
    }
}

/// The row drawn for chunk `i` of `levels` cut in chunks of `width`.
pub open spec fn row_of(levels: Seq<usize>, width: nat, i: int) -> Seq<usize>
    recommends
        width > 0,
{
    let lo = i * width;
    let hi = if (i + 1) * width < levels.len() {
        (i + 1) * width
    } else {
        levels.len() as int
    };
    levels.subrange(lo, hi).map_values(|l: usize| glyph_of(l as int) as usize)
}

/// The number of chunks of at most `width` that `n` levels make.
pub open spec fn row_count(n: nat, width: nat) -> nat
    recommends
        width > 0,
{
    ((n + width - 1) / width as int) as nat
}

/// The character shown for glyph index `g`; an index outside the table shows
/// the first glyph.
pub open spec fn glyph_char(glyphs: Seq<char>, g: int) -> char {
    if 0 <= g < glyphs.len() {
        glyphs[g]
    } else {
        glyphs[0]
    }
}

/// The glyph index of one amplitude level.
pub fn glyph_index(level: usize) -> (r: usize)
    ensures
        r as int == glyph_of(level as int),
{
    if level > TOP_GLYPH {
        TOP_GLYPH
    } else {
        level
    }
}

/// Cuts `levels` into consecutive chunks of at most `width` (the last may be
/// shorter) and maps each level to its glyph index.
pub fn render_rows(levels: &[usize], width: usize) -> (rows: Vec<Vec<usize>>)
    requires
        width > 0,
    ensures
        rows@.len() == row_count(levels@.len(), width as nat),
        forall|i: int| 0 <= i < rows@.len() ==> #[trigger] rows@[i]@ == row_of(levels@, width as nat, i),
{
    let n = levels.len();
    let mut rows: Vec<Vec<usize>> = Vec::new();
    let mut start: usize = 0;
    proof {
        assert(0 * width == 0);
        if n > 0 {
            assert(row_count(n as nat, width as nat) > 0) by (nonlinear_arith)
                requires
                    n > 0,
                    width > 0,
                    row_count(n as nat, width as nat) == ((n + width - 1) / width as int) as nat,
            ;
        } else {
            assert(row_count(n as nat, width as nat) == 0) by (nonlinear_arith)
                requires
                    n == 0,
                    width > 0,
                    row_count(n as nat, width as nat) == ((n + width - 1) / width as int) as nat,
            ;
        }
    }
    while start < n
        invariant
            n == levels@.len(),
            width > 0,
            start <= n,
            start < n ==> start == rows@.len() * width,
            start == n ==> rows@.len() == row_count(n as nat, width as nat),
            start < n ==> rows@.len() < row_count(n as nat, width as nat),
            forall|i: int| 0 <= i < rows@.len() ==> #[trigger] rows@[i]@ == row_of(levels@, width as nat, i),
        decreases n - start,
    {
        let end: usize = if n - start > width { start + width } else { n };
        let mut row: Vec<usize> = Vec::new();
        let mut j: usize = start;
        while j < end
            invariant
                start <= j <= end,
                end <= n,
                n == levels@.len(),
                row@ == levels@.subrange(start as int, j as int).map_values(|l: usize| glyph_of(l as int) as usize),
            decreases end - j,
        {
            let g = glyph_index(levels[j]);
            row.push(g);
            j = j + 1;
            proof {
                assert(levels@.subrange(start as int, j as int).map_values(|l: usize| glyph_of(l as int) as usize)
                    =~= levels@.subrange(start as int, j - 1).map_values(|l: usize| glyph_of(l as int) as usize).push(g));
            }
        }
        let ghost k = rows@.len() as int;
        proof {
            assert(start == k * width);
            assert((k + 1) * width == k * width + width) by (nonlinear_arith);
            assert(row@ == row_of(levels@, width as nat, k));
            if end == n {
                assert(row_count(n as nat, width as nat) == k + 1) by (nonlinear_arith)
                    requires
                        start == k * width,
                        n - start <= width,
                        start < n,
                        width > 0,
                        row_count(n as nat, width as nat) == ((n + width - 1) / width as int) as nat,
                ;
            } else {
                assert(row_count(n as nat, width as nat) > k + 1) by (nonlinear_arith)
                    requires
                        start == k * width,
                        n - start > width,
                        width > 0,
                        row_count(n as nat, width as nat) == ((n + width - 1) / width as int) as nat,
                ;
            }
        }
        rows.push(row);
        start = end;
    }
    rows
}

/// The text of one row: its glyphs in order, then a carriage return, so that
/// the next line overdraws it.
pub fn row_line(row: &Vec<usize>, glyphs: &Vec<char>) -> (line: Vec<char>)
    requires
        glyphs@.len() > 0,
    ensures
        line@ == row@.map_values(|g: usize| glyph_char(glyphs@, g as int)).push('\r'),
{
    let mut line: Vec<char> = Vec::new();
    let mut i: usize = 0;
    while i < row.len()
        invariant
            i <= row@.len(),
            glyphs@.len() > 0,
            line@ == row@.subrange(0, i as int).map_values(|g: usize| glyph_char(glyphs@, g as int)),
        decreases row@.len() - i,
    {
        let g = row[i];
        let c = if g < glyphs.len() { glyphs[g] } else { glyphs[0] };
        line.push(c);
        i = i + 1;
        proof {
            assert(row@.subrange(0, i as int).map_values(|g: usize| glyph_char(glyphs@, g as int))
                =~= row@.subrange(0, i - 1).map_values(|g: usize| glyph_char(glyphs@, g as int)).push(c));
        }
    }
    proof {
        assert(row@.subrange(0, row@.len() as int) == row@);
    }
    line.push('\r');
    line
}

/// Every amplitude level maps into the glyph table, and a larger level never
/// maps to a lower glyph.
pub proof fn lemma_glyph_bounded_monotone(a: int, b: int)
    requires
        0 <= a <= b,
    ensures
        0 <= glyph_of(a) <= TOP_GLYPH,
        0 <= glyph_of(b) <= TOP_GLYPH,
        glyph_of(a) <= glyph_of(b),
{
}

} // verus!
