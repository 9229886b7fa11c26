use vstd::prelude::*;
use vstd::string::*;

verus! {

/// A pattern as its rows of characters: the view of each text line.
pub open spec fn pattern_rows(pattern: Seq<String>) -> Seq<Seq<char>> {
    pattern.map_values(|s: String| s@)
}

/// The pattern's bounding-box width: the length of its longest row.
pub open spec fn max_row_len(rows: Seq<Seq<char>>) -> nat
    decreases rows.len(),
{
    if rows.len() == 0 {
        0
    } else {
        let rest = max_row_len(rows.drop_last());
        if rows.last().len() > rest {
            rows.last().len()
        } else {
            rest
        }
    }
}

/// Every row is no longer than the bounding-box width.
pub proof fn lemma_row_len_le_max(rows: Seq<Seq<char>>, k: int)
    requires
        0 <= k < rows.len(),
    ensures
        rows[k].len() <= max_row_len(rows),
    decreases rows.len(),
{
    if k < rows.len() - 1 {
        lemma_row_len_le_max(rows.drop_last(), k);
    }
}

/// The centering offset along one axis: the pattern is placed so that its
/// bounding box sits at the grid's geometric center, by integer division.
pub open spec fn pattern_offset(grid_extent: int, pattern_extent: int) -> int {
    (grid_extent - pattern_extent) / 2
}

/// Whether the pattern, placed with its top-left corner at
/// `(off_x, off_y)`, marks the absolute grid coordinate `(x, y)` alive:
/// the relative position falls inside the pattern and carries the alive
/// marker `'X'`.
pub open spec fn pattern_marks(
    rows: Seq<Seq<char>>,
    off_x: int,
    off_y: int,
    x: int,
    y: int,
) -> bool {
    let px = x - off_x;
    let py = y - off_y;
    &&& 0 <= py < rows.len()
    &&& 0 <= px < rows[py].len()
    &&& rows[py][px] == 'X'
}

/// Like `pattern_marks`, restricted to the part of the pattern already
/// stamped: the first `done_rows` whole rows, and the first `done_cols`
/// characters of row `done_rows`.
pub open spec fn pattern_marks_before(
    rows: Seq<Seq<char>>,
    off_x: int,
    off_y: int,
    x: int,
    y: int,
    done_rows: int,
    done_cols: int,
) -> bool {
    let px = x - off_x;
    let py = y - off_y;
    &&& pattern_marks(rows, off_x, off_y, x, y)
    &&& (py < done_rows || (py == done_rows && px < done_cols))
}

/// The length of the longest line of the pattern, in characters.
pub fn longest_row_len(pattern: &Vec<String>) -> (len: usize)
    ensures
        len as nat == max_row_len(pattern_rows(pattern@)),
{
    let ghost rows = pattern_rows(pattern@);
    let mut len: usize = 0;
    let mut k: usize = 0;
    while k < pattern.len()
        invariant
            rows == pattern_rows(pattern@),
            k <= pattern@.len(),
            len as nat == max_row_len(rows.take(k as int)),
        decreases pattern@.len() - k,
    {
        let row_len = pattern[k].as_str().unicode_len();
        if row_len > len {
            len = row_len;
        }
        k = k + 1;
        proof {
            assert(rows.take(k as int).drop_last() =~= rows.take(k as int - 1));
            assert(rows.take(k as int).last() == rows[k as int - 1]);
        }
    }
    proof {
        assert(rows.take(rows.len() as int) =~= rows);
    }
    len
}

} // verus!
