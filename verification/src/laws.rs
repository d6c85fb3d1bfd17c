//! Laws of the slicer and the synthesizer, stated over the same spec
//! functions their contracts use.

use vstd::prelude::*;
use vstd::std_specs::cmp::PartialEqSpec;

use crate::layout::{cell_content_matches, grid_resolvable, spec_lookup, CellNode};
use crate::model::{resolve_len, Extent, Patch};
use crate::slicer::{
    cells_before, grid_fits, grid_y_off, margins_grid_shape, row_x_off, slice_matches,
    slices_match, tex_eq, textures_match, PatchTexture,
};

verus! {

/// The resolved geometry of a margin-derived grid with positive margins
/// on an image it leaves room in: nine cells that fit the image, whose
/// widths are `left`, `width - left - right`, `right` in every row and
/// whose heights are `top`, `height - top - bottom`, `bottom` in the
/// three rows. A zero margin is left out: its corner cells encode a
/// zero extent, which the dimension encoding resolves as "the rest of
/// the image", not as zero.
pub proof fn lemma_margins_grid_geometry<T>(
    grid: Seq<Seq<Patch<T>>>,
    top: u32,
    bottom: u32,
    left: u32,
    right: u32,
    size: Extent,
)
    requires
        margins_grid_shape(grid, top, bottom, left, right),
        top + bottom <= i32::MAX,
        left + right <= i32::MAX,
        0 < left,
        0 < right,
        0 < top,
        0 < bottom,
        left + right < size.width,
        top + bottom < size.height,
    ensures
        grid_fits(grid, size),
        cells_before(grid, 0) == 0,
        cells_before(grid, 1) == 3,
        cells_before(grid, 2) == 6,
        cells_before(grid, 3) == 9,
        forall|r: int, c: int|
            0 <= r < 3 && 0 <= c < 3 ==> resolve_len(
                (#[trigger] grid[r][c]).original_size.x,
                size.width,
            ) == (if c == 0 {
                left as int
            } else if c == 1 {
                size.width - left - right
            } else {
                right as int
            }),
        forall|r: int, c: int|
            0 <= r < 3 && 0 <= c < 3 ==> resolve_len(
                (#[trigger] grid[r][c]).original_size.y,
                size.height,
            ) == (if r == 0 {
                top as int
            } else if r == 1 {
                size.height - top - bottom
            } else {
                bottom as int
            }),
{
    let w = size.width;
    let h = size.height;
    assert forall|r: int, c: int|
        0 <= r < 3 && 0 <= c < 3 implies resolve_len((#[trigger] grid[r][c]).original_size.x, w)
        == (if c == 0 {
        left as int
    } else if c == 1 {
        w - left - right
    } else {
        right as int
    }) && resolve_len(grid[r][c].original_size.y, h) == (if r == 0 {
        top as int
    } else if r == 1 {
        h - top - bottom
    } else {
        bottom as int
    }) by {
        if r == 0 {
        } else if r == 1 {
        } else {
        }
        if c == 0 {
        } else if c == 1 {
        } else {
        }
    }
    assert forall|r: int| 0 <= r < 3 implies row_x_off(grid[r], 0, w) == 0 && row_x_off(
        grid[r],
        1,
        w,
    ) == left && row_x_off(grid[r], 2, w) == w - right by {
        assert(row_x_off(grid[r], 0, w) == 0);
        assert(row_x_off(grid[r], 1, w) == resolve_len(grid[r][0].original_size.x, w));
        assert(row_x_off(grid[r], 2, w) == row_x_off(grid[r], 1, w) + resolve_len(
            grid[r][1].original_size.x,
            w,
        ));
    }
    assert(grid_y_off(grid, 0, h) == 0);
    assert(grid_y_off(grid, 1, h) == resolve_len(grid[0][0].original_size.y, h));
    assert(grid_y_off(grid, 2, h) == grid_y_off(grid, 1, h) + resolve_len(
        grid[1][0].original_size.y,
        h,
    ));
    assert(cells_before(grid, 1) == cells_before(grid, 0) + grid[0].len());
    assert(cells_before(grid, 2) == cells_before(grid, 1) + grid[1].len());
    assert(cells_before(grid, 3) == cells_before(grid, 2) + grid[2].len());
}

/// For every margin quadruple of positive margins and every image the
/// margins leave room in (`width > left + right`, `height > top +
/// bottom`), slicing the margin-derived grid yields exactly nine
/// sub-images with these dimensions: the four corners are `left` or
/// `right` wide and `top` or `bottom` high; the top and bottom edges are
/// `width - left - right` wide; the left and right edges are `height -
/// top - bottom` high; the center is `width - left - right` by
/// `height - top - bottom`.
pub proof fn lemma_margins_nine_slices<T>(
    ts: Seq<PatchTexture>,
    grid: Seq<Seq<Patch<T>>>,
    data: Seq<u8>,
    top: u32,
    bottom: u32,
    left: u32,
    right: u32,
    size: Extent,
)
    requires
        margins_grid_shape(grid, top, bottom, left, right),
        slices_match(ts, grid, data, size),
        top + bottom <= i32::MAX,
        left + right <= i32::MAX,
        0 < left,
        0 < right,
        0 < top,
        0 < bottom,
        left + right < size.width,
        top + bottom < size.height,
    ensures
        ts.len() == 9,
        ts[0].width == left && ts[0].height == top,
        ts[1].width == size.width - left - right && ts[1].height == top,
        ts[2].width == right && ts[2].height == top,
        ts[3].width == left && ts[3].height == size.height - top - bottom,
        ts[4].width == size.width - left - right && ts[4].height == size.height - top - bottom,
        ts[5].width == right && ts[5].height == size.height - top - bottom,
        ts[6].width == left && ts[6].height == bottom,
        ts[7].width == size.width - left - right && ts[7].height == bottom,
        ts[8].width == right && ts[8].height == bottom,
{
    lemma_margins_grid_geometry(grid, top, bottom, left, right, size);
    assert(slice_matches(ts[cells_before(grid, 0) + 0], grid, data, size, 0, 0));
    assert(slice_matches(ts[cells_before(grid, 0) + 1], grid, data, size, 0, 1));
    assert(slice_matches(ts[cells_before(grid, 0) + 2], grid, data, size, 0, 2));
    assert(slice_matches(ts[cells_before(grid, 1) + 0], grid, data, size, 1, 0));
    assert(slice_matches(ts[cells_before(grid, 1) + 1], grid, data, size, 1, 1));
    assert(slice_matches(ts[cells_before(grid, 1) + 2], grid, data, size, 1, 2));
    assert(slice_matches(ts[cells_before(grid, 2) + 0], grid, data, size, 2, 0));
    assert(slice_matches(ts[cells_before(grid, 2) + 1], grid, data, size, 2, 1));
    assert(slice_matches(ts[cells_before(grid, 2) + 2], grid, data, size, 2, 2));
}

/// Slicing is deterministic: a sliced texture of one grid cell is a
/// function of the grid and the source pixel bytes alone, so two slices
/// of the same cell against the same bytes are byte-identical, whatever
/// else was sliced before, after, or in between.
pub proof fn lemma_slice_deterministic<T>(
    a: PatchTexture,
    b: PatchTexture,
    grid: Seq<Seq<Patch<T>>>,
    data: Seq<u8>,
    size: Extent,
    r: int,
    c: int,
)
    requires
        slice_matches(a, grid, data, size, r, c),
        slice_matches(b, grid, data, size, r, c),
    ensures
        tex_eq(a, b),
{
}

/// Every flattened index below the cell count of the first `r` rows
/// falls inside one of those rows.
proof fn lemma_index_to_cell<T>(grid: Seq<Seq<Patch<T>>>, r: int, i: int)
    requires
        0 <= r <= grid.len(),
        0 <= i < cells_before(grid, r),
    ensures
        exists|r2: int|
            0 <= r2 < r && #[trigger] cells_before(grid, r2) <= i < cells_before(grid, r2)
                + grid[r2].len(),
    decreases r,
{
    if r > 0 {
        if i >= cells_before(grid, r - 1) {
            assert(0 <= r - 1 < r && cells_before(grid, r - 1) <= i < cells_before(grid, r - 1)
                + grid[r - 1].len());
        } else {
            lemma_index_to_cell(grid, r - 1, i);
        }
    }
}

/// Slicing one grid against one byte buffer has exactly one outcome:
/// any two slice sequences of the same grid and the same pixel bytes
/// agree element by element, in dimensions and in bytes.
pub proof fn lemma_slices_deterministic<T>(
    ts1: Seq<PatchTexture>,
    ts2: Seq<PatchTexture>,
    grid: Seq<Seq<Patch<T>>>,
    data: Seq<u8>,
    size: Extent,
)
    requires
        slices_match(ts1, grid, data, size),
        slices_match(ts2, grid, data, size),
    ensures
        textures_match(ts1, ts2),
{
    assert forall|i: int| 0 <= i < ts1.len() implies tex_eq(#[trigger] ts1[i], ts2[i]) by {
        lemma_index_to_cell(grid, grid.len() as int, i);
        let r = choose|r2: int|
            0 <= r2 < grid.len() && #[trigger] cells_before(grid, r2) <= i < cells_before(grid, r2)
                + grid[r2].len();
        let c = i - cells_before(grid, r);
        assert(slice_matches(ts1[cells_before(grid, r) + c], grid, data, size, r, c));
        assert(slice_matches(ts2[cells_before(grid, r) + c], grid, data, size, r, c));
    }
}

/// A clone of a grid that fits an image still resolves against that
/// image's dimensions: cloning keeps every encoded extent, so a realized
/// nine-patch can be laid out against the size it was sliced at.
pub proof fn lemma_cloned_grid_resolvable<T: Clone>(
    a: Seq<Seq<Patch<T>>>,
    b: Seq<Seq<Patch<T>>>,
    size: Extent,
)
    requires
        crate::slicer::grids_cloned(a, b),
        grid_fits(a, size),
    ensures
        grid_resolvable(b, size),
{
    assert forall|r: int, c: int| 0 <= r < b.len() && 0 <= c < b[r].len() implies {
        let p = #[trigger] b[r][c];
        &&& 0 <= resolve_len(p.original_size.x, size.width)
        &&& 0 <= resolve_len(p.original_size.y, size.height)
    } by {
        assert(crate::model::patch_cloned(a[r][c], b[r][c]));
    }
}

/// Content re-attachment: a synthesized cell whose patch carries a tag
/// the existing-content map holds a subtree for re-parents exactly that
/// subtree, rather than leaving the slot empty for a duplicate.
pub proof fn lemma_content_reattached<T: Clone + PartialEqSpec>(
    cell: CellNode<T>,
    p: Patch<T>,
    parent: u64,
    m: Vec<(T, u64)>,
    tag: T,
    e: u64,
)
    requires
        T::obeys_eq_spec(),
        cell_content_matches(cell, p, parent, Some(m)),
        p.content == Some(tag),
        spec_lookup(m@, tag) == Some(e),
    ensures
        cell.existing_child == Some(e),
{
}

} // verus!
