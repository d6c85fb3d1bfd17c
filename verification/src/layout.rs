//! Layout-tree synthesis: from a realized nine-patch, derive one row
//! node per grid row and one image-bearing cell node per patch, with
//! sizing and grow weights resolved from each patch's target sizing
//! rule, and content-slot records for cells that can host content.

use vstd::prelude::*;
use vstd::std_specs::cmp::PartialEqSpec;

use crate::model::{resolve_len, to_height, to_width, Extent, Patch, Val};
use crate::slicer::{cells_before, grid_view, lemma_cells_before_mono, PatchTexture};

verus! {

/// Marker record placed on the cell node created for a content slot, for
/// the external collaborator that attaches the slot's subtree.
#[derive(Clone, Debug)]
pub struct NinePatchContent<T> {
    /// Name of the content patch.
    pub content: T,
    /// Has the slot's subtree already been attached.
    pub loaded: bool,
    /// Identifier of the node the whole nine-patch hangs from.
    pub parent: u64,
}

/// A nine-patch realized against one source image: the grid, the image
/// dimensions at slice time, and the sliced sub-images, row-major and
/// flattened. Ready to be turned into a layout tree.
#[derive(Debug)]
pub struct NinePatch<T> {
    /// The grid the slices were cut along.
    pub patches: Vec<Vec<Patch<T>>>,
    /// Dimensions of the source image at slice time.
    pub texture_size: Extent,
    /// The sliced sub-images, row-major and flattened.
    pub splitted_texture: Vec<PatchTexture>,
}

/// An image-bearing leaf of the synthesized layout tree: one grid cell.
///
/// Grow weights are in hundredths of the host's unit weight: 100 stands
/// for a weight of one, 0 for no growth.
#[derive(Debug)]
pub struct CellNode<T> {
    /// Resolved width rule of the cell.
    pub width: Val,
    /// Resolved height rule of the cell.
    pub height: Val,
    /// Grow and shrink weight of the cell, in hundredths.
    pub grow: u32,
    /// Index of the cell's sub-image in the realized nine-patch's
    /// flattened slice sequence.
    pub texture_index: usize,
    /// Content-slot record, present when the patch can host content.
    pub content: Option<NinePatchContent<T>>,
    /// A previously built subtree to re-parent under this cell, found in
    /// the existing-content map during a rebuild.
    pub existing_child: Option<u64>,
}

/// One row of the synthesized layout tree: a horizontal stack of cells,
/// full width, with its height and grow weight resolved from the row's
/// first patch.
#[derive(Debug)]
pub struct RowNode<T> {
    /// Width rule of the row node; always the full container width.
    pub width: Val,
    /// Resolved height rule of the row node.
    pub height: Val,
    /// Grow and shrink weight of the row, in hundredths.
    pub grow: u32,
    /// The row's cells, one per patch, in grid order.
    pub cells: Vec<CellNode<T>>,
}

/// Resolved length of a sizing rule: the `Px(0)` sentinel resolves to
/// the patch's original pixel length, a fixed length stays itself, and
/// growing rules resolve to `Auto`.
pub open spec fn rule_val(rule: Val, orig: u32) -> Val {
    match rule {
        Val::Px(l) => if l == 0 {
            Val::Px(orig)
        } else {
            Val::Px(l)
        },
        Val::Percent(_) => Val::Auto,
        Val::Auto => Val::Auto,
        Val::Undefined => Val::Auto,
    }
}

/// Resolved grow/shrink weight of a sizing rule, in hundredths: fixed
/// lengths do not grow, `Percent(p)` grows with weight `p` hundredths,
/// and automatic or unspecified rules grow with unit weight.
pub open spec fn rule_grow(rule: Val) -> u32 {
    match rule {
        Val::Px(_) => 0,
        Val::Percent(p) => p,
        Val::Auto => 100,
        Val::Undefined => 100,
    }
}

/// Resolved height of a cell node. Unlike [`rule_val`], the `Px(0)`
/// sentinel of the exact center cell (row 1, column 1) stays an explicit
/// fixed height of 0: the center's true height is meant to be entirely
/// determined by flex growth. This asymmetry is deliberate and matches
/// the canonical margin-derived grid.
pub open spec fn cell_height_val(rule: Val, orig: u32, center: bool) -> Val {
    match rule {
        Val::Px(l) => if l == 0 {
            if center {
                Val::Px(0)
            } else {
                Val::Px(orig)
            }
        } else {
            Val::Px(l)
        },
        Val::Percent(_) => Val::Auto,
        Val::Auto => Val::Auto,
        Val::Undefined => Val::Undefined,
    }
}

/// Every patch of the grid has non-negative resolved extents against the
/// given image size, so each cell's original pixel size is a `u32`.
pub open spec fn grid_resolvable<T>(grid: Seq<Seq<Patch<T>>>, size: Extent) -> bool {
    forall|r: int, c: int|
        0 <= r < grid.len() && 0 <= c < grid[r].len() ==> {
            let p = #[trigger] grid[r][c];
            &&& 0 <= resolve_len(p.original_size.x, size.width)
            &&& 0 <= resolve_len(p.original_size.y, size.height)
        }
}

/// First entry of the content map whose tag equals `tag`, by the content
/// type's own equality.
pub open spec fn spec_lookup<T: PartialEqSpec>(m: Seq<(T, u64)>, tag: T) -> Option<u64>
    decreases m.len(),
{
    if m.len() == 0 {
        None
    } else if m[0].0.eq_spec(&tag) {
        Some(m[0].1)
    } else {
        spec_lookup(m.drop_first(), tag)
    }
}

/// The row node has full width, and height and grow weight resolved from
/// the row's first patch (an empty row gets zero height and no growth),
/// with one cell per patch.
pub open spec fn row_style_matches<T>(
    row_node: RowNode<T>,
    grid: Seq<Seq<Patch<T>>>,
    size: Extent,
    r: int,
) -> bool {
    let rv = grid[r];
    &&& row_node.width == Val::Percent(100)
    &&& if rv.len() == 0 {
        row_node.height == Val::Px(0) && row_node.grow == 0
    } else {
        let orig_h = resolve_len(rv[0].original_size.y, size.height) as u32;
        &&& row_node.height == rule_val(rv[0].target_size.height, orig_h)
        &&& row_node.grow == rule_grow(rv[0].target_size.height)
    }
    &&& row_node.cells@.len() == rv.len()
}

/// The cell node's sizing, grow weight and texture index are resolved
/// from patch `(r, c)` of the grid, and it carries a content record
/// exactly when the patch offers a content slot.
pub open spec fn cell_style_matches<T>(
    cell: CellNode<T>,
    grid: Seq<Seq<Patch<T>>>,
    size: Extent,
    r: int,
    c: int,
) -> bool {
    let p = grid[r][c];
    let orig_w = resolve_len(p.original_size.x, size.width) as u32;
    let orig_h = resolve_len(p.original_size.y, size.height) as u32;
    &&& cell.width == rule_val(p.target_size.width, orig_w)
    &&& cell.grow == rule_grow(p.target_size.width)
    &&& cell.height == cell_height_val(p.target_size.height, orig_h, r == 1 && c == 1)
    &&& cell.texture_index == cells_before(grid, r) + c
    &&& (cell.content is Some <==> p.content is Some)
    &&& (p.content is None ==> cell.existing_child is None)
}

/// The cell node's content record and re-attached subtree are derived
/// from patch `p` and the existing-content map: a cell with a content
/// slot carries an unattached record naming the slot and its owner, and
/// re-parents the map's subtree for that tag if the map holds one.
pub open spec fn cell_content_matches<T: Clone + PartialEqSpec>(
    cell: CellNode<T>,
    p: Patch<T>,
    parent: u64,
    contents: Option<Vec<(T, u64)>>,
) -> bool {
    &&& (cell.content is Some <==> p.content is Some)
    &&& (p.content matches Some(tag) ==> {
        let rec = cell.content->Some_0;
        &&& rec.loaded == false
        &&& rec.parent == parent
        &&& cloned::<T>(tag, rec.content)
        &&& (contents is None ==> cell.existing_child is None)
        &&& (contents matches Some(m) ==> (T::obeys_eq_spec() ==> cell.existing_child
            == spec_lookup(m@, tag)))
    })
    &&& (p.content is None ==> cell.existing_child is None)
}

/// Resolved length and grow weight of one sizing rule, as [`rule_val`]
/// and [`rule_grow`] state them.
fn resolve_size_rule(rule: Val, orig: u32) -> (r: (Val, u32))
    ensures
        r.0 == rule_val(rule, orig),
        r.1 == rule_grow(rule),
{
    match rule {
        Val::Px(l) => if l == 0 {
            (Val::Px(orig), 0)
        } else {
            (Val::Px(l), 0)
        },
        Val::Percent(p) => (Val::Auto, p),
        Val::Auto => (Val::Auto, 100),
        Val::Undefined => (Val::Auto, 100),
    }
}

/// Resolved height of a cell node, as [`cell_height_val`] states it.
fn resolve_cell_height(rule: Val, orig: u32, center: bool) -> (r: Val)
    ensures
        r == cell_height_val(rule, orig, center),
{
    match rule {
        Val::Px(l) => if l == 0 {
            if center {
                Val::Px(0)
            } else {
                Val::Px(orig)
            }
        } else {
            Val::Px(l)
        },
        Val::Percent(_) => Val::Auto,
        Val::Auto => Val::Auto,
        Val::Undefined => Val::Undefined,
    }
}

impl<T: Clone + PartialEqSpec> NinePatch<T> {
    /// Synthesize the layout tree of this realized nine-patch: one row
    /// node per grid row and one cell node per patch, to be attached as
    /// children of the node `parent` (a vertical, stretch-aligned stack).
    ///
    /// `contents` is the existing-content map of a rebuild: a cell whose
    /// patch carries a tag found there re-parents that very subtree
    /// instead of waiting for external attachment.
    #[verifier::loop_isolation(false)]
    pub fn add_with_parent(&self, parent: u64, contents: &Option<Vec<(T, u64)>>) -> (rows: Vec<
        RowNode<T>,
    >)
        requires
            grid_resolvable(grid_view(self.patches), self.texture_size),
            self.splitted_texture@.len() == cells_before(
                grid_view(self.patches),
                grid_view(self.patches).len() as int,
            ),
        ensures
            rows@.len() == grid_view(self.patches).len(),
            forall|i: int|
                0 <= i < rows@.len() ==> row_style_matches(
                    #[trigger] rows@[i],
                    grid_view(self.patches),
                    self.texture_size,
                    i,
                ),
            forall|i: int, j: int|
                0 <= i < rows@.len() && 0 <= j < grid_view(self.patches)[i].len() ==> {
                    let cell = #[trigger] rows@[i].cells@[j];
                    &&& cell_style_matches(cell, grid_view(self.patches), self.texture_size, i, j)
                    &&& cell_content_matches(
                        cell,
                        grid_view(self.patches)[i][j],
                        parent,
                        *contents,
                    )
                },
    {
        let ghost grid = grid_view(self.patches);
        let total_cells = self.splitted_texture.len();
        let mut rows: Vec<RowNode<T>> = Vec::new();
        let mut n: usize = 0;
        let mut r: usize = 0;
        while r < self.patches.len()
            invariant
                r <= self.patches.len(),
                n == cells_before(grid, r as int),
                rows@.len() == r,
                forall|i: int|
                    0 <= i < r ==> row_style_matches(
                        #[trigger] rows@[i],
                        grid,
                        self.texture_size,
                        i,
                    ),
                forall|i: int, j: int|
                    0 <= i < r && 0 <= j < grid[i].len() ==> {
                        let cell = #[trigger] rows@[i].cells@[j];
                        &&& cell_style_matches(cell, grid, self.texture_size, i, j)
                        &&& cell_content_matches(cell, grid[i][j], parent, *contents)
                    },
            decreases self.patches.len() - r,
        {
            let row = &self.patches[r];
            let row_len = row.len();
            proof {
                assert(grid[r as int] =~= row@);
            }
            let (size_height, growth): (Val, u32) = if row_len > 0 {
                let p0 = &row[0];
                proof {
                    assert(grid[r as int][0] == row@[0]);
                }
                let orig_h = to_height(p0.original_size, self.texture_size);
                resolve_size_rule(p0.target_size.height, orig_h)
            } else {
                (Val::Px(0), 0)
            };
            let mut cells: Vec<CellNode<T>> = Vec::new();
            let mut c: usize = 0;
            while c < row_len
                invariant
                    c <= row_len,
                    n == cells_before(grid, r as int) + c,
                    cells@.len() == c,
                    forall|j: int|
                        0 <= j < c ==> {
                            let cell = #[trigger] cells@[j];
                            &&& cell_style_matches(cell, grid, self.texture_size, r as int, j)
                            &&& cell_content_matches(cell, grid[r as int][j], parent, *contents)
                        },
                decreases row_len - c,
            {
                proof {
                    assert(grid[r as int].len() == row_len);
                    assert(cells_before(grid, r as int + 1) == cells_before(grid, r as int)
                        + grid[r as int].len());
                    lemma_cells_before_mono(grid, r as int + 1, grid.len() as int);
                    assert(grid[r as int][c as int] == row@[c as int]);
                }
                let p = &row[c];
                let orig_w = to_width(p.original_size, self.texture_size);
                let orig_h = to_height(p.original_size, self.texture_size);
                let (size_width, grow_c) = resolve_size_rule(p.target_size.width, orig_w);
                let height_c = resolve_cell_height(p.target_size.height, orig_h, r == 1 && c == 1);
                let (content_rec, existing): (Option<NinePatchContent<T>>, Option<u64>) = match &p
                    .content {
                    Option::None => (None, None),
                    Option::Some(tag) => {
                        let rec = NinePatchContent { content: tag.clone(), loaded: false, parent };
                        let ex: Option<u64> = match contents {
                            Option::None => None,
                            Option::Some(m) => find_existing(m, tag),
                        };
                        (Some(rec), ex)
                    },
                };
                cells.push(
                    CellNode {
                        width: size_width,
                        height: height_c,
                        grow: grow_c,
                        texture_index: n,
                        content: content_rec,
                        existing_child: existing,
                    },
                );
                n = n + 1;
                c = c + 1;
            }
            rows.push(RowNode { width: Val::Percent(100), height: size_height, grow: growth, cells });
            r = r + 1;
        }
        rows
    }
}

/// First entry with a matching tag, or `None`. The result is pinned only
/// when the content type's equality obeys its specification.
fn find_existing<T: PartialEqSpec>(m: &Vec<(T, u64)>, tag: &T) -> (r: Option<u64>)
    ensures
        T::obeys_eq_spec() ==> r == spec_lookup(m@, *tag),
{
    let mut i: usize = 0;
    proof {
        assert(m@.skip(0) =~= m@);
    }
    while i < m.len()
        invariant
            0 <= i <= m@.len(),
            T::obeys_eq_spec() ==> spec_lookup(m@, *tag) == spec_lookup(
                m@.skip(i as int),
                *tag,
            ),
        decreases m@.len() - i,
    {
        let pair = &m[i];
        if pair.0 == *tag {
            proof {
                if T::obeys_eq_spec() {
                    assert(m@.skip(i as int)[0] == m@[i as int]);
                }
            }
            return Some(pair.1);
        }
        proof {
            if T::obeys_eq_spec() {
                assert(m@.skip(i as int)[0] == m@[i as int]);
                assert(m@.skip(i as int).drop_first() =~= m@.skip(i as int + 1));
            }
        }
        i = i + 1;
    }
    proof {
        if T::obeys_eq_spec() {
            assert(m@.skip(i as int) =~= Seq::<(T, u64)>::empty());
        }
    }
    None
}

} // verus!
