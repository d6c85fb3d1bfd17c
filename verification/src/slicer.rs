//! The nine-patch builder: grid constructors and the slicer that crops a
//! source image into one owned pixel buffer per patch, with a single-slot
//! cache keyed by source-image identity.

use vstd::prelude::*;

use crate::layout::NinePatch;
use crate::model::{patch_cloned, resolve_len, to_height, to_width, Extent, IVec2, Patch, Size, Val};
use vstd::pervasive::strictly_cloned;

verus! {

/// A decoded source image: raw pixel bytes in packed 4-bytes-per-pixel
/// row-major layout, together with its dimensions in pixels.
#[derive(Debug, Clone)]
pub struct SourceImage {
    pub width: u32,
    pub height: u32,
    pub data: Vec<u8>,
}

impl SourceImage {
    /// The pixel buffer holds exactly 4 bytes per pixel, row-major.
    pub open spec fn wf(self) -> bool {
        self.data@.len() == self.width * self.height * 4
    }

    /// Pixel dimensions of this image.
    pub open spec fn extent(self) -> Extent {
        Extent { width: self.width, height: self.height }
    }
}

/// One sliced sub-image: an independently owned copy of the pixel bytes
/// of a single patch, in the same 4-bytes-per-pixel layout as the source.
#[derive(Debug)]
pub struct PatchTexture {
    pub width: u32,
    pub height: u32,
    pub data: Vec<u8>,
}

impl Clone for PatchTexture {
    fn clone(&self) -> (r: Self)
        ensures
            r.width == self.width,
            r.height == self.height,
            r.data@ == self.data@,
    {
        let data = self.data.clone();
        proof {
            assert forall|i: int| 0 <= i < self.data@.len() implies data@[i] == self.data@[i] by {
                assert(cloned::<u8>(self.data[i], data[i]));
            }
            assert(data@ =~= self.data@);
        }
        PatchTexture { width: self.width, height: self.height, data }
    }
}

/// Failure of a slice request.
#[derive(Debug, Clone, Copy, PartialEq, Eq, Structural)]
pub enum SliceError {
    /// The source image is not resident yet; the caller should retry on a
    /// later scheduling tick rather than treat this as fatal.
    NotReady,
}

/// Holds the patches of a nine-patch texture, together with the cached
/// slices of the most recently applied source image.
#[derive(Debug)]
pub struct NinePatchBuilder<T> {
    /// Patches of the grid, row-major: one inner vector per row.
    pub patches: Vec<Vec<Patch<T>>>,
    /// Cached slices of `original_texture`, row-major and flattened;
    /// `None` until a texture has been applied. Managed by `apply`.
    pub patch_textures: Option<Vec<PatchTexture>>,
    /// Identity of the source image the cache was computed from.
    pub original_texture: Option<u64>,
    /// How many times the slices have been recomputed; a cache hit does
    /// not count. Saturates instead of wrapping.
    pub recomputations: u64,
}

/// The grid of a builder as a sequence of rows of patches.
pub open spec fn grid_view<T>(patches: Vec<Vec<Patch<T>>>) -> Seq<Seq<Patch<T>>> {
    patches@.map_values(|row: Vec<Patch<T>>| row@)
}

/// Pixel x offset of cell `c` in a row: the sum of the resolved widths of
/// the cells before it.
pub open spec fn row_x_off<T>(row: Seq<Patch<T>>, c: int, img_w: u32) -> int
    decreases c,
{
    if c <= 0 {
        0
    } else {
        row_x_off(row, c - 1, img_w) + resolve_len(row[c - 1].original_size.x, img_w)
    }
}

/// Pixel y offset of row `r`: the sum of the resolved heights of the rows
/// above it, each row's height taken from its first cell.
pub open spec fn grid_y_off<T>(grid: Seq<Seq<Patch<T>>>, r: int, img_h: u32) -> int
    decreases r,
{
    if r <= 0 {
        0
    } else {
        grid_y_off(grid, r - 1, img_h) + resolve_len(grid[r - 1][0].original_size.y, img_h)
    }
}

/// Number of cells in the rows before row `r`: the flattened, row-major
/// index of the first cell of row `r`.
pub open spec fn cells_before<T>(grid: Seq<Seq<Patch<T>>>, r: int) -> int
    decreases r,
{
    if r <= 0 {
        0
    } else {
        cells_before(grid, r - 1) + grid[r - 1].len()
    }
}

/// Counting cells over more rows never counts fewer cells.
pub proof fn lemma_cells_before_mono<T>(grid: Seq<Seq<Patch<T>>>, r1: int, r2: int)
    requires
        0 <= r1 <= r2 <= grid.len(),
    ensures
        cells_before(grid, r1) <= cells_before(grid, r2),
    decreases r2 - r1,
{
    if r1 < r2 {
        lemma_cells_before_mono(grid, r1, r2 - 1);
    }
}

/// Every row is non-empty and every patch's resolved rectangle lies
/// within the image: each resolved extent is non-negative, rectangles end
/// within the row, and each row's cells end within the image height.
/// This is exactly what scanline copying needs; it is weaker than asking
/// that the patches tile the image, which is not validated.
pub open spec fn grid_fits<T>(grid: Seq<Seq<Patch<T>>>, size: Extent) -> bool {
    &&& forall|r: int| 0 <= r < grid.len() ==> (#[trigger] grid[r]).len() > 0
    &&& forall|r: int, c: int|
        0 <= r < grid.len() && 0 <= c < grid[r].len() ==> {
            let p = #[trigger] grid[r][c];
            &&& 0 <= resolve_len(p.original_size.x, size.width)
            &&& 0 <= resolve_len(p.original_size.y, size.height)
            &&& row_x_off(grid[r], c, size.width) + resolve_len(p.original_size.x, size.width)
                <= size.width
            &&& grid_y_off(grid, r, size.height) + resolve_len(p.original_size.y, size.height)
                <= size.height
        }
}

/// The bytes of one scanline of a patch rectangle: `w` pixels starting at
/// column `x0` of image scanline `y`.
pub open spec fn scanline(data: Seq<u8>, img_w: u32, x0: int, w: int, y: int) -> Seq<u8> {
    data.subrange((y * img_w + x0) * 4, (y * img_w + x0 + w) * 4)
}

/// The bytes of the rectangle `[x0, x0 + w) x [y0, y0 + h)` of the image:
/// its scanlines, top to bottom, concatenated.
pub open spec fn region_bytes(
    data: Seq<u8>,
    img_w: u32,
    x0: int,
    y0: int,
    w: int,
    h: int,
) -> Seq<u8>
    decreases h,
{
    if h <= 0 {
        Seq::empty()
    } else {
        region_bytes(data, img_w, x0, y0, w, h - 1) + scanline(data, img_w, x0, w, y0 + h - 1)
    }
}

/// The texture `pt` is exactly the slice of cell `(r, c)` of the grid:
/// its dimensions are the cell's resolved extent and its bytes are the
/// cell's rectangle of the image.
pub open spec fn slice_matches<T>(
    pt: PatchTexture,
    grid: Seq<Seq<Patch<T>>>,
    data: Seq<u8>,
    size: Extent,
    r: int,
    c: int,
) -> bool {
    let w = resolve_len(grid[r][c].original_size.x, size.width);
    let h = resolve_len(grid[r][c].original_size.y, size.height);
    &&& pt.width == w
    &&& pt.height == h
    &&& pt.data@ == region_bytes(
        data,
        size.width,
        row_x_off(grid[r], c, size.width),
        grid_y_off(grid, r, size.height),
        w,
        h,
    )
}

/// The sequence `ts` holds exactly the slices of every cell of the grid
/// against the given image bytes, row-major and flattened.
pub open spec fn slices_match<T>(
    ts: Seq<PatchTexture>,
    grid: Seq<Seq<Patch<T>>>,
    data: Seq<u8>,
    size: Extent,
) -> bool {
    &&& ts.len() == cells_before(grid, grid.len() as int)
    &&& forall|r: int, c: int|
        0 <= r < grid.len() && 0 <= c < grid[r].len() ==> slice_matches(
            #[trigger] ts[cells_before(grid, r) + c],
            grid,
            data,
            size,
            r,
            c,
        )
}

impl<T> NinePatchBuilder<T> {
    /// Create a `NinePatchBuilder` from its patches, with an empty cache.
    pub fn from_patches(patches: Vec<Vec<Patch<T>>>) -> (b: Self)
        ensures
            b.patches == patches,
            b.patch_textures is None,
            b.original_texture is None,
            b.recomputations == 0,
    {
        Self { patches, patch_textures: None, original_texture: None, recomputations: 0 }
    }
}

/// The nine patches of the canonical margin-derived 3x3 grid: corner
/// cells are fixed on both axes, edge cells stretch along exactly one
/// axis, and the center cell stretches on both axes and carries the
/// content tag. The middle extents are encoded as the negated sums of
/// the fixed margins and resolve against the real image size.
pub open spec fn margins_grid_shape<T>(
    grid: Seq<Seq<Patch<T>>>,
    top: u32,
    bottom: u32,
    left: u32,
    right: u32,
) -> bool {
    let x_l = left as i32;
    let x_m = (-(left as i32) - (right as i32)) as i32;
    let x_r = right as i32;
    let y_t = top as i32;
    let y_m = (-(top as i32) - (bottom as i32)) as i32;
    let y_b = bottom as i32;
    &&& grid.len() == 3
    &&& forall|r: int| 0 <= r < 3 ==> (#[trigger] grid[r]).len() == 3
    &&& grid[0][0].original_size == (IVec2 { x: x_l, y: y_t })
    &&& grid[0][1].original_size == (IVec2 { x: x_m, y: y_t })
    &&& grid[0][2].original_size == (IVec2 { x: x_r, y: y_t })
    &&& grid[1][0].original_size == (IVec2 { x: x_l, y: y_m })
    &&& grid[1][1].original_size == (IVec2 { x: x_m, y: y_m })
    &&& grid[1][2].original_size == (IVec2 { x: x_r, y: y_m })
    &&& grid[2][0].original_size == (IVec2 { x: x_l, y: y_b })
    &&& grid[2][1].original_size == (IVec2 { x: x_m, y: y_b })
    &&& grid[2][2].original_size == (IVec2 { x: x_r, y: y_b })
    &&& grid[0][0].target_size == (Size { width: Val::Px(0), height: Val::Px(0) })
    &&& grid[0][1].target_size == (Size { width: Val::Auto, height: Val::Px(0) })
    &&& grid[0][2].target_size == (Size { width: Val::Px(0), height: Val::Px(0) })
    &&& grid[1][0].target_size == (Size { width: Val::Px(0), height: Val::Auto })
    &&& grid[1][1].target_size == (Size { width: Val::Auto, height: Val::Auto })
    &&& grid[1][2].target_size == (Size { width: Val::Px(0), height: Val::Auto })
    &&& grid[2][0].target_size == (Size { width: Val::Px(0), height: Val::Px(0) })
    &&& grid[2][1].target_size == (Size { width: Val::Auto, height: Val::Px(0) })
    &&& grid[2][2].target_size == (Size { width: Val::Px(0), height: Val::Px(0) })
    &&& forall|r: int, c: int|
        0 <= r < 3 && 0 <= c < 3 && !(r == 1 && c == 1) ==> (#[trigger] grid[r][c]).content
            is None
    &&& grid[1][1].content is Some
}

impl<T: Clone> NinePatchBuilder<T> {
    /// Create a simple nine-patch split by fixed patches for the margins
    /// and growing patches inside, tagging the center cell with `content`.
    pub fn by_margins_with_content(
        top_margin: u32,
        bottom_margin: u32,
        left_margin: u32,
        right_margin: u32,
        content: T,
    ) -> (b: Self)
        requires
            top_margin + bottom_margin <= i32::MAX,
            left_margin + right_margin <= i32::MAX,
        ensures
            margins_grid_shape(
                grid_view(b.patches),
                top_margin,
                bottom_margin,
                left_margin,
                right_margin,
            ),
            grid_view(b.patches)[1][1].content == Some(content),
            b.patch_textures is None,
            b.original_texture is None,
            b.recomputations == 0,
    {
        let x_l = left_margin as i32;
        let x_m = -(left_margin as i32) - (right_margin as i32);
        let x_r = right_margin as i32;
        let y_t = top_margin as i32;
        let y_m = -(top_margin as i32) - (bottom_margin as i32);
        let y_b = bottom_margin as i32;
        let fixed = Size::new(Val::Px(0), Val::Px(0));
        let top: Vec<Patch<T>> = vec![
            Patch { original_size: IVec2::new(x_l, y_t), target_size: fixed, content: None },
            Patch {
                original_size: IVec2::new(x_m, y_t),
                target_size: Size::new(Val::Auto, Val::Px(0)),
                content: None,
            },
            Patch { original_size: IVec2::new(x_r, y_t), target_size: fixed, content: None },
        ];
        let middle: Vec<Patch<T>> = vec![
            Patch {
                original_size: IVec2::new(x_l, y_m),
                target_size: Size::new(Val::Px(0), Val::Auto),
                content: None,
            },
            Patch {
                original_size: IVec2::new(x_m, y_m),
                target_size: Size::new(Val::Auto, Val::Auto),
                content: Some(content),
            },
            Patch {
                original_size: IVec2::new(x_r, y_m),
                target_size: Size::new(Val::Px(0), Val::Auto),
                content: None,
            },
        ];
        let bottom: Vec<Patch<T>> = vec![
            Patch { original_size: IVec2::new(x_l, y_b), target_size: fixed, content: None },
            Patch {
                original_size: IVec2::new(x_m, y_b),
                target_size: Size::new(Val::Auto, Val::Px(0)),
                content: None,
            },
            Patch { original_size: IVec2::new(x_r, y_b), target_size: fixed, content: None },
        ];
        let patches: Vec<Vec<Patch<T>>> = vec![top, middle, bottom];
        Self { patches, patch_textures: None, original_texture: None, recomputations: 0 }
    }
}

/// The grid `b` is a row-by-row, cell-by-cell clone of `a`: same shape,
/// every cell related by [`patch_cloned`].
pub open spec fn grids_cloned<T: Clone>(a: Seq<Seq<Patch<T>>>, b: Seq<Seq<Patch<T>>>) -> bool {
    &&& b.len() == a.len()
    &&& forall|r: int| 0 <= r < a.len() ==> (#[trigger] b[r]).len() == a[r].len()
    &&& forall|r: int, c: int|
        0 <= r < a.len() && 0 <= c < a[r].len() ==> patch_cloned(a[r][c], #[trigger] b[r][c])
}

/// The saturating increment the recomputation counter takes.
pub open spec fn bump(c: u64) -> u64 {
    if c == u64::MAX {
        c
    } else {
        (c + 1) as u64
    }
}

/// The builder's slice cache answers for the image with this identity.
pub open spec fn cache_hit<T>(b: NinePatchBuilder<T>, image_id: u64) -> bool {
    &&& b.patch_textures is Some
    &&& b.original_texture == Some(image_id)
}

/// Two sliced textures hold the same dimensions and the same bytes.
pub open spec fn tex_eq(a: PatchTexture, b: PatchTexture) -> bool {
    &&& a.width == b.width
    &&& a.height == b.height
    &&& a.data@ == b.data@
}

/// Two slice sequences agree element by element, as [`tex_eq`].
pub open spec fn textures_match(a: Seq<PatchTexture>, b: Seq<PatchTexture>) -> bool {
    &&& a.len() == b.len()
    &&& forall|i: int| 0 <= i < a.len() ==> tex_eq(#[trigger] a[i], b[i])
}

/// A grid and its clone count the same cells before every row.
pub proof fn lemma_cells_before_cloned<T: Clone>(
    a: Seq<Seq<Patch<T>>>,
    b: Seq<Seq<Patch<T>>>,
    r: int,
)
    requires
        grids_cloned(a, b),
        0 <= r <= a.len(),
    ensures
        cells_before(b, r) == cells_before(a, r),
    decreases r,
{
    if r > 0 {
        lemma_cells_before_cloned(a, b, r - 1);
    }
}

/// What `Vec::clone` leaves of a grid of patches: a [`grids_cloned`] copy.
proof fn lemma_grid_clone<T: Clone>(a: Vec<Vec<Patch<T>>>, b: Vec<Vec<Patch<T>>>)
    requires
        b@.len() == a@.len(),
        forall|i: int| 0 <= i < a@.len() ==> cloned::<Vec<Patch<T>>>(a@[i], #[trigger] b@[i]),
    ensures
        grids_cloned(grid_view(a), grid_view(b)),
{
    let ga = grid_view(a);
    let gb = grid_view(b);
    assert forall|r: int| 0 <= r < ga.len() implies (#[trigger] gb[r]).len() == ga[r].len() by {
        assert(cloned::<Vec<Patch<T>>>(a@[r], b@[r]));
    }
    assert forall|r: int, c: int|
        0 <= r < ga.len() && 0 <= c < ga[r].len() implies patch_cloned(
        ga[r][c],
        #[trigger] gb[r][c],
    ) by {
        assert(cloned::<Vec<Patch<T>>>(a@[r], b@[r]));
        if strictly_cloned(a@[r], b@[r]) {
            assert(cloned::<Patch<T>>(a@[r][c], b@[r][c]));
        }
    }
}

/// What `Vec::clone` leaves of a slice sequence: a [`textures_match`] copy.
proof fn lemma_textures_clone(a: Vec<PatchTexture>, b: Vec<PatchTexture>)
    requires
        b@.len() == a@.len(),
        forall|i: int| 0 <= i < a@.len() ==> cloned::<PatchTexture>(a@[i], #[trigger] b@[i]),
    ensures
        textures_match(b@, a@),
{
    assert forall|i: int| 0 <= i < b@.len() implies tex_eq(#[trigger] b@[i], a@[i]) by {
        assert(cloned::<PatchTexture>(a@[i], b@[i]));
    }
}

/// Copies the rectangle `[start_x, start_x + w) x [start_y, start_y + h)`
/// of the image into a fresh buffer, scanline by scanline.
#[verifier::loop_isolation(false)]
fn copy_region(img: &SourceImage, start_x: u32, start_y: u32, w: u32, h: u32) -> (buf: Vec<u8>)
    requires
        img.wf(),
        start_x + w <= img.width,
        start_y + h <= img.height,
    ensures
        buf@ == region_bytes(
            img.data@,
            img.width,
            start_x as int,
            start_y as int,
            w as int,
            h as int,
        ),
{
    let img_w = img.width;
    let data_len = img.data.len();
    let mut buf: Vec<u8> = Vec::new();
    let mut jj: u32 = 0;
    proof {
        assert(buf@ =~= region_bytes(
            img.data@,
            img_w,
            start_x as int,
            start_y as int,
            w as int,
            0,
        ));
    }
    while jj < h
        invariant
            jj <= h,
            buf@ == region_bytes(
                img.data@,
                img_w,
                start_x as int,
                start_y as int,
                w as int,
                jj as int,
            ),
        decreases h - jj,
    {
        let y_abs = start_y + jj;
        proof {
            let yi = y_abs as int;
            let wi = img_w as int;
            let hi = img.height as int;
            assert((yi + 1) * wi <= hi * wi) by (nonlinear_arith)
                requires
                    0 <= yi + 1 <= hi,
                    0 <= wi,
            ;
            assert(yi * wi + wi == (yi + 1) * wi) by (nonlinear_arith);
            assert(hi * wi == wi * hi) by (nonlinear_arith);
            assert(0 <= yi * wi) by (nonlinear_arith)
                requires
                    0 <= yi,
                    0 <= wi,
            ;
        }
        let line_base = (y_abs as usize) * (img_w as usize);
        let line_start = (line_base + start_x as usize) * 4;
        let line_end = (line_base + (start_x + w) as usize) * 4;
        let mut k = line_start;
        proof {
            assert(buf@ =~= buf@ + img.data@.subrange(line_start as int, line_start as int));
        }
        let ghost buf_before = buf@;
        while k < line_end
            invariant
                line_start <= k <= line_end,
                buf@ == buf_before + img.data@.subrange(line_start as int, k as int),
            decreases line_end - k,
        {
            buf.push(img.data[k]);
            proof {
                assert(img.data@.subrange(line_start as int, k as int + 1) =~= img.data@.subrange(
                    line_start as int,
                    k as int,
                ).push(img.data@[k as int]));
            }
            k = k + 1;
        }
        proof {
            assert(img.data@.subrange(line_start as int, line_end as int) =~= scanline(
                img.data@,
                img_w,
                start_x as int,
                w as int,
                start_y + jj,
            ));
        }
        jj = jj + 1;
    }
    buf
}

/// Slices every cell of the grid out of the image, row-major, keeping a
/// running pixel cursor: x restarts at 0 on each row, y advances by each
/// row's resolved height, taken from the row's first cell.
#[verifier::loop_isolation(false)]
#[verifier::rlimit(60)]
fn compute_slices<T>(patches: &Vec<Vec<Patch<T>>>, img: &SourceImage) -> (out: Vec<PatchTexture>)
    requires
        img.wf(),
        grid_fits(grid_view(*patches), img.extent()),
    ensures
        slices_match(out@, grid_view(*patches), img.data@, img.extent()),
{
    let ghost grid = grid_view(*patches);
    let size = Extent { width: img.width, height: img.height };
    let mut out: Vec<PatchTexture> = Vec::new();
    let mut accu_y: u32 = 0;
    let mut rr: usize = 0;
    while rr < patches.len()
        invariant
            rr <= patches@.len(),
            accu_y == grid_y_off(grid, rr as int, img.height),
            out@.len() == cells_before(grid, rr as int),
            forall|r2: int, c2: int|
                0 <= r2 < rr && 0 <= c2 < grid[r2].len() ==> slice_matches(
                    #[trigger] out@[cells_before(grid, r2) + c2],
                    grid,
                    img.data@,
                    size,
                    r2,
                    c2,
                ),
        decreases patches@.len() - rr,
    {
        let row = &patches[rr];
        proof {
            assert(grid[rr as int] =~= row@);
        }
        let mut accu_x: u32 = 0;
        let mut cc: usize = 0;
        while cc < row.len()
            invariant
                cc <= row@.len(),
                accu_x == row_x_off(grid[rr as int], cc as int, img.width),
                out@.len() == cells_before(grid, rr as int) + cc,
                forall|r2: int, c2: int|
                    0 <= r2 < rr && 0 <= c2 < grid[r2].len() ==> slice_matches(
                        #[trigger] out@[cells_before(grid, r2) + c2],
                        grid,
                        img.data@,
                        size,
                        r2,
                        c2,
                    ),
                forall|c2: int|
                    0 <= c2 < cc ==> slice_matches(
                        #[trigger] out@[cells_before(grid, rr as int) + c2],
                        grid,
                        img.data@,
                        size,
                        rr as int,
                        c2,
                    ),
            decreases row@.len() - cc,
        {
            let p = &row[cc];
            proof {
                assert(grid[rr as int][cc as int] == row@[cc as int]);
            }
            let w_c = to_width(p.original_size, size);
            let h_c = to_height(p.original_size, size);
            let buf = copy_region(img, accu_x, accu_y, w_c, h_c);
            proof {
                assert(cells_before(grid, rr as int + 1) == cells_before(grid, rr as int)
                    + grid[rr as int].len());
            }
            let ghost out_before = out@;
            let ghost buf_v = buf@;
            out.push(PatchTexture { width: w_c, height: h_c, data: buf });
            proof {
                assert(out@.len() == out_before.len() + 1);
                assert forall|r2: int, c2: int|
                    0 <= r2 < rr && 0 <= c2 < grid[r2].len() implies slice_matches(
                    #[trigger] out@[cells_before(grid, r2) + c2],
                    grid,
                    img.data@,
                    size,
                    r2,
                    c2,
                ) by {
                    assert(cells_before(grid, r2 + 1) == cells_before(grid, r2) + grid[r2].len());
                    lemma_cells_before_mono(grid, 0, r2);
                    lemma_cells_before_mono(grid, r2 + 1, rr as int);
                    assert(slice_matches(
                        out_before[cells_before(grid, r2) + c2],
                        grid,
                        img.data@,
                        size,
                        r2,
                        c2,
                    ));
                    assert(out@[cells_before(grid, r2) + c2] == out_before[cells_before(grid, r2)
                        + c2]);
                }
                assert forall|c2: int|
                    0 <= c2 < cc + 1 implies slice_matches(
                    #[trigger] out@[cells_before(grid, rr as int) + c2],
                    grid,
                    img.data@,
                    size,
                    rr as int,
                    c2,
                ) by {
                    if c2 < cc {
                        assert(slice_matches(
                            out_before[cells_before(grid, rr as int) + c2],
                            grid,
                            img.data@,
                            size,
                            rr as int,
                            c2,
                        ));
                        assert(out@[cells_before(grid, rr as int) + c2]
                            == out_before[cells_before(grid, rr as int) + c2]);
                    } else {
                        assert(out@[cells_before(grid, rr as int) + c2].data@ == buf_v);
                    }
                }
            }
            accu_x = accu_x + w_c;
            cc = cc + 1;
        }
        accu_y = accu_y + to_height(row[0].original_size, size);
        rr = rr + 1;
    }
    out
}

impl<T: Clone> NinePatchBuilder<T> {
    /// Apply this builder to a source image to get a [`NinePatch`] ready
    /// to be laid out: splits the image into one owned sub-image per
    /// patch. An image that is not resident yet (`None`) fails with
    /// [`SliceError::NotReady`] and leaves the builder untouched; the
    /// caller retries on a later tick. When the cache already answers
    /// for this image identity the cached slices are returned and
    /// nothing is recomputed; otherwise the slices are computed, the
    /// cache replaced, and the recomputation counter stepped.
    pub fn apply(&mut self, image: Option<&SourceImage>, image_id: u64) -> (r: Result<
        NinePatch<T>,
        SliceError,
    >)
        requires
            image matches Some(img) ==> cache_hit(*old(self), image_id) || (img.wf()
                && grid_fits(grid_view(old(self).patches), img.extent())),
        ensures
            final(self).patches == old(self).patches,
            r is Err <==> image is None,
            image is None ==> *final(self) == *old(self) && r->Err_0 == SliceError::NotReady,
            image matches Some(img) ==> {
                let np = r->Ok_0;
                &&& np.texture_size == img.extent()
                &&& grids_cloned(grid_view(old(self).patches), grid_view(np.patches))
                &&& (cache_hit(*old(self), image_id) ==> *final(self) == *old(self)
                    && textures_match(
                    np.splitted_texture@,
                    old(self).patch_textures->Some_0@,
                ))
                &&& (!cache_hit(*old(self), image_id) ==> {
                    &&& final(self).original_texture == Some(image_id)
                    &&& final(self).recomputations == bump(old(self).recomputations)
                    &&& final(self).patch_textures matches Some(ts) && slices_match(
                        ts@,
                        grid_view(old(self).patches),
                        img.data@,
                        img.extent(),
                    ) && textures_match(np.splitted_texture@, ts@)
                })
            },
    {
        match image {
            Option::None => Err(SliceError::NotReady),
            Option::Some(img) => {
                let size = Extent { width: img.width, height: img.height };
                let hit = self.patch_textures.is_some() && self.original_texture == Some(
                    image_id,
                );
                if !hit {
                    let out = compute_slices(&self.patches, img);
                    self.patch_textures = Some(out);
                    self.original_texture = Some(image_id);
                    if self.recomputations < u64::MAX {
                        self.recomputations = self.recomputations + 1;
                    }
                }
                let splitted: Vec<PatchTexture> = match &self.patch_textures {
                    Option::Some(ts) => {
                        let c = ts.clone();
                        proof {
                            lemma_textures_clone(*ts, c);
                        }
                        c
                    },
                    Option::None => {
                        proof {
                            assert(false);
                        }
                        Vec::new()
                    },
                };
                let patches2 = self.patches.clone();
                proof {
                    lemma_grid_clone(self.patches, patches2);
                }
                Ok(NinePatch { patches: patches2, texture_size: size, splitted_texture: splitted })
            },
        }
    }
}

/// Holds when `d` is a value `T::default` can return.
pub open spec fn defaulted<T: Default>(d: T) -> bool {
    call_ensures(T::default, (), d)
}

impl<T: Clone + Default> NinePatchBuilder<T> {
    /// Create a simple nine-patch split by fixed patches for the margins
    /// and growing patches inside; the center cell is tagged with the
    /// default value of the content type.
    pub fn by_margins(
        top_margin: u32,
        bottom_margin: u32,
        left_margin: u32,
        right_margin: u32,
    ) -> (b: Self)
        requires
            top_margin + bottom_margin <= i32::MAX,
            left_margin + right_margin <= i32::MAX,
        ensures
            margins_grid_shape(
                grid_view(b.patches),
                top_margin,
                bottom_margin,
                left_margin,
                right_margin,
            ),
            grid_view(b.patches)[1][1].content matches Some(d) && defaulted::<T>(d),
            b.patch_textures is None,
            b.original_texture is None,
            b.recomputations == 0,
    {
        Self::by_margins_with_content(
            top_margin,
            bottom_margin,
            left_margin,
            right_margin,
            T::default(),
        )
    }
}

} // verus!
