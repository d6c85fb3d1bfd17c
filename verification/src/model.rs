//! Data model of a nine-patch grid: sizing rules, patch descriptors and
//! the resolution of encoded patch extents against a real image size.

use vstd::prelude::*;

verus! {

/// A length or sizing policy along one axis of a rendered element,
/// mirroring the units of the host's flex layout engine.
///
/// `Px(0)` is a sentinel meaning "use the patch's original pixel size
/// verbatim"; an explicit zero-pixel request is not representable.
#[derive(Debug, Clone, Copy, PartialEq, Eq, Structural)]
pub enum Val {
    /// A fixed pixel length.
    Px(u32),
    /// A percentage of the final rendered size; drives proportional growth.
    Percent(u32),
    /// Grow to fill the remaining space.
    Auto,
    /// No explicit rule; resolved like `Auto`.
    Undefined,
}

/// Size of an element: one sizing rule per axis.
#[derive(Debug, Clone, Copy, PartialEq, Eq, Structural)]
pub struct Size {
    pub width: Val,
    pub height: Val,
}

impl Size {
    /// Creates a new `Size` with the given width and height.
    pub fn new(width: Val, height: Val) -> (s: Size)
        ensures
            s == (Size { width, height }),
    {
        Size { width, height }
    }
}

/// A signed integer pair describing a patch's extent in the source image.
///
/// A positive component is an absolute pixel length. A non-positive
/// component stands for "total image extent on that axis minus the fixed
/// margins", encoded as the negated sum of those margins and resolved
/// against the real image size at slice time.
#[derive(Debug, Clone, Copy, PartialEq, Eq, Structural)]
pub struct IVec2 {
    pub x: i32,
    pub y: i32,
}

impl IVec2 {
    /// Creates a new pair from its two components.
    pub fn new(x: i32, y: i32) -> (v: IVec2)
        ensures
            v == (IVec2 { x, y }),
    {
        IVec2 { x, y }
    }
}

/// Pixel dimensions of a source texture.
#[derive(Debug, Clone, Copy, PartialEq, Eq, Structural)]
pub struct Extent {
    pub width: u32,
    pub height: u32,
}

/// Describes a patch in the original image, how it should grow, and
/// whether it can hold content.
#[derive(Debug)]
pub struct Patch<T> {
    /// Extent of the patch in the original image (encoded, see [`IVec2`]).
    pub original_size: IVec2,
    /// Target size of the patch once rendered.
    pub target_size: Size,
    /// Tag of the content slot this patch offers, if any.
    pub content: Option<T>,
}

/// Relates a patch to a clone of it: every plain field is kept, and the
/// content tag is kept up to `T::clone`.
pub open spec fn patch_cloned<T: Clone>(a: Patch<T>, b: Patch<T>) -> bool {
    &&& b.original_size == a.original_size
    &&& b.target_size == a.target_size
    &&& (b.content is Some <==> a.content is Some)
    &&& (a.content is Some ==> cloned::<T>(a.content->Some_0, b.content->Some_0))
}

impl<T: Clone> Clone for Patch<T> {
    fn clone(&self) -> (r: Self)
        ensures
            patch_cloned(*self, r),
    {
        Patch {
            original_size: self.original_size,
            target_size: self.target_size,
            content: self.content.clone(),
        }
    }
}

/// Resolved pixel length of one encoded extent component against the
/// total image extent on that axis: positive components are absolute,
/// non-positive components leave the remainder of the image.
pub open spec fn resolve_len(component: i32, total: u32) -> int {
    if component > 0 {
        component as int
    } else {
        total + component
    }
}

/// Resolved pixel width of a patch against the full texture size.
pub fn to_width(patch: IVec2, total: Extent) -> (w: u32)
    requires
        0 <= resolve_len(patch.x, total.width),
    ensures
        w == resolve_len(patch.x, total.width),
{
    if patch.x > 0 {
        patch.x as u32
    } else {
        ((total.width as i64) + (patch.x as i64)) as u32
    }
}

/// Resolved pixel height of a patch against the full texture size.
pub fn to_height(patch: IVec2, total: Extent) -> (h: u32)
    requires
        0 <= resolve_len(patch.y, total.height),
    ensures
        h == resolve_len(patch.y, total.height),
{
    if patch.y > 0 {
        patch.y as u32
    } else {
        ((total.height as i64) + (patch.y as i64)) as u32
    }
}

} // verus!
