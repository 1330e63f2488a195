//! Bounds of a strip anchored to one edge of the desktop.
//!
//! All lengths are whole numbers of one unit, which the caller chooses:
//! logical pixels, as a rule. Inputs are `i32`; results are `i64`, wide
//! enough that no combination of inputs can overflow, so every input has its
//! exact result.

use vstd::prelude::*;

verus! {

/// The desktop edge that the strip clings to.
#[derive(Clone, Copy, Debug, PartialEq, Eq, Structural)]
pub enum Anchor {
    Top,
    Bottom,
    Left,
    Right,
}

/// Top-left corner `(x, y)` of the strip.
///
/// The strip starts at the near margins, except that a strip on the right or
/// bottom edge is pushed against the far margin of that edge.
pub open spec fn strip_position(
    desktop_size: (i32, i32),
    anchor: Anchor,
    gap_v: (i32, i32),
    gap_h: (i32, i32),
    size: i32,
) -> (int, int) {
    match anchor {
        Anchor::Top | Anchor::Left => (gap_h.0 as int, gap_v.0 as int),
        Anchor::Bottom => (gap_h.0 as int, desktop_size.1 - gap_v.1 - size),
        Anchor::Right => (desktop_size.0 - gap_h.1 - size, gap_v.0 as int),
    }
}

/// Extent `(width, height)` of the strip.
///
/// Across the anchored edge the strip is `size` thick; along it the strip
/// fills the desktop between the two margins of that axis.
pub open spec fn strip_size(
    desktop_size: (i32, i32),
    anchor: Anchor,
    gap_v: (i32, i32),
    gap_h: (i32, i32),
    size: i32,
) -> (int, int) {
    match anchor {
        Anchor::Top | Anchor::Bottom => (desktop_size.0 - gap_h.0 - gap_h.1, size as int),
        Anchor::Left | Anchor::Right => (size as int, desktop_size.1 - gap_v.0 - gap_v.1),
    }
}

/// Computes the position and the size of a strip of thickness `size` on the
/// `anchor` edge of a desktop of `desktop_size` (width, height), with the
/// margins `gap_v` (top, bottom) and `gap_h` (left, right).
///
/// Returns `((x, y), (width, height))`. Nothing is rejected: margins or a
/// thickness that do not fit the desktop give bounds that reach outside it.
pub fn compute_window_bounds(
    desktop_size: (i32, i32),
    anchor: Anchor,
    gap_v: (i32, i32),
    gap_h: (i32, i32),
    size: i32,
) -> (bounds: ((i64, i64), (i64, i64)))
    ensures
        bounds.0.0 == strip_position(desktop_size, anchor, gap_v, gap_h, size).0,
        bounds.0.1 == strip_position(desktop_size, anchor, gap_v, gap_h, size).1,
        bounds.1.0 == strip_size(desktop_size, anchor, gap_v, gap_h, size).0,
        bounds.1.1 == strip_size(desktop_size, anchor, gap_v, gap_h, size).1,
        // The strip is `size` thick and spans the other axis between its margins.
        anchor is Top || anchor is Bottom ==> bounds.1.1 == size && bounds.1.0 == desktop_size.0
            - gap_h.0 - gap_h.1,
        anchor is Left || anchor is Right ==> bounds.1.0 == size && bounds.1.1 == desktop_size.1
            - gap_v.0 - gap_v.1,
        // A strip on the right edge ends exactly at the right margin.
        anchor is Right ==> bounds.0.0 + bounds.1.0 + gap_h.1 == desktop_size.0,
        // A strip on the bottom edge ends exactly at the bottom margin.
        anchor is Bottom ==> bounds.0.1 + bounds.1.1 + gap_v.1 == desktop_size.1,
        // Every other strip starts at the left margin, or at the top margin.
        anchor !is Right ==> bounds.0.0 == gap_h.0,
        anchor !is Bottom ==> bounds.0.1 == gap_v.0,
{
    let width: i64 = desktop_size.0 as i64;
    let height: i64 = desktop_size.1 as i64;
    let (top, bottom): (i64, i64) = (gap_v.0 as i64, gap_v.1 as i64);
    let (left, right): (i64, i64) = (gap_h.0 as i64, gap_h.1 as i64);
    let thickness: i64 = size as i64;

    let position_x: i64 = match anchor {
        Anchor::Top | Anchor::Bottom | Anchor::Left => left,
        Anchor::Right => width - right - thickness,
    };
    let position_y: i64 = match anchor {
        Anchor::Bottom => height - bottom - thickness,
        Anchor::Top | Anchor::Right | Anchor::Left => top,
    };
    let size_y: i64 = match anchor {
        Anchor::Top | Anchor::Bottom => thickness,
        Anchor::Left | Anchor::Right => height - top - bottom,
    };
    let size_x: i64 = match anchor {
        Anchor::Top | Anchor::Bottom => width - left - right,
        Anchor::Left | Anchor::Right => thickness,
    };

    ((position_x, position_y), (size_x, size_y))
}

/// Whether the margins and the thickness fit the desktop: none of them is
/// negative, the two margins of each axis leave room between them, and the
/// thickness fits between the margin of the anchored edge and the opposite
/// side of the desktop.
pub open spec fn fits_desktop(
    desktop_size: (i32, i32),
    anchor: Anchor,
    gap_v: (i32, i32),
    gap_h: (i32, i32),
    size: i32,
) -> bool {
    &&& 0 <= size
    &&& 0 <= gap_v.0 && 0 <= gap_v.1 && gap_v.0 + gap_v.1 <= desktop_size.1
    &&& 0 <= gap_h.0 && 0 <= gap_h.1 && gap_h.0 + gap_h.1 <= desktop_size.0
    &&& match anchor {
        Anchor::Top => gap_v.0 + size <= desktop_size.1,
        Anchor::Bottom => gap_v.1 + size <= desktop_size.1,
        Anchor::Left => gap_h.0 + size <= desktop_size.0,
        Anchor::Right => gap_h.1 + size <= desktop_size.0,
    }
}

/// A strip whose margins and thickness fit the desktop lies wholly within
/// the desktop, and neither of its extents is negative.
pub proof fn lemma_strip_within_desktop(
    desktop_size: (i32, i32),
    anchor: Anchor,
    gap_v: (i32, i32),
    gap_h: (i32, i32),
    size: i32,
)
    requires
        fits_desktop(desktop_size, anchor, gap_v, gap_h, size),
    ensures
        ({
            let (x, y) = strip_position(desktop_size, anchor, gap_v, gap_h, size);
            let (width, height) = strip_size(desktop_size, anchor, gap_v, gap_h, size);
            &&& 0 <= x && 0 <= width && x + width <= desktop_size.0
            &&& 0 <= y && 0 <= height && y + height <= desktop_size.1
        }),
{
}

} // verus!
