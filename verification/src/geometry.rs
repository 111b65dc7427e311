use crate::error::EngineError;
use vstd::prelude::*;

verus! {

/// Widths at or below this many physical pixels are implausible for a
/// character's bounding rectangle.
pub const MIN_VALID_WIDTH: i64 = 1;

/// Heights at or above this are outside the sane small-text range.
pub const MAX_VALID_HEIGHT: i64 = 100;

/// Coordinates at or beyond this are outside the sane screen-size bound.
pub const MAX_VALID_COORDINATE: i64 = 10000;

/// A character bounding rectangle reported by the platform, in whole
/// physical pixels.
#[derive(Debug, Clone, Copy, PartialEq, Eq, Structural)]
pub struct PixelRect {
    pub left: i64,
    pub top: i64,
    pub width: i64,
    pub height: i64,
}

/// A plausible on-screen rectangle for selected text: width above the
/// minimum, height in the small-text range, origin non-negative and within
/// the screen-size bound.
pub open spec fn spec_rect_valid(r: PixelRect) -> bool {
    &&& r.width > MIN_VALID_WIDTH
    &&& r.height > 0
    &&& r.height < MAX_VALID_HEIGHT
    &&& r.left >= 0
    &&& r.left < MAX_VALID_COORDINATE
    &&& r.top >= 0
    &&& r.top < MAX_VALID_COORDINATE
}

/// A rectangle whose bottom-right corner can actually be handed out: it is
/// plausible and the corner fits the machine's integer range.
pub open spec fn spec_anchor_ok(r: PixelRect) -> bool {
    spec_rect_valid(r) && r.left + r.width <= i64::MAX
}

/// The bottom-right corner of a rectangle.
pub open spec fn spec_bottom_right(r: PixelRect) -> (int, int) {
    (r.left + r.width, r.top + r.height)
}

/// The bottom-right corner of the last selected character's rectangle — the
/// point a result popup is anchored at.  An implausible rectangle is
/// rejected as `InvalidBounds` rather than returned as garbage geometry,
/// and so is one whose corner overflows the integer range.
pub fn selection_anchor(rect: &PixelRect) -> (r: Result<(i64, i64), EngineError>)
    ensures
        match r {
            Ok(p) => spec_anchor_ok(*rect) && (p.0 as int, p.1 as int) == spec_bottom_right(*rect),
            Err(e) => e == EngineError::InvalidBounds && !spec_anchor_ok(*rect),
        },
{
    if !(rect.width > MIN_VALID_WIDTH && rect.height > 0 && rect.height < MAX_VALID_HEIGHT
        && rect.left >= 0 && rect.left < MAX_VALID_COORDINATE && rect.top >= 0 && rect.top
        < MAX_VALID_COORDINATE) {
        return Err(EngineError::InvalidBounds);
    }
    if rect.width > i64::MAX - rect.left {
        return Err(EngineError::InvalidBounds);
    }
    Ok((rect.left + rect.width, rect.top + rect.height))
}

/// The anchor taken from a list of per-line bounding rectangles: scanned
/// from the end, the last rectangle that yields a plausible anchor wins —
/// the visual end of the selection.
pub open spec fn spec_last_anchor(rects: Seq<PixelRect>) -> Option<(int, int)>
    decreases rects.len(),
{
    if rects.len() == 0 {
        None
    } else if spec_anchor_ok(rects[rects.len() - 1]) {
        Some(spec_bottom_right(rects[rects.len() - 1]))
    } else {
        spec_last_anchor(rects.drop_last())
    }
}

/// Finds the anchor among the selection's bounding rectangles, or rejects
/// the lot as `InvalidBounds` when none is plausible.
pub fn last_valid_anchor(rects: &Vec<PixelRect>) -> (r: Result<(i64, i64), EngineError>)
    ensures
        match r {
            Ok(p) => spec_last_anchor(rects@) == Some((p.0 as int, p.1 as int)),
            Err(e) => e == EngineError::InvalidBounds && spec_last_anchor(rects@) is None,
        },
{
    let mut i: usize = rects.len();
    proof {
        assert(rects@.take(i as int) =~= rects@);
    }
    while i > 0
        invariant
            i <= rects@.len(),
            spec_last_anchor(rects@) == spec_last_anchor(rects@.take(i as int)),
        decreases i,
    {
        i = i - 1;
        proof {
            assert(rects@.take(i + 1).drop_last() =~= rects@.take(i as int));
            assert(rects@.take(i + 1)[i as int] == rects@[i as int]);
        }
        match selection_anchor(&rects[i]) {
            Ok(p) => {
                return Ok(p);
            },
            Err(_) => {},
        }
    }
    Err(EngineError::InvalidBounds)
}

} // verus!
