use vstd::prelude::*;

verus! {

/// An axis-aligned pixel rectangle: top-left corner and size.
#[derive(Clone, Copy, Debug, PartialEq, Eq, Structural)]
pub struct PixelRect {
    pub x: i32,
    pub y: i32,
    pub width: i32,
    pub height: i32,
}

pub open spec fn max_i(a: int, b: int) -> int {
    if a >= b {
        a
    } else {
        b
    }
}

pub open spec fn min_i(a: int, b: int) -> int {
    if a <= b {
        a
    } else {
        b
    }
}

/// The whole frame, at least one pixel wide and high.
pub fn full_frame_rect(frame_width: i32, frame_height: i32) -> (r: PixelRect)
    ensures
        r == (PixelRect {
            x: 0,
            y: 0,
            width: max_i(frame_width as int, 1) as i32,
            height: max_i(frame_height as int, 1) as i32,
        }),
{
    let width = if frame_width < 1 {
        1
    } else {
        frame_width
    };
    let height = if frame_height < 1 {
        1
    } else {
        frame_height
    };
    PixelRect { x: 0, y: 0, width, height }
}

/// A crop extent starting at `offset` cut to what is left of a frame of
/// size `frame` (at least one pixel), and never below one pixel.
pub open spec fn spec_fit_extent(offset: int, extent: int, frame: int) -> int {
    max_i(min_i(extent, max_i(frame - offset, 1)), 1)
}

/// Cut a rounded crop extent so the crop stays inside the frame.
pub fn fit_extent(offset: i32, extent: i32, frame: i32) -> (r: i32)
    requires
        frame - offset <= i32::MAX,
        frame - offset >= i32::MIN,
    ensures
        r == spec_fit_extent(offset as int, extent as int, frame as int),
{
    let left = frame - offset;
    let room = if left < 1 {
        1
    } else {
        left
    };
    let cut = if extent < room {
        extent
    } else {
        room
    };
    if cut < 1 {
        1
    } else {
        cut
    }
}

/// A fitted crop is at least one pixel, and when it starts inside the frame
/// it ends inside the frame too.
pub proof fn lemma_fit_extent_inside(offset: int, extent: int, frame: int)
    ensures
        spec_fit_extent(offset, extent, frame) >= 1,
        offset < frame ==> offset + spec_fit_extent(offset, extent, frame) <= frame,
        1 <= extent && offset + extent <= frame ==> spec_fit_extent(offset, extent, frame)
            == extent,
{
}

} // verus!
