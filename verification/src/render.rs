use vstd::prelude::*;

verus! {

/// A colour in OpenCV's blue-green-red channel order.
#[derive(Clone, Copy, Debug, PartialEq, Eq, Structural)]
pub struct BgrColor {
    pub b: u8,
    pub g: u8,
    pub r: u8,
}

/// Overlay colour of target `index`: red, green, blue, yellow, magenta, then
/// again from red.
pub open spec fn spec_detection_color(index: nat) -> BgrColor {
    let k = index % 5;
    if k == 0 {
        BgrColor { b: 0, g: 0, r: 255 }
    } else if k == 1 {
        BgrColor { b: 0, g: 255, r: 0 }
    } else if k == 2 {
        BgrColor { b: 255, g: 0, r: 0 }
    } else if k == 3 {
        BgrColor { b: 0, g: 255, r: 255 }
    } else {
        BgrColor { b: 255, g: 0, r: 255 }
    }
}

/// Overlay colour for detections of target `target_index`.
pub fn detection_color(target_index: usize) -> (r: BgrColor)
    ensures
        r == spec_detection_color(target_index as nat),
{
    match target_index % 5 {
        0 => BgrColor { b: 0, g: 0, r: 255 },
        1 => BgrColor { b: 0, g: 255, r: 0 },
        2 => BgrColor { b: 255, g: 0, r: 0 },
        3 => BgrColor { b: 0, g: 255, r: 255 },
        _ => BgrColor { b: 255, g: 0, r: 255 },
    }
}

/// Targets five apart share a colour, and five neighbouring targets all get
/// different colours.
pub proof fn lemma_palette_cycles(index: nat)
    ensures
        spec_detection_color(index + 5) == spec_detection_color(index),
        forall|j: nat|
            index < j < index + 5 ==> spec_detection_color(j) != spec_detection_color(index),
{
    assert((index + 5) % 5 == index % 5);
    assert forall|j: nat| index < j < index + 5 implies spec_detection_color(j)
        != spec_detection_color(index) by {
        assert(j % 5 != index % 5);
    }
}

/// Horizontal padding between label text and its box.
pub const LABEL_PADDING_X: i32 = 4;

/// Vertical padding between label text and its box.
pub const LABEL_PADDING_Y: i32 = 3;

/// Distance of the text baseline above the marked point.
pub const LABEL_OFFSET_Y: i32 = 14;

/// Where a detection label goes: the text origin and its background box.
#[derive(Clone, Copy, Debug, PartialEq, Eq, Structural)]
pub struct LabelLayout {
    pub text_x: i32,
    pub text_y: i32,
    pub box_x: i32,
    pub box_y: i32,
    pub box_width: i32,
    pub box_height: i32,
}

pub open spec fn max_int(a: int, b: int) -> int {
    if a >= b {
        a
    } else {
        b
    }
}

/// Text centred above the point but not left of the image, baseline at
/// least one line plus padding below the top; the box wraps the text with
/// padding and never starts above the image.
pub open spec fn spec_label_layout(
    point_x: int,
    point_y: int,
    text_width: int,
    text_height: int,
    baseline: int,
) -> LabelLayout {
    let text_x = max_int(point_x - text_width / 2, 0);
    let text_y = max_int(point_y - LABEL_OFFSET_Y, text_height + LABEL_PADDING_Y);
    LabelLayout {
        text_x: text_x as i32,
        text_y: text_y as i32,
        box_x: (text_x - LABEL_PADDING_X) as i32,
        box_y: max_int(text_y - text_height - LABEL_PADDING_Y, 0) as i32,
        box_width: (text_width + 2 * LABEL_PADDING_X) as i32,
        box_height: (text_height + baseline + 2 * LABEL_PADDING_Y) as i32,
    }
}

/// Place the label of a detection at `(point_x, point_y)` whose text
/// measures `text_width` by `text_height` with `baseline` below it.
pub fn label_layout(point_x: i32, point_y: i32, text_width: i32, text_height: i32, baseline: i32) -> (r:
    LabelLayout)
    requires
        0 <= text_width,
        0 <= text_height,
        0 <= baseline,
        text_width + 2 * LABEL_PADDING_X <= i32::MAX,
        text_height + baseline + 2 * LABEL_PADDING_Y <= i32::MAX,
        point_x - text_width / 2 >= i32::MIN,
        point_y - LABEL_OFFSET_Y >= i32::MIN,
    ensures
        r == spec_label_layout(
            point_x as int,
            point_y as int,
            text_width as int,
            text_height as int,
            baseline as int,
        ),
        r.text_x >= 0,
        r.box_y >= 0,
{
    let mut text_x = point_x - text_width / 2;
    let mut text_y = point_y - LABEL_OFFSET_Y;
    if text_x < 0 {
        text_x = 0;
    }
    if text_y < text_height + LABEL_PADDING_Y {
        text_y = text_height + LABEL_PADDING_Y;
    }
    let box_x = text_x - LABEL_PADDING_X;
    let mut box_y = text_y - text_height - LABEL_PADDING_Y;
    if box_y < 0 {
        box_y = 0;
    }
    LabelLayout {
        text_x,
        text_y,
        box_x,
        box_y,
        box_width: text_width + 2 * LABEL_PADDING_X,
        box_height: text_height + baseline + 2 * LABEL_PADDING_Y,
    }
}

} // verus!
