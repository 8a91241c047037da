//! Properties of the transform chain that hold for every well-formed frame.
use super::config::{CropRect, Flip, Rotation, ScaleSize, TransformConfig};
use super::crop::crop_result;
use super::flip::flipped;
use super::rotate::rotated;
use super::scale::scale_result;
use super::{applied, pre_scale_dims, remapped, source_x, source_y, SourceMap};
use crate::frame::{lemma_remap_byte, lemma_view_ext, FrameView};
use vstd::prelude::*;

verus! {

/// A remapped frame of non-zero size is well formed, and its pixel `(x, y)`
/// is the source pixel its map names.
proof fn lemma_remapped_byte(v: FrameView, w: nat, h: nat, m: SourceMap, x: int, y: int, c: int)
    requires
        w > 0,
        h > 0,
        0 <= x < w,
        0 <= y < h,
        0 <= c < 4,
    ensures
        remapped(v, w, h, m).wf(),
        remapped(v, w, h, m).width == w,
        remapped(v, w, h, m).height == h,
        remapped(v, w, h, m).byte(x, y, c) == v.byte(
            source_x(m, v, w, x, y),
            source_y(m, v, h, x, y),
            c,
        ),
{
    lemma_remap_byte(
        v,
        w,
        h,
        |x: int, y: int| source_x(m, v, w, x, y),
        |x: int, y: int| source_y(m, v, h, x, y),
        x,
        y,
        c,
    );
}

proof fn lemma_remapped_wf(v: FrameView, w: nat, h: nat, m: SourceMap)
    requires
        w > 0,
        h > 0,
    ensures
        remapped(v, w, h, m).wf(),
        remapped(v, w, h, m).width == w,
        remapped(v, w, h, m).height == h,
{
    lemma_remapped_byte(v, w, h, m, 0, 0, 0);
}

/// Flipping twice in the same direction gives back the frame it started from.
pub proof fn flip_is_involution(v: FrameView, direction: Flip)
    requires
        v.wf(),
    ensures
        flipped(flipped(v, direction), direction) == v,
{
    let m = match direction {
        Flip::Keep => SourceMap::MirrorX,
        Flip::Horizontal => SourceMap::MirrorX,
        Flip::Vertical => SourceMap::MirrorY,
        Flip::Both => SourceMap::MirrorXY,
    };
    if direction != Flip::Keep {
        let once = remapped(v, v.width, v.height, m);
        lemma_remapped_wf(v, v.width, v.height, m);
        let twice = remapped(once, v.width, v.height, m);
        lemma_remapped_wf(once, v.width, v.height, m);
        assert forall|x: int, y: int, c: int|
            0 <= x < twice.width && 0 <= y < twice.height && 0 <= c < 4 implies #[trigger] twice.byte(
            x,
            y,
            c,
        ) == v.byte(x, y, c) by {
            lemma_remapped_byte(once, v.width, v.height, m, x, y, c);
            lemma_remapped_byte(
                v,
                v.width,
                v.height,
                m,
                source_x(m, once, v.width, x, y),
                source_y(m, once, v.height, x, y),
                c,
            );
        }
        lemma_view_ext(twice, v);
    }
}

/// A clockwise quarter turn followed by a counter-clockwise one gives back the
/// frame it started from.
pub proof fn rotate_quarter_turns_cancel(v: FrameView)
    requires
        v.wf(),
    ensures
        rotated(rotated(v, Rotation::R90), Rotation::R270) == v,
        rotated(rotated(v, Rotation::R270), Rotation::R90) == v,
{
    let cw = remapped(v, v.height, v.width, SourceMap::TurnCw);
    lemma_remapped_wf(v, v.height, v.width, SourceMap::TurnCw);
    let back = remapped(cw, v.width, v.height, SourceMap::TurnCcw);
    lemma_remapped_wf(cw, v.width, v.height, SourceMap::TurnCcw);
    assert forall|x: int, y: int, c: int|
        0 <= x < back.width && 0 <= y < back.height && 0 <= c < 4 implies #[trigger] back.byte(
        x,
        y,
        c,
    ) == v.byte(x, y, c) by {
        lemma_remapped_byte(cw, v.width, v.height, SourceMap::TurnCcw, x, y, c);
        lemma_remapped_byte(v, v.height, v.width, SourceMap::TurnCw, v.height - 1 - y, x, c);
    }
    lemma_view_ext(back, v);

    let ccw = remapped(v, v.height, v.width, SourceMap::TurnCcw);
    lemma_remapped_wf(v, v.height, v.width, SourceMap::TurnCcw);
    let back2 = remapped(ccw, v.width, v.height, SourceMap::TurnCw);
    lemma_remapped_wf(ccw, v.width, v.height, SourceMap::TurnCw);
    assert forall|x: int, y: int, c: int|
        0 <= x < back2.width && 0 <= y < back2.height && 0 <= c < 4 implies #[trigger] back2.byte(
        x,
        y,
        c,
    ) == v.byte(x, y, c) by {
        lemma_remapped_byte(ccw, v.width, v.height, SourceMap::TurnCw, x, y, c);
        lemma_remapped_byte(v, v.height, v.width, SourceMap::TurnCcw, y, v.width - 1 - x, c);
    }
    lemma_view_ext(back2, v);
}

/// Two clockwise quarter turns make a half turn, and a half turn is the same
/// as mirroring both axes.
pub proof fn rotate_half_turn(v: FrameView)
    requires
        v.wf(),
    ensures
        rotated(rotated(v, Rotation::R90), Rotation::R90) == rotated(v, Rotation::R180),
        rotated(v, Rotation::R180) == flipped(v, Flip::Both),
{
    let cw = remapped(v, v.height, v.width, SourceMap::TurnCw);
    lemma_remapped_wf(v, v.height, v.width, SourceMap::TurnCw);
    let twice = remapped(cw, v.width, v.height, SourceMap::TurnCw);
    lemma_remapped_wf(cw, v.width, v.height, SourceMap::TurnCw);
    let half = remapped(v, v.width, v.height, SourceMap::MirrorXY);
    lemma_remapped_wf(v, v.width, v.height, SourceMap::MirrorXY);
    assert forall|x: int, y: int, c: int|
        0 <= x < twice.width && 0 <= y < twice.height && 0 <= c < 4 implies #[trigger] twice.byte(
        x,
        y,
        c,
    ) == half.byte(x, y, c) by {
        lemma_remapped_byte(cw, v.width, v.height, SourceMap::TurnCw, x, y, c);
        lemma_remapped_byte(v, v.height, v.width, SourceMap::TurnCw, y, v.width - 1 - x, c);
        lemma_remapped_byte(v, v.width, v.height, SourceMap::MirrorXY, x, y, c);
    }
    lemma_view_ext(twice, half);
}

/// Four clockwise quarter turns give back the frame they started from.
pub proof fn rotate_full_turn(v: FrameView)
    requires
        v.wf(),
    ensures
        rotated(rotated(rotated(rotated(v, Rotation::R90), Rotation::R90), Rotation::R90), Rotation::R90)
            == v,
{
    rotate_half_turn(v);
    let half = rotated(v, Rotation::R180);
    lemma_remapped_wf(v, v.width, v.height, SourceMap::MirrorXY);
    rotate_half_turn(half);
    flip_is_involution(v, Flip::Both);
}

/// Rotating by a quarter turn swaps the dimensions; a half turn keeps them.
pub proof fn rotate_dimensions(v: FrameView, rotation: Rotation)
    requires
        v.wf(),
    ensures
        rotated(v, rotation).wf(),
        rotation == Rotation::R90 || rotation == Rotation::R270 ==> rotated(v, rotation).width
            == v.height && rotated(v, rotation).height == v.width,
        rotation == Rotation::R0 || rotation == Rotation::R180 ==> rotated(v, rotation).width
            == v.width && rotated(v, rotation).height == v.height,
{
    lemma_remapped_wf(v, v.height, v.width, SourceMap::TurnCw);
    lemma_remapped_wf(v, v.height, v.width, SourceMap::TurnCcw);
    lemma_remapped_wf(v, v.width, v.height, SourceMap::MirrorXY);
}

/// Cropping the whole frame changes nothing; a crop that fits has exactly the
/// rectangle's size and pixel `(x, y)` of the crop is pixel `(rect.x + x,
/// rect.y + y)` of the frame.
pub proof fn crop_laws(v: FrameView, rect: CropRect)
    requires
        v.wf(),
    ensures
        rect.x == 0 && rect.y == 0 && rect.width == v.width && rect.height == v.height
            ==> crop_result(v, rect) == Ok::<FrameView, super::config::TransformError>(v),
        crop_result(v, rect) matches Ok(c) ==> {
            &&& c.wf()
            &&& c.width == rect.width
            &&& c.height == rect.height
            &&& forall|x: int, y: int, ch: int|
                0 <= x < c.width && 0 <= y < c.height && 0 <= ch < 4 ==> #[trigger] c.byte(x, y, ch)
                    == v.byte(rect.x + x, rect.y + y, ch)
        },
{
    let m = SourceMap::Offset { x0: rect.x, y0: rect.y };
    if crop_result(v, rect) is Ok {
        let c = remapped(v, rect.width as nat, rect.height as nat, m);
        lemma_remapped_wf(v, rect.width as nat, rect.height as nat, m);
        assert forall|x: int, y: int, ch: int|
            0 <= x < c.width && 0 <= y < c.height && 0 <= ch < 4 implies #[trigger] c.byte(x, y, ch)
            == v.byte(rect.x + x, rect.y + y, ch) by {
            lemma_remapped_byte(v, rect.width as nat, rect.height as nat, m, x, y, ch);
        }
        if rect.x == 0 && rect.y == 0 && rect.width == v.width && rect.height == v.height {
            lemma_view_ext(c, v);
        }
    }
}

/// Scaling to the frame's own size changes nothing.
pub proof fn scale_to_same_size_is_identity(v: FrameView)
    requires
        v.wf(),
        v.width <= u32::MAX,
        v.height <= u32::MAX,
    ensures
        scale_result(v, ScaleSize { width: v.width as u32, height: v.height as u32 }) == Ok::<
            FrameView,
            super::config::TransformError,
        >(v),
{
    let s = remapped(v, v.width, v.height, SourceMap::Nearest);
    lemma_remapped_wf(v, v.width, v.height, SourceMap::Nearest);
    assert forall|x: int, y: int, c: int|
        0 <= x < s.width && 0 <= y < s.height && 0 <= c < 4 implies #[trigger] s.byte(x, y, c)
        == v.byte(x, y, c) by {
        lemma_remapped_byte(v, v.width, v.height, SourceMap::Nearest, x, y, c);
        vstd::arithmetic::div_mod::lemma_div_by_multiple(x, v.width as int);
        vstd::arithmetic::div_mod::lemma_div_by_multiple(y, v.height as int);
        assert(x * v.width == v.width * x) by (nonlinear_arith);
        assert(y * v.height == v.height * y) by (nonlinear_arith);
    }
    lemma_view_ext(s, v);
}

/// The default configuration leaves every frame unchanged.
pub proof fn default_config_is_identity(v: FrameView)
    requires
        v.wf(),
    ensures
        applied(
            v,
            TransformConfig { crop: None, rotation: Rotation::R0, flip: Flip::Keep, scale: None },
        ) == Ok::<FrameView, super::config::TransformError>(v),
{
}

/// Flipping keeps a frame's size.
proof fn lemma_flip_keeps_size(v: FrameView, direction: Flip)
    requires
        v.wf(),
    ensures
        flipped(v, direction).wf(),
        flipped(v, direction).width == v.width,
        flipped(v, direction).height == v.height,
{
    lemma_remapped_wf(v, v.width, v.height, SourceMap::MirrorX);
    lemma_remapped_wf(v, v.width, v.height, SourceMap::MirrorY);
    lemma_remapped_wf(v, v.width, v.height, SourceMap::MirrorXY);
}

/// The size a factor scale is applied to is the size of the frame the
/// scaling step receives: whenever the chain without its scale succeeds, its
/// output has exactly the width and height `pre_scale_dims` (and so
/// `unscaled_dims`) reports. So a quarter turn either way swaps the sides of
/// the cropped frame, and a half turn or none keeps them.
pub proof fn unscaled_dims_are_what_scaling_receives(v: FrameView, config: TransformConfig)
    requires
        v.wf(),
        v.width <= u32::MAX,
        v.height <= u32::MAX,
    ensures
        applied(
            v,
            TransformConfig { crop: config.crop, rotation: config.rotation, flip: config.flip, scale: None },
        ) matches Ok(out) ==> {
            &&& out.width == pre_scale_dims(v.width as u32, v.height as u32, config).0
            &&& out.height == pre_scale_dims(v.width as u32, v.height as u32, config).1
        },
{
    let unscaled = TransformConfig {
        crop: config.crop,
        rotation: config.rotation,
        flip: config.flip,
        scale: None,
    };
    let cropped = match config.crop {
        Some(rect) => crop_result(v, rect),
        None => Ok(v),
    };
    if let Some(rect) = config.crop {
        crop_laws(v, rect);
    }
    if let Ok(c) = cropped {
        rotate_dimensions(c, config.rotation);
        lemma_flip_keeps_size(rotated(c, config.rotation), config.flip);
    }
}

} // verus!
