//! Geometric frame transforms: crop, rotate, flip and nearest-neighbour scale.
use crate::frame::{lemma_offset_compose, remap, Frame, FrameView};
use vstd::prelude::*;

pub mod config;
pub mod crop;
pub mod flip;
pub mod laws;
pub mod rotate;
pub mod scale;

pub use config::{CropRect, Flip, Rotation, ScaleSize, TransformConfig, TransformError};

verus! {

/// How an output pixel finds its source pixel.
#[derive(Clone, Copy)]
pub enum SourceMap {
    /// `(x0 + x, y0 + y)`
    Offset { x0: u32, y0: u32 },
    /// `(w - 1 - x, y)`
    MirrorX,
    /// `(w - 1 - x, h - 1 - y)`
    MirrorXY,
    /// `(x, h - 1 - y)`
    MirrorY,
    /// `(y, h - 1 - x)`: clockwise quarter turn
    TurnCw,
    /// `(w - 1 - y, x)`: counter-clockwise quarter turn
    TurnCcw,
    /// `(x * w / out_w, y * h / out_h)`: nearest neighbour
    Nearest,
}

/// Source column of output pixel `(x, y)` of an `out_w x out_h` frame built
/// from `src` by `m`.
pub open spec fn source_x(m: SourceMap, src: FrameView, out_w: nat, x: int, y: int) -> int {
    match m {
        SourceMap::Offset { x0, y0 } => x0 + x,
        SourceMap::MirrorX => src.width - 1 - x,
        SourceMap::MirrorXY => src.width - 1 - x,
        SourceMap::MirrorY => x,
        SourceMap::TurnCw => y,
        SourceMap::TurnCcw => src.width - 1 - y,
        SourceMap::Nearest => (x * src.width) / (out_w as int),
    }
}

/// Source row of output pixel `(x, y)`; see `source_x`.
pub open spec fn source_y(m: SourceMap, src: FrameView, out_h: nat, x: int, y: int) -> int {
    match m {
        SourceMap::Offset { x0, y0 } => y0 + y,
        SourceMap::MirrorX => y,
        SourceMap::MirrorXY => src.height - 1 - y,
        SourceMap::MirrorY => src.height - 1 - y,
        SourceMap::TurnCw => src.height - 1 - x,
        SourceMap::TurnCcw => x,
        SourceMap::Nearest => (y * src.height) / (out_h as int),
    }
}

/// The `out_w x out_h` frame built from `src` by `m`.
pub open spec fn remapped(src: FrameView, out_w: nat, out_h: nat, m: SourceMap) -> FrameView {
    remap(
        src,
        out_w,
        out_h,
        |x: int, y: int| source_x(m, src, out_w, x, y),
        |x: int, y: int| source_y(m, src, out_h, x, y),
    )
}

/// Every output pixel of an `out_w x out_h` frame maps inside `src`.
pub open spec fn map_fits(m: SourceMap, src: FrameView, out_w: nat, out_h: nat) -> bool {
    match m {
        SourceMap::Offset { x0, y0 } => x0 + out_w <= src.width && y0 + out_h <= src.height,
        SourceMap::MirrorX | SourceMap::MirrorXY | SourceMap::MirrorY => out_w == src.width
            && out_h == src.height,
        SourceMap::TurnCw | SourceMap::TurnCcw => out_w == src.height && out_h == src.width,
        SourceMap::Nearest => true,
    }
}

/// The exact source pixel of output pixel `(x, y)`.
fn source_of(m: SourceMap, w_in: u32, h_in: u32, out_w: u32, out_h: u32, x: u32, y: u32) -> (sxy:
    (u32, u32))
    requires
        w_in > 0,
        h_in > 0,
        x < out_w,
        y < out_h,
        map_fits(
            m,
            FrameView { width: w_in as nat, height: h_in as nat, data: Seq::empty() },
            out_w as nat,
            out_h as nat,
        ),
    ensures
        ({
            let v = FrameView { width: w_in as nat, height: h_in as nat, data: Seq::empty() };
            &&& sxy.0 == source_x(m, v, out_w as nat, x as int, y as int)
            &&& sxy.1 == source_y(m, v, out_h as nat, x as int, y as int)
            &&& sxy.0 < w_in
            &&& sxy.1 < h_in
        }),
{
    match m {
        SourceMap::Offset { x0, y0 } => (x0 + x, y0 + y),
        SourceMap::MirrorX => (w_in - 1 - x, y),
        SourceMap::MirrorXY => (w_in - 1 - x, h_in - 1 - y),
        SourceMap::MirrorY => (x, h_in - 1 - y),
        SourceMap::TurnCw => (y, h_in - 1 - x),
        SourceMap::TurnCcw => (w_in - 1 - y, x),
        SourceMap::Nearest => (
            scale::nearest_index(x, out_w, w_in),
            scale::nearest_index(y, out_h, h_in),
        ),
    }
}

/// Builds the `out_w x out_h` frame whose pixels `m` takes from `frame`.
fn remap_frame(frame: &Frame, out_w: u32, out_h: u32, m: SourceMap) -> (out: Frame)
    requires
        out_w > 0,
        out_h > 0,
        map_fits(m, frame@, out_w as nat, out_h as nat),
    ensures
        out@ == remapped(frame@, out_w as nat, out_h as nat, m),
{
    let w_in = frame.width();
    let h_in = frame.height();
    let ghost src = frame@;
    let ghost target = remapped(src, out_w as nat, out_h as nat, m);
    let ghost shape = FrameView { width: w_in as nat, height: h_in as nat, data: Seq::empty() };
    assert(map_fits(m, shape, out_w as nat, out_h as nat));
    let mut data: Vec<u8> = Vec::new();
    let mut y: u32 = 0;
    while y < out_h
        invariant
            y <= out_h,
            src == frame@,
            src.wf(),
            w_in == src.width,
            h_in == src.height,
            out_w > 0,
            out_h > 0,
            map_fits(m, shape, out_w as nat, out_h as nat),
            shape == (FrameView { width: w_in as nat, height: h_in as nat, data: Seq::empty() }),
            target == remapped(src, out_w as nat, out_h as nat, m),
            target.data.len() == out_w * out_h * 4,
            data@.len() == y * out_w * 4,
            data@ == target.data.take(data@.len() as int),
        decreases out_h - y,
    {
        let mut x: u32 = 0;
        while x < out_w
            invariant
                x <= out_w,
                y < out_h,
                src == frame@,
                src.wf(),
                w_in == src.width,
                h_in == src.height,
                out_w > 0,
                out_h > 0,
                map_fits(m, shape, out_w as nat, out_h as nat),
                shape == (FrameView { width: w_in as nat, height: h_in as nat, data: Seq::empty() }),
                target == remapped(src, out_w as nat, out_h as nat, m),
                target.data.len() == out_w * out_h * 4,
                data@.len() == (y * out_w + x) * 4,
                data@ == target.data.take(data@.len() as int),
            decreases out_w - x,
        {
            let (sx, sy) = source_of(m, w_in, h_in, out_w, out_h, x, y);
            let pixel = frame.pixel(sx, sy).unwrap_or([0, 0, 0, 0]);
            let ghost before = data@;
            let ghost k = (y * out_w + x) * 4;
            proof {
                assert(source_x(m, src, out_w as nat, x as int, y as int) == source_x(
                    m,
                    shape,
                    out_w as nat,
                    x as int,
                    y as int,
                ));
                assert(source_y(m, src, out_h as nat, x as int, y as int) == source_y(
                    m,
                    shape,
                    out_h as nat,
                    x as int,
                    y as int,
                ));
                assert forall|c: int| 0 <= c < 4 implies target.data[k + c] == pixel@[c] by {
                    lemma_offset_compose(x as int, y as int, c, out_w as int, out_h as int);
                }
            }
            data.push(pixel[0]);
            data.push(pixel[1]);
            data.push(pixel[2]);
            data.push(pixel[3]);
            proof {
                lemma_offset_compose(x as int, y as int, 3, out_w as int, out_h as int);
                assert(data@ =~= target.data.take(k + 4));
                assert((y * out_w + (x + 1)) * 4 == k + 4) by (nonlinear_arith)
                    requires
                        k == (y * out_w + x) * 4,
                ;
            }
            x = x + 1;
        }
        proof {
            assert((y * out_w + out_w) * 4 == (y + 1) * out_w * 4) by (nonlinear_arith);
        }
        y = y + 1;
    }
    proof {
        assert(out_h * out_w * 4 == out_w * out_h * 4) by (nonlinear_arith);
        assert(data@ =~= target.data);
    }
    Frame::from_validated(out_w, out_h, data)
}

/// The result of applying `config` to a frame with model `v`: the error of the
/// first step that rejects it, else the transformed frame.
pub open spec fn applied(v: FrameView, config: TransformConfig) -> Result<FrameView, TransformError> {
    let after_crop = match config.crop {
        Some(rect) => crop::crop_result(v, rect),
        None => Ok(v),
    };
    match after_crop {
        Err(e) => Err(e),
        Ok(c) => {
            let turned = rotate::rotated(c, config.rotation);
            let mirrored = flip::flipped(turned, config.flip);
            match config.scale {
                Some(size) => scale::scale_result(mirrored, size),
                None => Ok(mirrored),
            }
        },
    }
}

/// Applies the whole chain: crop, then rotate, then flip, then scale.
pub fn apply(frame: &Frame, config: &TransformConfig) -> (result: Result<Frame, TransformError>)
    ensures
        match (result, applied(frame@, *config)) {
            (Ok(out), Ok(v)) => out@ == v,
            (Err(e), Err(f)) => e == f,
            _ => false,
        },
{
    let _ = frame.width();
    let cropped = match config.crop {
        Some(rect) => match crop::crop(frame, rect) {
            Ok(c) => c,
            Err(e) => return Err(e),
        },
        None => frame.clone(),
    };
    let turned = rotate::rotate(&cropped, config.rotation);
    let mirrored = flip::flip(&turned, config.flip);
    match config.scale {
        Some(size) => scale::scale(&mirrored, size),
        None => Ok(mirrored),
    }
}

/// Width and height a frame of `width` by `height` has after the crop and the
/// rotation of `config`, before any scaling: the crop's size where there is a
/// crop, the sides swapped by a quarter turn either way.
pub open spec fn pre_scale_dims(width: u32, height: u32, config: TransformConfig) -> (u32, u32) {
    let (w, h) = match config.crop {
        Some(rect) => (rect.width, rect.height),
        None => (width, height),
    };
    match config.rotation {
        Rotation::R90 | Rotation::R270 => (h, w),
        _ => (w, h),
    }
}

/// The size the scaling step of `config` receives for a frame of `width` by
/// `height`; a factor scale is applied to this size.
pub fn unscaled_dims(width: u32, height: u32, config: &TransformConfig) -> (dims: (u32, u32))
    ensures
        dims == pre_scale_dims(width, height, *config),
{
    let (w, h) = match config.crop {
        Some(rect) => (rect.width, rect.height),
        None => (width, height),
    };
    match config.rotation {
        Rotation::R90 | Rotation::R270 => (h, w),
        _ => (w, h),
    }
}

} // verus!
