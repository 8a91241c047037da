//! Nearest-neighbour scaling to an exact size.
use super::config::{ScaleSize, TransformError};
use super::{remap_frame, remapped, SourceMap};
use crate::frame::{Frame, FrameView};
use vstd::prelude::*;

verus! {

/// What `scale` gives for a frame with model `v`.
pub open spec fn scale_result(v: FrameView, size: ScaleSize) -> Result<FrameView, TransformError> {
    if size.width == 0 || size.height == 0 {
        Err(TransformError::ScaleToZero { width: size.width, height: size.height })
    } else {
        Ok(remapped(v, size.width as nat, size.height as nat, SourceMap::Nearest))
    }
}

/// Resizes `frame` to `size`, taking each output pixel from the nearest source
/// pixel to its left and above.
pub fn scale(frame: &Frame, size: ScaleSize) -> (result: Result<Frame, TransformError>)
    ensures
        match (result, scale_result(frame@, size)) {
            (Ok(out), Ok(v)) => out@ == v,
            (Err(e), Err(f)) => e == f,
            _ => false,
        },
{
    if size.width == 0 || size.height == 0 {
        return Err(TransformError::ScaleToZero { width: size.width, height: size.height });
    }
    Ok(remap_frame(frame, size.width, size.height, SourceMap::Nearest))
}

/// `dst * src_len / max(dst_len, 1)`, saturated to `u32::MAX`.
pub fn nearest_index(dst: u32, dst_len: u32, src_len: u32) -> (src: u32)
    ensures
        src == (if dst * src_len / (if dst_len == 0 { 1 } else { dst_len as int }) > u32::MAX {
            u32::MAX as int
        } else {
            dst * src_len / (if dst_len == 0 { 1 } else { dst_len as int })
        }),
        dst < dst_len ==> src < src_len || src_len == 0,
{
    let dst = dst as u64;
    let dst_len = if dst_len as u64 > 1 { dst_len as u64 } else { 1 };
    let src_len = src_len as u64;
    proof {
        assert(dst * src_len <= u32::MAX * u32::MAX) by (nonlinear_arith)
            requires
                dst <= u32::MAX,
                src_len <= u32::MAX,
        ;
    }
    let src = dst * src_len / dst_len;
    proof {
        if dst < dst_len && src_len > 0 {
            assert((dst * src_len) / (dst_len as int) < src_len) by (nonlinear_arith)
                requires
                    dst < dst_len,
                    src_len > 0,
                    dst_len > 0,
            ;
        }
    }
    if src > u32::MAX as u64 {
        u32::MAX
    } else {
        src as u32
    }
}

} // verus!
