//! Cropping to a rectangle of the frame.
use super::config::{CropRect, TransformError};
use super::{remap_frame, remapped, SourceMap};
use crate::frame::{Frame, FrameView};
use vstd::prelude::*;

verus! {

/// What `crop` gives for a frame with model `v`.
pub open spec fn crop_result(v: FrameView, rect: CropRect) -> Result<FrameView, TransformError> {
    if rect.width == 0 || rect.height == 0 {
        Err(TransformError::CropZeroSize)
    } else if rect.x + rect.width > v.width || rect.y + rect.height > v.height {
        Err(
            TransformError::CropOutOfBounds {
                width: rect.width,
                height: rect.height,
                x: rect.x,
                y: rect.y,
                frame_width: v.width as u32,
                frame_height: v.height as u32,
            },
        )
    } else {
        Ok(remapped(v, rect.width as nat, rect.height as nat, SourceMap::Offset { x0: rect.x, y0: rect.y }))
    }
}

/// Copies the `rect` part of `frame`.
pub fn crop(frame: &Frame, rect: CropRect) -> (result: Result<Frame, TransformError>)
    ensures
        match (result, crop_result(frame@, rect)) {
            (Ok(out), Ok(v)) => out@ == v,
            (Err(e), Err(f)) => e == f,
            _ => false,
        },
{
    if rect.width == 0 || rect.height == 0 {
        return Err(TransformError::CropZeroSize);
    }
    let frame_width = frame.width();
    let frame_height = frame.height();
    let fits = match (rect.x.checked_add(rect.width), rect.y.checked_add(rect.height)) {
        (Some(right), Some(bottom)) => right <= frame_width && bottom <= frame_height,
        _ => false,
    };
    if !fits {
        return Err(
            TransformError::CropOutOfBounds {
                width: rect.width,
                height: rect.height,
                x: rect.x,
                y: rect.y,
                frame_width,
                frame_height,
            },
        );
    }
    Ok(remap_frame(frame, rect.width, rect.height, SourceMap::Offset { x0: rect.x, y0: rect.y }))
}

} // verus!
