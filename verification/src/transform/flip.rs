//! Mirror flips. Dimensions never change.
//!
//! - Horizontal: output(x, y) = input(width - 1 - x, y)
//! - Vertical:   output(x, y) = input(x, height - 1 - y)
//! - Both:       output(x, y) = input(width - 1 - x, height - 1 - y)
use super::config::Flip;
use super::{remap_frame, remapped, SourceMap};
use crate::frame::{Frame, FrameView};
use vstd::prelude::*;

verus! {

/// The model of `frame` mirrored in `direction`.
pub open spec fn flipped(v: FrameView, direction: Flip) -> FrameView {
    match direction {
        Flip::Keep => v,
        Flip::Horizontal => remapped(v, v.width, v.height, SourceMap::MirrorX),
        Flip::Vertical => remapped(v, v.width, v.height, SourceMap::MirrorY),
        Flip::Both => remapped(v, v.width, v.height, SourceMap::MirrorXY),
    }
}

pub fn flip(frame: &Frame, direction: Flip) -> (out: Frame)
    ensures
        out@ == flipped(frame@, direction),
{
    match direction {
        Flip::Keep => frame.clone(),
        Flip::Horizontal => flip_horizontal(frame),
        Flip::Vertical => flip_vertical(frame),
        Flip::Both => flip_both(frame),
    }
}

pub fn flip_horizontal(frame: &Frame) -> (out: Frame)
    ensures
        out@ == flipped(frame@, Flip::Horizontal),
{
    let width = frame.width();
    let height = frame.height();
    remap_frame(frame, width, height, SourceMap::MirrorX)
}

pub fn flip_vertical(frame: &Frame) -> (out: Frame)
    ensures
        out@ == flipped(frame@, Flip::Vertical),
{
    let width = frame.width();
    let height = frame.height();
    remap_frame(frame, width, height, SourceMap::MirrorY)
}

pub fn flip_both(frame: &Frame) -> (out: Frame)
    ensures
        out@ == flipped(frame@, Flip::Both),
{
    let width = frame.width();
    let height = frame.height();
    remap_frame(frame, width, height, SourceMap::MirrorXY)
}

} // verus!
