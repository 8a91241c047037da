//! Clockwise rotation. R90/R270 swap width and height; R180 keeps them.
//!
//! For a source frame of size `width_in x height_in`:
//! - R90:  output(x, y) = input(y, height_in - 1 - x)
//! - R180: output(x, y) = input(width_in - 1 - x, height_in - 1 - y)
//! - R270: output(x, y) = input(width_in - 1 - y, x)
use super::config::Rotation;
use super::{remap_frame, remapped, SourceMap};
use crate::frame::{Frame, FrameView};
use vstd::prelude::*;

verus! {

/// The model of a frame turned clockwise by `rotation`.
pub open spec fn rotated(v: FrameView, rotation: Rotation) -> FrameView {
    match rotation {
        Rotation::R0 => v,
        Rotation::R90 => remapped(v, v.height, v.width, SourceMap::TurnCw),
        Rotation::R180 => remapped(v, v.width, v.height, SourceMap::MirrorXY),
        Rotation::R270 => remapped(v, v.height, v.width, SourceMap::TurnCcw),
    }
}

pub fn rotate(frame: &Frame, rotation: Rotation) -> (out: Frame)
    ensures
        out@ == rotated(frame@, rotation),
{
    match rotation {
        Rotation::R0 => frame.clone(),
        Rotation::R90 => rotate_r90(frame),
        Rotation::R180 => rotate_r180(frame),
        Rotation::R270 => rotate_r270(frame),
    }
}

pub fn rotate_r90(frame: &Frame) -> (out: Frame)
    ensures
        out@ == rotated(frame@, Rotation::R90),
{
    let width_in = frame.width();
    let height_in = frame.height();
    remap_frame(frame, height_in, width_in, SourceMap::TurnCw)
}

pub fn rotate_r180(frame: &Frame) -> (out: Frame)
    ensures
        out@ == rotated(frame@, Rotation::R180),
{
    let width = frame.width();
    let height = frame.height();
    remap_frame(frame, width, height, SourceMap::MirrorXY)
}

pub fn rotate_r270(frame: &Frame) -> (out: Frame)
    ensures
        out@ == rotated(frame@, Rotation::R270),
{
    let width_in = frame.width();
    let height_in = frame.height();
    remap_frame(frame, height_in, width_in, SourceMap::TurnCcw)
}

} // verus!
