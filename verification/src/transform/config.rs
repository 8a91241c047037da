//! Transform parameters and errors.
use crate::text::{append, append_u64, decimal};
use vstd::prelude::*;

verus! {

/// Clockwise rotation.
#[derive(Debug, Clone, Copy, PartialEq, Eq, Structural)]
pub enum Rotation {
    R0,
    R90,
    R180,
    R270,
}

impl Default for Rotation {
    fn default() -> (rotation: Self)
        ensures
            rotation == Rotation::R0,
    {
        Rotation::R0
    }
}

/// Mirror direction.
#[derive(Debug, Clone, Copy, PartialEq, Eq, Structural)]
pub enum Flip {
    Keep,
    Horizontal,
    Vertical,
    Both,
}

impl Default for Flip {
    fn default() -> (flip: Self)
        ensures
            flip == Flip::Keep,
    {
        Flip::Keep
    }
}

/// A `width x height` rectangle whose top-left corner is `(x, y)`.
#[derive(Debug, Clone, Copy, PartialEq, Eq, Structural)]
pub struct CropRect {
    pub width: u32,
    pub height: u32,
    pub x: u32,
    pub y: u32,
}

/// Exact output size of a scale step.
#[derive(Debug, Clone, Copy, PartialEq, Eq, Structural)]
pub struct ScaleSize {
    pub width: u32,
    pub height: u32,
}

/// Every step of the transform chain; applied crop, then rotate, then flip,
/// then scale.
#[derive(Debug, Clone, Copy, PartialEq, Eq, Structural)]
pub struct TransformConfig {
    pub crop: Option<CropRect>,
    pub rotation: Rotation,
    pub flip: Flip,
    pub scale: Option<ScaleSize>,
}

impl Default for TransformConfig {
    fn default() -> (config: Self)
        ensures
            config == (TransformConfig {
                crop: None,
                rotation: Rotation::R0,
                flip: Flip::Keep,
                scale: None,
            }),
    {
        TransformConfig { crop: None, rotation: Rotation::R0, flip: Flip::Keep, scale: None }
    }
}

#[derive(Debug, Clone, Copy, PartialEq, Eq, Structural)]
pub enum TransformError {
    CropOutOfBounds { width: u32, height: u32, x: u32, y: u32, frame_width: u32, frame_height: u32 },
    CropZeroSize,
    ScaleToZero { width: u32, height: u32 },
}

/// The message of a transform error.
pub open spec fn transform_error_text(e: TransformError) -> Seq<char> {
    match e {
        TransformError::CropOutOfBounds { width, height, x, y, frame_width, frame_height } =>
            "crop rect "@ + decimal(width as nat) + "x"@ + decimal(height as nat) + "+"@ + decimal(
            x as nat,
        ) + "+"@ + decimal(y as nat) + " exceeds frame bounds "@ + decimal(frame_width as nat)
            + "x"@ + decimal(frame_height as nat),
        TransformError::CropZeroSize => "crop dimensions must be non-zero"@,
        TransformError::ScaleToZero { width, height } => "scale result must be non-zero (got "@
            + decimal(width as nat) + "x"@ + decimal(height as nat) + ")"@,
    }
}

impl TransformError {
    pub fn message(&self) -> (text: String)
        ensures
            text@ == transform_error_text(*self),
    {
        let mut text = String::new();
        match *self {
            TransformError::CropOutOfBounds { width, height, x, y, frame_width, frame_height } => {
                append(&mut text, "crop rect ");
                append_u64(&mut text, width as u64);
                append(&mut text, "x");
                append_u64(&mut text, height as u64);
                append(&mut text, "+");
                append_u64(&mut text, x as u64);
                append(&mut text, "+");
                append_u64(&mut text, y as u64);
                append(&mut text, " exceeds frame bounds ");
                append_u64(&mut text, frame_width as u64);
                append(&mut text, "x");
                append_u64(&mut text, frame_height as u64);
            },
            TransformError::CropZeroSize => append(&mut text, "crop dimensions must be non-zero"),
            TransformError::ScaleToZero { width, height } => {
                append(&mut text, "scale result must be non-zero (got ");
                append_u64(&mut text, width as u64);
                append(&mut text, "x");
                append_u64(&mut text, height as u64);
                append(&mut text, ")");
            },
        }
        proof {
            assert(text@ =~= transform_error_text(*self));
        }
        text
    }
}

} // verus!
