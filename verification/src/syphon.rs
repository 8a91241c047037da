//! Syphon bridge parameters, send outcomes and benchmark arithmetic.
use crate::publish::PublishError;
use crate::text::{append, append_u64, decimal, owned};
use vstd::prelude::*;

verus! {

/// Opaque handle to the native bridge; only ever held behind a pointer.
pub struct SyphonBridgeHandle {
    _private: [u8; 0],
}

/// CPU-to-Syphon copy strategy. The numeric mapping matches the `mode` the
/// bridge dispatches on.
#[derive(Clone, Copy, Debug, PartialEq, Eq, Structural)]
pub enum SendMode {
    /// Allocates a fresh surface and texture every call.
    PerFrameCopy,
    /// Reuses a cached surface and texture, reallocated only on a geometry
    /// change. The production default.
    PersistentCopy,
}

impl SendMode {
    pub fn code(self) -> (code: u32)
        ensures
            code == match self {
                SendMode::PerFrameCopy => 0u32,
                SendMode::PersistentCopy => 1u32,
            },
    {
        match self {
            SendMode::PerFrameCopy => 0,
            SendMode::PersistentCopy => 1,
        }
    }
}

/// `a * b`, or `u32::MAX` when that overflows.
pub open spec fn saturating_u32_product(a: int, b: int) -> int {
    if a * b > u32::MAX {
        u32::MAX as int
    } else {
        a * b
    }
}

fn saturating_mul_u32(a: u32, b: u32) -> (p: u32)
    ensures
        p == saturating_u32_product(a as int, b as int),
{
    match a.checked_mul(b) {
        Some(p) => p,
        None => u32::MAX,
    }
}

/// Bytes in one tightly-packed BGRA frame (four bytes per pixel), saturating
/// at `u32::MAX`.
pub fn frame_bytes(width: u32, height: u32) -> (bytes: u32)
    ensures
        bytes == saturating_u32_product(saturating_u32_product(width as int, height as int), 4),
        width * height * 4 <= u32::MAX ==> bytes == width * height * 4,
{
    let pixels = saturating_mul_u32(width, height);
    proof {
        if width * height * 4 <= u32::MAX {
            assert(width * height <= u32::MAX);
        }
    }
    saturating_mul_u32(pixels, 4)
}

/// Bytes per row of a tightly packed four-byte-per-pixel frame of `width`
/// pixels; a width whose row overflows `u32` is refused with a publish error
/// that names it.
pub fn bytes_per_row(width: u32) -> (result: Result<u32, PublishError>)
    ensures
        width * 4 <= u32::MAX ==> result == Ok::<u32, PublishError>((width * 4) as u32),
        width * 4 > u32::MAX ==> (result matches Err(PublishError::Publish { reason }) && reason@
            == "frame width "@ + decimal(width as nat) + " overflows bytes-per-row (width * 4)"@),
{
    match width.checked_mul(4) {
        Some(bytes) => Ok(bytes),
        None => {
            let mut reason = owned("frame width ");
            append_u64(&mut reason, width as u64);
            append(&mut reason, " overflows bytes-per-row (width * 4)");
            Err(PublishError::Publish { reason })
        },
    }
}

/// What a send through the bridge amounts to: success when the bridge
/// reports it, otherwise a publish error naming the bridge call.
pub fn send_outcome(sent: bool) -> (result: Result<(), PublishError>)
    ensures
        sent ==> result is Ok,
        !sent ==> (result matches Err(PublishError::Publish { reason }) && reason@
            == "syphon_bridge_send_rgba_mode returned false"@),
{
    if sent {
        Ok(())
    } else {
        Err(PublishError::Publish { reason: owned("syphon_bridge_send_rgba_mode returned false") })
    }
}

} // verus!
