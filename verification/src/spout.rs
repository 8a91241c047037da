//! Spout bridge parameters and failure descriptions.
use crate::publish::PublishError;
use crate::text::{append, append_i64, append_u64, decimal, owned, signed_decimal};
use vstd::prelude::*;

verus! {

/// Opaque handle to the native bridge; only ever held behind a pointer.
pub struct SpoutBridgeHandle {
    _private: [u8; 0],
}

/// CPU-to-Spout send strategy. The numeric mapping matches the `mode` the
/// bridge dispatches on.
#[derive(Clone, Copy, Debug, PartialEq, Eq, Structural)]
pub enum SendMode {
    /// A dynamic staging texture filled row by row, then sent.
    StagingRowCopy,
    /// The CPU buffer uploaded straight into the shared texture.
    SendImage,
    /// A dynamic staging texture filled by a pitch-aware vector copier, then
    /// sent. The production default.
    StagingSse,
}

impl SendMode {
    pub fn code(self) -> (code: u32)
        ensures
            code == match self {
                SendMode::StagingRowCopy => 0u32,
                SendMode::SendImage => 1u32,
                SendMode::StagingSse => 2u32,
            },
    {
        match self {
            SendMode::StagingRowCopy => 0,
            SendMode::SendImage => 1,
            SendMode::StagingSse => 2,
        }
    }
}

/// The failing stage a bridge return code names.
pub open spec fn bridge_stage(code: i32) -> Seq<char> {
    if code == -1 {
        "bad arguments (null handle/pixels, zero width/height, or pitch < width*4)"@
    } else if code == -2 {
        "bridge handle not initialized (DirectX11/sender setup incomplete)"@
    } else if code == -3 {
        "staging texture allocation failed"@
    } else if code == -4 {
        "Map() of the staging texture failed"@
    } else if code == -5 {
        "the underlying SpoutDX send call failed"@
    } else {
        "unknown bridge error"@
    }
}

fn stage_of(code: i32) -> (stage: &'static str)
    ensures
        stage@ == bridge_stage(code),
{
    if code == -1 {
        "bad arguments (null handle/pixels, zero width/height, or pitch < width*4)"
    } else if code == -2 {
        "bridge handle not initialized (DirectX11/sender setup incomplete)"
    } else if code == -3 {
        "staging texture allocation failed"
    } else if code == -4 {
        "Map() of the staging texture failed"
    } else if code == -5 {
        "the underlying SpoutDX send call failed"
    } else {
        "unknown bridge error"
    }
}

/// Names the stage a bridge send return code reports, so a failure seen in the
/// field says which part of the native bridge failed.
pub fn describe_bridge_error(code: i32) -> (message: String)
    ensures
        message@ == "spout_bridge_send_bgra_mode returned "@ + signed_decimal(code as int) + " ("@
            + bridge_stage(code) + ")"@,
{
    let mut message = String::new();
    append(&mut message, "spout_bridge_send_bgra_mode returned ");
    append_i64(&mut message, code as i64);
    append(&mut message, " (");
    append(&mut message, stage_of(code));
    append(&mut message, ")");
    proof {
        assert(message@ =~= "spout_bridge_send_bgra_mode returned "@ + signed_decimal(code as int)
            + " ("@ + bridge_stage(code) + ")"@);
    }
    message
}

/// Row pitch in bytes of a tightly packed BGRA frame of `width` pixels; a
/// width whose pitch overflows `u32` is refused with a publish error that
/// names it.
pub fn row_pitch(width: u32) -> (result: Result<u32, PublishError>)
    ensures
        width * 4 <= u32::MAX ==> result == Ok::<u32, PublishError>((width * 4) as u32),
        width * 4 > u32::MAX ==> (result matches Err(PublishError::Publish { reason }) && reason@
            == "frame width "@ + decimal(width as nat) + " overflows pitch (width * 4)"@),
{
    match width.checked_mul(4) {
        Some(pitch) => Ok(pitch),
        None => {
            let mut reason = owned("frame width ");
            append_u64(&mut reason, width as u64);
            append(&mut reason, " overflows pitch (width * 4)");
            Err(PublishError::Publish { reason })
        },
    }
}

/// What a bridge send return code amounts to: `0` is success, any other code
/// a publish error that describes it.
pub fn send_outcome(code: i32) -> (result: Result<(), PublishError>)
    ensures
        code == 0 ==> result is Ok,
        code != 0 ==> (result matches Err(PublishError::Publish { reason }) && reason@
            == "spout_bridge_send_bgra_mode returned "@ + signed_decimal(code as int) + " ("@
            + bridge_stage(code) + ")"@),
{
    if code == 0 {
        Ok(())
    } else {
        Err(PublishError::Publish { reason: describe_bridge_error(code) })
    }
}

} // verus!
