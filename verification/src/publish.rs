//! Texture publishing: the sink trait and its errors.
use crate::frame::Frame;
use crate::text::{append, owned};
use vstd::prelude::*;

verus! {

/// A sink that shares frames with other applications.
pub trait TexturePublisher {
    fn publish(&mut self, frame: &Frame) -> Result<(), PublishError>;
}

/// A boxed publisher publishes through the one it holds.
impl<T: TexturePublisher + ?Sized> TexturePublisher for Box<T> {
    fn publish(&mut self, frame: &Frame) -> Result<(), PublishError> {
        (**self).publish(frame)
    }
}

#[derive(Debug, PartialEq, Eq)]
pub enum PublishError {
    ServerCreate { name: String, reason: String },
    Publish { reason: String },
}

/// The message of a publish error.
pub open spec fn publish_error_text(e: PublishError) -> Seq<char> {
    match e {
        PublishError::ServerCreate { name, reason } => "failed to create texture server \""@
            + name@ + "\": "@ + reason@,
        PublishError::Publish { reason } => "failed to publish frame: "@ + reason@,
    }
}

impl PublishError {
    pub fn message(&self) -> (text: String)
        ensures
            text@ == publish_error_text(*self),
    {
        let mut text = String::new();
        match self {
            PublishError::ServerCreate { name, reason } => {
                append(&mut text, "failed to create texture server \"");
                append(&mut text, name.as_str());
                append(&mut text, "\": ");
                append(&mut text, reason.as_str());
            },
            PublishError::Publish { reason } => {
                append(&mut text, "failed to publish frame: ");
                append(&mut text, reason.as_str());
            },
        }
        proof {
            assert(text@ =~= publish_error_text(*self));
        }
        text
    }
}

/// Opens the platform's publisher. This build has neither Syphon nor Spout, so
/// every attempt reports that publishing is unsupported, naming the server.
pub fn open_publisher(server_name: &str) -> (result: Result<Box<dyn TexturePublisher>, PublishError>)
    ensures
        result matches Err(PublishError::ServerCreate { name, reason }) && name@ == server_name@
            && reason@ == "Syphon/Spout publishing is not supported on this platform"@,
{
    Err(
        PublishError::ServerCreate {
            name: owned(server_name),
            reason: owned("Syphon/Spout publishing is not supported on this platform"),
        },
    )
}

/// A failure reported by a platform texture sender: creating the sender, or
/// sending one frame, with the failing stage as the sender describes it.
#[derive(Debug, PartialEq, Eq)]
pub enum SendError {
    SenderCreate { name: String, reason: String },
    SendFrame { stage: String, detail: String },
}

/// The publish error a sender failure is reported as: a failed creation as
/// the server-creation error it is, a failed send as a publish error naming
/// the stage and the detail.
pub fn map_send_error(error: SendError) -> (mapped: PublishError)
    ensures
        match error {
            SendError::SenderCreate { name, reason } => mapped == (PublishError::ServerCreate {
                name,
                reason,
            }),
            SendError::SendFrame { stage, detail } => mapped matches PublishError::Publish {
                reason,
            } && reason@ == stage@ + ": "@ + detail@,
        },
{
    match error {
        SendError::SenderCreate { name, reason } => PublishError::ServerCreate { name, reason },
        SendError::SendFrame { stage, detail } => {
            let mut reason = owned(stage.as_str());
            append(&mut reason, ": ");
            append(&mut reason, detail.as_str());
            PublishError::Publish { reason }
        },
    }
}

} // verus!
