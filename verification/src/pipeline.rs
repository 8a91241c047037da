//! One turn of the capture, transform and publish loop, and its errors.
use crate::capture::{capture_error_text, CaptureError, CaptureSource};
use crate::frame::{Frame, FrameView};
use crate::publish::{publish_error_text, PublishError, TexturePublisher};
use crate::transform::config::{transform_error_text, TransformConfig, TransformError};
use crate::transform::{applied, apply};
use vstd::prelude::*;

verus! {

#[derive(Debug, PartialEq, Eq)]
pub enum PipelineError {
    Capture(CaptureError),
    Transform(TransformError),
    Publish(PublishError),
}

/// The message of a pipeline error: that of the error it carries.
pub open spec fn pipeline_error_text(e: PipelineError) -> Seq<char> {
    match e {
        PipelineError::Capture(c) => capture_error_text(c),
        PipelineError::Transform(t) => transform_error_text(t),
        PipelineError::Publish(p) => publish_error_text(p),
    }
}

impl PipelineError {
    pub fn message(&self) -> (text: String)
        ensures
            text@ == pipeline_error_text(*self),
    {
        match self {
            PipelineError::Capture(c) => c.message(),
            PipelineError::Transform(t) => t.message(),
            PipelineError::Publish(p) => p.message(),
        }
    }
}

/// What a turn makes of the read: a failed read is a capture error; a frame
/// the transform refuses is a transform error; otherwise the transformed
/// frame, which is the one to publish.
pub open spec fn read_step(read: Result<Frame, CaptureError>, config: TransformConfig) -> Result<
    FrameView,
    PipelineError,
> {
    match read {
        Err(e) => Err(PipelineError::Capture(e)),
        Ok(f) => match applied(f@, config) {
            Err(t) => Err(PipelineError::Transform(t)),
            Ok(v) => Ok(v),
        },
    }
}

/// What a turn makes of the publisher's answer: its error, if any, passed on.
pub open spec fn sent_result(sent: Result<(), PublishError>) -> Result<(), PipelineError> {
    match sent {
        Ok(()) => Ok(()),
        Err(e) => Err(PipelineError::Publish(e)),
    }
}

/// The frame to publish for a read, or the error that ends the turn.
pub fn step_outcome(read: Result<Frame, CaptureError>, config: &TransformConfig) -> (outcome:
    Result<Frame, PipelineError>)
    ensures
        match read_step(read, *config) {
            Err(e) => outcome == Err::<Frame, PipelineError>(e),
            Ok(v) => outcome matches Ok(g) && g@ == v,
        },
{
    match read {
        Err(e) => Err(PipelineError::Capture(e)),
        Ok(frame) => match apply(&frame, config) {
            Err(t) => Err(PipelineError::Transform(t)),
            Ok(transformed) => Ok(transformed),
        },
    }
}

/// The result of a turn given the publisher's answer.
pub fn publish_outcome(sent: Result<(), PublishError>) -> (outcome: Result<(), PipelineError>)
    ensures
        outcome == sent_result(sent),
{
    match sent {
        Ok(()) => Ok(()),
        Err(e) => Err(PipelineError::Publish(e)),
    }
}

/// Transforms `frame` by `config` and hands the result to `publisher`. A
/// frame the transform refuses is reported with the transform's error and the
/// publisher is left untouched; otherwise the transformed frame is published
/// once and the publisher's answer is passed on.
pub fn publish_transformed<P: TexturePublisher>(
    frame: &Frame,
    config: &TransformConfig,
    publisher: &mut P,
) -> (result: Result<(), PipelineError>)
    ensures
        match applied(frame@, *config) {
            Err(e) => {
                &&& result == Err::<(), PipelineError>(PipelineError::Transform(e))
                &&& *final(publisher) == *old(publisher)
            },
            Ok(v) => exists|handed: (&mut P, &Frame), sent: Result<(), PublishError>|
                #[trigger] call_ensures(P::publish, handed, sent) && handed.1@ == v && result
                    == sent_result(sent) && *handed.0 == *old(publisher) && *final(handed.0)
                    == *final(publisher),
        },
{
    match apply(frame, config) {
        Err(e) => Err(PipelineError::Transform(e)),
        Ok(transformed) => {
            let publish = P::publish;
            let sent = publish(publisher, &transformed);
            publish_outcome(sent)
        },
    }
}

/// One turn of the capture loop: reads one frame from `source`, transforms it
/// by `config` and publishes it. A failed read is reported as a capture error
/// and a refused transform as a transform error, and the publisher is left
/// untouched; otherwise the transformed frame is published once and the
/// publisher's answer is passed on.
pub fn pipeline_step<S: CaptureSource, P: TexturePublisher>(
    source: &mut S,
    config: &TransformConfig,
    publisher: &mut P,
) -> (result: Result<(), PipelineError>)
    ensures
        exists|reading: (&mut S,), read: Result<Frame, CaptureError>|
            #[trigger] call_ensures(S::next_frame, reading, read) && *reading.0 == *old(source)
                && *final(reading.0) == *final(source) && match read_step(read, *config) {
                Err(e) => result == Err::<(), PipelineError>(e) && *final(publisher) == *old(
                    publisher,
                ),
                Ok(v) => exists|handed: (&mut P, &Frame), sent: Result<(), PublishError>|
                    #[trigger] call_ensures(P::publish, handed, sent) && handed.1@ == v && result
                        == sent_result(sent) && *handed.0 == *old(publisher) && *final(handed.0)
                        == *final(publisher),
            },
{
    let next_frame = S::next_frame;
    let read = next_frame(source);
    match step_outcome(read, config) {
        Err(e) => Err(e),
        Ok(transformed) => {
            let publish = P::publish;
            let sent = publish(publisher, &transformed);
            publish_outcome(sent)
        },
    }
}

} // verus!
