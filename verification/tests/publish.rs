use webcam_sharedtexture_core::capture::{CaptureError, CaptureSource};
use webcam_sharedtexture_core::frame::Frame;
use webcam_sharedtexture_core::pipeline::{
    pipeline_step, publish_outcome, publish_transformed, step_outcome, PipelineError,
};
use webcam_sharedtexture_core::publish::{
    map_send_error, open_publisher, PublishError, SendError, TexturePublisher,
};
use webcam_sharedtexture_core::spout;
use webcam_sharedtexture_core::syphon;
use webcam_sharedtexture_core::transform::{
    apply, CropRect, Rotation, TransformConfig, TransformError,
};

struct RecordingPublisher {
    received: Vec<Frame>,
}

impl TexturePublisher for RecordingPublisher {
    fn publish(&mut self, frame: &Frame) -> Result<(), PublishError> {
        self.received.push(frame.clone());
        Ok(())
    }
}

struct FailingPublisher;

impl TexturePublisher for FailingPublisher {
    fn publish(&mut self, _frame: &Frame) -> Result<(), PublishError> {
        Err(PublishError::Publish { reason: "refused".to_string() })
    }
}

struct FakeSource {
    frames: Vec<Frame>,
}

impl CaptureSource for FakeSource {
    fn next_frame(&mut self) -> Result<Frame, CaptureError> {
        if self.frames.is_empty() {
            Err(CaptureError::FrameRead { reason: "exhausted".to_string() })
        } else {
            Ok(self.frames.remove(0))
        }
    }
}

fn asymmetric_frame() -> Frame {
    let data = vec![
        10, 20, 30, 255, 40, 50, 60, 255, // row 0
        70, 80, 90, 255, 100, 110, 120, 255, // row 1
        130, 140, 150, 255, 160, 170, 180, 255, // row 2
    ];
    Frame::new(2, 3, data).expect("valid frame")
}

#[test]
fn dyn_texture_publisher_records_published_frame() {
    let frame = Frame::new(1, 1, vec![1, 2, 3, 255]).expect("valid frame");
    let mut recording = RecordingPublisher { received: Vec::new() };
    let publisher: &mut dyn TexturePublisher = &mut recording;

    publisher.publish(&frame).expect("publish succeeds");

    assert_eq!(recording.received, vec![frame]);
}

#[test]
fn pipeline_step_applies_transform_before_publish() {
    let frame = asymmetric_frame();
    let config = TransformConfig { rotation: Rotation::R90, ..TransformConfig::default() };
    let expected = apply(&frame, &config).expect("apply succeeds");
    let mut source = FakeSource { frames: vec![frame] };
    let mut publisher = RecordingPublisher { received: Vec::new() };

    let result = pipeline_step(&mut source, &config, &mut publisher);

    assert!(result.is_ok());
    assert_eq!(publisher.received, vec![expected]);
    assert_eq!(publisher.received[0].width(), 3);
    assert_eq!(publisher.received[0].height(), 2);
}

#[test]
fn pipeline_step_reports_capture_error() {
    let mut source = FakeSource { frames: vec![] };
    let mut publisher = RecordingPublisher { received: Vec::new() };

    let result = pipeline_step(&mut source, &TransformConfig::default(), &mut publisher);

    assert!(matches!(result, Err(PipelineError::Capture(CaptureError::FrameRead { .. }))));
    assert!(publisher.received.is_empty());
}

#[test]
fn pipeline_step_reports_publish_error() {
    let pixel = Frame::new(1, 1, vec![0, 0, 0, 255]).expect("valid frame");
    let mut source = FakeSource { frames: vec![pixel] };

    let result = pipeline_step(&mut source, &TransformConfig::default(), &mut FailingPublisher);

    assert!(matches!(result, Err(PipelineError::Publish(PublishError::Publish { .. }))));
}

#[test]
fn refused_transform_publishes_nothing() {
    let frame = asymmetric_frame();
    let config = TransformConfig {
        crop: Some(CropRect { width: 0, height: 1, x: 0, y: 0 }),
        ..TransformConfig::default()
    };
    let mut publisher = RecordingPublisher { received: Vec::new() };

    let result = publish_transformed(&frame, &config, &mut publisher);

    assert_eq!(result, Err(PipelineError::Transform(TransformError::CropZeroSize)));
    assert!(publisher.received.is_empty());
}

#[test]
fn pipeline_error_message_is_that_of_its_cause() {
    let error = PipelineError::Capture(CaptureError::NoDevices);
    assert_eq!(error.message(), "no capture devices found");
    let error = PipelineError::Publish(PublishError::Publish { reason: "x".to_string() });
    assert_eq!(error.message(), "failed to publish frame: x");
}

#[test]
fn publish_error_messages_have_exact_text() {
    let create =
        PublishError::ServerCreate { name: "srv".to_string(), reason: "boom".to_string() };
    assert_eq!(create.message(), "failed to create texture server \"srv\": boom");
    let publish = PublishError::Publish { reason: "gone".to_string() };
    assert_eq!(publish.message(), "failed to publish frame: gone");
}

#[test]
fn open_publisher_reports_unsupported_platform() {
    match open_publisher("gemelli") {
        Err(PublishError::ServerCreate { name, reason }) => {
            assert_eq!(name, "gemelli");
            assert_eq!(reason, "Syphon/Spout publishing is not supported on this platform");
        }
        _ => panic!("expected ServerCreate"),
    }
}

#[test]
fn sender_create_error_maps_to_server_create() {
    let error = SendError::SenderCreate { name: "srv".to_string(), reason: "boom".to_string() };

    let mapped = map_send_error(error);

    match mapped {
        PublishError::ServerCreate { name, reason } => {
            assert_eq!(name, "srv");
            assert_eq!(reason, "boom");
        }
        other => panic!("expected ServerCreate, got {other:?}"),
    }
}

#[test]
fn send_frame_error_maps_to_publish_with_stage_and_detail() {
    let error = SendError::SendFrame {
        stage: "native send call".to_string(),
        detail: "native failure".to_string(),
    };

    let mapped = map_send_error(error);

    match mapped {
        PublishError::Publish { reason } => {
            assert!(reason.contains("native failure"), "reason was: {reason}");
            assert!(reason.contains("native send call"), "reason was: {reason}");
            assert_eq!(reason, "native send call: native failure");
        }
        other => panic!("expected Publish, got {other:?}"),
    }
}

#[test]
fn send_mode_maps_to_bridge_dispatch_codes() {
    assert_eq!(syphon::SendMode::PerFrameCopy.code(), 0);
    assert_eq!(syphon::SendMode::PersistentCopy.code(), 1);
}

#[test]
fn lib_send_mode_maps_to_bridge_dispatch_codes() {
    assert_eq!(spout::SendMode::StagingRowCopy.code(), 0);
    assert_eq!(spout::SendMode::SendImage.code(), 1);
    assert_eq!(spout::SendMode::StagingSse.code(), 2);
}

#[test]
fn frame_bytes_1080p_is_four_bytes_per_pixel() {
    assert_eq!(syphon::frame_bytes(1920, 1080), 8_294_400);
}

#[test]
fn frame_bytes_saturates_instead_of_overflowing() {
    assert_eq!(syphon::frame_bytes(u32::MAX, 2), u32::MAX);
    assert_eq!(syphon::frame_bytes(65_536, 65_536), u32::MAX);
}

#[test]
fn bytes_per_row_is_four_bytes_per_pixel_or_an_error() {
    assert_eq!(syphon::bytes_per_row(1920), Ok(7680));
    match syphon::bytes_per_row(u32::MAX) {
        Err(PublishError::Publish { reason }) => assert_eq!(
            reason,
            format!("frame width {} overflows bytes-per-row (width * 4)", u32::MAX)
        ),
        other => panic!("expected Publish, got {other:?}"),
    }
}

#[test]
fn syphon_send_outcome_names_the_bridge_call() {
    assert_eq!(syphon::send_outcome(true), Ok(()));
    assert_eq!(
        syphon::send_outcome(false),
        Err(PublishError::Publish {
            reason: "syphon_bridge_send_rgba_mode returned false".to_string()
        })
    );
}

#[test]
fn row_pitch_is_four_bytes_per_pixel_or_an_error() {
    assert_eq!(spout::row_pitch(640), Ok(2560));
    match spout::row_pitch(1 << 30) {
        Err(PublishError::Publish { reason }) => {
            assert_eq!(reason, "frame width 1073741824 overflows pitch (width * 4)")
        }
        other => panic!("expected Publish, got {other:?}"),
    }
}

#[test]
fn describe_bridge_error_names_each_stage() {
    assert_eq!(
        spout::describe_bridge_error(-3),
        "spout_bridge_send_bgra_mode returned -3 (staging texture allocation failed)"
    );
    assert_eq!(
        spout::describe_bridge_error(-1),
        "spout_bridge_send_bgra_mode returned -1 (bad arguments (null handle/pixels, zero width/height, or pitch < width*4))"
    );
    assert_eq!(
        spout::describe_bridge_error(7),
        "spout_bridge_send_bgra_mode returned 7 (unknown bridge error)"
    );
}

#[test]
fn spout_send_outcome_is_ok_only_for_zero() {
    assert_eq!(spout::send_outcome(0), Ok(()));
    assert_eq!(
        spout::send_outcome(-5),
        Err(PublishError::Publish {
            reason: "spout_bridge_send_bgra_mode returned -5 (the underlying SpoutDX send call failed)"
                .to_string()
        })
    );
}

#[test]
fn step_outcome_passes_on_capture_and_transform_errors() {
    let config = TransformConfig { rotation: Rotation::R90, ..TransformConfig::default() };
    let frame = asymmetric_frame();
    let expected = apply(&frame, &config).expect("apply succeeds");
    assert_eq!(step_outcome(Ok(frame), &config), Ok(expected));
    assert_eq!(
        step_outcome(Err(CaptureError::NoDevices), &config),
        Err(PipelineError::Capture(CaptureError::NoDevices))
    );
    let refusing = TransformConfig {
        crop: Some(CropRect { width: 0, height: 1, x: 0, y: 0 }),
        ..TransformConfig::default()
    };
    assert_eq!(
        step_outcome(Ok(asymmetric_frame()), &refusing),
        Err(PipelineError::Transform(TransformError::CropZeroSize))
    );
}

#[test]
fn publish_outcome_passes_on_the_publishers_answer() {
    assert_eq!(publish_outcome(Ok(())), Ok(()));
    let error = PublishError::Publish { reason: "gone".to_string() };
    assert_eq!(
        publish_outcome(Err(error)),
        Err(PipelineError::Publish(PublishError::Publish { reason: "gone".to_string() }))
    );
}

#[test]
fn publish_transformed_passes_on_the_publishers_error() {
    let result = publish_transformed(&asymmetric_frame(), &TransformConfig::default(), &mut FailingPublisher);
    assert_eq!(
        result,
        Err(PipelineError::Publish(PublishError::Publish { reason: "refused".to_string() }))
    );
}

#[test]
fn pipeline_step_publishes_through_a_boxed_publisher() {
    let frame = asymmetric_frame();
    let config = TransformConfig { rotation: Rotation::R180, ..TransformConfig::default() };
    let expected = apply(&frame, &config).expect("apply succeeds");
    let mut source = FakeSource { frames: vec![frame] };
    let mut publisher: Box<dyn TexturePublisher> = Box::new(FailingPublisher);

    let result = pipeline_step(&mut source, &config, &mut publisher);

    assert!(matches!(result, Err(PipelineError::Publish(PublishError::Publish { .. }))));
    let mut recording = Box::new(RecordingPublisher { received: Vec::new() });
    let mut source = FakeSource { frames: vec![asymmetric_frame()] };
    pipeline_step(&mut source, &config, &mut recording).expect("published");
    assert_eq!(recording.received, vec![expected]);
}
