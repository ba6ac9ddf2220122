use capture_pipeline::channel::FrameSlot;
use capture_pipeline::errors::PipelineError;
use capture_pipeline::frame::{Frame, PixelLayout};
use capture_pipeline::pump::PresentationPump;
use capture_pipeline::session::{
    CaptureEvent, CaptureSession, SourceConfig, StepResult, StopCause,
};
use capture_pipeline::shutdown::ShutdownSignal;

fn source_frame(width: i64, height: i64, data: Vec<u8>) -> Frame {
    Frame { width, height, layout: PixelLayout::SourceBgr, data }
}

fn open_session(width: u32, height: u32, fps: u32) -> CaptureSession {
    CaptureSession::start(Some(SourceConfig { width, height, fps }), true)
        .expect("device and sink are available")
}

#[test]
fn capture_five_frames_then_shutdown() {
    let mut session = open_session(640, 480, 30);
    let mut slot = FrameSlot::new();
    let mut signal = ShutdownSignal::new();
    for _ in 0..5 {
        assert!(!signal.poll());
        let f = source_frame(640, 480, vec![0; 640 * 480 * 3]);
        let r = session.step(&mut slot, CaptureEvent::FrameRead(f));
        assert_eq!(r, StepResult::Continue { wrote: true });
    }
    signal.request();
    assert!(signal.poll());
    let r = session.step(&mut slot, CaptureEvent::ShutdownObserved);
    assert_eq!(r, StepResult::Stopped(StopCause::ShutdownRequested));
    assert!(!session.is_running());
    assert!(session.sink().is_closed());
    assert_eq!(session.sink().frame_count(), 5);
    assert_eq!(session.sink().fps(), 30);
    assert_eq!(session.sink().width(), 640);
    assert_eq!(session.sink().height(), 480);
    assert_eq!(session.outcome(), Ok(()));
}

#[test]
fn device_open_failure_aborts_startup() {
    let r = CaptureSession::start(None, true);
    assert_eq!(r.err(), Some(PipelineError::DeviceUnavailable));
    // the device is checked before the sink: no container is created
    let r = CaptureSession::start(None, false);
    assert_eq!(r.err(), Some(PipelineError::DeviceUnavailable));
}

#[test]
fn sink_open_failure_aborts_startup() {
    let cfg = SourceConfig { width: 640, height: 480, fps: 30 };
    let r = CaptureSession::start(Some(cfg), false);
    assert_eq!(r.err(), Some(PipelineError::SinkOpenFailure));
}

#[test]
fn read_error_on_third_frame_finalizes_after_two() {
    let mut session = open_session(4, 4, 10);
    let mut slot = FrameSlot::new();
    for _ in 0..2 {
        let f = source_frame(4, 4, vec![1; 4 * 4 * 3]);
        let r = session.step(&mut slot, CaptureEvent::FrameRead(f));
        assert_eq!(r, StepResult::Continue { wrote: true });
    }
    // the read of the third intended frame fails
    let r = session.step(&mut slot, CaptureEvent::ReadFailed);
    assert_eq!(r, StepResult::Stopped(StopCause::ReadFailed));
    assert!(session.sink().is_closed());
    assert_eq!(session.sink().frame_count(), 2);
    assert_eq!(session.outcome(), Err(PipelineError::ReadError));
}

#[test]
fn malformed_frames_are_neither_persisted_nor_distributed() {
    let mut session = open_session(2, 2, 30);
    let mut slot = FrameSlot::new();
    let zero_width = source_frame(0, 2, Vec::new());
    let r = session.step(&mut slot, CaptureEvent::FrameRead(zero_width));
    assert_eq!(r, StepResult::Continue { wrote: false });
    let negative_height = source_frame(2, -3, vec![5, 5, 5]);
    let r = session.step(&mut slot, CaptureEvent::FrameRead(negative_height));
    assert_eq!(r, StepResult::Continue { wrote: false });
    assert_eq!(session.sink().frame_count(), 0);
    assert!(slot.try_receive().is_none());
    assert_eq!(session.frames_processed(), 2);
    assert_eq!(session.frames_skipped(), 2);
}

#[test]
fn persisted_count_is_processed_minus_skipped() {
    let mut session = open_session(1, 1, 30);
    let mut slot = FrameSlot::new();
    let reads = [
        source_frame(1, 1, vec![1, 2, 3]),
        source_frame(0, 1, Vec::new()),
        source_frame(1, 1, vec![4, 5, 6]),
        source_frame(-7, 1, Vec::new()),
        source_frame(1, 1, vec![7, 8, 9]),
    ];
    for f in reads {
        session.step(&mut slot, CaptureEvent::FrameRead(f));
    }
    assert_eq!(session.frames_processed(), 5);
    assert_eq!(session.frames_skipped(), 2);
    assert_eq!(session.sink().frame_count(), 3);
    session.step(&mut slot, CaptureEvent::ShutdownObserved);
    assert_eq!(session.sink().frame_count(), 3);
    assert!(session.sink().is_closed());
}

#[test]
fn shutdown_with_zero_frames_still_finalizes() {
    let mut session = open_session(8, 8, 25);
    let mut slot = FrameSlot::new();
    let r = session.step(&mut slot, CaptureEvent::ShutdownObserved);
    assert_eq!(r, StepResult::Stopped(StopCause::ShutdownRequested));
    assert!(session.sink().is_closed());
    assert_eq!(session.sink().frame_count(), 0);
    assert_eq!(session.outcome(), Ok(()));
}

#[test]
fn disconnected_consumer_begins_shutdown_after_persisting() {
    let mut session = open_session(1, 1, 30);
    let mut slot = FrameSlot::new();
    slot.disconnect();
    let f = source_frame(1, 1, vec![1, 2, 3]);
    let r = session.step(&mut slot, CaptureEvent::FrameRead(f));
    assert_eq!(r, StepResult::Stopped(StopCause::Disconnected));
    // the frame of the interrupted iteration was still persisted
    assert_eq!(session.sink().frame_count(), 1);
    assert!(session.sink().is_closed());
    // a detached consumer is a clean stop, not a crash
    assert_eq!(session.outcome(), Ok(()));
}

#[test]
fn captured_frame_reaches_the_presentation_buffer() {
    let mut session = open_session(2, 1, 30);
    let mut slot = FrameSlot::new();
    let mut pump = PresentationPump::new(2, 1);
    let f = source_frame(2, 1, vec![10, 20, 30, 40, 50, 60]);
    let r = session.step(&mut slot, CaptureEvent::FrameRead(f));
    assert_eq!(r, StepResult::Continue { wrote: true });
    assert_eq!(pump.tick(&mut slot), Ok(true));
    assert_eq!(pump.buffer(), &vec![30, 20, 10, 255, 60, 50, 40, 255]);
}

#[test]
fn only_the_newest_frame_is_presented() {
    let mut session = open_session(1, 1, 30);
    let mut slot = FrameSlot::new();
    let mut pump = PresentationPump::new(1, 1);
    let first = source_frame(1, 1, vec![1, 1, 1]);
    let second = source_frame(1, 1, vec![2, 2, 2]);
    session.step(&mut slot, CaptureEvent::FrameRead(first));
    session.step(&mut slot, CaptureEvent::FrameRead(second));
    assert_eq!(pump.tick(&mut slot), Ok(true));
    assert_eq!(pump.buffer(), &vec![2, 2, 2, 255]);
}
