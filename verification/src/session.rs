use vstd::prelude::*;

use crate::channel::{slot_sent, FrameSlot};
use crate::convert::{convert, convert_spec};
use crate::errors::PipelineError;
use crate::frame::{Frame, PixelLayout};
use crate::sink::{Sink, SinkView};

verus! {

/// The source's measured properties, queried right after the device is
/// opened. They size the presentation buffer and the sink's container
/// metadata for the whole session.
#[derive(Clone, Copy, PartialEq, Eq, Structural, Debug)]
pub struct SourceConfig {
    pub width: u32,
    pub height: u32,
    pub fps: u32,
}

/// Why the capture loop stopped.
#[derive(Clone, Copy, PartialEq, Eq, Structural, Debug)]
pub enum StopCause {
    /// The one-shot shutdown signal was observed.
    ShutdownRequested,
    /// A device read failed; device loss is fatal, never retried.
    ReadFailed,
    /// The presentation consumer detached; shutdown begins as if it had
    /// been requested.
    Disconnected,
}

/// Whether the capture loop is still running, and why it stopped if not.
#[derive(Clone, Copy, PartialEq, Eq, Structural, Debug)]
pub enum SessionState {
    Running,
    Stopped(StopCause),
}

/// What one capture-loop iteration observed. The loop polls the shutdown
/// signal first, without blocking; only when no stop was requested does
/// it perform the blocking device read.
pub enum CaptureEvent {
    /// The shutdown signal was observed at the top of the iteration.
    ShutdownObserved,
    /// The device read returned a frame (possibly malformed).
    FrameRead(Frame),
    /// The device read failed.
    ReadFailed,
}

/// What one step asks of its surroundings.
#[derive(Clone, Copy, PartialEq, Eq, Structural, Debug)]
pub enum StepResult {
    /// The loop goes on; `wrote` says whether the frame of this
    /// iteration was appended to the sink.
    Continue { wrote: bool },
    /// The loop is done: the sink is finalized and the session stopped.
    Stopped(StopCause),
}

/// One capture session: one open device, one open sink, and the derived
/// dimensions and frame rate, bound together at startup and torn down
/// exactly once on the shutdown path.
pub struct CaptureSession {
    width: u32,
    height: u32,
    fps: u32,
    sink: Sink,
    processed: u64,
    skipped: u64,
    state: SessionState,
}

/// Mathematical value of a session.
#[verifier::ext_equal]
pub ghost struct SessionView {
    pub width: int,
    pub height: int,
    pub fps: int,
    pub sink: SinkView,
    pub processed: int,
    pub skipped: int,
    pub state: SessionState,
}

impl View for CaptureSession {
    type V = SessionView;

    closed spec fn view(&self) -> SessionView {
        SessionView {
            width: self.width as int,
            height: self.height as int,
            fps: self.fps as int,
            sink: self.sink@,
            processed: self.processed as int,
            skipped: self.skipped as int,
            state: self.state,
        }
    }
}

impl SessionView {
    /// The session invariant, maintained by every operation:
    /// - malformed frames are counted but never persisted, so the sink
    ///   holds exactly the processed frames minus the skipped ones;
    /// - the sink's container metadata matches the source's measured
    ///   dimensions and frame rate;
    /// - the sink is finalized when and only when the loop has stopped.
    pub open spec fn inv(self) -> bool {
        &&& 0 <= self.skipped <= self.processed
        &&& self.sink.frames.len() == self.processed - self.skipped
        &&& self.sink.fps == self.fps
        &&& self.sink.width == self.width
        &&& self.sink.height == self.height
        &&& (self.sink.closed <==> !(self.state is Running))
        &&& forall|i: int|
            0 <= i < self.sink.frames.len() ==> (#[trigger] self.sink.frames[i]).layout
                == PixelLayout::SourceBgr
    }

    /// Whether the capture loop is still running.
    pub open spec fn running(self) -> bool {
        self.state is Running
    }
}

/// What a step demands of the frame an event carries: the frame honors
/// the frame invariant, and — unless it is malformed, in which case it is
/// skipped — it is a source-layout frame of the session's fixed
/// dimensions (a device reconfiguration mid-session is out of scope).
pub open spec fn event_wf(s: SessionView, event: CaptureEvent) -> bool {
    event matches CaptureEvent::FrameRead(f) ==> {
        &&& f@.wf()
        &&& f@.layout == PixelLayout::SourceBgr
        &&& !f@.malformed() ==> f@.width == s.width && f@.height == s.height
    }
}

impl CaptureSession {
    /// The sink part of the session's well-formedness, phrased so the
    /// sink can be reasoned about through `sink`.
    pub closed spec fn sink_wf(self) -> bool {
        self.sink.wf()
    }

    /// Well-formedness: the sink is internally consistent and the
    /// session invariant holds of the mathematical value.
    pub open spec fn wf(self) -> bool {
        &&& self.sink_wf()
        &&& self@.inv()
    }

    /// Startup. The device must have opened (confirmed by the caller
    /// before any capture work), and the sink's container must have
    /// opened; either failure is fatal and yields no session, the device
    /// being checked first — so no container is ever created for an
    /// unopened device.
    pub fn start(device: Option<SourceConfig>, sink_ready: bool) -> (r: Result<
        CaptureSession,
        PipelineError,
    >)
        ensures
            device is None ==> r == Err::<CaptureSession, PipelineError>(
                PipelineError::DeviceUnavailable,
            ),
            device is Some && !sink_ready ==> r == Err::<CaptureSession, PipelineError>(
                PipelineError::SinkOpenFailure,
            ),
            device is Some && sink_ready ==> (r matches Ok(s) && {
                &&& s.wf()
                &&& s@.running()
                &&& s@.width == device.unwrap().width
                &&& s@.height == device.unwrap().height
                &&& s@.fps == device.unwrap().fps
                &&& s@.processed == 0
                &&& s@.skipped == 0
                &&& s@.sink.frames.len() == 0
                &&& !s@.sink.closed
                &&& s@.sink.fps == device.unwrap().fps
            }),
    {
        match device {
            None => Err(PipelineError::DeviceUnavailable),
            Some(cfg) => {
                if !sink_ready {
                    Err(PipelineError::SinkOpenFailure)
                } else {
                    let sink = Sink::open(cfg.fps, cfg.width, cfg.height);
                    Ok(
                        CaptureSession {
                            width: cfg.width,
                            height: cfg.height,
                            fps: cfg.fps,
                            sink,
                            processed: 0,
                            skipped: 0,
                            state: SessionState::Running,
                        },
                    )
                }
            },
        }
    }

    /// One capture-loop iteration, applied to what the iteration
    /// observed.
    ///
    /// - A shutdown observed at the top of the iteration stops the loop
    ///   in this very step: the sink is finalized at once, so the
    ///   worst-case shutdown latency is one iteration. Since a stopped
    ///   session admits no further step and the sink closes when and
    ///   only when the session stops, the sink is closed exactly once —
    ///   never zero times, never twice.
    /// - A failed read stops the loop the same way, finalizing the sink,
    ///   and is reported as the loop's terminal result.
    /// - A malformed frame (non-positive reported width or height) is
    ///   counted, skipped, and neither appended to the sink nor
    ///   distributed to the presentation channel.
    /// - Any other frame is appended to the sink in its source layout,
    ///   then converted once and distributed; if the consumer has
    ///   meanwhile detached, the frame of this iteration is still
    ///   persisted, and the loop stops as on a shutdown.
    pub fn step(&mut self, slot: &mut FrameSlot, event: CaptureEvent) -> (r: StepResult)
        requires
            old(self).wf(),
            old(self)@.running(),
            old(self)@.processed < u64::MAX,
            event_wf(old(self)@, event),
        ensures
            final(self).wf(),
            final(self)@.width == old(self)@.width,
            final(self)@.height == old(self)@.height,
            final(self)@.fps == old(self)@.fps,
            event is ShutdownObserved ==> {
                &&& r == StepResult::Stopped(StopCause::ShutdownRequested)
                &&& final(self)@ == (SessionView {
                    sink: SinkView { closed: true, ..old(self)@.sink },
                    state: SessionState::Stopped(StopCause::ShutdownRequested),
                    ..old(self)@
                })
                &&& final(slot)@ == old(slot)@
            },
            event is ReadFailed ==> {
                &&& r == StepResult::Stopped(StopCause::ReadFailed)
                &&& final(self)@ == (SessionView {
                    sink: SinkView { closed: true, ..old(self)@.sink },
                    state: SessionState::Stopped(StopCause::ReadFailed),
                    ..old(self)@
                })
                &&& final(slot)@ == old(slot)@
            },
            event matches CaptureEvent::FrameRead(f) ==> {
                &&& f@.malformed() ==> {
                    &&& r == (StepResult::Continue { wrote: false })
                    &&& final(self)@ == (SessionView {
                        processed: old(self)@.processed + 1,
                        skipped: old(self)@.skipped + 1,
                        ..old(self)@
                    })
                    &&& final(slot)@ == old(slot)@
                }
                &&& (!f@.malformed() && old(slot)@.connected) ==> {
                    &&& r == (StepResult::Continue { wrote: true })
                    &&& final(self)@ == (SessionView {
                        processed: old(self)@.processed + 1,
                        sink: SinkView {
                            frames: old(self)@.sink.frames.push(f@),
                            ..old(self)@.sink
                        },
                        ..old(self)@
                    })
                    &&& final(slot)@ == slot_sent(old(slot)@, convert_spec(f@))
                }
                &&& (!f@.malformed() && !old(slot)@.connected) ==> {
                    &&& r == StepResult::Stopped(StopCause::Disconnected)
                    &&& final(self)@ == (SessionView {
                        processed: old(self)@.processed + 1,
                        sink: SinkView {
                            frames: old(self)@.sink.frames.push(f@),
                            closed: true,
                            ..old(self)@.sink
                        },
                        state: SessionState::Stopped(StopCause::Disconnected),
                        ..old(self)@
                    })
                    &&& final(slot)@ == old(slot)@
                }
            },
    {
        match event {
            CaptureEvent::ShutdownObserved => {
                self.sink.close();
                self.state = SessionState::Stopped(StopCause::ShutdownRequested);
                proof {
                    assert(self@ =~= (SessionView {
                        sink: SinkView { closed: true, ..old(self)@.sink },
                        state: SessionState::Stopped(StopCause::ShutdownRequested),
                        ..old(self)@
                    }));
                }
                StepResult::Stopped(StopCause::ShutdownRequested)
            },
            CaptureEvent::ReadFailed => {
                self.sink.close();
                self.state = SessionState::Stopped(StopCause::ReadFailed);
                proof {
                    assert(self@ =~= (SessionView {
                        sink: SinkView { closed: true, ..old(self)@.sink },
                        state: SessionState::Stopped(StopCause::ReadFailed),
                        ..old(self)@
                    }));
                }
                StepResult::Stopped(StopCause::ReadFailed)
            },
            CaptureEvent::FrameRead(f) => {
                self.processed = self.processed + 1;
                let written = self.sink.append(&f);
                if !written {
                    self.skipped = self.skipped + 1;
                    proof {
                        assert(self@ =~= (SessionView {
                            processed: old(self)@.processed + 1,
                            skipped: old(self)@.skipped + 1,
                            ..old(self)@
                        }));
                    }
                    StepResult::Continue { wrote: false }
                } else {
                    let shown = convert(&f);
                    match slot.send(shown) {
                        Ok(()) => {
                            proof {
                                assert(self@ =~= (SessionView {
                                    processed: old(self)@.processed + 1,
                                    sink: SinkView {
                                        frames: old(self)@.sink.frames.push(f@),
                                        ..old(self)@.sink
                                    },
                                    ..old(self)@
                                }));
                            }
                            StepResult::Continue { wrote: true }
                        },
                        Err(_) => {
                            self.sink.close();
                            self.state = SessionState::Stopped(StopCause::Disconnected);
                            proof {
                                assert(self@ =~= (SessionView {
                                    processed: old(self)@.processed + 1,
                                    sink: SinkView {
                                        frames: old(self)@.sink.frames.push(f@),
                                        closed: true,
                                        ..old(self)@.sink
                                    },
                                    state: SessionState::Stopped(StopCause::Disconnected),
                                    ..old(self)@
                                }));
                            }
                            StepResult::Stopped(StopCause::Disconnected)
                        },
                    }
                }
            },
        }
    }

    /// The loop's terminal result, surfaced by the controller once the
    /// loop has stopped: a failed read is reported as the read error; a
    /// requested shutdown and a detached consumer are both a clean stop.
    /// Either way the sink was finalized before this is asked.
    pub fn outcome(&self) -> (r: Result<(), PipelineError>)
        requires
            !self@.running(),
        ensures
            self@.state == SessionState::Stopped(StopCause::ReadFailed) ==> r == Err::<
                (),
                PipelineError,
            >(PipelineError::ReadError),
            self@.state != SessionState::Stopped(StopCause::ReadFailed) ==> r == Ok::<
                (),
                PipelineError,
            >(()),
    {
        match self.state {
            SessionState::Stopped(StopCause::ReadFailed) => Err(PipelineError::ReadError),
            _ => Ok(()),
        }
    }

    /// How many frames were processed (read from the device) so far.
    pub fn frames_processed(&self) -> (r: u64)
        ensures
            r == self@.processed,
    {
        self.processed
    }

    /// How many of the processed frames were malformed and skipped.
    pub fn frames_skipped(&self) -> (r: u64)
        ensures
            r == self@.skipped,
    {
        self.skipped
    }

    /// Whether the capture loop is still running.
    pub fn is_running(&self) -> (r: bool)
        ensures
            r == self@.running(),
    {
        match self.state {
            SessionState::Running => true,
            SessionState::Stopped(_) => false,
        }
    }

    /// A read-only look at the sink, for checking the persisted
    /// container's metadata and frame count.
    pub fn sink(&self) -> (r: &Sink)
        ensures
            r@ == self@.sink,
            r.wf() == self.sink_wf(),
    {
        &self.sink
    }
}

/// Persisted-count law: in every reachable session state, the persisted
/// container holds exactly the processed frames minus the skipped
/// malformed ones — for any frame count, zero included — and once the
/// loop has stopped, the container is finalized (playable) and holds
/// them still.
pub proof fn lemma_persisted_frame_count(s: CaptureSession)
    requires
        s.wf(),
    ensures
        s@.sink.frames.len() == s@.processed - s@.skipped,
        !s@.running() ==> s@.sink.closed,
{
}

/// Single-finalization law: in every reachable session state the sink is
/// finalized exactly when the loop has stopped. Together with `step`'s
/// contract — a stop observed in an iteration stops the session within
/// that same step, and a stopped session admits no further step — the
/// sink-close therefore happens exactly once on every exit path: never
/// zero times, never twice.
pub proof fn lemma_single_finalization(s: CaptureSession)
    requires
        s.wf(),
    ensures
        s@.sink.closed <==> !s@.running(),
{
}

} // verus!
