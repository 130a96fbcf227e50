use crate::cursor::{slot_after, FrameCursor, POOL_SLOTS};
use crate::error::RenderError;
use crate::instance::{rotate_triple, spec_encode, VectorTriple, ROTATION_ANGLE_BITS, SLOT_BYTES};
use crate::surface::{
    acquire_decision, spec_target_of, AcquireAction, AcquireOutcome, FrameTarget, SurfaceConfig,
};
use vstd::prelude::*;

verus! {

/// Vertices issued per instance: the three corners of the triangle.
pub const VERTEX_COUNT: u32 = 3;

/// Instances issued per draw: one per vector in the slot.
pub const DRAW_INSTANCES: u32 = 3;

/// The one instanced draw a frame records.
#[derive(Clone, Copy, PartialEq, Eq, Structural, Debug)]
pub struct DrawCall {
    pub vertex_count: u32,
    pub instance_count: u32,
}

/// The draw every frame issues: all vertices, all instances.
pub open spec fn spec_draw_call() -> DrawCall {
    DrawCall { vertex_count: VERTEX_COUNT, instance_count: DRAW_INSTANCES }
}

/// The resting points of one frame's protocol, between two driver
/// operations. A frame moves through them strictly in this order; failures
/// return it to `Idle`.
#[derive(Clone, Copy, PartialEq, Eq, Structural, Debug)]
pub enum Stage {
    /// No frame is in flight.
    Idle,
    /// The slot is selected and its read mapping was requested.
    ReadPending,
    /// The snapshot was transformed; the write mapping was requested.
    WritePending,
    /// The transformed bytes are being copied back and flushed.
    WriteBackPending,
    /// The slot is written; the first acquisition attempt is under way.
    AcquirePending,
    /// The first attempt found the surface outdated; it is being
    /// reconfigured.
    ReconfigurePending,
    /// The retry after reconfiguration is under way.
    AcquireRetryPending,
    /// A target is acquired; the render pass is being recorded.
    RecordPending,
    /// Commands are recorded and being submitted.
    SubmitPending,
    /// The queue accepted the commands; the frame is being presented.
    PresentPending,
}

/// What the driver reports back to the pipeline.
#[derive(Debug)]
pub enum FrameEvent {
    /// A redraw was requested and no frame is in flight.
    Begin,
    /// The read mapping resolved; these are the slot's bytes.
    ReadMapped(Vec<u8>),
    /// The read mapping failed.
    ReadMapFailed,
    /// The write mapping resolved.
    WriteMapped,
    /// The write mapping failed.
    WriteMapFailed,
    /// The transformed bytes were copied in and the slot was unmapped.
    WrittenBack,
    /// One acquisition attempt finished with this outcome.
    Acquire(AcquireOutcome),
    /// The surface was reconfigured after an outdated acquisition.
    Reconfigured,
    /// The render pass was recorded.
    DrawRecorded,
    /// The commands were handed to the queue.
    SubmitDone,
    /// The frame was scheduled for display.
    PresentDone,
    /// The queue reports all previously submitted work finished. Purely
    /// instrumentation; it may arrive at any stage.
    WorkDone,
}

/// What the driver must do next.
#[derive(Debug)]
pub enum FrameAction {
    /// Request asynchronous read mapping of this slot.
    RequestReadMap { slot: usize },
    /// Unmap the read mapping, then request asynchronous write mapping of
    /// the same slot.
    UnmapThenRequestWriteMap { slot: usize },
    /// Copy these bytes over the write mapping, then unmap to flush them.
    CopyBackAndUnmap { slot: usize, bytes: Vec<u8> },
    /// Attempt to acquire the next presentable frame target.
    AcquireFrame,
    /// Reconfigure the surface for this size, then report back.
    Reconfigure { width: u32, height: u32 },
    /// Record one render pass against this target: clear to black, the fixed
    /// pipeline and bind group, the vertex buffer at binding 0 and the slot's
    /// buffer at binding 1, and this one instanced draw.
    RecordDraw { slot: usize, target: FrameTarget, draw: DrawCall },
    /// Submit the recorded commands to the queue.
    SubmitCommands,
    /// Present the acquired frame.
    PresentFrame,
    /// Await the queue's work-done signal in the background; it must not
    /// gate the next frame.
    AwaitCompletion,
    /// Drop the current frame and report this error.
    SkipFrame { error: RenderError },
    /// Report this error and terminate the application.
    Halt { error: RenderError },
    /// Note the completion signal; nothing else changes.
    NoteCompletion,
    /// The event does not belong to the current stage; nothing changes.
    Ignore,
}

/// Position of a stage along the frame protocol; the protocol only ever
/// moves forward.
pub open spec fn stage_rank(s: Stage) -> nat {
    match s {
        Stage::Idle => 0,
        Stage::ReadPending => 1,
        Stage::WritePending => 2,
        Stage::WriteBackPending => 3,
        Stage::AcquirePending => 4,
        Stage::ReconfigurePending => 5,
        Stage::AcquireRetryPending => 6,
        Stage::RecordPending => 7,
        Stage::SubmitPending => 8,
        Stage::PresentPending => 9,
    }
}

/// The pairs of stage and event the protocol gives a meaning to.
pub open spec fn spec_accepts(stage: Stage, e: FrameEvent) -> bool {
    match (stage, e) {
        (Stage::Idle, FrameEvent::Begin) => true,
        (Stage::ReadPending, FrameEvent::ReadMapped(_)) => true,
        (Stage::ReadPending, FrameEvent::ReadMapFailed) => true,
        (Stage::WritePending, FrameEvent::WriteMapped) => true,
        (Stage::WritePending, FrameEvent::WriteMapFailed) => true,
        (Stage::WriteBackPending, FrameEvent::WrittenBack) => true,
        (Stage::AcquirePending, FrameEvent::Acquire(_)) => true,
        (Stage::ReconfigurePending, FrameEvent::Reconfigured) => true,
        (Stage::AcquireRetryPending, FrameEvent::Acquire(_)) => true,
        (Stage::RecordPending, FrameEvent::DrawRecorded) => true,
        (Stage::SubmitPending, FrameEvent::SubmitDone) => true,
        (Stage::PresentPending, FrameEvent::PresentDone) => true,
        (_, FrameEvent::WorkDone) => true,
        _ => false,
    }
}

/// Orchestrates one frame at a time: selects the slot, orders the mapping,
/// transform, write-back, recording, submission and presentation steps, and
/// answers failures according to the error taxonomy. A new frame is refused
/// while one is in flight, so the cursor advances exactly once per frame.
pub struct FramePipeline {
    cursor: FrameCursor,
    stage: Stage,
    slot: usize,
    pending: Option<VectorTriple>,
    angle_bits: u32,
}

impl FramePipeline {
    /// The stage the current frame rests at.
    pub closed spec fn spec_stage(self) -> Stage {
        self.stage
    }

    /// The slot the current frame targets.
    pub closed spec fn spec_slot(self) -> usize {
        self.slot
    }

    /// The cursor's current position.
    pub closed spec fn spec_cursor(self) -> nat {
        self.cursor.spec_index()
    }

    /// The transformed triple awaiting write-back, if the frame holds one.
    pub closed spec fn spec_pending(self) -> Option<VectorTriple> {
        self.pending
    }

    /// The rotation increment this pipeline applies each frame.
    pub closed spec fn spec_angle(self) -> u32 {
        self.angle_bits
    }

    /// The pipeline's invariant: the cursor and the slot denote pool slots,
    /// and a transformed triple is held exactly while the write mapping is
    /// pending.
    pub closed spec fn wf(self) -> bool {
        &&& self.cursor.wf()
        &&& self.slot < POOL_SLOTS
        &&& (self.pending is Some <==> self.stage == Stage::WritePending)
    }

    /// A fresh pipeline with the fixed rotation increment.
    pub fn new() -> (p: FramePipeline)
        ensures
            p.wf(),
            p.spec_stage() == Stage::Idle,
            p.spec_cursor() == 0,
            p.spec_angle() == ROTATION_ANGLE_BITS,
    {
        FramePipeline {
            cursor: FrameCursor::new(),
            stage: Stage::Idle,
            slot: 0,
            pending: None,
            angle_bits: ROTATION_ANGLE_BITS,
        }
    }

    /// A fresh pipeline with a chosen rotation increment.
    pub fn with_angle(angle_bits: u32) -> (p: FramePipeline)
        ensures
            p.wf(),
            p.spec_stage() == Stage::Idle,
            p.spec_cursor() == 0,
            p.spec_angle() == angle_bits,
    {
        FramePipeline {
            cursor: FrameCursor::new(),
            stage: Stage::Idle,
            slot: 0,
            pending: None,
            angle_bits,
        }
    }

    /// The stage the current frame rests at.
    pub fn stage(&self) -> (s: Stage)
        ensures
            s == self.spec_stage(),
    {
        self.stage
    }

    /// Answers one driver event with the next action. The protocol's order
    /// is fixed: within a frame the stage only moves forward, and an event
    /// that does not belong to the current stage changes nothing.
    pub fn step(&mut self, config: &SurfaceConfig, event: FrameEvent) -> (a: FrameAction)
        requires
            old(self).wf(),
        ensures
            final(self).wf(),
            final(self).spec_angle() == old(self).spec_angle(),
            // the cursor moves exactly when a frame begins
            (old(self).spec_stage() == Stage::Idle && event matches FrameEvent::Begin)
                ==> final(self).spec_cursor() == slot_after(old(self).spec_cursor(), 1),
            !(old(self).spec_stage() == Stage::Idle && event matches FrameEvent::Begin)
                ==> final(self).spec_cursor() == old(self).spec_cursor(),
            // the protocol only moves forward within a frame
            !(a matches FrameAction::Ignore) && !(a matches FrameAction::NoteCompletion)
                && final(self).spec_stage() != Stage::Idle ==> stage_rank(
                final(self).spec_stage(),
            ) > stage_rank(old(self).spec_stage()),
            // beginning a frame selects the next slot and requests its read
            // mapping
            old(self).spec_stage() == Stage::Idle ==> (event matches FrameEvent::Begin
                ==> final(self).spec_stage() == Stage::ReadPending && final(self).spec_slot()
                == final(self).spec_cursor() && a == (FrameAction::RequestReadMap {
                slot: final(self).spec_slot(),
            })),
            // a whole snapshot is decoded, rotated, and held for write-back;
            // the transform's numeric outcome is the platform's, so the held
            // triple is pinned only at write-back, relative to what the
            // rotation returned
            old(self).spec_stage() == Stage::ReadPending ==> (event matches
                FrameEvent::ReadMapped(bytes) ==> if bytes@.len() == SLOT_BYTES {
                &&& final(self).spec_stage() == Stage::WritePending
                &&& final(self).spec_slot() == old(self).spec_slot()
                &&& final(self).spec_pending() is Some
                &&& a == (FrameAction::UnmapThenRequestWriteMap {
                    slot: old(self).spec_slot(),
                })
            } else {
                &&& final(self).spec_stage() == Stage::Idle
                &&& a == (FrameAction::SkipFrame { error: RenderError::BadSlotLength })
            }),
            // a failed read mapping costs exactly this frame
            old(self).spec_stage() == Stage::ReadPending ==> (event matches
                FrameEvent::ReadMapFailed ==> final(self).spec_stage() == Stage::Idle && a
                == (FrameAction::SkipFrame { error: RenderError::ReadMapFailed })),
            // the write mapping resolved: the rotated bytes go back verbatim
            old(self).spec_stage() == Stage::WritePending ==> (event matches
                FrameEvent::WriteMapped ==> (old(self).spec_pending() matches Some(t) ==> {
                &&& final(self).spec_stage() == Stage::WriteBackPending
                &&& final(self).spec_slot() == old(self).spec_slot()
                &&& a matches FrameAction::CopyBackAndUnmap { slot, bytes } && slot == old(
                    self,
                ).spec_slot() && bytes@ == spec_encode(t)
            })),
            // a failed write mapping costs exactly this frame
            old(self).spec_stage() == Stage::WritePending ==> (event matches
                FrameEvent::WriteMapFailed ==> final(self).spec_stage() == Stage::Idle && a
                == (FrameAction::SkipFrame { error: RenderError::WriteMapFailed })),
            // the slot is flushed before any drawing: only now is a frame
            // target acquired
            old(self).spec_stage() == Stage::WriteBackPending ==> (event matches
                FrameEvent::WrittenBack ==> final(self).spec_stage() == Stage::AcquirePending
                && final(self).spec_slot() == old(self).spec_slot() && a
                == FrameAction::AcquireFrame),
            // first acquisition attempt: use the target, or reconfigure once,
            // or halt
            old(self).spec_stage() == Stage::AcquirePending ==> (event matches
                FrameEvent::Acquire(outcome) ==> {
                &&& outcome == AcquireOutcome::Acquired ==> final(self).spec_stage()
                    == Stage::RecordPending && final(self).spec_slot() == old(self).spec_slot()
                    && a == (FrameAction::RecordDraw {
                    slot: old(self).spec_slot(),
                    target: spec_target_of(*config),
                    draw: spec_draw_call(),
                })
                &&& outcome == AcquireOutcome::Outdated ==> final(self).spec_stage()
                    == Stage::ReconfigurePending && a == (FrameAction::Reconfigure {
                    width: config.width,
                    height: config.height,
                })
                &&& outcome == AcquireOutcome::OutOfMemory ==> final(self).spec_stage()
                    == Stage::Idle && a == (FrameAction::Halt {
                    error: RenderError::OutOfMemory,
                })
            }),
            // after the one reconfiguration, exactly one retry
            old(self).spec_stage() == Stage::ReconfigurePending ==> (event matches
                FrameEvent::Reconfigured ==> final(self).spec_stage()
                == Stage::AcquireRetryPending && final(self).spec_slot() == old(
                self,
            ).spec_slot() && a == FrameAction::AcquireFrame),
            // the retry: use the target, or drop the frame, or halt
            old(self).spec_stage() == Stage::AcquireRetryPending ==> (event matches
                FrameEvent::Acquire(outcome) ==> {
                &&& outcome == AcquireOutcome::Acquired ==> final(self).spec_stage()
                    == Stage::RecordPending && final(self).spec_slot() == old(self).spec_slot()
                    && a == (FrameAction::RecordDraw {
                    slot: old(self).spec_slot(),
                    target: spec_target_of(*config),
                    draw: spec_draw_call(),
                })
                &&& outcome == AcquireOutcome::Outdated ==> final(self).spec_stage()
                    == Stage::Idle && a == (FrameAction::SkipFrame {
                    error: RenderError::SurfaceOutdated,
                })
                &&& outcome == AcquireOutcome::OutOfMemory ==> final(self).spec_stage()
                    == Stage::Idle && a == (FrameAction::Halt {
                    error: RenderError::OutOfMemory,
                })
            }),
            // recording, submission and presentation follow in order
            old(self).spec_stage() == Stage::RecordPending ==> (event matches
                FrameEvent::DrawRecorded ==> final(self).spec_stage() == Stage::SubmitPending
                && a == FrameAction::SubmitCommands),
            old(self).spec_stage() == Stage::SubmitPending ==> (event matches
                FrameEvent::SubmitDone ==> final(self).spec_stage() == Stage::PresentPending
                && a == FrameAction::PresentFrame),
            // presentation completes the frame; the work-done wait is an
            // observational tail and does not gate the next frame
            old(self).spec_stage() == Stage::PresentPending ==> (event matches
                FrameEvent::PresentDone ==> final(self).spec_stage() == Stage::Idle && a
                == FrameAction::AwaitCompletion),
            // the completion signal is instrumentation only
            event matches FrameEvent::WorkDone ==> *final(self) == *old(self) && a
                == FrameAction::NoteCompletion,
            // an event outside the protocol changes nothing
            !spec_accepts(old(self).spec_stage(), event) ==> *final(self) == *old(self) && a
                == FrameAction::Ignore,
    {
        match (self.stage, event) {
            (_, FrameEvent::WorkDone) => FrameAction::NoteCompletion,
            (Stage::Idle, FrameEvent::Begin) => {
                let slot = self.cursor.advance();
                self.slot = slot;
                self.stage = Stage::ReadPending;
                FrameAction::RequestReadMap { slot }
            },
            (Stage::ReadPending, FrameEvent::ReadMapped(bytes)) => {
                match VectorTriple::decode(bytes.as_slice()) {
                    Some(snapshot) => {
                        let rotated = rotate_triple(self.angle_bits, &snapshot);
                        self.pending = Some(rotated);
                        self.stage = Stage::WritePending;
                        FrameAction::UnmapThenRequestWriteMap { slot: self.slot }
                    },
                    None => {
                        self.stage = Stage::Idle;
                        FrameAction::SkipFrame { error: RenderError::BadSlotLength }
                    },
                }
            },
            (Stage::ReadPending, FrameEvent::ReadMapFailed) => {
                self.stage = Stage::Idle;
                FrameAction::SkipFrame { error: RenderError::ReadMapFailed }
            },
            (Stage::WritePending, FrameEvent::WriteMapped) => {
                match self.pending {
                    Some(t) => {
                        self.pending = None;
                        self.stage = Stage::WriteBackPending;
                        let bytes = t.encode();
                        FrameAction::CopyBackAndUnmap { slot: self.slot, bytes }
                    },
                    None => FrameAction::Ignore,
                }
            },
            (Stage::WritePending, FrameEvent::WriteMapFailed) => {
                self.pending = None;
                self.stage = Stage::Idle;
                FrameAction::SkipFrame { error: RenderError::WriteMapFailed }
            },
            (Stage::WriteBackPending, FrameEvent::WrittenBack) => {
                self.stage = Stage::AcquirePending;
                FrameAction::AcquireFrame
            },
            (Stage::AcquirePending, FrameEvent::Acquire(outcome)) => {
                match acquire_decision(config, outcome, false) {
                    AcquireAction::UseFrame(target) => {
                        self.stage = Stage::RecordPending;
                        FrameAction::RecordDraw {
                            slot: self.slot,
                            target,
                            draw: DrawCall {
                                vertex_count: VERTEX_COUNT,
                                instance_count: DRAW_INSTANCES,
                            },
                        }
                    },
                    AcquireAction::ReconfigureAndRetry => {
                        self.stage = Stage::ReconfigurePending;
                        FrameAction::Reconfigure { width: config.width, height: config.height }
                    },
                    AcquireAction::SkipFrame => {
                        self.stage = Stage::Idle;
                        FrameAction::SkipFrame { error: RenderError::SurfaceOutdated }
                    },
                    AcquireAction::Halt => {
                        self.stage = Stage::Idle;
                        FrameAction::Halt { error: RenderError::OutOfMemory }
                    },
                }
            },
            (Stage::ReconfigurePending, FrameEvent::Reconfigured) => {
                self.stage = Stage::AcquireRetryPending;
                FrameAction::AcquireFrame
            },
            (Stage::AcquireRetryPending, FrameEvent::Acquire(outcome)) => {
                match acquire_decision(config, outcome, true) {
                    AcquireAction::UseFrame(target) => {
                        self.stage = Stage::RecordPending;
                        FrameAction::RecordDraw {
                            slot: self.slot,
                            target,
                            draw: DrawCall {
                                vertex_count: VERTEX_COUNT,
                                instance_count: DRAW_INSTANCES,
                            },
                        }
                    },
                    AcquireAction::ReconfigureAndRetry => {
                        self.stage = Stage::Idle;
                        FrameAction::SkipFrame { error: RenderError::SurfaceOutdated }
                    },
                    AcquireAction::SkipFrame => {
                        self.stage = Stage::Idle;
                        FrameAction::SkipFrame { error: RenderError::SurfaceOutdated }
                    },
                    AcquireAction::Halt => {
                        self.stage = Stage::Idle;
                        FrameAction::Halt { error: RenderError::OutOfMemory }
                    },
                }
            },
            (Stage::RecordPending, FrameEvent::DrawRecorded) => {
                self.stage = Stage::SubmitPending;
                FrameAction::SubmitCommands
            },
            (Stage::SubmitPending, FrameEvent::SubmitDone) => {
                self.stage = Stage::PresentPending;
                FrameAction::PresentFrame
            },
            (Stage::PresentPending, FrameEvent::PresentDone) => {
                self.stage = Stage::Idle;
                FrameAction::AwaitCompletion
            },
            _ => FrameAction::Ignore,
        }
    }
}

} // verus!
