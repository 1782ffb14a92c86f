//! The frame loop: startup step by step, then one callback per display
//! refresh that draws, reads back and arms itself again.

use vstd::prelude::*;
use crate::geometry::{read_back_region, scale_target, CanvasSize, Rect};
use crate::setup::{SetupError, SetupStep};

verus! {

/// The two states of the loop as seen from outside.
#[derive(Clone, Copy, Debug, PartialEq, Eq, Structural)]
pub enum LoopState {
    /// No callback has been registered yet.
    Uninitialized,
    /// The first callback has been registered.
    Running,
}

/// Where the loop stands.
#[derive(Clone, Copy, Debug, PartialEq, Eq, Structural)]
pub enum Phase {
    /// Startup is under way; this step is the next to perform.
    Setup(SetupStep),
    /// Startup was aborted with this error. Nothing was registered.
    Aborted(SetupError),
    /// Running, between two frames: one callback is pending with the host.
    Armed,
    /// Running, inside the callback: the host has taken the pending
    /// callback and it has not armed itself again yet.
    InFrame,
    /// Running, but a frame failed before it could arm itself again: no
    /// callback is pending and none will fire.
    Stalled,
}

/// What one frame does to the destination canvas, in this order: draw the
/// whole source into `draw_target`, then read `read_back` from it.
#[derive(Clone, Copy, Debug, PartialEq, Eq, Structural)]
pub struct FramePlan {
    /// The rectangle of the destination that the source is scaled into.
    pub draw_target: Rect,
    /// The rectangle of the destination whose pixels are read back.
    pub read_back: Rect,
}

impl FramePlan {
    /// The plan of a frame that finds the destination canvas at `destination`.
    pub open spec fn at(destination: CanvasSize) -> FramePlan {
        FramePlan { draw_target: Rect::covering(destination), read_back: Rect::read_back() }
    }
}

/// The loop as a mathematical value.
pub struct LoopModel {
    /// Where the loop stands.
    pub phase: Phase,
    /// How many times the callback has been invoked so far.
    pub invocations: nat,
}

impl LoopModel {
    /// The loop before anything has happened.
    pub open spec fn initial() -> LoopModel {
        LoopModel { phase: Phase::Setup(SetupStep::spec_first()), invocations: 0 }
    }

    /// The state as seen from outside.
    pub open spec fn state(self) -> LoopState {
        match self.phase {
            Phase::Setup(_) | Phase::Aborted(_) => LoopState::Uninitialized,
            Phase::Armed | Phase::InFrame | Phase::Stalled => LoopState::Running,
        }
    }

    /// The number of callbacks that are pending with the host's scheduler.
    pub open spec fn pending(self) -> nat {
        if self.phase == Phase::Armed {
            1
        } else {
            0
        }
    }

    /// The setup step to perform next, if startup is still under way.
    pub open spec fn next_step(self) -> Option<SetupStep> {
        match self.phase {
            Phase::Setup(step) => Some(step),
            _ => None,
        }
    }

    /// How many setup steps are still to be performed at most: none once
    /// startup has ended.
    pub open spec fn steps_left(self) -> nat {
        match self.phase {
            Phase::Setup(step) => step.remaining(),
            _ => 0,
        }
    }

    /// The error that startup was aborted with, if it was.
    pub open spec fn setup_error(self) -> Option<SetupError> {
        match self.phase {
            Phase::Aborted(error) => Some(error),
            _ => None,
        }
    }

    /// The loop after the pending setup step was performed and succeeded or
    /// failed. A failure aborts startup with the error of that step. A
    /// success moves on to the following step; the success of the last one,
    /// the registration, starts the loop with one callback pending. Outside
    /// startup nothing changes.
    pub open spec fn after_step(self, succeeded: bool) -> LoopModel {
        match self.phase {
            Phase::Setup(step) => if !succeeded {
                LoopModel { phase: Phase::Aborted(step.spec_failure()), ..self }
            } else {
                match step.spec_following() {
                    Some(next) => LoopModel { phase: Phase::Setup(next), ..self },
                    None => LoopModel { phase: Phase::Armed, ..self },
                }
            },
            _ => self,
        }
    }

    /// The loop after the host has tried to fire the callback. Where one was
    /// pending, the host takes it and the callback runs: one invocation
    /// more, none pending. Otherwise nothing fires and nothing changes.
    pub open spec fn after_begin(self) -> LoopModel {
        if self.phase == Phase::Armed {
            LoopModel { phase: Phase::InFrame, invocations: self.invocations + 1 }
        } else {
            self
        }
    }

    /// The loop after the callback has drawn and read back, or failed to.
    /// A frame that completed arms itself again; one that failed leaves
    /// nothing pending. Outside a callback nothing changes.
    pub open spec fn after_end(self, completed: bool) -> LoopModel {
        if self.phase == Phase::InFrame {
            LoopModel { phase: if completed { Phase::Armed } else { Phase::Stalled }, ..self }
        } else {
            self
        }
    }

    /// The loop after one whole frame that completed.
    pub open spec fn after_tick(self) -> LoopModel {
        self.after_begin().after_end(true)
    }

    /// The loop after `ticks` whole frames that completed.
    pub open spec fn after_ticks(self, ticks: nat) -> LoopModel
        decreases ticks,
    {
        if ticks == 0 {
            self
        } else {
            self.after_ticks((ticks - 1) as nat).after_tick()
        }
    }
}

/// The frame loop. It performs nothing itself: it says what is to be done
/// next and takes note of what came of it.
pub struct FrameLoop {
    phase: Phase,
    invocations: Ghost<nat>,
}

impl View for FrameLoop {
    type V = LoopModel;

    closed spec fn view(&self) -> LoopModel {
        LoopModel { phase: self.phase, invocations: self.invocations@ }
    }
}

impl FrameLoop {
    /// A loop on which startup has not begun.
    pub fn new() -> (fresh: FrameLoop)
        ensures
            fresh@ == LoopModel::initial(),
    {
        FrameLoop { phase: Phase::Setup(SetupStep::first()), invocations: Ghost(0) }
    }

    /// Where the loop stands.
    pub fn phase(&self) -> (phase: Phase)
        ensures
            phase == self@.phase,
    {
        self.phase
    }

    /// The state as seen from outside.
    pub fn state(&self) -> (state: LoopState)
        ensures
            state == self@.state(),
    {
        match self.phase {
            Phase::Setup(_) => LoopState::Uninitialized,
            Phase::Aborted(_) => LoopState::Uninitialized,
            Phase::Armed => LoopState::Running,
            Phase::InFrame => LoopState::Running,
            Phase::Stalled => LoopState::Running,
        }
    }

    /// The number of callbacks that are pending with the host's scheduler:
    /// never more than one.
    pub fn pending_callbacks(&self) -> (count: usize)
        ensures
            count == self@.pending(),
            count <= 1,
    {
        match self.phase {
            Phase::Armed => 1,
            _ => 0,
        }
    }

    /// The setup step to perform next; `None` once startup has ended, in
    /// success or in failure.
    pub fn next_step(&self) -> (step: Option<SetupStep>)
        ensures
            step == self@.next_step(),
    {
        match self.phase {
            Phase::Setup(step) => Some(step),
            _ => None,
        }
    }

    /// The error that startup was aborted with; `None` while startup is
    /// under way and after it has succeeded.
    pub fn setup_error(&self) -> (error: Option<SetupError>)
        ensures
            error == self@.setup_error(),
    {
        match self.phase {
            Phase::Aborted(error) => Some(error),
            _ => None,
        }
    }

    /// Takes note that the pending setup step was performed, and whether it
    /// succeeded. Returns the error if startup stands aborted afterwards.
    pub fn complete_step(&mut self, succeeded: bool) -> (outcome: Result<(), SetupError>)
        ensures
            final(self)@ == old(self)@.after_step(succeeded),
            outcome == match final(self)@.setup_error() {
                Some(error) => Err::<(), SetupError>(error),
                None => Ok::<(), SetupError>(()),
            },
    {
        match self.phase {
            Phase::Setup(step) => {
                if !succeeded {
                    let error = step.failure();
                    self.phase = Phase::Aborted(error);
                    Err(error)
                } else {
                    match step.following() {
                        Some(next) => {
                            self.phase = Phase::Setup(next);
                        },
                        None => {
                            self.phase = Phase::Armed;
                        },
                    }
                    Ok(())
                }
            },
            Phase::Aborted(error) => Err(error),
            _ => Ok(()),
        }
    }

    /// The host fires the callback and reports the size of the destination
    /// canvas at this moment. Where a callback was pending, returns what the
    /// frame is to draw and to read back; otherwise `None`, and nothing
    /// changes.
    pub fn begin_frame(&mut self, destination: CanvasSize) -> (plan: Option<FramePlan>)
        ensures
            final(self)@ == old(self)@.after_begin(),
            plan == if old(self)@.phase == Phase::Armed {
                Some(FramePlan::at(destination))
            } else {
                None
            },
    {
        match self.phase {
            Phase::Armed => {
                self.phase = Phase::InFrame;
                self.invocations = Ghost((self.invocations@ + 1) as nat);
                Some(
                    FramePlan {
                        draw_target: scale_target(destination),
                        read_back: read_back_region(),
                    },
                )
            },
            _ => None,
        }
    }

    /// The callback has carried out its plan (`completed`) or failed on the
    /// way. Returns whether the callback is to be registered with the host
    /// again: exactly when a frame was under way and completed.
    pub fn end_frame(&mut self, completed: bool) -> (rearm: bool)
        ensures
            final(self)@ == old(self)@.after_end(completed),
            rearm == (old(self)@.phase == Phase::InFrame && completed),
    {
        match self.phase {
            Phase::InFrame => {
                if completed {
                    self.phase = Phase::Armed;
                } else {
                    self.phase = Phase::Stalled;
                }
                completed
            },
            _ => false,
        }
    }
}

/// What a frame draws into follows the destination canvas alone: the whole
/// of it, from the origin, at the size it has at that moment. What a frame
/// reads back follows nothing: the same region of 1920 by 1080 pixels from
/// the origin, whatever the size of the destination.
pub proof fn lemma_plan_shape(destination: CanvasSize)
    ensures
        FramePlan::at(destination).draw_target == (Rect {
            x: 0,
            y: 0,
            width: destination.width,
            height: destination.height,
        }),
        FramePlan::at(destination).read_back == (Rect { x: 0, y: 0, width: 1920, height: 1080 }),
{
}

/// Startup comes to an end whatever the host answers: each report on a
/// pending step leaves fewer steps to perform, and there are eight at first.
pub proof fn lemma_setup_ends(model: LoopModel, succeeded: bool)
    ensures
        LoopModel::initial().steps_left() == 8,
        model.steps_left() <= 8,
        model.next_step().is_some() <==> model.steps_left() > 0,
        model.next_step().is_some() ==> model.after_step(succeeded).steps_left()
            < model.steps_left(),
        model.next_step().is_some() && succeeded ==> model.after_step(succeeded).steps_left() + 1
            == model.steps_left(),
{
}

/// A running loop never returns to the uninitialized state, whatever is
/// reported to it; and a loop that is not running has no callback pending.
pub proof fn lemma_running_is_kept(model: LoopModel, flag: bool)
    ensures
        model.state() == LoopState::Uninitialized ==> model.pending() == 0,
        model.pending() <= 1,
        model.state() == LoopState::Running ==> {
            &&& model.after_step(flag) == model
            &&& model.after_begin().state() == LoopState::Running
            &&& model.after_end(flag).state() == LoopState::Running
        },
{
}

/// The callback is invoked only where one is pending, and then exactly one
/// invocation is added; startup adds none.
pub proof fn lemma_invocations(model: LoopModel, flag: bool)
    ensures
        model.after_step(flag).invocations == model.invocations,
        model.after_end(flag).invocations == model.invocations,
        model.after_begin().invocations == model.invocations + model.pending(),
{
}

/// The cycle sustains itself: from a loop with its callback armed, after any
/// number of completed frames the callback has been invoked exactly that
/// many times more, and exactly one callback is pending again.
pub proof fn lemma_cycle_sustains(model: LoopModel, ticks: nat)
    requires
        model.phase == Phase::Armed,
    ensures
        model.after_ticks(ticks).phase == Phase::Armed,
        model.after_ticks(ticks).pending() == 1,
        model.after_ticks(ticks).state() == LoopState::Running,
        model.after_ticks(ticks).invocations == model.invocations + ticks,
    decreases ticks,
{
    if ticks > 0 {
        lemma_cycle_sustains(model, (ticks - 1) as nat);
    }
}

/// A frame that fails ends the cycle: nothing is pending afterwards, and no
/// later tick invokes the callback again.
pub proof fn lemma_failed_frame_stalls(model: LoopModel, ticks: nat)
    requires
        model.phase == Phase::Armed,
    ensures
        model.after_begin().after_end(false).pending() == 0,
        model.after_begin().after_end(false).after_ticks(ticks)
            == model.after_begin().after_end(false),
    decreases ticks,
{
    if ticks > 0 {
        lemma_failed_frame_stalls(model, (ticks - 1) as nat);
    }
}

} // verus!
