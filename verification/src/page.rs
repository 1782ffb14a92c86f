//! A page as startup sees it, and what startup comes to on it.

use vstd::prelude::*;
use crate::frame_loop::{FrameLoop, LoopModel, LoopState, Phase};
use crate::setup::{CanvasRole, SetupError, SetupStep, SETUP_STEPS};

verus! {

/// What a page holds under one of the two element identifiers.
#[derive(Clone, Copy, Debug, PartialEq, Eq, Structural)]
pub enum Element {
    /// Nothing: the identifier is absent from the document.
    Absent,
    /// An element that is not a canvas.
    NotCanvas,
    /// A canvas that gives no 2D drawing context.
    CanvasWithoutContext,
    /// A canvas with a 2D drawing context.
    Canvas,
}

/// A host page, reduced to what startup asks of it.
#[derive(Clone, Copy, Debug, PartialEq, Eq, Structural)]
pub struct Page {
    /// Whether the host has a document at all.
    pub has_document: bool,
    /// What stands under the identifier of the source canvas.
    pub source: Element,
    /// What stands under the identifier of the destination canvas.
    pub destination: Element,
    /// Whether the host's scheduler takes a frame callback.
    pub schedules: bool,
}

impl Page {
    /// What the page holds for the canvas of this role.
    pub open spec fn spec_element(self, role: CanvasRole) -> Element {
        match role {
            CanvasRole::Source => self.source,
            CanvasRole::Destination => self.destination,
        }
    }

    /// Whether this setup step succeeds on the page.
    pub open spec fn spec_answers(self, step: SetupStep) -> bool {
        match step {
            SetupStep::ResolveDocument => self.has_document,
            SetupStep::FindElement(role) => self.spec_element(role) != Element::Absent,
            SetupStep::CheckCanvas(role) => self.spec_element(role) == Element::Canvas
                || self.spec_element(role) == Element::CanvasWithoutContext,
            SetupStep::AcquireContext(role) => self.spec_element(role) == Element::Canvas,
            SetupStep::RegisterCallback => self.schedules,
        }
    }

    /// The first thing that is wrong with the page, in the order in which
    /// startup would meet it; `None` where startup succeeds.
    pub open spec fn first_failure(self) -> Option<SetupError> {
        if !self.has_document {
            Some(SetupError::MissingDocument)
        } else if self.source == Element::Absent {
            Some(SetupError::MissingElement(CanvasRole::Source))
        } else if self.source == Element::NotCanvas {
            Some(SetupError::NotACanvas(CanvasRole::Source))
        } else if self.source == Element::CanvasWithoutContext {
            Some(SetupError::ContextUnavailable(CanvasRole::Source))
        } else if self.destination == Element::Absent {
            Some(SetupError::MissingElement(CanvasRole::Destination))
        } else if self.destination == Element::NotCanvas {
            Some(SetupError::NotACanvas(CanvasRole::Destination))
        } else if self.destination == Element::CanvasWithoutContext {
            Some(SetupError::ContextUnavailable(CanvasRole::Destination))
        } else if !self.schedules {
            Some(SetupError::RegistrationFailed)
        } else {
            None
        }
    }

    /// The loop after at most `steps` setup steps were performed on the
    /// page, each reported as the page answers it.
    pub open spec fn settle(self, model: LoopModel, steps: nat) -> LoopModel
        decreases steps,
    {
        if steps == 0 {
            model
        } else {
            match model.phase {
                Phase::Setup(step) => self.settle(
                    model.after_step(self.spec_answers(step)),
                    (steps - 1) as nat,
                ),
                _ => model,
            }
        }
    }

    /// The loop after startup has run on the page to its end.
    pub open spec fn after_setup(self) -> LoopModel {
        self.settle(LoopModel::initial(), SETUP_STEPS as nat)
    }

    /// What the page holds for the canvas of this role.
    pub fn element(&self, role: CanvasRole) -> (found: Element)
        ensures
            found == self.spec_element(role),
    {
        match role {
            CanvasRole::Source => self.source,
            CanvasRole::Destination => self.destination,
        }
    }

    /// Whether this setup step succeeds on the page.
    pub fn answers(&self, step: SetupStep) -> (succeeded: bool)
        ensures
            succeeded == self.spec_answers(step),
    {
        match step {
            SetupStep::ResolveDocument => self.has_document,
            SetupStep::FindElement(role) => match self.element(role) {
                Element::Absent => false,
                _ => true,
            },
            SetupStep::CheckCanvas(role) => match self.element(role) {
                Element::Canvas => true,
                Element::CanvasWithoutContext => true,
                _ => false,
            },
            SetupStep::AcquireContext(role) => match self.element(role) {
                Element::Canvas => true,
                _ => false,
            },
            SetupStep::RegisterCallback => self.schedules,
        }
    }
}

/// Runs startup on the page to its end: asks for the next step, looks up
/// what the page answers, reports it, until no step is left.
pub fn set_up(page: &Page) -> (settled: FrameLoop)
    ensures
        settled@ == page.after_setup(),
{
    let mut frame_loop = FrameLoop::new();
    let mut next = frame_loop.next_step();
    while next.is_some()
        invariant
            next == frame_loop@.next_step(),
            page.settle(frame_loop@, frame_loop@.steps_left()) == page.after_setup(),
        decreases frame_loop@.steps_left(),
    {
        let step = next.unwrap();
        let succeeded = page.answers(step);
        let ghost before = frame_loop@;
        let _ = frame_loop.complete_step(succeeded);
        next = frame_loop.next_step();
        proof {
            let left = (before.steps_left() - 1) as nat;
            assert(page.settle(before, before.steps_left()) == page.settle(frame_loop@, left));
            assert(page.settle(frame_loop@, left) == page.settle(
                frame_loop@,
                frame_loop@.steps_left(),
            )) by {
                reveal_with_fuel(Page::settle, 2);
            }
        }
    }
    frame_loop
}

/// Startup on a page ends within eight steps, and it ends in exactly one of
/// two ways: aborted with the first thing that is wrong with the page, no
/// callback registered and none invoked; or, where nothing is wrong,
/// running with exactly one callback pending.
pub proof fn lemma_set_up_outcome(page: Page)
    ensures
        page.after_setup().invocations == 0,
        match page.first_failure() {
            Some(error) => {
                &&& page.after_setup().phase == Phase::Aborted(error)
                &&& page.after_setup().state() == LoopState::Uninitialized
                &&& page.after_setup().pending() == 0
            },
            None => {
                &&& page.after_setup().phase == Phase::Armed
                &&& page.after_setup().state() == LoopState::Running
                &&& page.after_setup().pending() == 1
            },
        },
{
    reveal_with_fuel(Page::settle, 9);
}

/// While startup is under way or aborted, no callback is pending: however
/// many steps were performed on a page whose startup fails, none was
/// registered.
pub proof fn lemma_nothing_registered_before_success(page: Page, steps: nat)
    requires
        page.first_failure().is_some(),
    ensures
        page.settle(LoopModel::initial(), steps).pending() == 0,
        page.settle(LoopModel::initial(), steps).state() == LoopState::Uninitialized,
{
    reveal_with_fuel(Page::settle, 10);
}

/// A page with a document, both canvases present with their 2D contexts,
/// and a scheduler that takes the callback: startup succeeds and registers
/// exactly one callback.
pub proof fn lemma_setup_registers_once(page: Page)
    requires
        page.has_document,
        page.source == Element::Canvas,
        page.destination == Element::Canvas,
        page.schedules,
    ensures
        page.after_setup().setup_error().is_none(),
        page.after_setup().state() == LoopState::Running,
        page.after_setup().pending() == 1,
{
    lemma_set_up_outcome(page);
}

/// Where the identifier of either canvas is absent from the document,
/// startup is aborted and no callback is ever registered, after however many
/// steps one looks. Where nothing that startup meets earlier is wrong, the
/// error names that canvas as missing.
pub proof fn lemma_missing_element_aborts(page: Page, role: CanvasRole, steps: nat)
    requires
        page.spec_element(role) == Element::Absent,
    ensures
        page.after_setup().setup_error().is_some(),
        page.after_setup().state() == LoopState::Uninitialized,
        page.settle(LoopModel::initial(), steps).pending() == 0,
        page.has_document && (role == CanvasRole::Source || page.source == Element::Canvas)
            ==> page.after_setup().setup_error() == Some(SetupError::MissingElement(role)),
{
    lemma_set_up_outcome(page);
    lemma_nothing_registered_before_success(page, steps);
}

/// Where the element under the identifier of either canvas is not a canvas,
/// startup is aborted and no callback is ever registered, after however many
/// steps one looks. Where nothing that startup meets earlier is wrong, the
/// error names that element as no canvas.
pub proof fn lemma_wrong_element_aborts(page: Page, role: CanvasRole, steps: nat)
    requires
        page.spec_element(role) == Element::NotCanvas,
    ensures
        page.after_setup().setup_error().is_some(),
        page.after_setup().state() == LoopState::Uninitialized,
        page.settle(LoopModel::initial(), steps).pending() == 0,
        page.has_document && (role == CanvasRole::Source || page.source == Element::Canvas)
            ==> page.after_setup().setup_error() == Some(SetupError::NotACanvas(role)),
{
    lemma_set_up_outcome(page);
    lemma_nothing_registered_before_success(page, steps);
}

} // verus!
