//! The steps of startup, in their order, and the failure that each can end in.

use vstd::prelude::*;

verus! {

/// Which of the two canvases of the page is meant.
#[derive(Clone, Copy, Debug, PartialEq, Eq, Structural)]
pub enum CanvasRole {
    /// The canvas whose content is copied.
    Source,
    /// The smaller canvas that receives the scaled copy.
    Destination,
}

impl CanvasRole {
    /// The element identifier under which the page holds the canvas.
    pub open spec fn spec_element_id(self) -> Seq<char> {
        match self {
            CanvasRole::Source => "canvas"@,
            CanvasRole::Destination => "small-canvas"@,
        }
    }

    /// The element identifier under which the page holds the canvas.
    pub fn element_id(self) -> (id: &'static str)
        ensures
            id@ == self.spec_element_id(),
    {
        match self {
            CanvasRole::Source => "canvas",
            CanvasRole::Destination => "small-canvas",
        }
    }
}

/// The kind of drawing context that is asked of each canvas.
pub fn context_kind() -> (kind: &'static str)
    ensures
        kind@ == "2d"@,
{
    "2d"
}

/// Why startup was aborted.
#[derive(Clone, Copy, Debug, PartialEq, Eq, Structural)]
pub enum SetupError {
    /// The host has no document to look elements up in.
    MissingDocument,
    /// The document holds no element under the identifier of this canvas.
    MissingElement(CanvasRole),
    /// The element under the identifier of this canvas is not a canvas.
    NotACanvas(CanvasRole),
    /// The canvas gave no 2D drawing context.
    ContextUnavailable(CanvasRole),
    /// The host refused to take the frame callback.
    RegistrationFailed,
}

/// One step of startup: a single thing to obtain from the host.
#[derive(Clone, Copy, Debug, PartialEq, Eq, Structural)]
pub enum SetupStep {
    /// Obtain the host's document.
    ResolveDocument,
    /// Look up the element of this canvas by its identifier.
    FindElement(CanvasRole),
    /// Check that the element found is a canvas.
    CheckCanvas(CanvasRole),
    /// Obtain the 2D drawing context of the canvas.
    AcquireContext(CanvasRole),
    /// Hand the frame callback to the host's scheduler, once.
    RegisterCallback,
}

/// The number of steps from the first to the registration of the callback.
pub const SETUP_STEPS: usize = 8;

impl SetupStep {
    /// The step that startup begins with.
    pub open spec fn spec_first() -> SetupStep {
        SetupStep::ResolveDocument
    }

    /// The step that comes after this one has succeeded; `None` after the
    /// last. The source canvas is resolved completely before the
    /// destination is looked at.
    pub open spec fn spec_following(self) -> Option<SetupStep> {
        match self {
            SetupStep::ResolveDocument => Some(SetupStep::FindElement(CanvasRole::Source)),
            SetupStep::FindElement(role) => Some(SetupStep::CheckCanvas(role)),
            SetupStep::CheckCanvas(role) => Some(SetupStep::AcquireContext(role)),
            SetupStep::AcquireContext(CanvasRole::Source) => Some(
                SetupStep::FindElement(CanvasRole::Destination),
            ),
            SetupStep::AcquireContext(CanvasRole::Destination) => Some(SetupStep::RegisterCallback),
            SetupStep::RegisterCallback => None,
        }
    }

    /// The error that startup is aborted with when this step fails.
    pub open spec fn spec_failure(self) -> SetupError {
        match self {
            SetupStep::ResolveDocument => SetupError::MissingDocument,
            SetupStep::FindElement(role) => SetupError::MissingElement(role),
            SetupStep::CheckCanvas(role) => SetupError::NotACanvas(role),
            SetupStep::AcquireContext(role) => SetupError::ContextUnavailable(role),
            SetupStep::RegisterCallback => SetupError::RegistrationFailed,
        }
    }

    /// How many steps are still to be performed, this one included.
    pub open spec fn remaining(self) -> nat {
        match self {
            SetupStep::ResolveDocument => 8,
            SetupStep::FindElement(CanvasRole::Source) => 7,
            SetupStep::CheckCanvas(CanvasRole::Source) => 6,
            SetupStep::AcquireContext(CanvasRole::Source) => 5,
            SetupStep::FindElement(CanvasRole::Destination) => 4,
            SetupStep::CheckCanvas(CanvasRole::Destination) => 3,
            SetupStep::AcquireContext(CanvasRole::Destination) => 2,
            SetupStep::RegisterCallback => 1,
        }
    }

    /// The step that startup begins with.
    pub fn first() -> (step: SetupStep)
        ensures
            step == SetupStep::spec_first(),
    {
        SetupStep::ResolveDocument
    }

    /// The step that comes after this one has succeeded; `None` after the
    /// last.
    pub fn following(self) -> (next: Option<SetupStep>)
        ensures
            next == self.spec_following(),
    {
        match self {
            SetupStep::ResolveDocument => Some(SetupStep::FindElement(CanvasRole::Source)),
            SetupStep::FindElement(role) => Some(SetupStep::CheckCanvas(role)),
            SetupStep::CheckCanvas(role) => Some(SetupStep::AcquireContext(role)),
            SetupStep::AcquireContext(role) => match role {
                CanvasRole::Source => Some(SetupStep::FindElement(CanvasRole::Destination)),
                CanvasRole::Destination => Some(SetupStep::RegisterCallback),
            },
            SetupStep::RegisterCallback => None,
        }
    }

    /// The error that startup is aborted with when this step fails.
    pub fn failure(self) -> (error: SetupError)
        ensures
            error == self.spec_failure(),
    {
        match self {
            SetupStep::ResolveDocument => SetupError::MissingDocument,
            SetupStep::FindElement(role) => SetupError::MissingElement(role),
            SetupStep::CheckCanvas(role) => SetupError::NotACanvas(role),
            SetupStep::AcquireContext(role) => SetupError::ContextUnavailable(role),
            SetupStep::RegisterCallback => SetupError::RegistrationFailed,
        }
    }
}

} // verus!
