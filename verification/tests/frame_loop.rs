use canvas_downscale::frame_loop::{FrameLoop, FramePlan, LoopState, Phase};
use canvas_downscale::geometry::{CanvasSize, Rect};
use canvas_downscale::page::{set_up, Element, Page};
use canvas_downscale::setup::{CanvasRole, SetupError, SetupStep};

fn good_page() -> Page {
    Page { has_document: true, source: Element::Canvas, destination: Element::Canvas, schedules: true }
}

fn started() -> FrameLoop {
    let mut frame_loop = FrameLoop::new();
    while frame_loop.next_step().is_some() {
        frame_loop.complete_step(true).unwrap();
    }
    frame_loop
}

fn size(width: u32, height: u32) -> CanvasSize {
    CanvasSize { width, height }
}

#[test]
fn new_loop_is_uninitialized() {
    let frame_loop = FrameLoop::new();
    assert_eq!(frame_loop.state(), LoopState::Uninitialized);
    assert_eq!(frame_loop.phase(), Phase::Setup(SetupStep::ResolveDocument));
    assert_eq!(frame_loop.next_step(), Some(SetupStep::ResolveDocument));
    assert_eq!(frame_loop.pending_callbacks(), 0);
    assert_eq!(frame_loop.setup_error(), None);
}

#[test]
fn setup_walks_eight_steps_and_registers_once() {
    let mut frame_loop = FrameLoop::new();
    let mut performed = Vec::new();
    while let Some(step) = frame_loop.next_step() {
        assert_eq!(frame_loop.pending_callbacks(), 0);
        assert_eq!(frame_loop.state(), LoopState::Uninitialized);
        performed.push(step);
        assert_eq!(frame_loop.complete_step(true), Ok(()));
    }
    assert_eq!(
        performed,
        vec![
            SetupStep::ResolveDocument,
            SetupStep::FindElement(CanvasRole::Source),
            SetupStep::CheckCanvas(CanvasRole::Source),
            SetupStep::AcquireContext(CanvasRole::Source),
            SetupStep::FindElement(CanvasRole::Destination),
            SetupStep::CheckCanvas(CanvasRole::Destination),
            SetupStep::AcquireContext(CanvasRole::Destination),
            SetupStep::RegisterCallback,
        ]
    );
    assert_eq!(frame_loop.phase(), Phase::Armed);
    assert_eq!(frame_loop.state(), LoopState::Running);
    assert_eq!(frame_loop.pending_callbacks(), 1);
    assert_eq!(frame_loop.setup_error(), None);
}

#[test]
fn setup_on_page_with_both_canvases_registers_exactly_one_callback() {
    let frame_loop = set_up(&good_page());
    assert_eq!(frame_loop.state(), LoopState::Running);
    assert_eq!(frame_loop.pending_callbacks(), 1);
    assert_eq!(frame_loop.setup_error(), None);
    assert_eq!(frame_loop.next_step(), None);
}

#[test]
fn reporting_steps_to_a_running_loop_registers_nothing_more() {
    let mut frame_loop = set_up(&good_page());
    assert_eq!(frame_loop.complete_step(true), Ok(()));
    assert_eq!(frame_loop.complete_step(false), Ok(()));
    assert_eq!(frame_loop.phase(), Phase::Armed);
    assert_eq!(frame_loop.pending_callbacks(), 1);
}

#[test]
fn failed_step_aborts_with_its_error_and_stays_aborted() {
    let mut frame_loop = FrameLoop::new();
    assert_eq!(frame_loop.complete_step(true), Ok(()));
    assert_eq!(
        frame_loop.complete_step(false),
        Err(SetupError::MissingElement(CanvasRole::Source))
    );
    assert_eq!(frame_loop.phase(), Phase::Aborted(SetupError::MissingElement(CanvasRole::Source)));
    assert_eq!(frame_loop.next_step(), None);
    assert_eq!(frame_loop.setup_error(), Some(SetupError::MissingElement(CanvasRole::Source)));
    assert_eq!(
        frame_loop.complete_step(true),
        Err(SetupError::MissingElement(CanvasRole::Source))
    );
    assert_eq!(frame_loop.state(), LoopState::Uninitialized);
    assert_eq!(frame_loop.pending_callbacks(), 0);
}

#[test]
fn failed_registration_leaves_nothing_pending() {
    let mut frame_loop = FrameLoop::new();
    for _ in 0..7 {
        assert_eq!(frame_loop.complete_step(true), Ok(()));
    }
    assert_eq!(frame_loop.next_step(), Some(SetupStep::RegisterCallback));
    assert_eq!(frame_loop.complete_step(false), Err(SetupError::RegistrationFailed));
    assert_eq!(frame_loop.pending_callbacks(), 0);
    assert_eq!(frame_loop.state(), LoopState::Uninitialized);
}

#[test]
fn missing_document_aborts() {
    let page = Page { has_document: false, ..good_page() };
    let frame_loop = set_up(&page);
    assert_eq!(frame_loop.setup_error(), Some(SetupError::MissingDocument));
    assert_eq!(frame_loop.pending_callbacks(), 0);
}

#[test]
fn missing_source_element_aborts_before_registration() {
    let page = Page { source: Element::Absent, ..good_page() };
    let frame_loop = set_up(&page);
    assert_eq!(frame_loop.setup_error(), Some(SetupError::MissingElement(CanvasRole::Source)));
    assert_eq!(frame_loop.state(), LoopState::Uninitialized);
    assert_eq!(frame_loop.pending_callbacks(), 0);
}

#[test]
fn missing_destination_element_aborts_before_registration() {
    let page = Page { destination: Element::Absent, ..good_page() };
    let frame_loop = set_up(&page);
    assert_eq!(
        frame_loop.setup_error(),
        Some(SetupError::MissingElement(CanvasRole::Destination))
    );
    assert_eq!(frame_loop.state(), LoopState::Uninitialized);
    assert_eq!(frame_loop.pending_callbacks(), 0);
}

#[test]
fn wrong_source_element_type_aborts_before_registration() {
    let page = Page { source: Element::NotCanvas, ..good_page() };
    let frame_loop = set_up(&page);
    assert_eq!(frame_loop.setup_error(), Some(SetupError::NotACanvas(CanvasRole::Source)));
    assert_eq!(frame_loop.state(), LoopState::Uninitialized);
    assert_eq!(frame_loop.pending_callbacks(), 0);
}

#[test]
fn wrong_destination_element_type_aborts_before_registration() {
    let page = Page { destination: Element::NotCanvas, ..good_page() };
    let frame_loop = set_up(&page);
    assert_eq!(frame_loop.setup_error(), Some(SetupError::NotACanvas(CanvasRole::Destination)));
    assert_eq!(frame_loop.state(), LoopState::Uninitialized);
    assert_eq!(frame_loop.pending_callbacks(), 0);
}

#[test]
fn canvas_without_context_aborts() {
    let page = Page { source: Element::CanvasWithoutContext, ..good_page() };
    assert_eq!(
        set_up(&page).setup_error(),
        Some(SetupError::ContextUnavailable(CanvasRole::Source))
    );
    let page = Page { destination: Element::CanvasWithoutContext, ..good_page() };
    let frame_loop = set_up(&page);
    assert_eq!(
        frame_loop.setup_error(),
        Some(SetupError::ContextUnavailable(CanvasRole::Destination))
    );
    assert_eq!(frame_loop.pending_callbacks(), 0);
}

#[test]
fn scheduler_that_refuses_aborts() {
    let page = Page { schedules: false, ..good_page() };
    let frame_loop = set_up(&page);
    assert_eq!(frame_loop.setup_error(), Some(SetupError::RegistrationFailed));
    assert_eq!(frame_loop.pending_callbacks(), 0);
}

#[test]
fn first_failure_in_order_wins() {
    let page = Page {
        has_document: true,
        source: Element::NotCanvas,
        destination: Element::Absent,
        schedules: false,
    };
    assert_eq!(set_up(&page).setup_error(), Some(SetupError::NotACanvas(CanvasRole::Source)));
    let page = Page { has_document: false, ..page };
    assert_eq!(set_up(&page).setup_error(), Some(SetupError::MissingDocument));
}

#[test]
fn page_answers_each_step() {
    let page = Page {
        has_document: true,
        source: Element::CanvasWithoutContext,
        destination: Element::NotCanvas,
        schedules: false,
    };
    assert_eq!(page.element(CanvasRole::Source), Element::CanvasWithoutContext);
    assert_eq!(page.element(CanvasRole::Destination), Element::NotCanvas);
    assert!(page.answers(SetupStep::ResolveDocument));
    assert!(page.answers(SetupStep::FindElement(CanvasRole::Source)));
    assert!(page.answers(SetupStep::CheckCanvas(CanvasRole::Source)));
    assert!(!page.answers(SetupStep::AcquireContext(CanvasRole::Source)));
    assert!(page.answers(SetupStep::FindElement(CanvasRole::Destination)));
    assert!(!page.answers(SetupStep::CheckCanvas(CanvasRole::Destination)));
    assert!(!page.answers(SetupStep::AcquireContext(CanvasRole::Destination)));
    assert!(!page.answers(SetupStep::RegisterCallback));
    let empty = Page { source: Element::Absent, ..good_page() };
    assert!(!empty.answers(SetupStep::FindElement(CanvasRole::Source)));
    assert!(!empty.answers(SetupStep::CheckCanvas(CanvasRole::Source)));
    assert!(good_page().answers(SetupStep::AcquireContext(CanvasRole::Destination)));
    assert!(good_page().answers(SetupStep::RegisterCallback));
}

#[test]
fn no_frame_fires_before_setup_has_succeeded() {
    let mut frame_loop = FrameLoop::new();
    assert_eq!(frame_loop.begin_frame(size(100, 100)), None);
    assert!(!frame_loop.end_frame(true));
    assert_eq!(frame_loop.phase(), Phase::Setup(SetupStep::ResolveDocument));
    let mut aborted = set_up(&Page { source: Element::Absent, ..good_page() });
    assert_eq!(aborted.begin_frame(size(100, 100)), None);
    assert!(!aborted.end_frame(true));
    assert_eq!(aborted.pending_callbacks(), 0);
}

#[test]
fn frame_draws_into_whole_destination() {
    let mut frame_loop = started();
    let plan = frame_loop.begin_frame(size(320, 180)).unwrap();
    assert_eq!(plan.draw_target, Rect { x: 0, y: 0, width: 320, height: 180 });
    assert!(frame_loop.end_frame(true));
    let plan = frame_loop.begin_frame(size(64, 48)).unwrap();
    assert_eq!(plan.draw_target, Rect { x: 0, y: 0, width: 64, height: 48 });
}

#[test]
fn read_back_is_1920_by_1080_for_a_100_by_100_destination() {
    let mut frame_loop = started();
    let plan = frame_loop.begin_frame(size(100, 100)).unwrap();
    assert_eq!(
        plan,
        FramePlan {
            draw_target: Rect { x: 0, y: 0, width: 100, height: 100 },
            read_back: Rect { x: 0, y: 0, width: 1920, height: 1080 },
        }
    );
}

#[test]
fn read_back_does_not_follow_destination_size() {
    let mut frame_loop = started();
    for (width, height) in [(0, 0), (1, 1), (1920, 1080), (4000, 3000), (u32::MAX, u32::MAX)] {
        let plan = frame_loop.begin_frame(size(width, height)).unwrap();
        assert_eq!(plan.read_back, Rect { x: 0, y: 0, width: 1920, height: 1080 });
        assert_eq!(plan.draw_target, Rect { x: 0, y: 0, width, height });
        assert!(frame_loop.end_frame(true));
    }
}

#[test]
fn callback_is_taken_while_frame_runs_and_armed_again_after() {
    let mut frame_loop = started();
    assert_eq!(frame_loop.pending_callbacks(), 1);
    assert!(frame_loop.begin_frame(size(10, 10)).is_some());
    assert_eq!(frame_loop.phase(), Phase::InFrame);
    assert_eq!(frame_loop.pending_callbacks(), 0);
    assert_eq!(frame_loop.begin_frame(size(10, 10)), None);
    assert!(frame_loop.end_frame(true));
    assert_eq!(frame_loop.phase(), Phase::Armed);
    assert_eq!(frame_loop.pending_callbacks(), 1);
    assert!(!frame_loop.end_frame(true));
    assert_eq!(frame_loop.pending_callbacks(), 1);
}

#[test]
fn zero_ticks_leave_one_callback_pending() {
    let frame_loop = started();
    assert_eq!(frame_loop.pending_callbacks(), 1);
    assert_eq!(frame_loop.state(), LoopState::Running);
}

#[test]
fn every_tick_invokes_once_and_leaves_one_pending() {
    let mut frame_loop = started();
    let mut invoked: u32 = 0;
    for tick in 0..1000_u32 {
        if frame_loop.begin_frame(size(tick, 2 * tick)).is_some() {
            invoked += 1;
        }
        assert!(frame_loop.end_frame(true));
        assert_eq!(frame_loop.pending_callbacks(), 1);
        assert_eq!(frame_loop.state(), LoopState::Running);
        assert_eq!(invoked, tick + 1);
    }
    assert_eq!(invoked, 1000);
}

#[test]
fn failed_frame_stalls_the_loop() {
    let mut frame_loop = started();
    assert!(frame_loop.begin_frame(size(100, 100)).is_some());
    assert!(!frame_loop.end_frame(false));
    assert_eq!(frame_loop.phase(), Phase::Stalled);
    assert_eq!(frame_loop.state(), LoopState::Running);
    assert_eq!(frame_loop.pending_callbacks(), 0);
    assert_eq!(frame_loop.begin_frame(size(100, 100)), None);
    assert!(!frame_loop.end_frame(true));
    assert_eq!(frame_loop.pending_callbacks(), 0);
}
