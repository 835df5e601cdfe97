//! The frame loop's decisions.
//!
//! The loop itself polls the window system's event source; what it decides
//! on each event — resize, terminate, redraw, and how a failed swapchain
//! acquisition is retried — is stated and verified here.

use vstd::prelude::*;

verus! {

/// What the loop reads of one polled event.
#[derive(Clone, Copy, Debug, PartialEq, Eq, Structural)]
pub enum FrameEvent {
    /// All pending redraw events have been processed.
    RedrawEventsCleared,
    /// The window's inner size changed.
    Resized { width: u32, height: u32 },
    /// The scale factor changed, carrying the new inner size.
    ScaleFactorChanged { width: u32, height: u32 },
    /// The window was asked to close.
    CloseRequested,
    /// The escape key was pressed.
    EscapePressed,
    /// The report key was pressed.
    ReportKeyPressed,
    /// Any other window event.
    OtherWindowEvent,
    /// The window should be redrawn.
    RedrawRequested,
    /// Any other event.
    Other,
}

/// What the loop does in response to one event.
#[derive(Clone, Copy, Debug, PartialEq, Eq, Structural)]
pub enum FrameAction {
    /// Ask the window system for the next redraw.
    RequestRedraw,
    /// Resize the stored configuration to this size (clamped before it
    /// reaches the swapchain) and re-apply it to the surface.
    ApplyResize { width: u32, height: u32 },
    /// Leave the loop and terminate.
    Exit,
    /// Print the driver's internal report.
    PrintReport,
    /// Acquire a swapchain image, render into it and present it.
    RenderFrame,
    /// Nothing.
    Ignore,
}

/// The loop's response to each event: resizes re-apply the configuration,
/// close and escape terminate, cleared redraws request the next one, and a
/// redraw request renders a frame.
pub open spec fn event_action_spec(e: FrameEvent) -> FrameAction {
    match e {
        FrameEvent::RedrawEventsCleared => FrameAction::RequestRedraw,
        FrameEvent::Resized { width, height } => FrameAction::ApplyResize { width, height },
        FrameEvent::ScaleFactorChanged { width, height } => FrameAction::ApplyResize {
            width,
            height,
        },
        FrameEvent::CloseRequested => FrameAction::Exit,
        FrameEvent::EscapePressed => FrameAction::Exit,
        FrameEvent::ReportKeyPressed => FrameAction::PrintReport,
        FrameEvent::OtherWindowEvent => FrameAction::Ignore,
        FrameEvent::RedrawRequested => FrameAction::RenderFrame,
        FrameEvent::Other => FrameAction::Ignore,
    }
}

/// Decides what the loop does with one polled event.
pub fn event_action(e: &FrameEvent) -> (r: FrameAction)
    ensures
        r == event_action_spec(*e),
{
    match e {
        FrameEvent::RedrawEventsCleared => FrameAction::RequestRedraw,
        FrameEvent::Resized { width, height } => FrameAction::ApplyResize {
            width: *width,
            height: *height,
        },
        FrameEvent::ScaleFactorChanged { width, height } => FrameAction::ApplyResize {
            width: *width,
            height: *height,
        },
        FrameEvent::CloseRequested => FrameAction::Exit,
        FrameEvent::EscapePressed => FrameAction::Exit,
        FrameEvent::ReportKeyPressed => FrameAction::PrintReport,
        FrameEvent::OtherWindowEvent => FrameAction::Ignore,
        FrameEvent::RedrawRequested => FrameAction::RenderFrame,
        FrameEvent::Other => FrameAction::Ignore,
    }
}

/// What the redraw handler does after one swapchain-acquire attempt.
#[derive(Clone, Copy, Debug, PartialEq, Eq, Structural)]
pub enum AcquireDecision {
    /// The image was acquired: render into it and present it.
    Render,
    /// First failure: reconfigure the surface once and try again.
    RetryAfterReconfigure,
    /// A failure after the one retry: abort.
    Abort,
}

/// The retry policy for swapchain acquisition: success renders; the first
/// failure earns exactly one reconfigure-and-retry; any further failure is
/// fatal.
pub open spec fn acquire_decision_spec(prior_failures: u32, acquired: bool) -> AcquireDecision {
    if acquired {
        AcquireDecision::Render
    } else if prior_failures == 0 {
        AcquireDecision::RetryAfterReconfigure
    } else {
        AcquireDecision::Abort
    }
}

/// Decides how the redraw handler continues after a swapchain-acquire
/// attempt; `prior_failures` counts the attempts that already failed for
/// this redraw.
pub fn acquire_decision(prior_failures: u32, acquired: bool) -> (r: AcquireDecision)
    ensures
        r == acquire_decision_spec(prior_failures, acquired),
{
    if acquired {
        AcquireDecision::Render
    } else if prior_failures == 0 {
        AcquireDecision::RetryAfterReconfigure
    } else {
        AcquireDecision::Abort
    }
}

/// Two consecutive acquisition failures terminate the process after
/// exactly one reconfigure-and-retry attempt: the first failure retries,
/// every later failure aborts, and there is no retry loop.
pub proof fn lemma_double_failure_aborts()
    ensures
        acquire_decision_spec(0, false) == AcquireDecision::RetryAfterReconfigure,
        forall|n: u32| n >= 1 ==> acquire_decision_spec(n, false) == AcquireDecision::Abort,
        forall|n: u32| acquire_decision_spec(n, true) == AcquireDecision::Render,
{
}

/// Number of frames over which the loop averages its frame-time
/// diagnostic.
pub const FRAME_SAMPLE_WINDOW: u32 = 100;

/// Advances the per-window frame counter: returns the new count and
/// whether this frame completes a sampling window, in which case the
/// average is reported and the counter starts over.
pub fn tick_frame_counter(frame_count: u32) -> (r: (u32, bool))
    requires
        frame_count < FRAME_SAMPLE_WINDOW,
    ensures
        r.1 <==> frame_count + 1 == FRAME_SAMPLE_WINDOW,
        r.0 == if frame_count + 1 == FRAME_SAMPLE_WINDOW {
            0u32
        } else {
            (frame_count + 1) as u32
        },
        r.0 < FRAME_SAMPLE_WINDOW,
{
    let next: u32 = frame_count + 1;
    if next == FRAME_SAMPLE_WINDOW {
        (0, true)
    } else {
        (next, false)
    }
}

} // verus!
