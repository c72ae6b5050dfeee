//! What the shell does about events of the windowing system and about redraws.
use vstd::prelude::*;

use crate::ids::WindowId;
#[allow(unused_imports)]
use crate::verso::{CompositorStatus, VersoModel};
#[allow(unused_imports)]
use crate::window_events::{
    after_close_report, event_end, event_start, redraw_start, Platform, RedrawStep, WindowEvent,
    WindowEventStep,
};

verus! {

/// Every event on a known window, but for a close request, is the window's to handle, as
/// long as the compositor is there, wherever window events are handled.
pub proof fn law_events_reach_their_window<R>(
    s: VersoModel<R>,
    platform: Platform,
    window: WindowId,
    event: WindowEvent,
)
    requires
        s.compositor is Some,
        s.windows.contains_key(window),
        event != WindowEvent::CloseRequested,
        platform != Platform::Other,
    ensures
        event_start(s, platform, window, event) == WindowEventStep::Delegate,
{
}

/// A close request is never the window's to handle. It goes to the host if and only if
/// there is one and it listens to close requests on that window, and else starts the
/// shutdown.
pub proof fn law_close_requests_are_the_shells<R>(
    s: VersoModel<R>,
    platform: Platform,
    window: WindowId,
)
    requires
        s.compositor is Some,
        s.windows.contains_key(window),
        platform != Platform::Other,
    ensures
        s.has_controller && s.windows[window].on_close_requested ==> event_start(
            s,
            platform,
            window,
            WindowEvent::CloseRequested,
        ) == WindowEventStep::ReportCloseRequest,
        !(s.has_controller && s.windows[window].on_close_requested) ==> event_start(
            s,
            platform,
            window,
            WindowEvent::CloseRequested,
        ) == WindowEventStep::StartShuttingDown,
{
}

/// An event on an unknown window, or after the compositor is gone, is passed over. On
/// Linux the engine's messages are still handled unless it was a resize, and on Apple's
/// systems and on Windows always.
pub proof fn law_stray_events_are_passed_over<R>(
    s: VersoModel<R>,
    window: WindowId,
    event: WindowEvent,
)
    requires
        s.compositor is None || !s.windows.contains_key(window),
    ensures
        event != WindowEvent::Resized ==> event_start(s, Platform::Linux, window, event)
            == WindowEventStep::HandleServoMessages,
        event == WindowEvent::Resized ==> event_start(s, Platform::Linux, window, event)
            == WindowEventStep::Done,
        event_start(s, Platform::Apple, window, event) == WindowEventStep::HandleServoMessages,
        event_start(s, Platform::Windows, window, event) == WindowEventStep::HandleServoMessages,
{
}

/// On any other platform nothing is done about any event.
pub proof fn law_events_elsewhere_are_ignored<R>(
    s: VersoModel<R>,
    window: WindowId,
    event: WindowEvent,
    resizing: bool,
)
    ensures
        event_start(s, Platform::Other, window, event) == WindowEventStep::Done,
        event_end(Platform::Other, event, resizing) == WindowEventStep::Done,
{
}

/// After an event the engine's messages are handled: on Linux unless the window was
/// resized, on Apple's systems unless it was redrawn while being resized, on Windows
/// always. Otherwise the event is done with.
pub proof fn law_messages_follow_events(event: WindowEvent, resizing: bool)
    ensures
        event == WindowEvent::Resized ==> event_end(Platform::Linux, event, resizing)
            == WindowEventStep::Done,
        event != WindowEvent::Resized ==> event_end(Platform::Linux, event, resizing)
            == WindowEventStep::HandleServoMessages,
        event == WindowEvent::RedrawRequested && resizing ==> event_end(
            Platform::Apple,
            event,
            resizing,
        ) == WindowEventStep::Done,
        event != WindowEvent::RedrawRequested || !resizing ==> event_end(
            Platform::Apple,
            event,
            resizing,
        ) == WindowEventStep::HandleServoMessages,
        event_end(Platform::Windows, event, resizing) == WindowEventStep::HandleServoMessages,
{
}

/// After a close request has been reported the engine's messages are handled, wherever
/// window events are; if it could not be reported, the compositor is shut down.
pub proof fn law_reported_close_requests_are_over(platform: Platform)
    ensures
        platform != Platform::Other ==> after_close_report(platform, true)
            == WindowEventStep::HandleServoMessages,
        platform == Platform::Other ==> after_close_report(platform, true)
            == WindowEventStep::Done,
        after_close_report(platform, false) == WindowEventStep::StartShuttingDown,
{
}

/// A redraw is of the window that the compositor paints to. If that window is not there,
/// the engine's messages are handled instead; if the compositor is not, nothing is done.
pub proof fn law_redraws_are_of_the_current_window<R>(s: VersoModel<R>, status: CompositorStatus)
    ensures
        s.compositor is None ==> redraw_start(s) == RedrawStep::Nothing,
        s.compositor == Some(status) && s.windows.contains_key(status.current_window)
            ==> redraw_start(s) == RedrawStep::RequestRedraw(status.current_window),
        s.compositor == Some(status) && !s.windows.contains_key(status.current_window)
            ==> redraw_start(s) == RedrawStep::HandleServoMessages,
{
}

} // verus!
