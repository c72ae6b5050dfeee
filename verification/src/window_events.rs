//! What the shell does about an event of the windowing system.
use vstd::prelude::*;

use crate::ids::WindowId;
use crate::verso::Verso;
#[allow(unused_imports)]
use crate::verso::VersoModel;

verus! {

/// The platforms, by the order in which they deliver events.
#[derive(Clone, Copy, Debug, PartialEq, Eq, Structural)]
pub enum Platform {
    Linux,
    Apple,
    Windows,
    /// Any other. Window events are not handled there.
    Other,
}

/// An event on a window, as far as the shell tells them apart.
#[derive(Clone, Copy, Debug, PartialEq, Eq, Structural)]
pub enum WindowEvent {
    Resized,
    RedrawRequested,
    CloseRequested,
    Other,
}

/// What to do next about an event.
#[derive(Clone, Copy, Debug, PartialEq, Eq, Structural)]
pub enum WindowEventStep {
    /// Tell the host that the window is to be closed; then
    /// [`Verso::close_request_reported`].
    ReportCloseRequest,
    /// Let the compositor start shutting down; then [`Verso::event_handled`], the
    /// window not being resized.
    StartShuttingDown,
    /// Let the window handle the event; then [`Verso::event_handled`].
    Delegate,
    /// Handle the engine's messages. Ends the handling.
    HandleServoMessages,
    /// Ends the handling.
    Done,
}

/// What to do next about a redraw request.
#[derive(Clone, Copy, Debug, PartialEq, Eq, Structural)]
pub enum RedrawStep {
    Nothing,
    /// Request a redraw of the window; then [`Verso::window_redraw_requested`].
    RequestRedraw(WindowId),
    /// Handle the engine's messages.
    HandleServoMessages,
}

/// The engine's messages are handled after the event: on Linux unless the window
/// was resized, on Apple's systems unless it was redrawn while being resized, and
/// on Windows always.
pub open spec fn servo_messages_follow(
    platform: Platform,
    event: WindowEvent,
    resizing: bool,
) -> bool {
    match platform {
        Platform::Linux => event != WindowEvent::Resized,
        Platform::Apple => !(event == WindowEvent::RedrawRequested && resizing),
        Platform::Windows => true,
        Platform::Other => false,
    }
}

/// The step that ends the handling of an event.
pub open spec fn event_end(
    platform: Platform,
    event: WindowEvent,
    resizing: bool,
) -> WindowEventStep {
    if servo_messages_follow(platform, event, resizing) {
        WindowEventStep::HandleServoMessages
    } else {
        WindowEventStep::Done
    }
}

/// The step that an event on a window calls for itself: none once the compositor
/// is gone or if the window is not known. A close request goes to the host if it
/// listens, and else shuts the compositor down. All other events are the window's.
pub open spec fn winit_step<R>(
    s: VersoModel<R>,
    window: WindowId,
    event: WindowEvent,
) -> Option<WindowEventStep> {
    if s.compositor is None || !s.windows.contains_key(window) {
        None
    } else if event == WindowEvent::CloseRequested {
        if s.has_controller && s.windows[window].on_close_requested {
            Some(WindowEventStep::ReportCloseRequest)
        } else {
            Some(WindowEventStep::StartShuttingDown)
        }
    } else {
        Some(WindowEventStep::Delegate)
    }
}

/// How the handling of an event begins: with the step that the event calls for
/// itself, or, if it calls for none, with the end. On a platform where window events
/// are not handled, it is done at once.
pub open spec fn event_start<R>(
    s: VersoModel<R>,
    platform: Platform,
    window: WindowId,
    event: WindowEvent,
) -> WindowEventStep {
    if platform == Platform::Other {
        WindowEventStep::Done
    } else {
        match winit_step(s, window, event) {
            Some(step) => step,
            None => event_end(platform, event, false),
        }
    }
}

/// What follows the report of a close request to the host: the end of the handling
/// if it was sent, and else the compositor is to shut down after all.
pub open spec fn after_close_report(platform: Platform, sent: bool) -> WindowEventStep {
    if sent {
        event_end(platform, WindowEvent::CloseRequested, false)
    } else {
        WindowEventStep::StartShuttingDown
    }
}

/// How a redraw begins: with the window that the compositor paints to. If that
/// window is not known, the engine's messages are handled instead.
pub open spec fn redraw_start<R>(s: VersoModel<R>) -> RedrawStep {
    match s.compositor {
        Some(status) => if s.windows.contains_key(status.current_window) {
            RedrawStep::RequestRedraw(status.current_window)
        } else {
            RedrawStep::HandleServoMessages
        },
        None => RedrawStep::Nothing,
    }
}

impl<R> Verso<R> {
    /// Begins to handle an event on a window. The strategy differs between
    /// platforms, because the order of events may.
    pub fn handle_window_event(
        &self,
        platform: Platform,
        window_id: WindowId,
        event: WindowEvent,
    ) -> (r: WindowEventStep)
        ensures
            r == event_start(self@, platform, window_id, event),
    {
        if platform == Platform::Other {
            return WindowEventStep::Done;
        }
        match self.handle_winit_window_event(window_id, event) {
            Some(step) => step,
            None => Self::event_handled(platform, event, false),
        }
    }

    /// The step that an event on a window calls for, if any.
    fn handle_winit_window_event(&self, window_id: WindowId, event: WindowEvent) -> (r: Option<
        WindowEventStep,
    >)
        ensures
            r == winit_step(self@, window_id, event),
    {
        if self.compositor().is_none() {
            return None;
        }
        match self.window(window_id) {
            Some(window) => if event == WindowEvent::CloseRequested {
                if self.has_controller() && window.event_listeners.on_close_requested {
                    Some(WindowEventStep::ReportCloseRequest)
                } else {
                    Some(WindowEventStep::StartShuttingDown)
                }
            } else {
                Some(WindowEventStep::Delegate)
            },
            None => None,
        }
    }

    /// The host has been told of a close request, or could not be: then the
    /// compositor is to shut down after all.
    pub fn close_request_reported(platform: Platform, sent: bool) -> (r: WindowEventStep)
        ensures
            r == after_close_report(platform, sent),
    {
        if sent {
            Self::event_handled(platform, WindowEvent::CloseRequested, false)
        } else {
            WindowEventStep::StartShuttingDown
        }
    }

    /// The event itself has been handled; the window may be in the course of being
    /// resized.
    pub fn event_handled(platform: Platform, event: WindowEvent, resizing: bool) -> (r:
        WindowEventStep)
        ensures
            r == event_end(platform, event, resizing),
    {
        let follow = match platform {
            Platform::Linux => event != WindowEvent::Resized,
            Platform::Apple => event != WindowEvent::RedrawRequested || !resizing,
            Platform::Windows => true,
            Platform::Other => false,
        };
        if follow {
            WindowEventStep::HandleServoMessages
        } else {
            WindowEventStep::Done
        }
    }

    /// Begins to redraw.
    pub fn request_redraw(&self) -> (r: RedrawStep)
        ensures
            r == redraw_start(self@),
    {
        match self.compositor() {
            Some(status) => if self.has_window(status.current_window) {
                RedrawStep::RequestRedraw(status.current_window)
            } else {
                RedrawStep::HandleServoMessages
            },
            None => RedrawStep::Nothing,
        }
    }

    /// The redraw has been requested. A visible window will bring the event loop
    /// round by that; for a hidden one the engine's messages are handled now. A
    /// window of which it is not known counts as visible.
    pub fn window_redraw_requested(visible: Option<bool>) -> (r: RedrawStep)
        ensures
            r == (if visible == Some(false) {
                RedrawStep::HandleServoMessages
            } else {
                RedrawStep::Nothing
            }),
    {
        match visible {
            Some(false) => RedrawStep::HandleServoMessages,
            _ => RedrawStep::Nothing,
        }
    }
}

} // verus!
