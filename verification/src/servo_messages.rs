//! One turn of handling what the compositor and the engine have to say.
//!
//! [`Verso::handle_servo_messages`] says what to do first. Each [`ServoStep`] names
//! the method that takes its outcome and says what to do next, until a step ends
//! the turn.
use url::Url;
use vstd::prelude::*;

#[allow(unused_imports)]
use crate::embedder::concerned_webview;
use crate::embedder::{get_embedder_message_webview_id, EmbedderMsg};
use crate::ids::{WebViewId, WindowId};
#[allow(unused_imports)]
use crate::verso::VersoModel;
use crate::verso::{CompositorReport, CompositorStatus, ShutdownState, Verso};
use crate::window::Window;
#[allow(unused_imports)]
use crate::window::WindowModel;

verus! {

/// Whether the event loop goes round at once or waits for an event.
#[derive(Clone, Copy, Debug, PartialEq, Eq, Structural)]
pub enum ControlFlow {
    Poll,
    Wait,
}

/// What to do next in a turn.
#[derive(Debug)]
pub enum ServoStep {
    /// The compositor is gone: report it. Ends the turn.
    NoCompositor,
    /// Let the compositor receive its messages, on the windows; then
    /// [`Verso::compositor_received`].
    ReceiveCompositorMessages,
    /// See whether the engine has sent a message; then [`Verso::embedder_polled`].
    PollEmbedder,
    /// Let the window handle the message that was received; then
    /// [`Verso::window_handled_message`].
    DeliverToWindow { window: WindowId, webview: WebViewId },
    /// Open a window with a panel for `url`, as `opener` wants it; then
    /// [`Verso::window_opened`].
    OpenWindow { opener: WindowId, url: Url },
    /// Report the port of the devtools server, or that it failed to start; then
    /// [`Verso::message_handled`].
    ReportDevtools(Result<u16, ()>),
    /// Allow the devtools connection that was asked for; then
    /// [`Verso::message_handled`].
    AllowDevtools,
    /// Let the compositor finish shutting down; then [`Verso::shutdown_finished`].
    FinishShuttingDown,
    /// Let the compositor perform its updates, on the windows; then
    /// [`Verso::updates_performed`].
    PerformUpdates,
    /// Request a redraw of the window; then [`Verso::redraw_requested`].
    RequestRedraw(WindowId),
    /// Let the compositor start shutting down; then [`Verso::shutdown_started`].
    StartShuttingDown,
    /// Deinitialise the compositor and leave the event loop. Ends the turn.
    Exit,
    /// Set how the event loop goes on. Ends the turn.
    SetControlFlow(ControlFlow),
}

/// What follows once the compositor's messages, or a message of the engine, have been
/// dealt with: the engine's next message, unless the compositor has finished shutting
/// down.
pub open spec fn after_message<R>(s: VersoModel<R>) -> ServoStep {
    if s.compositor->0.shutdown_state == ShutdownState::FinishedShuttingDown {
        ServoStep::PerformUpdates
    } else {
        ServoStep::PollEmbedder
    }
}

/// What a message that concerns no web view calls for.
pub open spec fn shell_step<R>(s: VersoModel<R>, msg: EmbedderMsg) -> ServoStep {
    match msg {
        EmbedderMsg::OnDevtoolsStarted(port) => ServoStep::ReportDevtools(port),
        EmbedderMsg::RequestDevtoolsConnection => ServoStep::AllowDevtools,
        EmbedderMsg::ShutdownComplete => ServoStep::FinishShuttingDown,
        _ => after_message(s),
    }
}

/// `step` is what a message calls for. One that concerns a web view goes to a
/// window that has it, whichever that is, and is dropped if none has.
pub open spec fn answers_message<R>(s: VersoModel<R>, msg: EmbedderMsg, step: ServoStep) -> bool {
    match concerned_webview(msg) {
        Some(webview) => {
            ||| step matches ServoStep::DeliverToWindow { window, webview: to } && {
                &&& s.windows.contains_key(window)
                &&& s.windows[window].has_webview(webview)
                &&& to == webview
            }
            ||| step == after_message(s) && forall|w: WindowId| #[trigger]
                s.windows.contains_key(w) ==> !s.windows[w].has_webview(webview)
        },
        None => step == shell_step(s, msg),
    }
}

/// What follows the redraw request, or its omission: with no window left the
/// compositor is to shut down, else the turn comes to its end.
pub open spec fn after_redraw<R>(s: VersoModel<R>) -> ServoStep {
    if s.windows.dom() == Set::<WindowId>::empty() {
        ServoStep::StartShuttingDown
    } else {
        turn_end(s)
    }
}

/// The step that ends a turn: out of the event loop once the compositor has
/// finished shutting down; else on, at once if it animates.
pub open spec fn turn_end<R>(s: VersoModel<R>) -> ServoStep {
    if s.compositor->0.shutdown_state == ShutdownState::FinishedShuttingDown {
        ServoStep::Exit
    } else if s.compositor->0.is_animating {
        ServoStep::SetControlFlow(ControlFlow::Poll)
    } else {
        ServoStep::SetControlFlow(ControlFlow::Wait)
    }
}

/// The state in which a turn leaves the shell when it takes `step`: on the way out
/// the compositor is gone.
pub open spec fn leaving<R>(s: VersoModel<R>, step: ServoStep) -> VersoModel<R> {
    if step is Exit {
        VersoModel { compositor: None, ..s }
    } else {
        s
    }
}

/// How a turn begins.
pub open spec fn turn_start<R>(s: VersoModel<R>) -> ServoStep {
    if s.compositor is Some {
        ServoStep::ReceiveCompositorMessages
    } else {
        ServoStep::NoCompositor
    }
}

/// What the compositor calls for after its updates: a redraw of the window that it
/// paints to, if it wants to repaint and there still is that window.
pub open spec fn after_updates<R>(s: VersoModel<R>) -> ServoStep {
    let status = s.compositor->0;
    if status.needs_repaint && s.windows.contains_key(status.current_window) {
        ServoStep::RequestRedraw(status.current_window)
    } else {
        after_redraw(s)
    }
}

/// What came of a step.
pub enum TurnEvent<R> {
    /// The compositor worked on the windows.
    Reported { status: CompositorStatus, closed: Set<WindowId> },
    /// The engine had this message, or none.
    Polled(Option<EmbedderMsg>),
    /// The window handled the message.
    Handled { wants_window: bool, status: CompositorStatus },
    /// The window was opened.
    Opened { id: WindowId, window: WindowModel<R>, status: CompositorStatus },
    /// The compositor did what it was asked.
    Observed(CompositorStatus),
    Done,
}

/// In the state `s`, `event` comes of `step`; the state is then `t`, and `next` is
/// what to do next.
pub open spec fn turn_next<R>(
    s: VersoModel<R>,
    step: ServoStep,
    event: TurnEvent<R>,
    t: VersoModel<R>,
    next: ServoStep,
) -> bool {
    match (step, event) {
        (
            ServoStep::ReceiveCompositorMessages,
            TurnEvent::Reported { status, closed },
        ) => t == s.with_report(status, closed) && next == after_message(t),
        (ServoStep::PollEmbedder, TurnEvent::Polled(Some(msg))) => t == s && answers_message(
            s,
            msg,
            next,
        ),
        (ServoStep::PollEmbedder, TurnEvent::Polled(None)) => t == s && next
            == ServoStep::PerformUpdates,
        (
            ServoStep::DeliverToWindow { window, .. },
            TurnEvent::Handled { wants_window, status },
        ) => t == s.with_status(status) && next == (if wants_window {
            ServoStep::OpenWindow { opener: window, url: s.url }
        } else {
            after_message(t)
        }),
        (
            ServoStep::OpenWindow { opener, .. },
            TurnEvent::Opened { id, window, status },
        ) => t == s.with_status(status).with_window(id, window, s.documents[opener]) && next
            == after_message(t),
        (ServoStep::ReportDevtools(_), TurnEvent::Done) => t == s && next == after_message(t),
        (ServoStep::AllowDevtools, TurnEvent::Done) => t == s && next == after_message(t),
        (ServoStep::FinishShuttingDown, TurnEvent::Observed(status)) => t == s.with_status(status)
            && next == after_message(t),
        (ServoStep::PerformUpdates, TurnEvent::Reported { status, closed }) => next
            == after_updates(s.with_report(status, closed)) && t == leaving(
            s.with_report(status, closed),
            next,
        ),
        (ServoStep::RequestRedraw(_), TurnEvent::Done) => next == after_redraw(s) && t == leaving(
            s,
            next,
        ),
        (ServoStep::StartShuttingDown, TurnEvent::Observed(status)) => next == turn_end(
            s.with_status(status),
        ) && t == leaving(s.with_status(status), next),
        _ => false,
    }
}

impl<R> Verso<R> {
    /// Begins a turn. The compositor comes first.
    pub fn handle_servo_messages(&self) -> (r: ServoStep)
        ensures
            r == turn_start(self@),
    {
        if self.compositor().is_none() {
            ServoStep::NoCompositor
        } else {
            ServoStep::ReceiveCompositorMessages
        }
    }

    /// The compositor has received its messages. Once it has finished shutting down,
    /// those of the engine are left alone.
    pub fn compositor_received(&mut self, report: CompositorReport) -> (r: ServoStep)
        requires
            old(self)@.compositor is Some,
        ensures
            final(self)@ == old(self)@.with_report(report.status, report.closed@.to_set()),
            r == after_message(final(self)@),
            old(self)@.well_formed() ==> final(self)@.well_formed(),
            turn_next(
                old(self)@,
                ServoStep::ReceiveCompositorMessages,
                TurnEvent::Reported { status: report.status, closed: report.closed@.to_set() },
                final(self)@,
                r,
            ),
    {
        self.observe_report(report);
        self.message_handled()
    }

    /// The engine has sent `msg`, or nothing more.
    pub fn embedder_polled(&self, msg: Option<EmbedderMsg>) -> (r: ServoStep)
        requires
            self@.compositor is Some,
        ensures
            match msg {
                Some(msg) => answers_message(self@, msg, r),
                None => r == ServoStep::PerformUpdates,
            },
            turn_next(self@, ServoStep::PollEmbedder, TurnEvent::Polled(msg), self@, r),
    {
        let msg = match msg {
            Some(msg) => msg,
            None => {
                return ServoStep::PerformUpdates;
            },
        };
        match get_embedder_message_webview_id(&msg) {
            Some(webview) => match self.window_with_webview(webview) {
                Some(window) => ServoStep::DeliverToWindow { window, webview },
                None => self.message_handled(),
            },
            None => match msg {
                EmbedderMsg::OnDevtoolsStarted(port) => ServoStep::ReportDevtools(port),
                EmbedderMsg::RequestDevtoolsConnection => ServoStep::AllowDevtools,
                EmbedderMsg::ShutdownComplete => ServoStep::FinishShuttingDown,
                _ => self.message_handled(),
            },
        }
    }

    /// A message of the engine has been dealt with.
    pub fn message_handled(&self) -> (r: ServoStep)
        requires
            self@.compositor is Some,
        ensures
            r == after_message(self@),
            turn_next(self@, ServoStep::AllowDevtools, TurnEvent::Done, self@, r),
            forall|port: Result<u16, ()>| #[trigger]
                turn_next(
                    self@,
                    ServoStep::ReportDevtools(port),
                    TurnEvent::Done,
                    self@,
                    r,
                ),
    {
        match self.compositor() {
            Some(status) if status.shutdown_state == ShutdownState::FinishedShuttingDown => {
                ServoStep::PerformUpdates
            },
            _ => ServoStep::PollEmbedder,
        }
    }

    /// The window has handled its message, and may want another window.
    pub fn window_handled_message(
        &mut self,
        window: WindowId,
        wants_window: bool,
        status: CompositorStatus,
    ) -> (r: ServoStep)
        requires
            old(self)@.compositor is Some,
        ensures
            final(self)@ == old(self)@.with_status(status),
            r == (if wants_window {
                ServoStep::OpenWindow { opener: window, url: old(self)@.url }
            } else {
                after_message(final(self)@)
            }),
            old(self)@.well_formed() ==> final(self)@.well_formed(),
            forall|webview: WebViewId| #[trigger]
                turn_next(
                    old(self)@,
                    (ServoStep::DeliverToWindow { window, webview }),
                    TurnEvent::Handled { wants_window, status },
                    final(self)@,
                    r,
                ),
    {
        self.observe_status(status);
        if wants_window {
            ServoStep::OpenWindow { opener: window, url: self.start_url().clone() }
        } else {
            self.message_handled()
        }
    }

    /// The window that `opener` wanted has been opened. It shows the document that
    /// `opener` shows.
    pub fn window_opened(
        &mut self,
        opener: WindowId,
        id: WindowId,
        window: Window<R>,
        status: CompositorStatus,
    ) -> (r: ServoStep)
        requires
            old(self)@.compositor is Some,
            old(self)@.windows.contains_key(opener),
        ensures
            final(self)@ == old(self)@.with_status(status).with_window(
                id,
                window@,
                old(self)@.documents[opener],
            ),
            r == after_message(final(self)@),
            old(self)@.well_formed() ==> final(self)@.well_formed(),
            forall|url: Url| #[trigger]
                turn_next(
                    old(self)@,
                    (ServoStep::OpenWindow { opener, url }),
                    TurnEvent::Opened { id, window: window@, status },
                    final(self)@,
                    r,
                ),
    {
        self.observe_status(status);
        if let Some(document) = self.document(opener) {
            self.put_window(id, window, document);
        }
        assert(final(self)@.windows.dom() =~= old(self)@.windows.dom().insert(id));
        assert(final(self)@.documents.dom() =~= old(self)@.documents.dom().insert(id));
        self.message_handled()
    }

    /// The compositor has finished shutting down.
    pub fn shutdown_finished(&mut self, status: CompositorStatus) -> (r: ServoStep)
        requires
            old(self)@.compositor is Some,
        ensures
            final(self)@ == old(self)@.with_status(status),
            r == after_message(final(self)@),
            old(self)@.well_formed() ==> final(self)@.well_formed(),
            turn_next(
                old(self)@,
                ServoStep::FinishShuttingDown,
                TurnEvent::Observed(status),
                final(self)@,
                r,
            ),
    {
        self.observe_status(status);
        self.message_handled()
    }

    /// The compositor has performed its updates. If it wants to repaint, the window
    /// that it paints to is redrawn, provided there still is that window.
    pub fn updates_performed(&mut self, report: CompositorReport) -> (r: ServoStep)
        requires
            old(self)@.compositor is Some,
        ensures
            ({
                let s = old(self)@.with_report(report.status, report.closed@.to_set());
                r == after_updates(s) && final(self)@ == leaving(s, r)
            }),
            old(self)@.well_formed() ==> final(self)@.well_formed(),
            turn_next(
                old(self)@,
                ServoStep::PerformUpdates,
                TurnEvent::Reported { status: report.status, closed: report.closed@.to_set() },
                final(self)@,
                r,
            ),
    {
        let status = report.status;
        self.observe_report(report);
        if status.needs_repaint && self.has_window(status.current_window) {
            ServoStep::RequestRedraw(status.current_window)
        } else {
            self.redraw_requested()
        }
    }

    /// The redraw that was called for has been requested.
    pub fn redraw_requested(&mut self) -> (r: ServoStep)
        requires
            old(self)@.compositor is Some,
        ensures
            r == after_redraw(old(self)@),
            final(self)@ == leaving(old(self)@, r),
            old(self)@.well_formed() ==> final(self)@.well_formed(),
            forall|window: WindowId| #[trigger]
                turn_next(
                    old(self)@,
                    ServoStep::RequestRedraw(window),
                    TurnEvent::Done,
                    final(self)@,
                    r,
                ),
    {
        if self.has_no_windows() {
            ServoStep::StartShuttingDown
        } else {
            self.end_turn()
        }
    }

    /// The compositor has started shutting down, for want of windows.
    pub fn shutdown_started(&mut self, status: CompositorStatus) -> (r: ServoStep)
        requires
            old(self)@.compositor is Some,
        ensures
            r == turn_end(old(self)@.with_status(status)),
            final(self)@ == leaving(old(self)@.with_status(status), r),
            old(self)@.well_formed() ==> final(self)@.well_formed(),
            turn_next(
                old(self)@,
                ServoStep::StartShuttingDown,
                TurnEvent::Observed(status),
                final(self)@,
                r,
            ),
    {
        self.observe_status(status);
        self.end_turn()
    }

    /// Ends the turn.
    fn end_turn(&mut self) -> (r: ServoStep)
        requires
            old(self)@.compositor is Some,
        ensures
            r == turn_end(old(self)@),
            final(self)@ == leaving(old(self)@, r),
    {
        let finished = match self.compositor() {
            Some(status) => status.shutdown_state == ShutdownState::FinishedShuttingDown,
            None => false,
        };
        if finished {
            self.forget_compositor();
            ServoStep::Exit
        } else if self.is_animating() {
            ServoStep::SetControlFlow(ControlFlow::Poll)
        } else {
            ServoStep::SetControlFlow(ControlFlow::Wait)
        }
    }
}

} // verus!
