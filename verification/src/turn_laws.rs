//! What a turn does about what the compositor and the engine say.
use url::Url;
use vstd::prelude::*;

#[allow(unused_imports)]
use crate::embedder::{concerned_webview, EmbedderMsg};
use crate::ids::{WebViewId, WindowId};
#[allow(unused_imports)]
use crate::servo_messages::{turn_next, turn_start, ControlFlow, ServoStep, TurnEvent};
#[allow(unused_imports)]
use crate::verso::{CompositorStatus, ShutdownState, VersoModel};
#[allow(unused_imports)]
use crate::window::WindowModel;

verus! {

// --------------------------------------------------------------- routing
/// The message is one of those that concern the web view `w`.
pub open spec fn is_about(msg: EmbedderMsg, w: WebViewId) -> bool {
    ||| msg == EmbedderMsg::Status(w)
    ||| msg == EmbedderMsg::ChangePageTitle(w)
    ||| msg == EmbedderMsg::MoveTo(w)
    ||| msg == EmbedderMsg::ResizeTo(w)
    ||| msg == EmbedderMsg::ShowSimpleDialog(w)
    ||| msg == EmbedderMsg::RequestAuthentication(w)
    ||| msg == EmbedderMsg::ShowContextMenu(w)
    ||| msg == EmbedderMsg::AllowNavigationRequest(w)
    ||| msg == EmbedderMsg::AllowOpeningWebView(w)
    ||| msg == EmbedderMsg::WebViewClosed(w)
    ||| msg == EmbedderMsg::WebViewFocused(w)
    ||| msg == EmbedderMsg::AllowUnload(w)
    ||| msg == EmbedderMsg::Keyboard(w)
    ||| msg == EmbedderMsg::ClearClipboard(w)
    ||| msg == EmbedderMsg::GetClipboardText(w)
    ||| msg == EmbedderMsg::SetClipboardText(w)
    ||| msg == EmbedderMsg::SetCursor(w)
    ||| msg == EmbedderMsg::NewFavicon(w)
    ||| msg == EmbedderMsg::HistoryChanged(w)
    ||| msg == EmbedderMsg::NotifyFullscreenStateChanged(w)
    ||| msg == EmbedderMsg::NotifyLoadStatusChanged(w)
    ||| msg == EmbedderMsg::WebResourceRequested(Some(w))
    ||| msg == EmbedderMsg::Panic(w)
    ||| msg == EmbedderMsg::GetSelectedBluetoothDevice(w)
    ||| msg == EmbedderMsg::SelectFiles(w)
    ||| msg == EmbedderMsg::PromptPermission(w)
    ||| msg == EmbedderMsg::ShowIME(w)
    ||| msg == EmbedderMsg::HideIME(w)
    ||| msg == EmbedderMsg::MediaSessionEvent(w)
    ||| msg == EmbedderMsg::PlayGamepadHapticEffect(w)
    ||| msg == EmbedderMsg::StopGamepadHapticEffect(w)
    ||| msg == EmbedderMsg::ShowNotification(Some(w))
    ||| msg == EmbedderMsg::ShowFormControl(w)
}

/// Every kind of message that carries a web view concerns that web view and no other.
pub proof fn law_messages_concern_what_they_carry(msg: EmbedderMsg, w: WebViewId)
    ensures
        is_about(msg, w) <==> concerned_webview(msg) == Some(w),
{
}

/// The messages that carry no web view concern none.
pub proof fn law_messages_that_concern_no_webview(port: Result<u16, ()>)
    ensures
        concerned_webview(EmbedderMsg::WebViewBlurred) is None,
        concerned_webview(EmbedderMsg::ReportProfile) is None,
        concerned_webview(EmbedderMsg::OnDevtoolsStarted(port)) is None,
        concerned_webview(EmbedderMsg::RequestDevtoolsConnection) is None,
        concerned_webview(EmbedderMsg::ShutdownComplete) is None,
        concerned_webview(EmbedderMsg::FinishJavaScriptEvaluation) is None,
        concerned_webview(EmbedderMsg::WebResourceRequested(None)) is None,
        concerned_webview(EmbedderMsg::ShowNotification(None)) is None,
{
}

/// A message on a web view that some window has goes to a window that has it.
pub proof fn law_messages_reach_their_window<R>(
    s: VersoModel<R>,
    msg: EmbedderMsg,
    w: WebViewId,
    holder: WindowId,
    at: int,
    t: VersoModel<R>,
    next: ServoStep,
)
    requires
        is_about(msg, w),
        s.windows.contains_key(holder),
        0 <= at < s.windows[holder].webviews.len(),
        s.windows[holder].webviews[at] == w,
        turn_next(s, ServoStep::PollEmbedder, TurnEvent::Polled(Some(msg)), t, next),
    ensures
        next matches ServoStep::DeliverToWindow { window, webview } && {
            &&& webview == w
            &&& s.windows.contains_key(window)
            &&& exists|i: int|
                0 <= i < s.windows[window].webviews.len()
                    && #[trigger] s.windows[window].webviews[i] == w
        },
        t == s,
{
    law_messages_concern_what_they_carry(msg, w);
    assert(s.windows[holder].webviews.contains(w));
}

/// A message on a web view that no window has is dropped: the next one is looked for, or
/// none if the compositor has finished shutting down.
pub proof fn law_stray_messages_are_dropped<R>(
    s: VersoModel<R>,
    msg: EmbedderMsg,
    w: WebViewId,
    t: VersoModel<R>,
    next: ServoStep,
)
    requires
        is_about(msg, w),
        s.compositor is Some,
        forall|x: WindowId, i: int|
            s.windows.contains_key(x) && 0 <= i < s.windows[x].webviews.len()
                ==> #[trigger] s.windows[x].webviews[i] != w,
        turn_next(s, ServoStep::PollEmbedder, TurnEvent::Polled(Some(msg)), t, next),
    ensures
        s.compositor->0.shutdown_state is FinishedShuttingDown ==> next
            == ServoStep::PerformUpdates,
        !(s.compositor->0.shutdown_state is FinishedShuttingDown) ==> next
            == ServoStep::PollEmbedder,
        t == s,
{
    law_messages_concern_what_they_carry(msg, w);
    if let ServoStep::DeliverToWindow { window, .. } = next {
        let i = choose|i: int|
            0 <= i < s.windows[window].webviews.len() && s.windows[window].webviews[i] == w;
        assert(s.windows[window].webviews[i] != w);
    }
}

/// What the engine says to the shell itself: the port of the devtools server, or its
/// failure, is reported; a devtools connection is allowed; and at the end of the
/// shutdown the compositor finishes its own. The rest is passed over.
pub proof fn law_messages_to_the_shell<R>(
    s: VersoModel<R>,
    msg: EmbedderMsg,
    port: Result<u16, ()>,
    t: VersoModel<R>,
    next: ServoStep,
)
    requires
        s.compositor is Some,
        turn_next(s, ServoStep::PollEmbedder, TurnEvent::Polled(Some(msg)), t, next),
    ensures
        msg == EmbedderMsg::OnDevtoolsStarted(port) ==> next == ServoStep::ReportDevtools(port),
        msg == EmbedderMsg::RequestDevtoolsConnection ==> next == ServoStep::AllowDevtools,
        msg == EmbedderMsg::ShutdownComplete ==> next == ServoStep::FinishShuttingDown,
        msg == EmbedderMsg::WebViewBlurred || msg == EmbedderMsg::ReportProfile || msg
            == EmbedderMsg::FinishJavaScriptEvaluation || msg
            == EmbedderMsg::WebResourceRequested(None) || msg == EmbedderMsg::ShowNotification(None)
            ==> next == (if s.compositor->0.shutdown_state is FinishedShuttingDown {
            ServoStep::PerformUpdates
        } else {
            ServoStep::PollEmbedder
        }),
        t == s,
{
}

// --------------------------------------------------------------- the course of a turn
/// A turn begins with the compositor, and does not begin without it.
pub proof fn law_turns_begin_with_the_compositor<R>(s: VersoModel<R>)
    ensures
        s.compositor is Some ==> turn_start(s) == ServoStep::ReceiveCompositorMessages,
        s.compositor is None ==> turn_start(s) == ServoStep::NoCompositor,
{
}

/// When the engine has no more messages, the compositor performs its updates.
pub proof fn law_updates_follow_the_messages<R>(s: VersoModel<R>, t: VersoModel<R>, next: ServoStep)
    requires
        turn_next(s, ServoStep::PollEmbedder, TurnEvent::Polled(None), t, next),
    ensures
        next == ServoStep::PerformUpdates,
        t == s,
{
}

/// The messages of the engine are looked for after the compositor's own, and on and on
/// until the compositor has finished shutting down: after each of the steps on a message,
/// as the compositor is then known to be.
pub proof fn law_messages_until_shutdown<R>(
    s: VersoModel<R>,
    step: ServoStep,
    event: TurnEvent<R>,
    status: CompositorStatus,
    t: VersoModel<R>,
    next: ServoStep,
)
    requires
        turn_next(s, step, event, t, next),
        match (step, event) {
            (
                ServoStep::ReceiveCompositorMessages,
                TurnEvent::Reported { status: said, .. },
            ) => said == status,
            (
                ServoStep::DeliverToWindow { .. },
                TurnEvent::Handled { wants_window, status: said },
            ) => !wants_window && said == status,
            (ServoStep::OpenWindow { .. }, TurnEvent::Opened { status: said, .. }) => said
                == status,
            (ServoStep::FinishShuttingDown, TurnEvent::Observed(said)) => said == status,
            (ServoStep::ReportDevtools(_), TurnEvent::Done) => s.compositor == Some(status),
            (ServoStep::AllowDevtools, TurnEvent::Done) => s.compositor == Some(status),
            _ => false,
        },
    ensures
        t.compositor == Some(status),
        status.shutdown_state is FinishedShuttingDown ==> next == ServoStep::PerformUpdates,
        !(status.shutdown_state is FinishedShuttingDown) ==> next == ServoStep::PollEmbedder,
{
}

/// A window that wants another gets it, whatever else holds: it is to open the address that
/// the browser was started with. No window has changed by then.
pub proof fn law_wanted_windows_are_opened<R>(
    s: VersoModel<R>,
    window: WindowId,
    webview: WebViewId,
    status: CompositorStatus,
    t: VersoModel<R>,
    next: ServoStep,
)
    requires
        turn_next(
            s,
            ServoStep::DeliverToWindow { window, webview },
            TurnEvent::Handled { wants_window: true, status },
            t,
            next,
        ),
    ensures
        next == (ServoStep::OpenWindow { opener: window, url: s.url }),
        t.windows == s.windows,
        t.documents == s.documents,
        t.compositor == Some(status),
{
}

/// A window that was opened is there, as it was opened, with the document of the window
/// that wanted it. All other windows stay as they are.
pub proof fn law_opened_windows_are_there<R>(
    s: VersoModel<R>,
    opener: WindowId,
    url: Url,
    id: WindowId,
    opened: WindowModel<R>,
    status: CompositorStatus,
    t: VersoModel<R>,
    next: ServoStep,
    other: WindowId,
)
    requires
        turn_next(
            s,
            ServoStep::OpenWindow { opener, url },
            TurnEvent::Opened { id, window: opened, status },
            t,
            next,
        ),
        other != id,
    ensures
        t.windows.contains_key(id) && t.windows[id] == opened,
        t.documents.contains_key(id) && t.documents[id] == s.documents[opener],
        t.windows.contains_key(other) == s.windows.contains_key(other),
        t.documents.contains_key(other) == s.documents.contains_key(other),
        s.windows.contains_key(other) ==> t.windows[other] == s.windows[other],
        s.documents.contains_key(other) ==> t.documents[other] == s.documents[other],
        t.compositor == Some(status),
{
}

/// No step but the compositor's own work on the windows closes one.
pub proof fn law_only_reports_close_windows<R>(
    s: VersoModel<R>,
    step: ServoStep,
    event: TurnEvent<R>,
    t: VersoModel<R>,
    next: ServoStep,
    window: WindowId,
)
    requires
        turn_next(s, step, event, t, next),
        s.windows.contains_key(window),
        s.documents.contains_key(window),
    ensures
        event matches TurnEvent::Reported { closed, .. } ==> (t.windows.contains_key(window)
            <==> !closed.contains(window)) && (t.documents.contains_key(window)
            <==> !closed.contains(window)),
        !(event is Reported) ==> t.windows.contains_key(window) && t.documents.contains_key(window),
        !(event is Opened) && t.documents.contains_key(window) ==> t.documents[window]
            == s.documents[window],
{
}

// --------------------------------------------------------------- the end of a turn
/// Whenever the compositor needs a repaint after its updates and the window that it paints
/// to is still there, that window is redrawn, whatever else the compositor says of itself;
/// and there is no redraw otherwise.
pub proof fn law_repaints_are_redrawn<R>(
    s: VersoModel<R>,
    status: CompositorStatus,
    closed: Set<WindowId>,
    t: VersoModel<R>,
    next: ServoStep,
)
    requires
        turn_next(
            s,
            ServoStep::PerformUpdates,
            TurnEvent::Reported { status, closed },
            t,
            next,
        ),
    ensures
        status.needs_repaint && s.windows.contains_key(status.current_window) && !closed.contains(
            status.current_window,
        ) ==> next == ServoStep::RequestRedraw(status.current_window),
        !(status.needs_repaint && s.windows.contains_key(status.current_window)
            && !closed.contains(status.current_window)) ==> !(next is RequestRedraw),
{
}

/// What a turn that is past the redraw does, with the compositor saying `status`: it shuts
/// the compositor down if no window is left; else it leaves the event loop if the
/// compositor has finished shutting down, goes round at once if it animates, and waits
/// otherwise.
pub open spec fn ends_rightly(
    no_window: bool,
    status: CompositorStatus,
    next: ServoStep,
) -> bool {
    &&& no_window ==> next == ServoStep::StartShuttingDown
    &&& !no_window && status.shutdown_state is FinishedShuttingDown ==> next == ServoStep::Exit
    &&& !no_window && !(status.shutdown_state is FinishedShuttingDown) && status.is_animating
        ==> next == ServoStep::SetControlFlow(ControlFlow::Poll)
    &&& !no_window && !(status.shutdown_state is FinishedShuttingDown) && !status.is_animating
        ==> next == ServoStep::SetControlFlow(ControlFlow::Wait)
}

/// With no redraw to request, a turn ends right after the updates: by whether the
/// compositor has closed every window, and by what it said.
pub proof fn law_turns_end_after_the_updates<R>(
    s: VersoModel<R>,
    status: CompositorStatus,
    closed: Set<WindowId>,
    t: VersoModel<R>,
    next: ServoStep,
)
    requires
        turn_next(
            s,
            ServoStep::PerformUpdates,
            TurnEvent::Reported { status, closed },
            t,
            next,
        ),
        !(next is RequestRedraw),
    ensures
        ends_rightly(
            forall|w: WindowId| #[trigger] s.windows.contains_key(w) ==> closed.contains(w),
            status,
            next,
        ),
{
    let left = s.windows.remove_keys(closed);
    if forall|w: WindowId| #[trigger] s.windows.contains_key(w) ==> closed.contains(w) {
        assert(left.dom() =~= Set::<WindowId>::empty());
    } else {
        let w = choose|w: WindowId| #[trigger] s.windows.contains_key(w) && !closed.contains(w);
        assert(left.dom().contains(w));
        assert(!Set::<WindowId>::empty().contains(w));
    }
}

/// After the redraw has been requested a turn ends in the same way.
pub proof fn law_turns_end_after_the_redraw<R>(
    s: VersoModel<R>,
    window: WindowId,
    status: CompositorStatus,
    t: VersoModel<R>,
    next: ServoStep,
)
    requires
        turn_next(s, ServoStep::RequestRedraw(window), TurnEvent::Done, t, next),
        s.compositor == Some(status),
    ensures
        ends_rightly(forall|w: WindowId| !#[trigger] s.windows.contains_key(w), status, next),
{
    if forall|w: WindowId| !#[trigger] s.windows.contains_key(w) {
        assert(s.windows.dom() =~= Set::<WindowId>::empty());
    } else {
        let w = choose|w: WindowId| #[trigger] s.windows.contains_key(w);
        assert(s.windows.dom().contains(w));
        assert(!Set::<WindowId>::empty().contains(w));
    }
}

/// Once the compositor has been told to shut down a turn ends by what the compositor then
/// says of itself.
pub proof fn law_turns_end_after_the_shutdown<R>(
    s: VersoModel<R>,
    status: CompositorStatus,
    t: VersoModel<R>,
    next: ServoStep,
)
    requires
        turn_next(s, ServoStep::StartShuttingDown, TurnEvent::Observed(status), t, next),
    ensures
        ends_rightly(false, status, next),
{
}

/// What is known after a step: what the compositor said last, unless the step leaves the
/// event loop, and then that it is gone; and if it said nothing, what was known before.
pub proof fn law_last_word_is_known<R>(
    s: VersoModel<R>,
    step: ServoStep,
    event: TurnEvent<R>,
    t: VersoModel<R>,
    next: ServoStep,
)
    requires
        turn_next(s, step, event, t, next),
    ensures
        next is Exit ==> t.compositor is None,
        !(next is Exit) ==> t.compositor == (match event {
            TurnEvent::Reported { status, .. } => Some(status),
            TurnEvent::Handled { status, .. } => Some(status),
            TurnEvent::Opened { status, .. } => Some(status),
            TurnEvent::Observed(status) => Some(status),
            _ => s.compositor,
        }),
{
}

} // verus!
