//! What each message between host and browser is for.
use dpi::{PhysicalPosition, PhysicalSize, Position, Size};
use url::Url;
use vstd::prelude::*;

#[allow(unused_imports)]
use crate::controller::{
    controller_action, opening_message, sender_in, without_question, ControllerAction,
    ControllerModel, Handles, QuestionKind,
};
#[allow(unused_imports)]
use crate::ids::{RequestId, WindowId};
#[allow(unused_imports)]
use crate::messages::{
    PositionType, SizeType, Theme, ToControllerMessage, ToVersoMessage, VersoviewSettings,
    WebResourceRequest, WebResourceRequestResponse, WindowLevel,
};
#[allow(unused_imports)]
use crate::startup::settings_in;
#[allow(unused_imports)]
use crate::verso::VersoModel;
#[allow(unused_imports)]
use crate::webview_messages::{
    answer_to, can_handle, verso_after, webview_step, window_after, ConstellationMsg, Fullscreen,
    WebviewStep, WindowCommand, WindowFact, WindowQuery,
};
#[allow(unused_imports)]
use crate::window::{words, TabModel, WebResourceReply, WebResourceResponseMsg, WindowModel};

verus! {

// --------------------------------------------------------------- the page
/// The host's word to navigate, to reload or to run a script goes to the page of the tab
/// that the window shows, with the address or the script that the host gave, whatever
/// other web views the window has.
pub proof fn law_shown_page_obeys<R, A, S>(
    s: VersoModel<R>,
    window: WindowId,
    tab: TabModel,
    to: Url,
    script: String,
)
    requires
        s.windows[window].current_tab == Some(tab),
    ensures
        webview_step::<R, A, S>(s, Some(window), ToVersoMessage::NavigateTo(to))
            == WebviewStep::<R, S>::Constellation(ConstellationMsg::LoadUrl(tab.id, to)),
        webview_step::<R, A, S>(s, Some(window), ToVersoMessage::Reload) == WebviewStep::<
            R,
            S,
        >::Constellation(ConstellationMsg::Reload(tab.id)),
        webview_step::<R, A, S>(s, Some(window), ToVersoMessage::ExecuteScript(script))
            == WebviewStep::<R, S>::ExecuteScript(tab.id, script),
{
}

/// In a window that shows no tab there is no page to navigate, to reload or to run a
/// script in.
pub proof fn law_no_page_no_navigation<R, A, S>(
    s: VersoModel<R>,
    window: WindowId,
    to: Url,
    script: String,
)
    requires
        s.windows[window].current_tab is None,
    ensures
        webview_step::<R, A, S>(s, Some(window), ToVersoMessage::NavigateTo(to)) is Nothing,
        webview_step::<R, A, S>(s, Some(window), ToVersoMessage::Reload) is Nothing,
        webview_step::<R, A, S>(s, Some(window), ToVersoMessage::ExecuteScript(script)) is Nothing,
{
}

/// The host's word on a navigation goes to the pipeline that its bytes spell, as the host
/// gave it, whether or not there is a window.
pub proof fn law_navigation_word_is_passed_on<R, A, S>(
    s: VersoModel<R>,
    first: Option<WindowId>,
    id: Vec<u8>,
    allow: bool,
)
    ensures
        ({
            let step = webview_step::<R, A, S>(
                s,
                first,
                ToVersoMessage::OnNavigationStartingResponse(id, allow),
            );
            let b = id@;
            &&& step matches WebviewStep::Constellation(
                ConstellationMsg::AllowNavigationResponse(pipeline, word),
            ) && {
                &&& word == allow
                &&& pipeline.namespace == b[0] + 256 * b[1] + 65536 * b[2] + 16777216 * b[3]
                &&& pipeline.index == b[4] + 256 * b[5] + 65536 * b[6] + 16777216 * b[7]
            }
        }),
{
}

// --------------------------------------------------------------- the window
/// A command of the host reaches the windowing system on the first window, with the very
/// value that the host gave, for all values. Full-screen is without a frame, and ends
/// when the host says so.
pub proof fn law_commands_carry_their_values<R, A, S>(
    s: VersoModel<R>,
    w: WindowId,
    title: String,
    size: Size,
    position: Position,
    flag: bool,
    level: WindowLevel,
    theme: Option<Theme>,
)
    ensures
        webview_step::<R, A, S>(s, Some(w), ToVersoMessage::SetTitle(title)) == WebviewStep::<
            R,
            S,
        >::Command(w, WindowCommand::SetTitle(title)),
        webview_step::<R, A, S>(s, Some(w), ToVersoMessage::SetSize(size)) == WebviewStep::<
            R,
            S,
        >::Command(w, WindowCommand::RequestInnerSize(size)),
        webview_step::<R, A, S>(s, Some(w), ToVersoMessage::SetPosition(position)) == WebviewStep::<
            R,
            S,
        >::Command(w, WindowCommand::SetOuterPosition(position)),
        webview_step::<R, A, S>(s, Some(w), ToVersoMessage::SetMaximized(flag)) == WebviewStep::<
            R,
            S,
        >::Command(w, WindowCommand::SetMaximized(flag)),
        webview_step::<R, A, S>(s, Some(w), ToVersoMessage::SetMinimized(flag)) == WebviewStep::<
            R,
            S,
        >::Command(w, WindowCommand::SetMinimized(flag)),
        webview_step::<R, A, S>(s, Some(w), ToVersoMessage::SetFullscreen(true)) == WebviewStep::<
            R,
            S,
        >::Command(w, WindowCommand::SetFullscreen(Some(Fullscreen::Borderless))),
        webview_step::<R, A, S>(s, Some(w), ToVersoMessage::SetFullscreen(false)) == WebviewStep::<
            R,
            S,
        >::Command(w, WindowCommand::SetFullscreen(None)),
        webview_step::<R, A, S>(s, Some(w), ToVersoMessage::SetVisible(flag)) == WebviewStep::<
            R,
            S,
        >::Command(w, WindowCommand::SetVisible(flag)),
        webview_step::<R, A, S>(s, Some(w), ToVersoMessage::SetWindowLevel(level)) == WebviewStep::<
            R,
            S,
        >::Command(w, WindowCommand::SetWindowLevel(level)),
        webview_step::<R, A, S>(s, Some(w), ToVersoMessage::SetTheme(theme)) == WebviewStep::<
            R,
            S,
        >::Command(w, WindowCommand::SetTheme(theme)),
        webview_step::<R, A, S>(s, Some(w), ToVersoMessage::StartDragging) == WebviewStep::<
            R,
            S,
        >::Command(w, WindowCommand::DragWindow),
        webview_step::<R, A, S>(s, Some(w), ToVersoMessage::Focus) == WebviewStep::<
            R,
            S,
        >::Command(w, WindowCommand::FocusWindow),
{
}

/// A question of the host is asked of the windowing system, on the first window, under the
/// name that the host gave it, for the thing that the host asked for.
pub proof fn law_questions_are_asked<R, A, S>(
    s: VersoModel<R>,
    window: WindowId,
    id: RequestId,
    size_type: SizeType,
    position_type: PositionType,
)
    ensures
        webview_step::<R, A, S>(s, Some(window), ToVersoMessage::GetTitle(id)) == (WebviewStep::<
            R,
            S,
        >::Query { window, id, query: WindowQuery::Title }),
        webview_step::<R, A, S>(s, Some(window), ToVersoMessage::GetSize(id, size_type)) == (
        WebviewStep::<R, S>::Query { window, id, query: WindowQuery::Size(size_type) }),
        webview_step::<R, A, S>(s, Some(window), ToVersoMessage::GetPosition(id, position_type))
            == (WebviewStep::<R, S>::Query {
            window,
            id,
            query: WindowQuery::Position(position_type),
        }),
        webview_step::<R, A, S>(s, Some(window), ToVersoMessage::GetMinimized(id)) == (
        WebviewStep::<R, S>::Query { window, id, query: WindowQuery::Minimized }),
        webview_step::<R, A, S>(s, Some(window), ToVersoMessage::GetMaximized(id)) == (
        WebviewStep::<R, S>::Query { window, id, query: WindowQuery::Maximized }),
        webview_step::<R, A, S>(s, Some(window), ToVersoMessage::GetFullscreen(id)) == (
        WebviewStep::<R, S>::Query { window, id, query: WindowQuery::Fullscreen }),
        webview_step::<R, A, S>(s, Some(window), ToVersoMessage::GetVisible(id)) == (WebviewStep::<
            R,
            S,
        >::Query { window, id, query: WindowQuery::Visible }),
        webview_step::<R, A, S>(s, Some(window), ToVersoMessage::GetScaleFactor(id)) == (
        WebviewStep::<R, S>::Query { window, id, query: WindowQuery::ScaleFactor }),
        webview_step::<R, A, S>(s, Some(window), ToVersoMessage::GetTheme(id)) == (WebviewStep::<
            R,
            S,
        >::Query { window, id, query: WindowQuery::Theme }),
{
}

/// The question for the address is answered with the page at the tab's place in its own
/// history, under the name that the host gave.
pub proof fn law_address_is_that_of_the_tab<R, A, S>(
    s: VersoModel<R>,
    window: WindowId,
    tab: TabModel,
    id: RequestId,
)
    requires
        s.windows[window].current_tab == Some(tab),
    ensures
        webview_step::<R, A, S>(s, Some(window), ToVersoMessage::GetCurrentUrl(id))
            == WebviewStep::<R, S>::Controller(
            ToControllerMessage::GetCurrentUrlResponse(id, tab.history[tab.current_idx]),
        ),
{
}

/// What the windowing system tells goes to the host as it was told, under the name of the
/// question. Only where the system does not know is something put in its place: the
/// window then counts as not minimized, as visible and as light.
pub proof fn law_answers_say_what_was_told<S>(
    id: RequestId,
    title: String,
    size: PhysicalSize<u32>,
    position: Option<PhysicalPosition<i32>>,
    flag: bool,
    bits: u64,
    theme: Theme,
)
    ensures
        answer_to::<S>(id, WindowFact::Title(title)) == ToControllerMessage::<
            S,
        >::GetTitleResponse(id, title),
        answer_to::<S>(id, WindowFact::Size(size)) == ToControllerMessage::<S>::GetSizeResponse(
            id,
            size,
        ),
        answer_to::<S>(id, WindowFact::Position(position)) == ToControllerMessage::<
            S,
        >::GetPositionResponse(id, position),
        answer_to::<S>(id, WindowFact::Minimized(Some(flag))) == ToControllerMessage::<
            S,
        >::GetMinimizedResponse(id, flag),
        answer_to::<S>(id, WindowFact::Minimized(None)) == ToControllerMessage::<
            S,
        >::GetMinimizedResponse(id, false),
        answer_to::<S>(id, WindowFact::Maximized(flag)) == ToControllerMessage::<
            S,
        >::GetMaximizedResponse(id, flag),
        answer_to::<S>(id, WindowFact::Fullscreen(Some(Fullscreen::Borderless)))
            == ToControllerMessage::<S>::GetFullscreenResponse(id, true),
        answer_to::<S>(id, WindowFact::Fullscreen(None)) == ToControllerMessage::<
            S,
        >::GetFullscreenResponse(id, false),
        answer_to::<S>(id, WindowFact::Visible(Some(flag))) == ToControllerMessage::<
            S,
        >::GetVisibleResponse(id, flag),
        answer_to::<S>(id, WindowFact::Visible(None)) == ToControllerMessage::<
            S,
        >::GetVisibleResponse(id, true),
        answer_to::<S>(id, WindowFact::ScaleFactor(bits)) == ToControllerMessage::<
            S,
        >::GetScaleFactorResponse(id, bits),
        answer_to::<S>(id, WindowFact::Theme(Some(theme))) == ToControllerMessage::<
            S,
        >::GetThemeResponse(id, theme),
        answer_to::<S>(id, WindowFact::Theme(None)) == ToControllerMessage::<S>::GetThemeResponse(
            id,
            Theme::Light,
        ),
{
}

// --------------------------------------------------------------- listening
/// A wish of the host to listen is noted in the first window and changes nothing else
/// there; requests that waited are forgotten when requests are listened to.
pub proof fn law_listening_is_noted<R, A>(s: VersoModel<R>, window: WindowId)
    ensures
        ({
            let w = s.windows[window];
            let t = verso_after(
                s,
                Some(window),
                ToVersoMessage::<A>::ListenToOnCloseRequested,
            ).windows[window];
            &&& t.on_close_requested
            &&& t.on_navigation_starting == w.on_navigation_starting
            &&& t.on_web_resource_requested == w.on_web_resource_requested
            &&& t.webviews == w.webviews
            &&& t.current_tab == w.current_tab
        }),
        ({
            let w = s.windows[window];
            let t = verso_after(
                s,
                Some(window),
                ToVersoMessage::<A>::ListenToOnNavigationStarting,
            ).windows[window];
            &&& t.on_navigation_starting
            &&& t.on_close_requested == w.on_close_requested
            &&& t.on_web_resource_requested == w.on_web_resource_requested
            &&& t.webviews == w.webviews
            &&& t.current_tab == w.current_tab
        }),
        ({
            let w = s.windows[window];
            let t = verso_after(
                s,
                Some(window),
                ToVersoMessage::<A>::ListenToWebResourceRequests,
            ).windows[window];
            &&& t.on_web_resource_requested == Some(Map::<RequestId, (Url, R)>::empty())
            &&& t.on_close_requested == w.on_close_requested
            &&& t.on_navigation_starting == w.on_navigation_starting
            &&& t.webviews == w.webviews
            &&& t.current_tab == w.current_tab
        }),
{
}

/// Listening is a matter of the state alone: nothing is to be done about the wish itself.
pub proof fn law_listening_needs_no_step<R, A, S>(s: VersoModel<R>, first: Option<WindowId>)
    ensures
        webview_step::<R, A, S>(s, first, ToVersoMessage::ListenToOnCloseRequested) is Nothing,
        webview_step::<R, A, S>(s, first, ToVersoMessage::ListenToOnNavigationStarting) is Nothing,
        webview_step::<R, A, S>(s, first, ToVersoMessage::ListenToWebResourceRequests) is Nothing,
{
}

/// The host's word on a request takes that request from those that wait, and changes
/// nothing else in the window; if requests are not put before the host, nothing at all.
pub proof fn law_word_releases_one_request<R, A>(
    s: VersoModel<R>,
    window: WindowId,
    word: WebResourceRequestResponse,
)
    ensures
        ({
            let w = s.windows[window];
            let t = verso_after(
                s,
                Some(window),
                ToVersoMessage::<A>::WebResourceRequestResponse(word),
            ).windows[window];
            &&& w.on_web_resource_requested is None ==> t.on_web_resource_requested is None
            &&& w.on_web_resource_requested matches Some(pending) ==> {
                &&& t.on_web_resource_requested is Some
                &&& t.on_web_resource_requested->0 == pending.remove(word.id)
            }
            &&& t.on_close_requested == w.on_close_requested
            &&& t.on_navigation_starting == w.on_navigation_starting
            &&& t.webviews == w.webviews
            &&& t.current_tab == w.current_tab
        }),
{
}

/// What remains to be said after a word is what remains of the reply: a response goes on
/// with its own body and ends, and a refusal is all there is to it.
pub proof fn law_replies_are_said_to_the_end(body: Vec<u8>)
    ensures
        words(WebResourceReply::SendBody(body)) == seq![
            WebResourceResponseMsg::SendBodyData(body),
            WebResourceResponseMsg::FinishLoad,
        ],
        words(WebResourceReply::Finish) == seq![WebResourceResponseMsg::FinishLoad],
        words(WebResourceReply::Decline) == seq![WebResourceResponseMsg::DoNotIntercept],
        words(WebResourceReply::Over).len() == 0,
{
}

// --------------------------------------------------------------- coming and going
/// An exit starts the shutdown if the compositor is there, and else does nothing; it
/// changes nothing in the shell itself.
pub proof fn law_exit_is_for_a_running_compositor<R, A, S>(
    s: VersoModel<R>,
    first: Option<WindowId>,
)
    requires
        s.may_come_first(first),
    ensures
        s.compositor is Some ==> webview_step::<R, A, S>(s, first, ToVersoMessage::Exit)
            == WebviewStep::<R, S>::StartShuttingDown,
        s.compositor is None ==> webview_step::<R, A, S>(s, first, ToVersoMessage::Exit)
            == WebviewStep::<R, S>::Nothing,
        verso_after(s, first, ToVersoMessage::<A>::Exit) == s,
{
    if let Some(w) = first {
        assert(s.windows.insert(w, s.windows[w]) =~= s.windows);
    }
}

/// Only a sender is a browser's first message, and only settings are a host's. The
/// settings that a host sends hold the address that it was given, and its attributes.
pub proof fn law_what_is_a_first_message<S, A>(
    hello: ToControllerMessage<S>,
    message: ToVersoMessage<A>,
    initial_url: Url,
    settings: VersoviewSettings<A>,
)
    ensures
        sender_in(hello) is Some <==> hello is SetToVersoSender,
        hello matches ToControllerMessage::SetToVersoSender(sender) ==> sender_in(hello) == Some(
            sender,
        ),
        settings_in(message) is Some <==> message is SetConfig,
        message matches ToVersoMessage::SetConfig(brought) ==> settings_in(message) == Some(
            brought,
        ),
        opening_message(initial_url, settings) matches ToVersoMessage::SetConfig(sent) && sent.url
            == Some(initial_url) && sent.attributes == settings.attributes,
{
}

/// Which messages can be handled: a navigation answer if its bytes are eight or more and
/// the last four of the first eight are not all zero; a question if there is no window or
/// there is a host to answer; the question for the address if, besides, the window shows
/// a page of its tab's history; and every other message.
pub proof fn law_what_can_be_handled<R, A>(
    s: VersoModel<R>,
    first: Option<WindowId>,
    message: ToVersoMessage<A>,
)
    ensures
        message matches ToVersoMessage::OnNavigationStartingResponse(id, _) ==> (can_handle(
            s,
            first,
            message,
        ) <==> id@.len() >= 8 && !(id@[4] == 0 && id@[5] == 0 && id@[6] == 0 && id@[7] == 0)),
        message is GetTitle || message is GetSize || message is GetPosition
            || message is GetMinimized || message is GetMaximized || message is GetFullscreen
            || message is GetVisible || message is GetScaleFactor || message is GetTheme ==> (
        can_handle(s, first, message) <==> first is None || s.has_controller),
        message is GetCurrentUrl ==> (can_handle(s, first, message) <==> first is None || (
        s.has_controller && s.windows[first->0].current_tab is Some && 0
            <= s.windows[first->0].current_tab->0.current_idx
            < s.windows[first->0].current_tab->0.history.len())),
        message is Exit || message is ListenToOnCloseRequested || message is NavigateTo
            || message is Reload || message is ListenToOnNavigationStarting
            || message is ExecuteScript || message is ListenToWebResourceRequests
            || message is WebResourceRequestResponse || message is SetTitle || message is SetSize
            || message is SetPosition || message is SetMaximized || message is SetMinimized
            || message is SetFullscreen || message is SetVisible || message is SetWindowLevel
            || message is SetTheme || message is StartDragging || message is Focus
            || message is SetConfig ==> can_handle(s, first, message),
{
}

// --------------------------------------------------------------- the host
/// A message that nobody listens to or waits for calls for nothing.
pub proof fn law_unawaited_messages_do_nothing<H: Handles>(
    host: ControllerModel<H>,
    id: RequestId,
    bytes: Vec<u8>,
    url: Url,
    request: WebResourceRequest,
    title: String,
    size: PhysicalSize<u32>,
    position: Option<PhysicalPosition<i32>>,
    flag: bool,
    bits: u64,
    theme: Theme,
)
    ensures
        host.on_close_requested is None ==> controller_action::<H>(
            host,
            ToControllerMessage::OnCloseRequested,
        ) is Nothing,
        host.on_navigation_starting is None ==> controller_action::<H>(
            host,
            ToControllerMessage::OnNavigationStarting(bytes, url),
        ) is Nothing,
        host.on_web_resource_requested is None ==> controller_action::<H>(
            host,
            ToControllerMessage::OnWebResourceRequested(request),
        ) is Nothing,
        !host.title_response.contains_key(id) ==> controller_action::<H>(
            host,
            ToControllerMessage::GetTitleResponse(id, title),
        ) is Nothing,
        !host.size_response.contains_key(id) ==> controller_action::<H>(
            host,
            ToControllerMessage::GetSizeResponse(id, size),
        ) is Nothing,
        !host.position_response.contains_key(id) ==> controller_action::<H>(
            host,
            ToControllerMessage::GetPositionResponse(id, position),
        ) is Nothing,
        !host.minimized_response.contains_key(id) ==> controller_action::<H>(
            host,
            ToControllerMessage::GetMinimizedResponse(id, flag),
        ) is Nothing,
        !host.maximized_response.contains_key(id) ==> controller_action::<H>(
            host,
            ToControllerMessage::GetMaximizedResponse(id, flag),
        ) is Nothing,
        !host.fullscreen_response.contains_key(id) ==> controller_action::<H>(
            host,
            ToControllerMessage::GetFullscreenResponse(id, flag),
        ) is Nothing,
        !host.visible_response.contains_key(id) ==> controller_action::<H>(
            host,
            ToControllerMessage::GetVisibleResponse(id, flag),
        ) is Nothing,
        !host.scale_factor_response.contains_key(id) ==> controller_action::<H>(
            host,
            ToControllerMessage::GetScaleFactorResponse(id, bits),
        ) is Nothing,
        !host.theme_response.contains_key(id) ==> controller_action::<H>(
            host,
            ToControllerMessage::GetThemeResponse(id, theme),
        ) is Nothing,
        !host.get_url_response.contains_key(id) ==> controller_action::<H>(
            host,
            ToControllerMessage::GetCurrentUrlResponse(id, url),
        ) is Nothing,
{
}

/// An answer goes to the caller that waits under its name for an answer of its kind, and
/// says what the message says.
pub proof fn law_answers_go_to_their_callers<H: Handles>(
    host: ControllerModel<H>,
    id: RequestId,
    url: Url,
    title: String,
    size: PhysicalSize<u32>,
    position: Option<PhysicalPosition<i32>>,
    flag: bool,
    bits: u64,
    theme: Theme,
)
    ensures
        host.title_response.contains_key(id) ==> controller_action::<H>(
            host,
            ToControllerMessage::GetTitleResponse(id, title),
        ) == ControllerAction::<H>::Title(&host.title_response[id], title),
        host.size_response.contains_key(id) ==> controller_action::<H>(
            host,
            ToControllerMessage::GetSizeResponse(id, size),
        ) == ControllerAction::<H>::Size(&host.size_response[id], size),
        host.position_response.contains_key(id) ==> controller_action::<H>(
            host,
            ToControllerMessage::GetPositionResponse(id, position),
        ) == ControllerAction::<H>::Position(&host.position_response[id], position),
        host.minimized_response.contains_key(id) ==> controller_action::<H>(
            host,
            ToControllerMessage::GetMinimizedResponse(id, flag),
        ) == ControllerAction::<H>::Flag(&host.minimized_response[id], flag),
        host.maximized_response.contains_key(id) ==> controller_action::<H>(
            host,
            ToControllerMessage::GetMaximizedResponse(id, flag),
        ) == ControllerAction::<H>::Flag(&host.maximized_response[id], flag),
        host.fullscreen_response.contains_key(id) ==> controller_action::<H>(
            host,
            ToControllerMessage::GetFullscreenResponse(id, flag),
        ) == ControllerAction::<H>::Flag(&host.fullscreen_response[id], flag),
        host.visible_response.contains_key(id) ==> controller_action::<H>(
            host,
            ToControllerMessage::GetVisibleResponse(id, flag),
        ) == ControllerAction::<H>::Flag(&host.visible_response[id], flag),
        host.scale_factor_response.contains_key(id) ==> controller_action::<H>(
            host,
            ToControllerMessage::GetScaleFactorResponse(id, bits),
        ) == ControllerAction::<H>::ScaleFactor(&host.scale_factor_response[id], bits),
        host.theme_response.contains_key(id) ==> controller_action::<H>(
            host,
            ToControllerMessage::GetThemeResponse(id, theme),
        ) == ControllerAction::<H>::Theme(&host.theme_response[id], theme),
        host.get_url_response.contains_key(id) ==> controller_action::<H>(
            host,
            ToControllerMessage::GetCurrentUrlResponse(id, url),
        ) == ControllerAction::<H>::CurrentUrl(&host.get_url_response[id], url),
{
}

/// A new controller has no callback and nobody waiting: whatever the browser sends, but
/// for a second sender, calls for nothing.
pub proof fn law_new_controllers_are_idle<H: Handles>(message: ToControllerMessage<H::Sender>)
    ensures
        message is SetToVersoSender ==> controller_action::<H>(
            ControllerModel::<H>::empty(),
            message,
        ) is LateSender,
        !(message is SetToVersoSender) ==> controller_action::<H>(
            ControllerModel::<H>::empty(),
            message,
        ) is Nothing,
{
}

/// Once a question has failed, its answer would go to nobody, and whoever waits for an
/// answer of another kind under the same name still gets it.
pub proof fn law_failed_questions_are_given_up<H: Handles>(
    host: ControllerModel<H>,
    kind: QuestionKind,
    id: RequestId,
)
    ensures
        ({
            let t = without_question(host, kind, id);
            &&& t.title_response == (if kind is Title {
                host.title_response.remove(id)
            } else {
                host.title_response
            })
            &&& t.size_response == (if kind is Size {
                host.size_response.remove(id)
            } else {
                host.size_response
            })
            &&& t.position_response == (if kind is Position {
                host.position_response.remove(id)
            } else {
                host.position_response
            })
            &&& t.maximized_response == (if kind is Maximized {
                host.maximized_response.remove(id)
            } else {
                host.maximized_response
            })
            &&& t.minimized_response == (if kind is Minimized {
                host.minimized_response.remove(id)
            } else {
                host.minimized_response
            })
            &&& t.fullscreen_response == (if kind is Fullscreen {
                host.fullscreen_response.remove(id)
            } else {
                host.fullscreen_response
            })
            &&& t.visible_response == (if kind is Visible {
                host.visible_response.remove(id)
            } else {
                host.visible_response
            })
            &&& t.scale_factor_response == (if kind is ScaleFactor {
                host.scale_factor_response.remove(id)
            } else {
                host.scale_factor_response
            })
            &&& t.theme_response == (if kind is Theme {
                host.theme_response.remove(id)
            } else {
                host.theme_response
            })
            &&& t.get_url_response == (if kind is CurrentUrl {
                host.get_url_response.remove(id)
            } else {
                host.get_url_response
            })
            &&& t.on_close_requested == host.on_close_requested
            &&& t.on_navigation_starting == host.on_navigation_starting
            &&& t.on_web_resource_requested == host.on_web_resource_requested
        }),
{
}

} // verus!
