//! What holds of the browser and its host together, and of the browser over time.
use url::Url;
use vstd::prelude::*;

#[allow(unused_imports)]
use crate::controller::{
    controller_action, opening_message, sender_in, without_question, ControllerAction,
    ControllerModel, Handles, QuestionKind,
};
#[allow(unused_imports)]
use crate::ids::pipeline_named;
use crate::ids::{RequestId, WindowId};
#[allow(unused_imports)]
use crate::messages::{
    PositionType, SizeType, Theme, ToControllerMessage, ToVersoMessage, VersoviewSettings,
    WebResourceRequest, WebResourceRequestResponse, WebResponse,
};
#[allow(unused_imports)]
use crate::servo_messages::{turn_next, turn_start, ServoStep, TurnEvent};
#[allow(unused_imports)]
use crate::startup::{devtools_port, settings_in, startup_steps, StartupOptions, StartupStep};
#[allow(unused_imports)]
use crate::verso::{ShutdownState, VersoModel};
#[allow(unused_imports)]
use crate::webview_messages::{
    answer_to, tells, verso_after, webview_step, window_after, ConstellationMsg, WebviewStep,
    WindowFact, WindowQuery,
};
#[allow(unused_imports)]
use crate::window::{words, WebResourceResponseMsg, WindowModel};
#[allow(unused_imports)]
use crate::window_events::{
    after_close_report, event_start, redraw_start, winit_step, Platform, WindowEvent,
    WindowEventStep,
};

verus! {

// --------------------------------------------------------------- questions
/// A caller that asks for the title is given the title: the browser asks the
/// windowing system for it, and what that tells goes to the caller that asked.
pub proof fn law_title_is_answered<H: Handles, R>(
    host: ControllerModel<H>,
    browser: VersoModel<R>,
    window: WindowId,
    id: RequestId,
    waiter: H::TitleWaiter,
    fact: WindowFact,
)
    requires
        tells(fact, WindowQuery::Title),
    ensures
        webview_step::<R, H::Attributes, H::Sender>(
            browser,
            Some(window),
            ToVersoMessage::GetTitle(id),
        ) == (WebviewStep::<R, H::Sender>::Query { window, id, query: WindowQuery::Title }),
        controller_action::<H>(
            ControllerModel { title_response: host.title_response.insert(id, waiter), ..host },
            answer_to(id, fact),
        ) == ControllerAction::<H>::Title(&waiter, fact->Title_0),
{
}

/// A caller that asks for a size is given the size of the type that it asked for.
pub proof fn law_size_is_answered<H: Handles, R>(
    host: ControllerModel<H>,
    browser: VersoModel<R>,
    window: WindowId,
    id: RequestId,
    size_type: SizeType,
    waiter: H::SizeWaiter,
    fact: WindowFact,
)
    requires
        tells(fact, WindowQuery::Size(size_type)),
    ensures
        webview_step::<R, H::Attributes, H::Sender>(
            browser,
            Some(window),
            ToVersoMessage::GetSize(id, size_type),
        ) == (WebviewStep::<R, H::Sender>::Query {
            window,
            id,
            query: WindowQuery::Size(size_type),
        }),
        controller_action::<H>(
            ControllerModel { size_response: host.size_response.insert(id, waiter), ..host },
            answer_to(id, fact),
        ) == ControllerAction::<H>::Size(&waiter, fact->Size_0),
{
}

/// A caller that asks for a position is given the position of the type that it
/// asked for, or none where the windowing system knows none.
pub proof fn law_position_is_answered<H: Handles, R>(
    host: ControllerModel<H>,
    browser: VersoModel<R>,
    window: WindowId,
    id: RequestId,
    position_type: PositionType,
    waiter: H::PositionWaiter,
    fact: WindowFact,
)
    requires
        tells(fact, WindowQuery::Position(position_type)),
    ensures
        webview_step::<R, H::Attributes, H::Sender>(
            browser,
            Some(window),
            ToVersoMessage::GetPosition(id, position_type),
        ) == (WebviewStep::<R, H::Sender>::Query {
            window,
            id,
            query: WindowQuery::Position(position_type),
        }),
        controller_action::<H>(
            ControllerModel {
                position_response: host.position_response.insert(id, waiter),
                ..host
            },
            answer_to(id, fact),
        ) == ControllerAction::<H>::Position(&waiter, fact->Position_0),
{
}

/// A caller that asks whether the window is maximized, minimized, full-screen or
/// visible is told. Where the windowing system does not know, the window counts as
/// not minimized and as visible.
pub proof fn law_flags_are_answered<H: Handles, R>(
    host: ControllerModel<H>,
    browser: VersoModel<R>,
    window: WindowId,
    id: RequestId,
    waiter: H::FlagWaiter,
    fact: WindowFact,
)
    ensures
        webview_step::<R, H::Attributes, H::Sender>(
            browser,
            Some(window),
            ToVersoMessage::GetMaximized(id),
        ) == (WebviewStep::<R, H::Sender>::Query { window, id, query: WindowQuery::Maximized }),
        tells(fact, WindowQuery::Maximized) ==> controller_action::<H>(
            ControllerModel {
                maximized_response: host.maximized_response.insert(id, waiter),
                ..host
            },
            answer_to(id, fact),
        ) == ControllerAction::<H>::Flag(&waiter, fact->Maximized_0),
        webview_step::<R, H::Attributes, H::Sender>(
            browser,
            Some(window),
            ToVersoMessage::GetMinimized(id),
        ) == (WebviewStep::<R, H::Sender>::Query { window, id, query: WindowQuery::Minimized }),
        tells(fact, WindowQuery::Minimized) ==> controller_action::<H>(
            ControllerModel {
                minimized_response: host.minimized_response.insert(id, waiter),
                ..host
            },
            answer_to(id, fact),
        ) == ControllerAction::<H>::Flag(&waiter, fact->Minimized_0 == Some(true)),
        webview_step::<R, H::Attributes, H::Sender>(
            browser,
            Some(window),
            ToVersoMessage::GetFullscreen(id),
        ) == (WebviewStep::<R, H::Sender>::Query { window, id, query: WindowQuery::Fullscreen }),
        tells(fact, WindowQuery::Fullscreen) ==> controller_action::<H>(
            ControllerModel {
                fullscreen_response: host.fullscreen_response.insert(id, waiter),
                ..host
            },
            answer_to(id, fact),
        ) == ControllerAction::<H>::Flag(&waiter, fact->Fullscreen_0 is Some),
        webview_step::<R, H::Attributes, H::Sender>(
            browser,
            Some(window),
            ToVersoMessage::GetVisible(id),
        ) == (WebviewStep::<R, H::Sender>::Query { window, id, query: WindowQuery::Visible }),
        tells(fact, WindowQuery::Visible) ==> controller_action::<H>(
            ControllerModel { visible_response: host.visible_response.insert(id, waiter), ..host },
            answer_to(id, fact),
        ) == ControllerAction::<H>::Flag(&waiter, fact->Visible_0 != Some(false)),
{
}

/// A caller that asks for the scale factor is given it, bit for bit.
pub proof fn law_scale_factor_is_answered<H: Handles, R>(
    host: ControllerModel<H>,
    browser: VersoModel<R>,
    window: WindowId,
    id: RequestId,
    waiter: H::ScaleFactorWaiter,
    fact: WindowFact,
)
    requires
        tells(fact, WindowQuery::ScaleFactor),
    ensures
        webview_step::<R, H::Attributes, H::Sender>(
            browser,
            Some(window),
            ToVersoMessage::GetScaleFactor(id),
        ) == (WebviewStep::<R, H::Sender>::Query { window, id, query: WindowQuery::ScaleFactor }),
        controller_action::<H>(
            ControllerModel {
                scale_factor_response: host.scale_factor_response.insert(id, waiter),
                ..host
            },
            answer_to(id, fact),
        ) == ControllerAction::<H>::ScaleFactor(&waiter, fact->ScaleFactor_0),
{
}

/// A caller that asks for the theme is told dark if the window is known to be, and
/// else light.
pub proof fn law_theme_is_answered<H: Handles, R>(
    host: ControllerModel<H>,
    browser: VersoModel<R>,
    window: WindowId,
    id: RequestId,
    waiter: H::ThemeWaiter,
    fact: WindowFact,
)
    requires
        tells(fact, WindowQuery::Theme),
    ensures
        webview_step::<R, H::Attributes, H::Sender>(
            browser,
            Some(window),
            ToVersoMessage::GetTheme(id),
        ) == (WebviewStep::<R, H::Sender>::Query { window, id, query: WindowQuery::Theme }),
        controller_action::<H>(
            ControllerModel { theme_response: host.theme_response.insert(id, waiter), ..host },
            answer_to(id, fact),
        ) == ControllerAction::<H>::Theme(
            &waiter,
            if fact->Theme_0 == Some(Theme::Dark) {
                Theme::Dark
            } else {
                Theme::Light
            },
        ),
{
}

/// A caller that asks for the address is given the one that the window shows.
pub proof fn law_url_is_answered<H: Handles, R>(
    host: ControllerModel<H>,
    browser: VersoModel<R>,
    window: WindowId,
    id: RequestId,
    waiter: H::UrlWaiter,
)
    requires
        browser.windows.contains_key(window),
        browser.windows[window].shows_address(),
    ensures
        ({
            let step = webview_step::<R, H::Attributes, H::Sender>(
                browser,
                Some(window),
                ToVersoMessage::GetCurrentUrl(id),
            );
            &&& step is Controller
            &&& controller_action::<H>(
                ControllerModel {
                    get_url_response: host.get_url_response.insert(id, waiter),
                    ..host
                },
                step->Controller_0,
            ) == ControllerAction::<H>::CurrentUrl(&waiter, browser.windows[window].address())
        }),
{
}

/// The name that an answer carries.
pub open spec fn answered_id<S>(message: ToControllerMessage<S>) -> Option<RequestId> {
    match message {
        ToControllerMessage::GetTitleResponse(id, _)
        | ToControllerMessage::GetSizeResponse(id, _)
        | ToControllerMessage::GetPositionResponse(id, _)
        | ToControllerMessage::GetMinimizedResponse(id, _)
        | ToControllerMessage::GetMaximizedResponse(id, _)
        | ToControllerMessage::GetFullscreenResponse(id, _)
        | ToControllerMessage::GetVisibleResponse(id, _)
        | ToControllerMessage::GetScaleFactorResponse(id, _)
        | ToControllerMessage::GetThemeResponse(id, _)
        | ToControllerMessage::GetCurrentUrlResponse(id, _) => Some(id),
        _ => None,
    }
}

/// Two hosts that differ at most in who waits for answers named `id`.
pub open spec fn same_but_for<H: Handles>(
    a: ControllerModel<H>,
    b: ControllerModel<H>,
    id: RequestId,
) -> bool {
    &&& a.on_close_requested == b.on_close_requested
    &&& a.on_navigation_starting == b.on_navigation_starting
    &&& a.on_web_resource_requested == b.on_web_resource_requested
    &&& a.title_response.remove(id) == b.title_response.remove(id)
    &&& a.size_response.remove(id) == b.size_response.remove(id)
    &&& a.position_response.remove(id) == b.position_response.remove(id)
    &&& a.maximized_response.remove(id) == b.maximized_response.remove(id)
    &&& a.minimized_response.remove(id) == b.minimized_response.remove(id)
    &&& a.fullscreen_response.remove(id) == b.fullscreen_response.remove(id)
    &&& a.visible_response.remove(id) == b.visible_response.remove(id)
    &&& a.scale_factor_response.remove(id) == b.scale_factor_response.remove(id)
    &&& a.theme_response.remove(id) == b.theme_response.remove(id)
    &&& a.get_url_response.remove(id) == b.get_url_response.remove(id)
}

/// A question does not disturb what is done about any message but its own answer.
pub proof fn law_questions_do_not_interfere<H: Handles>(
    before: ControllerModel<H>,
    asked: ControllerModel<H>,
    id: RequestId,
    message: ToControllerMessage<H::Sender>,
)
    requires
        same_but_for(before, asked, id),
        answered_id(message) != Some(id),
    ensures
        controller_action::<H>(asked, message) == controller_action::<H>(before, message),
{
    if let Some(m) = answered_id(message) {
        lemma_agree(before.title_response, asked.title_response, id, m);
        lemma_agree(before.size_response, asked.size_response, id, m);
        lemma_agree(before.position_response, asked.position_response, id, m);
        lemma_agree(before.maximized_response, asked.maximized_response, id, m);
        lemma_agree(before.minimized_response, asked.minimized_response, id, m);
        lemma_agree(before.fullscreen_response, asked.fullscreen_response, id, m);
        lemma_agree(before.visible_response, asked.visible_response, id, m);
        lemma_agree(before.scale_factor_response, asked.scale_factor_response, id, m);
        lemma_agree(before.theme_response, asked.theme_response, id, m);
        lemma_agree(before.get_url_response, asked.get_url_response, id, m);
    }
}

/// Maps that agree without `id` agree at every other key.
proof fn lemma_agree<V>(a: Map<RequestId, V>, b: Map<RequestId, V>, id: RequestId, key: RequestId)
    requires
        a.remove(id) == b.remove(id),
        key != id,
    ensures
        a.contains_key(key) == b.contains_key(key),
        a.contains_key(key) ==> a[key] == b[key],
{
    assert(a.remove(id).contains_key(key) == a.contains_key(key));
    assert(b.remove(id).contains_key(key) == b.contains_key(key));
    if a.contains_key(key) {
        assert(a.remove(id)[key] == a[key]);
        assert(b.remove(id)[key] == b[key]);
    }
}

/// A question that could not be sent leaves no trace: asking it and then hearing that it
/// failed leave the host as it was, if nobody waited for an answer of its kind under its
/// name before.
pub proof fn law_unsent_question_leaves_no_trace<H: Handles>(
    host: ControllerModel<H>,
    id: RequestId,
    title: H::TitleWaiter,
    size: H::SizeWaiter,
    position: H::PositionWaiter,
    flag: H::FlagWaiter,
    scale_factor: H::ScaleFactorWaiter,
    theme: H::ThemeWaiter,
    url: H::UrlWaiter,
)
    ensures
        !host.title_response.contains_key(id) ==> without_question(
            ControllerModel { title_response: host.title_response.insert(id, title), ..host },
            QuestionKind::Title,
            id,
        ) == host,
        !host.size_response.contains_key(id) ==> without_question(
            ControllerModel { size_response: host.size_response.insert(id, size), ..host },
            QuestionKind::Size,
            id,
        ) == host,
        !host.position_response.contains_key(id) ==> without_question(
            ControllerModel {
                position_response: host.position_response.insert(id, position),
                ..host
            },
            QuestionKind::Position,
            id,
        ) == host,
        !host.maximized_response.contains_key(id) ==> without_question(
            ControllerModel {
                maximized_response: host.maximized_response.insert(id, flag),
                ..host
            },
            QuestionKind::Maximized,
            id,
        ) == host,
        !host.minimized_response.contains_key(id) ==> without_question(
            ControllerModel {
                minimized_response: host.minimized_response.insert(id, flag),
                ..host
            },
            QuestionKind::Minimized,
            id,
        ) == host,
        !host.fullscreen_response.contains_key(id) ==> without_question(
            ControllerModel {
                fullscreen_response: host.fullscreen_response.insert(id, flag),
                ..host
            },
            QuestionKind::Fullscreen,
            id,
        ) == host,
        !host.visible_response.contains_key(id) ==> without_question(
            ControllerModel { visible_response: host.visible_response.insert(id, flag), ..host },
            QuestionKind::Visible,
            id,
        ) == host,
        !host.scale_factor_response.contains_key(id) ==> without_question(
            ControllerModel {
                scale_factor_response: host.scale_factor_response.insert(id, scale_factor),
                ..host
            },
            QuestionKind::ScaleFactor,
            id,
        ) == host,
        !host.theme_response.contains_key(id) ==> without_question(
            ControllerModel { theme_response: host.theme_response.insert(id, theme), ..host },
            QuestionKind::Theme,
            id,
        ) == host,
        !host.get_url_response.contains_key(id) ==> without_question(
            ControllerModel { get_url_response: host.get_url_response.insert(id, url), ..host },
            QuestionKind::CurrentUrl,
            id,
        ) == host,
{
    lemma_insert_remove(host.title_response, id, title);
    lemma_insert_remove(host.size_response, id, size);
    lemma_insert_remove(host.position_response, id, position);
    lemma_insert_remove(host.maximized_response, id, flag);
    lemma_insert_remove(host.minimized_response, id, flag);
    lemma_insert_remove(host.fullscreen_response, id, flag);
    lemma_insert_remove(host.visible_response, id, flag);
    lemma_insert_remove(host.scale_factor_response, id, scale_factor);
    lemma_insert_remove(host.theme_response, id, theme);
    lemma_insert_remove(host.get_url_response, id, url);
}

/// What is inserted under a new name and removed again is as if it had never been.
proof fn lemma_insert_remove<V>(m: Map<RequestId, V>, id: RequestId, value: V)
    ensures
        !m.contains_key(id) ==> m.insert(id, value).remove(id) == m,
{
    assert(!m.contains_key(id) ==> m.insert(id, value).remove(id) =~= m);
}

/// The failure of a question disturbs what is done about no message but its own answer.
pub proof fn law_failed_questions_do_not_interfere<H: Handles>(
    host: ControllerModel<H>,
    kind: QuestionKind,
    id: RequestId,
    message: ToControllerMessage<H::Sender>,
)
    requires
        answered_id(message) != Some(id),
    ensures
        controller_action::<H>(without_question(host, kind, id), message) == controller_action::<H>(
            host,
            message,
        ),
{
}

/// Asking touches nobody who waits under another name, whatever is asked.
pub proof fn law_asking_touches_one_name<H: Handles>(
    host: ControllerModel<H>,
    id: RequestId,
    title: H::TitleWaiter,
    size: H::SizeWaiter,
    position: H::PositionWaiter,
    flag: H::FlagWaiter,
    scale_factor: H::ScaleFactorWaiter,
    theme: H::ThemeWaiter,
    url: H::UrlWaiter,
)
    ensures
        same_but_for(
            host,
            ControllerModel { title_response: host.title_response.insert(id, title), ..host },
            id,
        ),
        same_but_for(
            host,
            ControllerModel { size_response: host.size_response.insert(id, size), ..host },
            id,
        ),
        same_but_for(
            host,
            ControllerModel {
                position_response: host.position_response.insert(id, position),
                ..host
            },
            id,
        ),
        same_but_for(
            host,
            ControllerModel {
                maximized_response: host.maximized_response.insert(id, flag),
                ..host
            },
            id,
        ),
        same_but_for(
            host,
            ControllerModel {
                minimized_response: host.minimized_response.insert(id, flag),
                ..host
            },
            id,
        ),
        same_but_for(
            host,
            ControllerModel {
                fullscreen_response: host.fullscreen_response.insert(id, flag),
                ..host
            },
            id,
        ),
        same_but_for(
            host,
            ControllerModel { visible_response: host.visible_response.insert(id, flag), ..host },
            id,
        ),
        same_but_for(
            host,
            ControllerModel {
                scale_factor_response: host.scale_factor_response.insert(id, scale_factor),
                ..host
            },
            id,
        ),
        same_but_for(
            host,
            ControllerModel { theme_response: host.theme_response.insert(id, theme), ..host },
            id,
        ),
        same_but_for(
            host,
            ControllerModel { get_url_response: host.get_url_response.insert(id, url), ..host },
            id,
        ),
{
    assert(host.title_response.insert(id, title).remove(id) =~= host.title_response.remove(id));
    assert(host.size_response.insert(id, size).remove(id) =~= host.size_response.remove(id));
    assert(host.position_response.insert(id, position).remove(id)
        =~= host.position_response.remove(id));
    assert(host.maximized_response.insert(id, flag).remove(id)
        =~= host.maximized_response.remove(id));
    assert(host.minimized_response.insert(id, flag).remove(id)
        =~= host.minimized_response.remove(id));
    assert(host.fullscreen_response.insert(id, flag).remove(id)
        =~= host.fullscreen_response.remove(id));
    assert(host.visible_response.insert(id, flag).remove(id) =~= host.visible_response.remove(id));
    assert(host.scale_factor_response.insert(id, scale_factor).remove(id)
        =~= host.scale_factor_response.remove(id));
    assert(host.theme_response.insert(id, theme).remove(id) =~= host.theme_response.remove(id));
    assert(host.get_url_response.insert(id, url).remove(id) =~= host.get_url_response.remove(id));
}

// --------------------------------------------------------------- set-up
/// Host and browser come together: each takes the other's first message, the host
/// gets the sender, and the browser the address that the host was given and the
/// attributes of its settings, whatever address those held.
pub proof fn law_first_messages_are_taken<S, A>(
    sender: S,
    initial_url: Url,
    settings: VersoviewSettings<A>,
)
    ensures
        sender_in(ToControllerMessage::SetToVersoSender(sender)) == Some(sender),
        settings_in(opening_message(initial_url, settings)) == Some(
            (VersoviewSettings { url: Some(initial_url), attributes: settings.attributes }),
        ),
{
}

/// Once they have come together, neither takes such a message again: it is
/// reported, and nothing changes.
pub proof fn law_late_first_messages_are_refused<H: Handles, R>(
    host: ControllerModel<H>,
    browser: VersoModel<R>,
    first: Option<WindowId>,
    settings: VersoviewSettings<H::Attributes>,
    sender: H::Sender,
)
    requires
        browser.may_come_first(first),
    ensures
        webview_step::<R, H::Attributes, H::Sender>(
            browser,
            first,
            ToVersoMessage::SetConfig(settings),
        ) is LateConfig,
        verso_after(browser, first, ToVersoMessage::SetConfig(settings)) == browser,
        controller_action::<H>(host, ToControllerMessage::SetToVersoSender(sender)) is LateSender,
{
    if let Some(w) = first {
        assert(browser.windows.insert(w, browser.windows[w]) =~= browser.windows);
    }
}

// --------------------------------------------------------------- listening
/// The message makes the browser listen on the host's behalf, or lets it hear the
/// host's word on a request.
pub open spec fn changes_listeners<A>(message: ToVersoMessage<A>) -> bool {
    ||| message is ListenToOnCloseRequested
    ||| message is ListenToOnNavigationStarting
    ||| message is ListenToWebResourceRequests
    ||| message is WebResourceRequestResponse
}

/// No other message changes anything in the shell.
pub proof fn law_only_listening_changes_the_shell<R, A>(
    s: VersoModel<R>,
    first: Option<WindowId>,
    message: ToVersoMessage<A>,
)
    requires
        s.may_come_first(first),
        !changes_listeners(message),
    ensures
        verso_after(s, first, message) == s,
{
    if let Some(w) = first {
        assert(s.windows.insert(w, s.windows[w]) =~= s.windows);
    }
}

/// No message changes a window but the first, nor which windows there are, nor what
/// a window shows.
pub proof fn law_messages_keep_to_the_first_window<R, A>(
    s: VersoModel<R>,
    first: Option<WindowId>,
    message: ToVersoMessage<A>,
    other: WindowId,
)
    requires
        s.may_come_first(first),
    ensures
        ({
            let t = verso_after(s, first, message);
            &&& t.windows.dom() == s.windows.dom()
            &&& t.documents == s.documents
            &&& t.compositor == s.compositor
            &&& t.has_controller == s.has_controller
            &&& t.url == s.url
            &&& first != Some(other) && s.windows.contains_key(other) ==> t.windows[other]
                == s.windows[other]
            &&& s.windows.contains_key(other) ==> t.windows[other].webviews
                == s.windows[other].webviews && t.windows[other].current_tab
                == s.windows[other].current_tab
        }),
{
    let t = verso_after(s, first, message);
    assert(t.windows.dom() =~= s.windows.dom());
}

/// Once the host listens to close requests on a window, the browser does not close
/// it by itself, wherever window events are handled: the request is reported to the
/// host, and if the report gets through nothing is shut down. If it does not get
/// through, the compositor is shut down after all.
pub proof fn law_close_requests_go_to_the_host<R, A>(
    s: VersoModel<R>,
    window: WindowId,
    platform: Platform,
)
    requires
        s.windows.contains_key(window),
        s.compositor is Some,
        s.has_controller,
        platform != Platform::Other,
    ensures
        event_start(
            verso_after(s, Some(window), ToVersoMessage::<A>::ListenToOnCloseRequested),
            platform,
            window,
            WindowEvent::CloseRequested,
        ) == WindowEventStep::ReportCloseRequest,
        after_close_report(platform, true) != WindowEventStep::StartShuttingDown,
        after_close_report(platform, false) == WindowEventStep::StartShuttingDown,
{
}

/// A close request on a window shuts the compositor down if there is no host, or if
/// the host does not listen to close requests on that window.
pub proof fn law_unheard_close_requests_shut_down<R>(
    s: VersoModel<R>,
    window: WindowId,
    platform: Platform,
)
    requires
        s.windows.contains_key(window),
        s.compositor is Some,
        !(s.has_controller && s.windows[window].on_close_requested),
        platform != Platform::Other,
    ensures
        event_start(s, platform, window, WindowEvent::CloseRequested)
            == WindowEventStep::StartShuttingDown,
{
}

/// The host goes on listening: once it listens to close requests, to navigations or
/// to resource requests on a window, no message ends that.
pub proof fn law_listening_lasts<R, A>(w: WindowModel<R>, message: ToVersoMessage<A>)
    ensures
        w.on_close_requested ==> window_after(w, message).on_close_requested,
        w.on_navigation_starting ==> window_after(w, message).on_navigation_starting,
        w.on_web_resource_requested is Some ==> window_after(
            w,
            message,
        ).on_web_resource_requested is Some,
{
}

/// Of the callbacks that were registered, the last one is called.
pub proof fn law_last_callback_is_called<H: Handles>(
    host: ControllerModel<H>,
    close: H::CloseCallback,
    navigation: H::NavigationCallback,
    web_resource: H::WebResourceCallback,
    id: Vec<u8>,
    url: Url,
    request: WebResourceRequest,
)
    ensures
        controller_action::<H>(
            ControllerModel { on_close_requested: Some(close), ..host },
            ToControllerMessage::OnCloseRequested,
        ) == ControllerAction::<H>::CloseRequested(&close),
        controller_action::<H>(
            ControllerModel { on_navigation_starting: Some(navigation), ..host },
            ToControllerMessage::OnNavigationStarting(id, url),
        ) == ControllerAction::<H>::NavigationStarting(&navigation, id, url),
        controller_action::<H>(
            ControllerModel { on_web_resource_requested: Some(web_resource), ..host },
            ToControllerMessage::OnWebResourceRequested(request),
        ) == ControllerAction::<H>::WebResourceRequested(
            &web_resource,
            request.id,
            request.request,
        ),
{
}

/// The callback's word on a navigation reaches the pipeline that asked: the bytes
/// that name it go to the host and back unchanged.
pub proof fn law_navigation_word_reaches_the_pipeline<H: Handles, R>(
    host: ControllerModel<H>,
    browser: VersoModel<R>,
    first: Option<WindowId>,
    id: Vec<u8>,
    url: Url,
    allow: bool,
)
    requires
        host.on_navigation_starting is Some,
    ensures
        ({
            let action = controller_action::<H>(
                host,
                ToControllerMessage::OnNavigationStarting(id, url),
            );
            &&& action is NavigationStarting
            &&& action->NavigationStarting_1 == id
            &&& action->NavigationStarting_2 == url
        }),
        webview_step::<R, H::Attributes, H::Sender>(
            browser,
            first,
            ToVersoMessage::OnNavigationStartingResponse(id, allow),
        ) == WebviewStep::<R, H::Sender>::Constellation(
            ConstellationMsg::AllowNavigationResponse(pipeline_named(id@), allow),
        ),
{
}

// --------------------------------------------------------------- interception
/// The host's word on a request reaches the engine, on the sender that came with
/// the request: a response as start, body and end, with the address of the request;
/// no response as one word to go on.
pub proof fn law_word_on_request_reaches_the_engine<R, A, S>(
    s: VersoModel<R>,
    window: WindowId,
    id: RequestId,
    url: Url,
    sender: R,
    word: Option<WebResponse>,
)
    requires
        s.windows.contains_key(window),
        s.windows[window].on_web_resource_requested matches Some(pending) && pending.contains_key(
            id,
        ) && pending[id] == (url, sender),
    ensures
        ({
            let step = webview_step::<R, A, S>(
                s,
                Some(window),
                ToVersoMessage::WebResourceRequestResponse(
                    (WebResourceRequestResponse { id, response: word }),
                ),
            );
            &&& step is Reply
            &&& step->sender == sender
            &&& words(step->reply) == (match word {
                Some(response) => seq![
                    WebResourceResponseMsg::Start {
                        url,
                        headers: response.headers,
                        status: response.status,
                    },
                    WebResourceResponseMsg::SendBodyData(response.body),
                    WebResourceResponseMsg::FinishLoad,
                ],
                None => seq![WebResourceResponseMsg::DoNotIntercept],
            })
        }),
{
}

/// The host has one word on a request: a second one is not passed on, nor is one on
/// a request that never was put before it.
pub proof fn law_one_word_on_a_request<R, A, S>(
    s: VersoModel<R>,
    window: WindowId,
    first_word: WebResourceRequestResponse,
    second_word: WebResourceRequestResponse,
)
    requires
        s.windows.contains_key(window),
        first_word.id == second_word.id,
    ensures
        webview_step::<R, A, S>(
            verso_after(
                s,
                Some(window),
                ToVersoMessage::<A>::WebResourceRequestResponse(first_word),
            ),
            Some(window),
            ToVersoMessage::WebResourceRequestResponse(second_word),
        ) is Nothing,
        !s.windows[window].waits_for(first_word.id) ==> webview_step::<R, A, S>(
            s,
            Some(window),
            ToVersoMessage::WebResourceRequestResponse(first_word),
        ) is Nothing,
{
}

/// A word on one request leaves the others waiting.
pub proof fn law_other_requests_keep_waiting<R, A>(
    w: WindowModel<R>,
    word: WebResourceRequestResponse,
    other: RequestId,
)
    requires
        other != word.id,
    ensures
        ({
            let after = window_after(w, ToVersoMessage::<A>::WebResourceRequestResponse(word));
            &&& after.waits_for(other) == w.waits_for(other)
            &&& w.waits_for(other) ==> after.on_web_resource_requested->0[other]
                == w.on_web_resource_requested->0[other]
        }),
{
}

/// Asked to listen to requests anew, the browser forgets those that waited.
pub proof fn law_listening_anew_forgets<R, A>(w: WindowModel<R>, id: RequestId)
    ensures
        !window_after(w, ToVersoMessage::<A>::ListenToWebResourceRequests).waits_for(id),
{
}

// --------------------------------------------------------------- no window, no compositor
/// With no window, a message makes the browser shut down or answers a navigation
/// question or is refused as late, and else does nothing. The shell stays as it is.
pub proof fn law_without_windows<R, A, S>(s: VersoModel<R>, message: ToVersoMessage<A>)
    ensures
        !(message is Exit || message is OnNavigationStartingResponse || message is SetConfig)
            ==> webview_step::<R, A, S>(s, None, message) is Nothing,
        verso_after(s, None, message) == s,
{
}

/// Once the compositor is gone it stays gone and nothing is asked of it: no message
/// of the host brings it back or shuts it down, window events are passed over,
/// nothing is redrawn, and a turn ends before it begins.
pub proof fn law_gone_for_good<R, A, S>(
    s: VersoModel<R>,
    first: Option<WindowId>,
    message: ToVersoMessage<A>,
    window: WindowId,
    event: WindowEvent,
)
    requires
        s.compositor is None,
    ensures
        verso_after(s, first, message).compositor is None,
        !(webview_step::<R, A, S>(s, first, message) is StartShuttingDown),
        winit_step(s, window, event) is None,
        redraw_start(s) is Nothing,
        turn_start(s) is NoCompositor,
{
}

/// The host's exit, and the loss of the host, shut the browser down as long as there
/// is something to shut down.
pub proof fn law_exit_shuts_down<R, A, S>(s: VersoModel<R>, first: Option<WindowId>)
    requires
        s.compositor is Some,
    ensures
        webview_step::<R, A, S>(s, first, ToVersoMessage::Exit) is StartShuttingDown,
{
}

// --------------------------------------------------------------- turns
/// `u` differs from `s` at most in what is in the windows: there are the same ones,
/// and everything else is the same.
pub open spec fn same_but_for_windows<R>(s: VersoModel<R>, u: VersoModel<R>) -> bool {
    &&& u.windows.dom() == s.windows.dom()
    &&& u.documents == s.documents
    &&& u.compositor == s.compositor
    &&& u.has_controller == s.has_controller
    &&& u.url == s.url
}

/// In the state `s`, `event` comes of `step`, and leads to `t` and `next`. What is in
/// the windows may change before it does: they are refreshed, and the engine works on
/// them.
pub open spec fn turn_goes_on<R>(
    s: VersoModel<R>,
    step: ServoStep,
    event: TurnEvent<R>,
    t: VersoModel<R>,
    next: ServoStep,
) -> bool {
    exists|u: VersoModel<R>|
        same_but_for_windows(s, u) && #[trigger] turn_next(u, step, event, t, next)
}

/// `states`, `steps` and `events` make up a turn, or the beginning of one: each
/// event comes of the step before it and leads to the next.
pub open spec fn is_turn<R>(
    states: Seq<VersoModel<R>>,
    steps: Seq<ServoStep>,
    events: Seq<TurnEvent<R>>,
) -> bool {
    &&& states.len() == events.len() + 1
    &&& steps.len() == events.len() + 1
    &&& states[0].compositor is Some
    &&& steps[0] == turn_start(states[0])
    &&& forall|i: int|
        #![trigger events[i]]
        0 <= i < events.len() ==> turn_goes_on(
            states[i],
            steps[i],
            events[i],
            states[i + 1],
            steps[i + 1],
        )
}

/// A step on behalf of a window is on behalf of one that there is.
pub open spec fn step_has_its_window<R>(s: VersoModel<R>, step: ServoStep) -> bool {
    match step {
        ServoStep::DeliverToWindow { window, .. } => s.windows.contains_key(window),
        ServoStep::OpenWindow { opener, .. } => s.windows.contains_key(opener),
        ServoStep::RequestRedraw(window) => s.windows.contains_key(window),
        _ => true,
    }
}

/// All windows show one document, at every moment of a turn in which they did so
/// at first: a new window shows the document of the window that wanted it. The window
/// that a step is about is there when the step is taken.
pub proof fn law_windows_share_a_document<R>(
    states: Seq<VersoModel<R>>,
    steps: Seq<ServoStep>,
    events: Seq<TurnEvent<R>>,
    i: int,
)
    requires
        is_turn(states, steps, events),
        states[0].well_formed(),
        0 <= i < states.len(),
    ensures
        states[i].well_formed(),
        step_has_its_window(states[i], steps[i]),
    decreases i,
{
    if i > 0 {
        law_windows_share_a_document(states, steps, events, i - 1);
        let (s, step, event, t, next) = (
            states[i - 1],
            steps[i - 1],
            events[i - 1],
            states[i],
            steps[i],
        );
        assert(turn_goes_on(s, step, event, t, next));
        let u = choose|u: VersoModel<R>|
            same_but_for_windows(s, u) && #[trigger] turn_next(u, step, event, t, next);
        lemma_step_keeps_document(u, step, event, t, next);
    }
}

proof fn lemma_step_keeps_document<R>(
    s: VersoModel<R>,
    step: ServoStep,
    event: TurnEvent<R>,
    t: VersoModel<R>,
    next: ServoStep,
)
    requires
        turn_next(s, step, event, t, next),
        s.well_formed(),
        step_has_its_window(s, step),
    ensures
        t.well_formed(),
        step_has_its_window(t, next),
{
    assert(t.windows.dom() =~= t.documents.dom());
    assert forall|a: WindowId, b: WindowId|
        #![trigger t.documents[a], t.documents[b]]
        t.documents.contains_key(a) && t.documents.contains_key(b) implies t.documents[a]
        == t.documents[b] by {
        let _ = (s.documents[a], s.documents[b]);
    }
}

/// A step has no effect of its own on a window: every window after it was there
/// before it, as it is, or is the one that the step opened. Nor does it change whom the
/// browser reports to, or the address that new windows open.
pub proof fn law_steps_keep_windows_as_they_are<R>(
    s: VersoModel<R>,
    step: ServoStep,
    event: TurnEvent<R>,
    t: VersoModel<R>,
    next: ServoStep,
    window: WindowId,
)
    requires
        turn_next(s, step, event, t, next),
        t.windows.contains_key(window),
    ensures
        (s.windows.contains_key(window) && t.windows[window] == s.windows[window]) || (
        event matches TurnEvent::Opened { id, .. } && id == window),
        t.has_controller == s.has_controller,
        t.url == s.url,
{
}

/// As long as a turn goes on the compositor is there, and it is gone after a step if and
/// only if the turn then leaves the event loop. It leaves only when the compositor has
/// finished shutting down, as last heard of it.
pub proof fn law_exit_when_shut_down<R>(
    s: VersoModel<R>,
    step: ServoStep,
    event: TurnEvent<R>,
    t: VersoModel<R>,
    next: ServoStep,
)
    requires
        turn_next(s, step, event, t, next),
        s.compositor is Some,
    ensures
        t.compositor is None <==> next is Exit,
        next is Exit ==> ({
            let status = match event {
                TurnEvent::Reported { status, .. } => status,
                TurnEvent::Observed(status) => status,
                _ => s.compositor->0,
            };
            status.shutdown_state == ShutdownState::FinishedShuttingDown
        }),
        next is SetControlFlow ==> t.compositor->0.shutdown_state
            != ShutdownState::FinishedShuttingDown,
{
}

/// Once the compositor has finished shutting down, no message of the engine is taken:
/// one is looked for only while the compositor has not finished.
pub proof fn law_no_messages_after_shutdown<R>(
    s: VersoModel<R>,
    step: ServoStep,
    event: TurnEvent<R>,
    t: VersoModel<R>,
    next: ServoStep,
)
    requires
        turn_next(s, step, event, t, next),
        next is PollEmbedder,
    ensures
        t.compositor->0.shutdown_state != ShutdownState::FinishedShuttingDown,
{
}

/// How far a turn has come: the messages, the updates, what follows them, the end.
pub open spec fn stage(step: ServoStep) -> int {
    match step {
        ServoStep::PerformUpdates => 1,
        ServoStep::RequestRedraw(_) => 2,
        ServoStep::StartShuttingDown => 3,
        ServoStep::NoCompositor | ServoStep::Exit | ServoStep::SetControlFlow(_) => 4,
        _ => 0,
    }
}

/// A turn goes forward: it does not come back to an earlier stage, it passes the
/// updates between the messages and the rest, and once past the messages every step
/// brings it further.
pub proof fn law_turns_go_forward<R>(
    s: VersoModel<R>,
    step: ServoStep,
    event: TurnEvent<R>,
    t: VersoModel<R>,
    next: ServoStep,
)
    requires
        turn_next(s, step, event, t, next),
    ensures
        stage(step) == 0 ==> stage(next) <= 1,
        stage(step) > 0 ==> stage(next) > stage(step),
{
}

/// A turn that has come to its end has performed the updates exactly once.
pub proof fn law_one_update_per_turn<R>(
    states: Seq<VersoModel<R>>,
    steps: Seq<ServoStep>,
    events: Seq<TurnEvent<R>>,
)
    requires
        is_turn(states, steps, events),
        stage(steps.last()) == 4,
    ensures
        exists|i: int| 0 <= i < steps.len() && #[trigger] steps[i] is PerformUpdates,
        forall|i: int, j: int|
            0 <= i < steps.len() && 0 <= j < steps.len() && #[trigger] steps[i] is PerformUpdates
                && #[trigger] steps[j] is PerformUpdates ==> i == j,
{
    lemma_updates_passed(states, steps, events, steps.len() - 1);
    assert forall|i: int, j: int|
        0 <= i < steps.len() && 0 <= j < steps.len() && #[trigger] steps[i] is PerformUpdates
            && #[trigger] steps[j] is PerformUpdates implies i == j by {
        if i < j {
            lemma_stages_increase(states, steps, events, i, j);
        } else if j < i {
            lemma_stages_increase(states, steps, events, j, i);
        }
    }
}

/// Past the stage of the updates, they have been performed.
proof fn lemma_updates_passed<R>(
    states: Seq<VersoModel<R>>,
    steps: Seq<ServoStep>,
    events: Seq<TurnEvent<R>>,
    i: int,
)
    requires
        is_turn(states, steps, events),
        0 <= i < steps.len(),
        stage(steps[i]) >= 1,
    ensures
        exists|k: int| 0 <= k < steps.len() && #[trigger] steps[k] is PerformUpdates,
    decreases i,
{
    if stage(steps[i]) == 1 {
        assert(steps[i] is PerformUpdates);
    } else {
        let (step, event, t, next) = (steps[i - 1], events[i - 1], states[i], steps[i]);
        assert(turn_goes_on(states[i - 1], step, event, t, next));
        let u = choose|u: VersoModel<R>|
            same_but_for_windows(states[i - 1], u) && #[trigger] turn_next(u, step, event, t, next);
        law_turns_go_forward(u, step, event, t, next);
        lemma_updates_passed(states, steps, events, i - 1);
    }
}

/// Past the messages, later steps are of later stages.
proof fn lemma_stages_increase<R>(
    states: Seq<VersoModel<R>>,
    steps: Seq<ServoStep>,
    events: Seq<TurnEvent<R>>,
    i: int,
    j: int,
)
    requires
        is_turn(states, steps, events),
        0 <= i < j < steps.len(),
        stage(steps[i]) >= 1,
    ensures
        stage(steps[i]) < stage(steps[j]),
    decreases j,
{
    if i < j - 1 {
        lemma_stages_increase(states, steps, events, i, j - 1);
    }
    let (step, event, t, next) = (steps[j - 1], events[j - 1], states[j], steps[j]);
    assert(turn_goes_on(states[j - 1], step, event, t, next));
    let u = choose|u: VersoModel<R>|
        same_but_for_windows(states[j - 1], u) && #[trigger] turn_next(u, step, event, t, next);
    law_turns_go_forward(u, step, event, t, next);
}

// --------------------------------------------------------------- start-up
/// The steps that `wanted` picks stand at `at` and nowhere else.
pub open spec fn only_at(
    steps: Seq<StartupStep>,
    wanted: spec_fn(StartupStep) -> bool,
    at: int,
) -> bool {
    &&& 0 <= at < steps.len()
    &&& wanted(steps[at])
    &&& forall|i: int| 0 <= i < steps.len() && wanted(#[trigger] steps[i]) ==> i == at
}

/// Exactly one of the steps is one that `wanted` picks.
pub open spec fn once(steps: Seq<StartupStep>, wanted: spec_fn(StartupStep) -> bool) -> bool {
    exists|at: int| only_at(steps, wanted, at)
}

/// None of the steps is one that `wanted` picks.
pub open spec fn never(steps: Seq<StartupStep>, wanted: spec_fn(StartupStep) -> bool) -> bool {
    forall|i: int| 0 <= i < steps.len() ==> !wanted(#[trigger] steps[i])
}

/// Each of the profilers, the renderer, Bluetooth, the resource threads, the font
/// cache, the canvas thread and the constellation is started exactly once, whatever the
/// options say. The devtools server, the webdriver server and the script engine are
/// started exactly once if the preference is set, a port is given, and there is one
/// process, and else never. The port of the devtools server is the one that the
/// preference gives, that of the webdriver server the one that is given.
pub proof fn law_threads_started(options: StartupOptions)
    ensures
        ({
            let steps = startup_steps(options);
            &&& once(steps, |s: StartupStep| s is StartTimeProfiler)
            &&& once(steps, |s: StartupStep| s is StartMemoryProfiler)
            &&& once(steps, |s: StartupStep| s is StartWebrender)
            &&& once(steps, |s: StartupStep| s is StartBluetooth)
            &&& once(steps, |s: StartupStep| s is StartResourceThreads)
            &&& once(steps, |s: StartupStep| s is StartFontCache)
            &&& once(steps, |s: StartupStep| s is StartCanvas)
            &&& once(steps, |s: StartupStep| s is StartConstellation)
            &&& if options.devtools_server_enabled {
                &&& once(steps, |s: StartupStep| s is StartDevtools)
                &&& steps.contains(
                    StartupStep::StartDevtools(devtools_port(options.devtools_server_port)),
                )
            } else {
                never(steps, |s: StartupStep| s is StartDevtools)
            }
            &&& match options.webdriver_port {
                Some(port) => {
                    &&& once(steps, |s: StartupStep| s is StartWebdriver)
                    &&& steps.contains(StartupStep::StartWebdriver(port))
                },
                None => never(steps, |s: StartupStep| s is StartWebdriver),
            }
            &&& if options.multiprocess {
                never(steps, |s: StartupStep| s is InitScriptEngine)
            } else {
                once(steps, |s: StartupStep| s is InitScriptEngine)
            }
        }),
{
    let steps = startup_steps(options);
    let d: int = if options.devtools_server_enabled { 1 } else { 0 };
    let j: int = if options.multiprocess { 0 } else { 1 };
    let u: int = options.user_scripts as int;
    assert forall|i: int| 0 <= i < steps.len() implies in_its_place(
        options,
        i,
        #[trigger] steps[i],
    ) by {
        lemma_in_its_place(options, i);
    }
    lemma_places_are_taken(options);
    assert(only_at(steps, |s: StartupStep| s is StartTimeProfiler, 5));
    assert(only_at(steps, |s: StartupStep| s is StartMemoryProfiler, 6));
    assert(only_at(steps, |s: StartupStep| s is StartWebrender, 9 + d));
    assert(only_at(steps, |s: StartupStep| s is StartBluetooth, 12 + d + j));
    assert(only_at(steps, |s: StartupStep| s is StartResourceThreads, 13 + d + j));
    assert(only_at(steps, |s: StartupStep| s is StartFontCache, 14 + d + j));
    assert(only_at(steps, |s: StartupStep| s is StartCanvas, 15 + d + j));
    assert(only_at(steps, |s: StartupStep| s is StartConstellation, 16 + d + j + u));
    if options.devtools_server_enabled {
        assert(only_at(steps, |s: StartupStep| s is StartDevtools, 9));
    }
    if !options.multiprocess {
        assert(only_at(steps, |s: StartupStep| s is InitScriptEngine, 11 + d));
    }
    if options.webdriver_port is Some {
        assert(only_at(steps, |s: StartupStep| s is StartWebdriver, 17 + d + j + u));
    }
}

/// If the step starts a thread, `i` is its place in the order of steps.
spec fn in_its_place(options: StartupOptions, i: int, step: StartupStep) -> bool {
    let d: int = if options.devtools_server_enabled { 1 } else { 0 };
    let j: int = if options.multiprocess { 0 } else { 1 };
    let u: int = options.user_scripts as int;
    match step {
        StartupStep::StartTimeProfiler => i == 5,
        StartupStep::StartMemoryProfiler => i == 6,
        StartupStep::StartDevtools(_) => i == 9 && options.devtools_server_enabled,
        StartupStep::StartWebrender { .. } => i == 9 + d,
        StartupStep::InitScriptEngine => i == 11 + d && !options.multiprocess,
        StartupStep::StartBluetooth => i == 12 + d + j,
        StartupStep::StartResourceThreads => i == 13 + d + j,
        StartupStep::StartFontCache => i == 14 + d + j,
        StartupStep::StartCanvas => i == 15 + d + j,
        StartupStep::StartConstellation => i == 16 + d + j + u,
        StartupStep::StartWebdriver(_) => i == 17 + d + j + u && options.webdriver_port is Some,
        _ => true,
    }
}

/// A step that starts a thread is in its place.
proof fn lemma_in_its_place(options: StartupOptions, i: int)
    requires
        0 <= i < startup_steps(options).len(),
    ensures
        in_its_place(options, i, startup_steps(options)[i]),
{
}

/// In the place of a thread is the step that starts it.
proof fn lemma_places_are_taken(options: StartupOptions)
    ensures
        ({
            let steps = startup_steps(options);
            let d: int = if options.devtools_server_enabled { 1 } else { 0 };
            let j: int = if options.multiprocess { 0 } else { 1 };
            let u: int = options.user_scripts as int;
            &&& steps.len() > 17 + d + j + u
            &&& steps[5] is StartTimeProfiler
            &&& steps[6] is StartMemoryProfiler
            &&& options.devtools_server_enabled ==> steps[9] == StartupStep::StartDevtools(
                devtools_port(options.devtools_server_port),
            )
            &&& steps[9 + d] is StartWebrender
            &&& !options.multiprocess ==> steps[11 + d] is InitScriptEngine
            &&& steps[12 + d + j] is StartBluetooth
            &&& steps[13 + d + j] is StartResourceThreads
            &&& steps[14 + d + j] is StartFontCache
            &&& steps[15 + d + j] is StartCanvas
            &&& steps[16 + d + j + u] is StartConstellation
            &&& options.webdriver_port matches Some(port) ==> steps[17 + d + j + u]
                == StartupStep::StartWebdriver(port)
        }),
{
    let steps = startup_steps(options);
    let d: int = if options.devtools_server_enabled { 1 } else { 0 };
    let j: int = if options.multiprocess { 0 } else { 1 };
    let u: int = options.user_scripts as int;
    assert(steps[5] is StartTimeProfiler);
    assert(steps[6] is StartMemoryProfiler);
    assert(options.devtools_server_enabled ==> steps[9] is StartDevtools);
    assert(steps[9 + d] is StartWebrender);
    assert(!options.multiprocess ==> steps[11 + d] is InitScriptEngine);
    assert(steps[12 + d + j] is StartBluetooth);
    assert(steps[13 + d + j] is StartResourceThreads);
    assert(steps[14 + d + j] is StartFontCache);
    assert(steps[15 + d + j] is StartCanvas);
    assert(steps[16 + d + j + u] is StartConstellation);
    assert(options.webdriver_port is Some ==> steps[17 + d + j + u] is StartWebdriver);
}

/// The first web view is a panel or a tab, as the settings want, for the address
/// that they give; and it is created once the compositor is there.
pub proof fn law_first_view(options: StartupOptions)
    ensures
        ({
            let steps = startup_steps(options);
            let n = steps.len() as int;
            &&& n >= 5
            &&& steps[n - 3] == (if options.with_panel {
                StartupStep::CreatePanel(options.url)
            } else {
                StartupStep::CreateTab(options.url)
            })
            &&& exists|i: int| 0 <= i < n - 3 && #[trigger] steps[i] is CreateCompositor
            &&& forall|i: int|
                0 <= i < n && (#[trigger] steps[i] is CreatePanel || steps[i] is CreateTab) ==> i
                    == n - 3
        }),
{
    let steps = startup_steps(options);
    let n = steps.len() as int;
    let z: int = if options.zoom_level is Some { 1 } else { 0 };
    assert(steps[n - 4 - z] is CreateCompositor);
}

} // verus!
