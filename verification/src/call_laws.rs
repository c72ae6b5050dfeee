//! What the calls of the library do, from end to end: what is asked of the host's side
//! is what the browser's side does, and what the shell's methods return is what the other
//! laws speak of.
use dpi::{PhysicalPosition, PhysicalSize, Position, Size};
use url::Url;
use vstd::prelude::*;

#[allow(unused_imports)]
use crate::controller::{
    brings_sender, controller_action, ipc_channel_argument, navigation_response,
    web_resource_response, without_question, ControllerAction, ControllerModel, QuestionKind,
    ResponseListener,
};
use crate::controller::{Handles, VersoviewController};
#[allow(unused_imports)]
use crate::embedder::{concerned_webview, get_embedder_message_webview_id, EmbedderMsg};
#[allow(unused_imports)]
use crate::ids::{document_number, DocumentId, PipelineId, RequestId, WebViewId, WindowId};
#[allow(unused_imports)]
use crate::laws::same_but_for;
#[allow(unused_imports)]
use crate::messages::{
    PositionType, SizeType, Theme, ToControllerMessage, ToVersoMessage, VersoviewSettings,
    WebResourceRequestResponse, WebResponse, WindowLevel,
};
#[allow(unused_imports)]
use crate::servo_messages::{turn_next, turn_start, ServoStep, TurnEvent};
#[allow(unused_imports)]
use crate::startup::{
    brings_settings, connection_lost, first_message, forward_message, initial_settings,
    plan_preparation, plan_startup, preparation, startup_steps, try_connect_ipc_and_get_config,
    CompositorMsg, ConfigSource, EventLoopProxyMessage, RenderNotifier, StartupOptions,
    StartupStep,
};
#[allow(unused_imports)]
use crate::verso::{CompositorReport, CompositorStatus, Verso, VersoModel};
#[allow(unused_imports)]
use crate::webview_messages::{
    answer_query, answer_to, can_handle, verso_after, webview_step, ConstellationMsg, Fullscreen,
    WebviewStep, WindowCommand, WindowFact, WindowQuery,
};
#[allow(unused_imports)]
use crate::window::{
    words, Tab, TabModel, WebResourceReply, WebResourceResponseMsg, Window, WindowModel,
};
#[allow(unused_imports)]
use crate::window_events::{
    after_close_report, event_end, event_start, redraw_start, Platform, RedrawStep, WindowEvent,
    WindowEventStep,
};

verus! {

// --------------------------------------------------------------- commands
/// The message of [`VersoviewController::set_title`] sets the title, as the host said.
pub proof fn law_set_title_reaches_the_window<H: Handles, R>(
    host: &VersoviewController<H>,
    title: String,
    message: ToVersoMessage<H::Attributes>,
    s: VersoModel<R>,
    window: WindowId,
)
    requires
        call_ensures(VersoviewController::<H>::set_title, (host, title), message),
    ensures
        webview_step::<R, H::Attributes, H::Sender>(s, Some(window), message) == WebviewStep::<
            R,
            H::Sender,
        >::Command(window, WindowCommand::SetTitle(title)),
{
}

/// The message of [`VersoviewController::set_size`] sets the size of the window, as the
/// host said.
pub proof fn law_set_size_reaches_the_window<H: Handles, R>(
    host: &VersoviewController<H>,
    size: Size,
    message: ToVersoMessage<H::Attributes>,
    s: VersoModel<R>,
    window: WindowId,
)
    requires
        call_ensures(VersoviewController::<H>::set_size, (host, size), message),
    ensures
        webview_step::<R, H::Attributes, H::Sender>(s, Some(window), message) == WebviewStep::<
            R,
            H::Sender,
        >::Command(window, WindowCommand::RequestInnerSize(size)),
{
}

/// The message of [`VersoviewController::set_position`] sets the position of the window,
/// as the host said.
pub proof fn law_set_position_reaches_the_window<H: Handles, R>(
    host: &VersoviewController<H>,
    position: Position,
    message: ToVersoMessage<H::Attributes>,
    s: VersoModel<R>,
    window: WindowId,
)
    requires
        call_ensures(VersoviewController::<H>::set_position, (host, position), message),
    ensures
        webview_step::<R, H::Attributes, H::Sender>(s, Some(window), message) == WebviewStep::<
            R,
            H::Sender,
        >::Command(window, WindowCommand::SetOuterPosition(position)),
{
}

/// The message of [`VersoviewController::set_maximized`] maximizes the window, or undoes
/// it, as the host said.
pub proof fn law_set_maximized_reaches_the_window<H: Handles, R>(
    host: &VersoviewController<H>,
    maximized: bool,
    message: ToVersoMessage<H::Attributes>,
    s: VersoModel<R>,
    window: WindowId,
)
    requires
        call_ensures(VersoviewController::<H>::set_maximized, (host, maximized), message),
    ensures
        webview_step::<R, H::Attributes, H::Sender>(s, Some(window), message) == WebviewStep::<
            R,
            H::Sender,
        >::Command(window, WindowCommand::SetMaximized(maximized)),
{
}

/// The message of [`VersoviewController::set_minimized`] minimizes the window, or undoes
/// it, as the host said.
pub proof fn law_set_minimized_reaches_the_window<H: Handles, R>(
    host: &VersoviewController<H>,
    minimized: bool,
    message: ToVersoMessage<H::Attributes>,
    s: VersoModel<R>,
    window: WindowId,
)
    requires
        call_ensures(VersoviewController::<H>::set_minimized, (host, minimized), message),
    ensures
        webview_step::<R, H::Attributes, H::Sender>(s, Some(window), message) == WebviewStep::<
            R,
            H::Sender,
        >::Command(window, WindowCommand::SetMinimized(minimized)),
{
}

/// The message of [`VersoviewController::set_visible`] shows the window or hides it, as
/// the host said.
pub proof fn law_set_visible_reaches_the_window<H: Handles, R>(
    host: &VersoviewController<H>,
    visible: bool,
    message: ToVersoMessage<H::Attributes>,
    s: VersoModel<R>,
    window: WindowId,
)
    requires
        call_ensures(VersoviewController::<H>::set_visible, (host, visible), message),
    ensures
        webview_step::<R, H::Attributes, H::Sender>(s, Some(window), message) == WebviewStep::<
            R,
            H::Sender,
        >::Command(window, WindowCommand::SetVisible(visible)),
{
}

/// The message of [`VersoviewController::set_window_level`] changes the level of the
/// window, as the host said.
pub proof fn law_set_window_level_reaches_the_window<H: Handles, R>(
    host: &VersoviewController<H>,
    level: WindowLevel,
    message: ToVersoMessage<H::Attributes>,
    s: VersoModel<R>,
    window: WindowId,
)
    requires
        call_ensures(VersoviewController::<H>::set_window_level, (host, level), message),
    ensures
        webview_step::<R, H::Attributes, H::Sender>(s, Some(window), message) == WebviewStep::<
            R,
            H::Sender,
        >::Command(window, WindowCommand::SetWindowLevel(level)),
{
}

/// The message of [`VersoviewController::set_theme`] sets the theme, or leaves it to the
/// system, as the host said.
pub proof fn law_set_theme_reaches_the_window<H: Handles, R>(
    host: &VersoviewController<H>,
    theme: Option<Theme>,
    message: ToVersoMessage<H::Attributes>,
    s: VersoModel<R>,
    window: WindowId,
)
    requires
        call_ensures(VersoviewController::<H>::set_theme, (host, theme), message),
    ensures
        webview_step::<R, H::Attributes, H::Sender>(s, Some(window), message) == WebviewStep::<
            R,
            H::Sender,
        >::Command(window, WindowCommand::SetTheme(theme)),
{
}

/// The message of [`VersoviewController::start_dragging`] lets the window follow the
/// pointer, as the host said.
pub proof fn law_start_dragging_reaches_the_window<H: Handles, R>(
    host: &VersoviewController<H>,
    message: ToVersoMessage<H::Attributes>,
    s: VersoModel<R>,
    window: WindowId,
)
    requires
        call_ensures(VersoviewController::<H>::start_dragging, (host,), message),
    ensures
        webview_step::<R, H::Attributes, H::Sender>(s, Some(window), message) == WebviewStep::<
            R,
            H::Sender,
        >::Command(window, WindowCommand::DragWindow),
{
}

/// The message of [`VersoviewController::focus`] brings the window to the front, as the
/// host said.
pub proof fn law_focus_reaches_the_window<H: Handles, R>(
    host: &VersoviewController<H>,
    message: ToVersoMessage<H::Attributes>,
    s: VersoModel<R>,
    window: WindowId,
)
    requires
        call_ensures(VersoviewController::<H>::focus, (host,), message),
    ensures
        webview_step::<R, H::Attributes, H::Sender>(s, Some(window), message) == WebviewStep::<
            R,
            H::Sender,
        >::Command(window, WindowCommand::FocusWindow),
{
}

/// The message of [`VersoviewController::set_fullscreen`] makes the window fill the screen
/// without a frame, or ends that, as the host said.
pub proof fn law_set_fullscreen_reaches_the_window<H: Handles, R>(
    host: &VersoviewController<H>,
    fullscreen: bool,
    message: ToVersoMessage<H::Attributes>,
    s: VersoModel<R>,
    window: WindowId,
)
    requires
        call_ensures(VersoviewController::<H>::set_fullscreen, (host, fullscreen), message),
    ensures
        ({
            let step = webview_step::<R, H::Attributes, H::Sender>(s, Some(window), message);
            &&& step is Command
            &&& step->Command_0 == window
            &&& step->Command_1 is SetFullscreen
            &&& fullscreen ==> step->Command_1->SetFullscreen_0 == Some(Fullscreen::Borderless)
            &&& !fullscreen ==> step->Command_1->SetFullscreen_0 is None
        }),
{
}

/// The messages of [`VersoviewController::navigate`], [`VersoviewController::reload`] and
/// [`VersoviewController::execute_script`] act on the page of the tab that the window
/// shows, with the address or the script that the host gave.
pub proof fn law_page_commands_reach_the_page<H: Handles, R>(
    host: &VersoviewController<H>,
    to: Url,
    script: String,
    navigate: ToVersoMessage<H::Attributes>,
    reload: ToVersoMessage<H::Attributes>,
    execute: ToVersoMessage<H::Attributes>,
    s: VersoModel<R>,
    window: WindowId,
    tab: TabModel,
)
    requires
        call_ensures(VersoviewController::<H>::navigate, (host, to), navigate),
        call_ensures(VersoviewController::<H>::reload, (host,), reload),
        call_ensures(VersoviewController::<H>::execute_script, (host, script), execute),
        s.windows[window].current_tab == Some(tab),
    ensures
        webview_step::<R, H::Attributes, H::Sender>(s, Some(window), navigate) == WebviewStep::<
            R,
            H::Sender,
        >::Constellation(ConstellationMsg::LoadUrl(tab.id, to)),
        webview_step::<R, H::Attributes, H::Sender>(s, Some(window), reload) == WebviewStep::<
            R,
            H::Sender,
        >::Constellation(ConstellationMsg::Reload(tab.id)),
        webview_step::<R, H::Attributes, H::Sender>(s, Some(window), execute) == WebviewStep::<
            R,
            H::Sender,
        >::ExecuteScript(tab.id, script),
{
}

/// The message of [`VersoviewController::exit`], and the event for the loss of the host,
/// shut the browser down.
pub proof fn law_exit_goes_down<H: Handles, R>(
    host: &VersoviewController<H>,
    message: ToVersoMessage<H::Attributes>,
    lost: EventLoopProxyMessage<H::Attributes>,
    s: VersoModel<R>,
    first: Option<WindowId>,
)
    requires
        call_ensures(VersoviewController::<H>::exit, (host,), message),
        call_ensures(connection_lost::<H::Attributes>, (), lost),
        s.compositor is Some,
    ensures
        webview_step::<R, H::Attributes, H::Sender>(s, first, message) is StartShuttingDown,
        lost is IpcMessage,
        webview_step::<R, H::Attributes, H::Sender>(s, first, *lost->IpcMessage_0)
            is StartShuttingDown,
{
}

// --------------------------------------------------------------- callbacks

/// With [`VersoviewController::on_close_requested`] the callback is the one that is kept,
/// and nothing else changes; the browser is told if and only if there was none before,
/// and what it is told makes the first window listen.
pub proof fn law_on_close_requested_is_heard<H: Handles, R>(
    host: &mut VersoviewController<H>,
    callback: H::CloseCallback,
    message: Option<ToVersoMessage<H::Attributes>>,
    s: VersoModel<R>,
    window: WindowId,
)
    requires
        call_ensures(VersoviewController::<H>::on_close_requested, (host, callback), message),
    ensures
        final(host)@.on_close_requested == Some(callback),
        message is Some <==> old(host)@.on_close_requested is None,
        message matches Some(sent) ==> verso_after(
            s,
            Some(window),
            sent,
        ).windows[window].on_close_requested,
        final(host)@.on_navigation_starting == old(host)@.on_navigation_starting,
        final(host)@.on_web_resource_requested == old(host)@.on_web_resource_requested,
        final(host)@.title_response == old(host)@.title_response,
        final(host)@.size_response == old(host)@.size_response,
        final(host)@.position_response == old(host)@.position_response,
        final(host)@.maximized_response == old(host)@.maximized_response,
        final(host)@.minimized_response == old(host)@.minimized_response,
        final(host)@.fullscreen_response == old(host)@.fullscreen_response,
        final(host)@.visible_response == old(host)@.visible_response,
        final(host)@.scale_factor_response == old(host)@.scale_factor_response,
        final(host)@.theme_response == old(host)@.theme_response,
        final(host)@.get_url_response == old(host)@.get_url_response,
{
}

/// With [`VersoviewController::on_navigation_starting`] the callback is the one that is
/// kept, and nothing else changes; the browser is told if and only if there was none
/// before, and what it is told makes the first window listen.
pub proof fn law_on_navigation_starting_is_heard<H: Handles, R>(
    host: &mut VersoviewController<H>,
    callback: H::NavigationCallback,
    message: Option<ToVersoMessage<H::Attributes>>,
    s: VersoModel<R>,
    window: WindowId,
)
    requires
        call_ensures(VersoviewController::<H>::on_navigation_starting, (host, callback), message),
    ensures
        final(host)@.on_navigation_starting == Some(callback),
        message is Some <==> old(host)@.on_navigation_starting is None,
        message matches Some(sent) ==> verso_after(
            s,
            Some(window),
            sent,
        ).windows[window].on_navigation_starting,
        final(host)@.on_close_requested == old(host)@.on_close_requested,
        final(host)@.on_web_resource_requested == old(host)@.on_web_resource_requested,
        final(host)@.title_response == old(host)@.title_response,
        final(host)@.size_response == old(host)@.size_response,
        final(host)@.position_response == old(host)@.position_response,
        final(host)@.maximized_response == old(host)@.maximized_response,
        final(host)@.minimized_response == old(host)@.minimized_response,
        final(host)@.fullscreen_response == old(host)@.fullscreen_response,
        final(host)@.visible_response == old(host)@.visible_response,
        final(host)@.scale_factor_response == old(host)@.scale_factor_response,
        final(host)@.theme_response == old(host)@.theme_response,
        final(host)@.get_url_response == old(host)@.get_url_response,
{
}

/// With [`VersoviewController::on_web_resource_requested`] the callback is the one that
/// is kept, and nothing else changes; the browser is told if and only if there was none
/// before, and what it is told makes the first window listen.
pub proof fn law_on_web_resource_requested_is_heard<H: Handles, R>(
    host: &mut VersoviewController<H>,
    callback: H::WebResourceCallback,
    message: Option<ToVersoMessage<H::Attributes>>,
    s: VersoModel<R>,
    window: WindowId,
)
    requires
        call_ensures(
            VersoviewController::<H>::on_web_resource_requested,
            (host, callback),
            message,
        ),
    ensures
        final(host)@.on_web_resource_requested == Some(callback),
        message is Some <==> old(host)@.on_web_resource_requested is None,
        message matches Some(sent) ==> verso_after(
            s,
            Some(window),
            sent,
        ).windows[window].on_web_resource_requested is Some,
        final(host)@.on_close_requested == old(host)@.on_close_requested,
        final(host)@.on_navigation_starting == old(host)@.on_navigation_starting,
        final(host)@.title_response == old(host)@.title_response,
        final(host)@.size_response == old(host)@.size_response,
        final(host)@.position_response == old(host)@.position_response,
        final(host)@.maximized_response == old(host)@.maximized_response,
        final(host)@.minimized_response == old(host)@.minimized_response,
        final(host)@.fullscreen_response == old(host)@.fullscreen_response,
        final(host)@.visible_response == old(host)@.visible_response,
        final(host)@.scale_factor_response == old(host)@.scale_factor_response,
        final(host)@.theme_response == old(host)@.theme_response,
        final(host)@.get_url_response == old(host)@.get_url_response,
{
}

// --------------------------------------------------------------- questions
/// The question of [`VersoviewController::get_title`] is asked of the windowing system,
/// what that tells goes to the caller that asked, and nobody else is touched. If the
/// question fails, the host is as it was.
pub proof fn law_get_title_is_answered<H: Handles, R>(
    host: &mut VersoviewController<H>,
    waiter: H::TitleWaiter,
    asked: (RequestId, ToVersoMessage<H::Attributes>),
    s: VersoModel<R>,
    window: WindowId,
    title: String,
)
    requires
        call_ensures(VersoviewController::<H>::get_title, (host, waiter), asked),
    ensures
        webview_step::<R, H::Attributes, H::Sender>(s, Some(window), asked.1) == (WebviewStep::<
            R,
            H::Sender,
        >::Query { window, id: asked.0, query: WindowQuery::Title }),
        controller_action::<H>(final(host)@, answer_to(asked.0, WindowFact::Title(title)))
            == ControllerAction::<H>::Title(&waiter, title),
        same_but_for(old(host)@, final(host)@, asked.0),
        !old(host)@.title_response.contains_key(asked.0) ==> without_question(
            final(host)@,
            QuestionKind::Title,
            asked.0,
        ) == old(host)@,
{
    lemma_insert_remove(old(host)@.title_response, asked.0, waiter);
}

/// The question of [`VersoviewController::get_inner_size`] is asked of the windowing
/// system, what that tells goes to the caller that asked, and nobody else is touched. If
/// the question fails, the host is as it was.
pub proof fn law_get_inner_size_is_answered<H: Handles, R>(
    host: &mut VersoviewController<H>,
    waiter: H::SizeWaiter,
    asked: (RequestId, ToVersoMessage<H::Attributes>),
    s: VersoModel<R>,
    window: WindowId,
    size: PhysicalSize<u32>,
)
    requires
        call_ensures(VersoviewController::<H>::get_inner_size, (host, waiter), asked),
    ensures
        webview_step::<R, H::Attributes, H::Sender>(s, Some(window), asked.1) == (WebviewStep::<
            R,
            H::Sender,
        >::Query { window, id: asked.0, query: WindowQuery::Size(SizeType::Inner) }),
        controller_action::<H>(final(host)@, answer_to(asked.0, WindowFact::Size(size)))
            == ControllerAction::<H>::Size(&waiter, size),
        same_but_for(old(host)@, final(host)@, asked.0),
        !old(host)@.size_response.contains_key(asked.0) ==> without_question(
            final(host)@,
            QuestionKind::Size,
            asked.0,
        ) == old(host)@,
{
    lemma_insert_remove(old(host)@.size_response, asked.0, waiter);
}

/// The question of [`VersoviewController::get_outer_size`] is asked of the windowing
/// system, what that tells goes to the caller that asked, and nobody else is touched. If
/// the question fails, the host is as it was.
pub proof fn law_get_outer_size_is_answered<H: Handles, R>(
    host: &mut VersoviewController<H>,
    waiter: H::SizeWaiter,
    asked: (RequestId, ToVersoMessage<H::Attributes>),
    s: VersoModel<R>,
    window: WindowId,
    size: PhysicalSize<u32>,
)
    requires
        call_ensures(VersoviewController::<H>::get_outer_size, (host, waiter), asked),
    ensures
        webview_step::<R, H::Attributes, H::Sender>(s, Some(window), asked.1) == (WebviewStep::<
            R,
            H::Sender,
        >::Query { window, id: asked.0, query: WindowQuery::Size(SizeType::Outer) }),
        controller_action::<H>(final(host)@, answer_to(asked.0, WindowFact::Size(size)))
            == ControllerAction::<H>::Size(&waiter, size),
        same_but_for(old(host)@, final(host)@, asked.0),
        !old(host)@.size_response.contains_key(asked.0) ==> without_question(
            final(host)@,
            QuestionKind::Size,
            asked.0,
        ) == old(host)@,
{
    lemma_insert_remove(old(host)@.size_response, asked.0, waiter);
}

/// The question of [`VersoviewController::get_inner_position`] is asked of the windowing
/// system, what that tells goes to the caller that asked, and nobody else is touched. If
/// the question fails, the host is as it was.
pub proof fn law_get_inner_position_is_answered<H: Handles, R>(
    host: &mut VersoviewController<H>,
    waiter: H::PositionWaiter,
    asked: (RequestId, ToVersoMessage<H::Attributes>),
    s: VersoModel<R>,
    window: WindowId,
    position: Option<PhysicalPosition<i32>>,
)
    requires
        call_ensures(VersoviewController::<H>::get_inner_position, (host, waiter), asked),
    ensures
        webview_step::<R, H::Attributes, H::Sender>(s, Some(window), asked.1) == (WebviewStep::<
            R,
            H::Sender,
        >::Query { window, id: asked.0, query: WindowQuery::Position(PositionType::Inner) }),
        controller_action::<H>(final(host)@, answer_to(asked.0, WindowFact::Position(position)))
            == ControllerAction::<H>::Position(&waiter, position),
        same_but_for(old(host)@, final(host)@, asked.0),
        !old(host)@.position_response.contains_key(asked.0) ==> without_question(
            final(host)@,
            QuestionKind::Position,
            asked.0,
        ) == old(host)@,
{
    lemma_insert_remove(old(host)@.position_response, asked.0, waiter);
}

/// The question of [`VersoviewController::get_outer_position`] is asked of the windowing
/// system, what that tells goes to the caller that asked, and nobody else is touched. If
/// the question fails, the host is as it was.
pub proof fn law_get_outer_position_is_answered<H: Handles, R>(
    host: &mut VersoviewController<H>,
    waiter: H::PositionWaiter,
    asked: (RequestId, ToVersoMessage<H::Attributes>),
    s: VersoModel<R>,
    window: WindowId,
    position: Option<PhysicalPosition<i32>>,
)
    requires
        call_ensures(VersoviewController::<H>::get_outer_position, (host, waiter), asked),
    ensures
        webview_step::<R, H::Attributes, H::Sender>(s, Some(window), asked.1) == (WebviewStep::<
            R,
            H::Sender,
        >::Query { window, id: asked.0, query: WindowQuery::Position(PositionType::Outer) }),
        controller_action::<H>(final(host)@, answer_to(asked.0, WindowFact::Position(position)))
            == ControllerAction::<H>::Position(&waiter, position),
        same_but_for(old(host)@, final(host)@, asked.0),
        !old(host)@.position_response.contains_key(asked.0) ==> without_question(
            final(host)@,
            QuestionKind::Position,
            asked.0,
        ) == old(host)@,
{
    lemma_insert_remove(old(host)@.position_response, asked.0, waiter);
}

/// The question of [`VersoviewController::is_maximized`] is asked of the windowing
/// system, what that tells goes to the caller that asked, and nobody else is touched. If
/// the question fails, the host is as it was.
pub proof fn law_is_maximized_is_answered<H: Handles, R>(
    host: &mut VersoviewController<H>,
    waiter: H::FlagWaiter,
    asked: (RequestId, ToVersoMessage<H::Attributes>),
    s: VersoModel<R>,
    window: WindowId,
    flag: bool,
)
    requires
        call_ensures(VersoviewController::<H>::is_maximized, (host, waiter), asked),
    ensures
        webview_step::<R, H::Attributes, H::Sender>(s, Some(window), asked.1) == (WebviewStep::<
            R,
            H::Sender,
        >::Query { window, id: asked.0, query: WindowQuery::Maximized }),
        controller_action::<H>(final(host)@, answer_to(asked.0, WindowFact::Maximized(flag)))
            == ControllerAction::<H>::Flag(&waiter, flag),
        same_but_for(old(host)@, final(host)@, asked.0),
        !old(host)@.maximized_response.contains_key(asked.0) ==> without_question(
            final(host)@,
            QuestionKind::Maximized,
            asked.0,
        ) == old(host)@,
{
    lemma_insert_remove(old(host)@.maximized_response, asked.0, waiter);
}

/// The question of [`VersoviewController::is_minimized`] is asked of the windowing
/// system, what that tells goes to the caller that asked, and nobody else is touched. If
/// the question fails, the host is as it was.
pub proof fn law_is_minimized_is_answered<H: Handles, R>(
    host: &mut VersoviewController<H>,
    waiter: H::FlagWaiter,
    asked: (RequestId, ToVersoMessage<H::Attributes>),
    s: VersoModel<R>,
    window: WindowId,
    flag: bool,
)
    requires
        call_ensures(VersoviewController::<H>::is_minimized, (host, waiter), asked),
    ensures
        webview_step::<R, H::Attributes, H::Sender>(s, Some(window), asked.1) == (WebviewStep::<
            R,
            H::Sender,
        >::Query { window, id: asked.0, query: WindowQuery::Minimized }),
        controller_action::<H>(final(host)@, answer_to(asked.0, WindowFact::Minimized(Some(flag))))
            == ControllerAction::<H>::Flag(&waiter, flag),
        same_but_for(old(host)@, final(host)@, asked.0),
        !old(host)@.minimized_response.contains_key(asked.0) ==> without_question(
            final(host)@,
            QuestionKind::Minimized,
            asked.0,
        ) == old(host)@,
{
    lemma_insert_remove(old(host)@.minimized_response, asked.0, waiter);
}

/// The question of [`VersoviewController::is_fullscreen`] is asked of the windowing
/// system, what that tells goes to the caller that asked, and nobody else is touched. If
/// the question fails, the host is as it was.
pub proof fn law_is_fullscreen_is_answered<H: Handles, R>(
    host: &mut VersoviewController<H>,
    waiter: H::FlagWaiter,
    asked: (RequestId, ToVersoMessage<H::Attributes>),
    s: VersoModel<R>,
    window: WindowId,
    how: Option<Fullscreen>,
)
    requires
        call_ensures(VersoviewController::<H>::is_fullscreen, (host, waiter), asked),
    ensures
        webview_step::<R, H::Attributes, H::Sender>(s, Some(window), asked.1) == (WebviewStep::<
            R,
            H::Sender,
        >::Query { window, id: asked.0, query: WindowQuery::Fullscreen }),
        controller_action::<H>(final(host)@, answer_to(asked.0, WindowFact::Fullscreen(how)))
            == ControllerAction::<H>::Flag(&waiter, how is Some),
        same_but_for(old(host)@, final(host)@, asked.0),
        !old(host)@.fullscreen_response.contains_key(asked.0) ==> without_question(
            final(host)@,
            QuestionKind::Fullscreen,
            asked.0,
        ) == old(host)@,
{
    lemma_insert_remove(old(host)@.fullscreen_response, asked.0, waiter);
}

/// The question of [`VersoviewController::is_visible`] is asked of the windowing system,
/// what that tells goes to the caller that asked, and nobody else is touched. If the
/// question fails, the host is as it was.
pub proof fn law_is_visible_is_answered<H: Handles, R>(
    host: &mut VersoviewController<H>,
    waiter: H::FlagWaiter,
    asked: (RequestId, ToVersoMessage<H::Attributes>),
    s: VersoModel<R>,
    window: WindowId,
    flag: bool,
)
    requires
        call_ensures(VersoviewController::<H>::is_visible, (host, waiter), asked),
    ensures
        webview_step::<R, H::Attributes, H::Sender>(s, Some(window), asked.1) == (WebviewStep::<
            R,
            H::Sender,
        >::Query { window, id: asked.0, query: WindowQuery::Visible }),
        controller_action::<H>(final(host)@, answer_to(asked.0, WindowFact::Visible(Some(flag))))
            == ControllerAction::<H>::Flag(&waiter, flag),
        same_but_for(old(host)@, final(host)@, asked.0),
        !old(host)@.visible_response.contains_key(asked.0) ==> without_question(
            final(host)@,
            QuestionKind::Visible,
            asked.0,
        ) == old(host)@,
{
    lemma_insert_remove(old(host)@.visible_response, asked.0, waiter);
}

/// The question of [`VersoviewController::get_scale_factor`] is asked of the windowing
/// system, what that tells goes to the caller that asked, and nobody else is touched. If
/// the question fails, the host is as it was.
pub proof fn law_get_scale_factor_is_answered<H: Handles, R>(
    host: &mut VersoviewController<H>,
    waiter: H::ScaleFactorWaiter,
    asked: (RequestId, ToVersoMessage<H::Attributes>),
    s: VersoModel<R>,
    window: WindowId,
    bits: u64,
)
    requires
        call_ensures(VersoviewController::<H>::get_scale_factor, (host, waiter), asked),
    ensures
        webview_step::<R, H::Attributes, H::Sender>(s, Some(window), asked.1) == (WebviewStep::<
            R,
            H::Sender,
        >::Query { window, id: asked.0, query: WindowQuery::ScaleFactor }),
        controller_action::<H>(final(host)@, answer_to(asked.0, WindowFact::ScaleFactor(bits)))
            == ControllerAction::<H>::ScaleFactor(&waiter, bits),
        same_but_for(old(host)@, final(host)@, asked.0),
        !old(host)@.scale_factor_response.contains_key(asked.0) ==> without_question(
            final(host)@,
            QuestionKind::ScaleFactor,
            asked.0,
        ) == old(host)@,
{
    lemma_insert_remove(old(host)@.scale_factor_response, asked.0, waiter);
}

/// The question of [`VersoviewController::get_theme`] is asked of the windowing system,
/// what that tells goes to the caller that asked, and nobody else is touched. If the
/// question fails, the host is as it was.
pub proof fn law_get_theme_is_answered<H: Handles, R>(
    host: &mut VersoviewController<H>,
    waiter: H::ThemeWaiter,
    asked: (RequestId, ToVersoMessage<H::Attributes>),
    s: VersoModel<R>,
    window: WindowId,
    theme: Theme,
)
    requires
        call_ensures(VersoviewController::<H>::get_theme, (host, waiter), asked),
    ensures
        webview_step::<R, H::Attributes, H::Sender>(s, Some(window), asked.1) == (WebviewStep::<
            R,
            H::Sender,
        >::Query { window, id: asked.0, query: WindowQuery::Theme }),
        controller_action::<H>(final(host)@, answer_to(asked.0, WindowFact::Theme(Some(theme))))
            == ControllerAction::<H>::Theme(&waiter, theme),
        same_but_for(old(host)@, final(host)@, asked.0),
        !old(host)@.theme_response.contains_key(asked.0) ==> without_question(
            final(host)@,
            QuestionKind::Theme,
            asked.0,
        ) == old(host)@,
{
    lemma_insert_remove(old(host)@.theme_response, asked.0, waiter);
}

/// The question of [`VersoviewController::get_current_url`] is answered with the page at
/// the tab's place in its history, to the caller that asked, and nobody else is touched.
pub proof fn law_get_current_url_is_answered<H: Handles, R>(
    host: &mut VersoviewController<H>,
    waiter: H::UrlWaiter,
    asked: (RequestId, ToVersoMessage<H::Attributes>),
    s: VersoModel<R>,
    window: WindowId,
    tab: TabModel,
)
    requires
        call_ensures(VersoviewController::<H>::get_current_url, (host, waiter), asked),
        s.windows[window].current_tab == Some(tab),
    ensures
        ({
            let step = webview_step::<R, H::Attributes, H::Sender>(s, Some(window), asked.1);
            &&& step is Controller
            &&& controller_action::<H>(final(host)@, step->Controller_0) == ControllerAction::<
                H,
            >::CurrentUrl(&waiter, tab.history[tab.current_idx])
        }),
        same_but_for(old(host)@, final(host)@, asked.0),
        !old(host)@.get_url_response.contains_key(asked.0) ==> without_question(
            final(host)@,
            QuestionKind::CurrentUrl,
            asked.0,
        ) == old(host)@,
{
    lemma_insert_remove(old(host)@.get_url_response, asked.0, waiter);
}

/// What is inserted and removed again is as if it had only been removed, and if it is new
/// as if it had never been.
proof fn lemma_insert_remove<V>(m: Map<RequestId, V>, id: RequestId, value: V)
    ensures
        m.insert(id, value).remove(id) == m.remove(id),
        !m.contains_key(id) ==> m.insert(id, value).remove(id) == m,
{
    assert(m.insert(id, value).remove(id) =~= m.remove(id));
    assert(!m.contains_key(id) ==> m.insert(id, value).remove(id) =~= m);
}

/// [`VersoviewController::question_failed`] gives up the question and no other.
pub proof fn law_question_failed_gives_up<H: Handles>(
    host: &mut VersoviewController<H>,
    kind: QuestionKind,
    id: RequestId,
)
    requires
        call_ensures(VersoviewController::<H>::question_failed, (host, kind, id), ()),
    ensures
        final(host)@ == without_question(old(host)@, kind, id),
{
}

/// [`VersoviewController::handle_message`] does what the laws on actions say, and
/// [`answer_query`] answers as the laws on answers say.
pub proof fn law_host_does_as_stated<'a, H: Handles>(
    host: &'a VersoviewController<H>,
    message: ToControllerMessage<H::Sender>,
    action: ControllerAction<'a, H>,
    id: RequestId,
    fact: WindowFact,
    answer: ToControllerMessage<H::Sender>,
)
    requires
        call_ensures(VersoviewController::<H>::handle_message, (host, message), action),
        call_ensures(answer_query::<H::Sender>, (id, fact), answer),
    ensures
        action == controller_action::<H>(host@, message),
        answer == answer_to::<H::Sender>(id, fact),
{
}

/// A caller that was registered last is found, and one that was dropped is not; callers
/// under other names stay.
pub proof fn law_waiters_are_found<T>(
    listener: &mut ResponseListener<T>,
    id: RequestId,
    waiter: T,
    dropped: &mut ResponseListener<T>,
    other: RequestId,
)
    requires
        call_ensures(ResponseListener::<T>::register, (listener, id, waiter), ()),
        call_ensures(ResponseListener::<T>::send_failed, (dropped, id), ()),
        other != id,
    ensures
        final(listener)@.contains_key(id) && final(listener)@[id] == waiter,
        final(listener)@.contains_key(other) == old(listener)@.contains_key(other),
        old(listener)@.contains_key(other) ==> final(listener)@[other] == old(listener)@[other],
        !final(dropped)@.contains_key(id),
        final(dropped)@.contains_key(other) == old(dropped)@.contains_key(other),
        old(dropped)@.contains_key(other) ==> final(dropped)@[other] == old(dropped)@[other],
{
}

/// Who is found to wait is who waits under that name, if anyone does; and nobody waits at
/// first.
pub proof fn law_only_waiters_are_found<T>(
    listener: &ResponseListener<T>,
    id: RequestId,
    found: Option<&T>,
    fresh: ResponseListener<T>,
)
    requires
        call_ensures(ResponseListener::<T>::waiter, (listener, id), found),
        call_ensures(ResponseListener::<T>::new, (), fresh),
    ensures
        found is Some <==> listener@.contains_key(id),
        found is Some ==> *found->0 == listener@[id],
        !fresh@.contains_key(id),
{
}

// --------------------------------------------------------------- set-up
/// A controller that is created from a sender hands out that sender, and the settings to
/// send on it: with the address that the host gave, and its attributes. It is idle.
pub proof fn law_controllers_are_set_up<H: Handles>(
    to: Url,
    settings: VersoviewSettings<H::Attributes>,
    sender: H::Sender,
    created: (VersoviewController<H>, H::Sender, ToVersoMessage<H::Attributes>),
    message: ToControllerMessage<H::Sender>,
)
    requires
        call_ensures(
            VersoviewController::<H>::create,
            (to, settings, ToControllerMessage::SetToVersoSender(sender)),
            created,
        ),
    ensures
        created.1 == sender,
        created.2 matches ToVersoMessage::SetConfig(sent) && sent.url == Some(to)
            && sent.attributes == settings.attributes,
        !(message is SetToVersoSender) ==> controller_action::<H>(created.0@, message) is Nothing,
{
}

/// With default settings it is the same, but for the attributes.
pub proof fn law_new_controllers_are_set_up<H: Handles>(
    to: Url,
    attributes: H::Attributes,
    sender: H::Sender,
    created: (VersoviewController<H>, H::Sender, ToVersoMessage<H::Attributes>),
    message: ToControllerMessage<H::Sender>,
)
    requires
        call_ensures(
            VersoviewController::<H>::new,
            (to, attributes, ToControllerMessage::SetToVersoSender(sender)),
            created,
        ),
    ensures
        created.1 == sender,
        created.2 matches ToVersoMessage::SetConfig(sent) && sent.url == Some(to)
            && sent.attributes == attributes,
        !(message is SetToVersoSender) ==> controller_action::<H>(created.0@, message) is Nothing,
{
}

/// The browser's first message brings its sender, and it takes the settings that the
/// host's first message brings, as they are.
pub proof fn law_browsers_are_set_up<S, A>(
    sender: S,
    hello: ToControllerMessage<S>,
    settings: VersoviewSettings<A>,
    taken: VersoviewSettings<A>,
)
    requires
        call_ensures(first_message::<S>, (sender,), hello),
        call_ensures(initial_settings::<A>, (ToVersoMessage::SetConfig(settings),), taken),
    ensures
        hello == ToControllerMessage::SetToVersoSender(sender),
        taken == settings,
{
}

/// Only a sender, and only settings, are found to be first messages.
pub proof fn law_first_messages_are_recognised<S, A>(
    hello: ToControllerMessage<S>,
    brings_one: bool,
    message: ToVersoMessage<A>,
    brings_them: bool,
)
    requires
        call_ensures(brings_sender::<S>, (&hello,), brings_one),
        call_ensures(brings_settings::<A>, (&message,), brings_them),
    ensures
        brings_one <==> hello is SetToVersoSender,
        brings_them <==> message is SetConfig,
{
}

/// The settings come from the host whose channel the command line names, and else from
/// the command line; and the browser's argument names the channel.
pub proof fn law_channel_is_named(
    channel: Option<String>,
    source: ConfigSource,
    server_name: &str,
    argument: String,
)
    requires
        call_ensures(try_connect_ipc_and_get_config, (channel,), source),
        call_ensures(ipc_channel_argument, (server_name,), argument),
    ensures
        channel is None ==> source is CommandLine,
        channel matches Some(name) ==> source is Controller && source->Controller_0 == name,
        argument@ == "--ipc-channel="@ + server_name@,
{
}

/// A message of the host reaches the event loop as it was sent, and a frame of the
/// renderer is announced as it is.
pub proof fn law_events_carry_what_came<A, P>(
    message: ToVersoMessage<A>,
    event: EventLoopProxyMessage<A>,
    proxy: P,
    made: RenderNotifier<P>,
    document: DocumentId,
    render: bool,
    announced: (&P, CompositorMsg),
)
    requires
        call_ensures(forward_message::<A>, (message,), event),
        call_ensures(RenderNotifier::<P>::new, (proxy,), made),
        call_ensures(RenderNotifier::<P>::new_frame_ready, (&made, document, render), announced),
    ensures
        event is IpcMessage,
        *event->IpcMessage_0 == message,
        *announced.0 == proxy,
        announced.1 == CompositorMsg::NewWebRenderFrameReady(document, render),
{
}

/// The two plans, one after the other, are all the steps; the first is the same whatever
/// the options.
pub proof fn law_plans_are_the_steps(
    options: StartupOptions,
    first: Vec<StartupStep>,
    then_steps: Vec<StartupStep>,
)
    requires
        call_ensures(plan_preparation, (), first),
        call_ensures(plan_startup, (&options,), then_steps),
    ensures
        first@ == preparation(),
        first@ + then_steps@ == startup_steps(options),
{
}

/// A document's number differs from its window's by a multiple of the number of document
/// numbers.
pub proof fn law_document_numbers(window: WindowId, number: u32)
    requires
        call_ensures(document_number, (window,), number),
    ensures
        (window - number) % 0x1_0000_0000 == 0,
{
}

/// A pipeline is read from its bytes, the least significant first, if there are eight of
/// them and its index is not zero.
pub proof fn law_pipelines_are_read(bytes: &[u8], read: Option<PipelineId>)
    requires
        call_ensures(PipelineId::decode, (bytes,), read),
    ensures
        ({
            let b = bytes@;
            &&& read is Some <==> b.len() >= 8 && !(b[4] == 0 && b[5] == 0 && b[6] == 0 && b[7]
                == 0)
            &&& read matches Some(pipeline) ==> {
                &&& pipeline.namespace == b[0] + 256 * b[1] + 65536 * b[2] + 16777216 * b[3]
                &&& pipeline.index == b[4] + 256 * b[5] + 65536 * b[6] + 16777216 * b[7]
            }
        }),
{
}

// --------------------------------------------------------------- words of the host
/// The callback's word on a navigation is passed on to the pipeline that its bytes spell.
pub proof fn law_navigation_response_reaches_the_pipeline<R, A, S>(
    id: Vec<u8>,
    allow: bool,
    message: ToVersoMessage<A>,
    s: VersoModel<R>,
    first: Option<WindowId>,
)
    requires
        call_ensures(navigation_response::<A>, (id, allow), message),
    ensures
        ({
            let step = webview_step::<R, A, S>(s, first, message);
            let b = id@;
            &&& step matches WebviewStep::Constellation(
                ConstellationMsg::AllowNavigationResponse(pipeline, word),
            ) && {
                &&& word == allow
                &&& pipeline.namespace == b[0] + 256 * b[1] + 65536 * b[2] + 16777216 * b[3]
                &&& pipeline.index == b[4] + 256 * b[5] + 65536 * b[6] + 16777216 * b[7]
            }
        }),
{
}

/// A request that a window holds for the host is answered, on the sender that it was held
/// with, by what the host says on it: a response, with the address of the request, or
/// the word not to intercept.
pub proof fn law_held_requests_are_answered<R, A, S>(
    held: &mut Window<R>,
    id: RequestId,
    url: Url,
    sender: R,
    back: Option<R>,
    response: Option<WebResponse>,
    message: ToVersoMessage<A>,
    s: VersoModel<R>,
    window: WindowId,
)
    requires
        call_ensures(Window::<R>::hold_request, (held, id, url, sender), back),
        old(held)@.on_web_resource_requested is Some,
        call_ensures(web_resource_response::<A>, (id, response), message),
        s.windows[window] == final(held)@,
    ensures
        back is None,
        ({
            let step = webview_step::<R, A, S>(s, Some(window), message);
            &&& step is Reply
            &&& step->sender == sender
            &&& response is None ==> words(step->reply) == seq![
                WebResourceResponseMsg::DoNotIntercept,
            ]
            &&& response matches Some(given) ==> words(step->reply) == seq![
                WebResourceResponseMsg::Start {
                    url,
                    headers: given.headers,
                    status: given.status,
                },
                WebResourceResponseMsg::SendBodyData(given.body),
                WebResourceResponseMsg::FinishLoad,
            ]
        }),
{
}

/// A request that is held comes back when it is released, once; holding and releasing it
/// leave the window as it was, if nothing waited under its name. Where requests are not
/// put before the host, the sender comes straight back and nothing changes.
pub proof fn law_held_requests_come_back<R>(
    held: &mut Window<R>,
    id: RequestId,
    url: Url,
    sender: R,
    back: Option<R>,
    released: &mut Window<R>,
    got: Option<(Url, R)>,
)
    requires
        call_ensures(Window::<R>::hold_request, (held, id, url, sender), back),
        call_ensures(Window::<R>::release_request, (released, id), got),
        old(released)@ == final(held)@,
    ensures
        old(held)@.on_web_resource_requested is None ==> {
            &&& back == Some(sender)
            &&& final(held)@ == old(held)@
            &&& got is None
            &&& final(released)@ == old(held)@
        },
        old(held)@.on_web_resource_requested is Some ==> {
            &&& back is None
            &&& got == Some((url, sender))
            &&& !final(released)@.waits_for(id)
            &&& !old(held)@.waits_for(id) ==> final(released)@ == old(held)@
        },
{
    if old(held)@.on_web_resource_requested is Some {
        let pending = old(held)@.on_web_resource_requested->0;
        assert(!pending.contains_key(id) ==> pending.insert(id, (url, sender)).remove(id)
            =~= pending);
    }
}

/// A reply is said word by word, each once and in order, until it is over or a word fails.
pub proof fn law_replies_are_said_in_order(
    reply: WebResourceReply,
    said: Option<(WebResourceResponseMsg, WebResourceReply)>,
    sent: bool,
    rest: WebResourceReply,
)
    requires
        call_ensures(WebResourceReply::next, (reply,), said),
        said is Some,
        call_ensures(WebResourceReply::after_send, ((said->0).1, sent), rest),
    ensures
        words(reply).len() > 0,
        (said->0).0 == words(reply)[0],
        sent ==> words(rest) == words(reply).skip(1),
        !sent ==> words(rest).len() == 0,
{
    assert((seq![(said->0).0] + words((said->0).1)).skip(1) =~= words((said->0).1));
}

/// A reply comes to an end only when all its words have been said.
pub proof fn law_replies_end_when_said(
    reply: WebResourceReply,
    said: Option<(WebResourceResponseMsg, WebResourceReply)>,
    url: Url,
    response: Option<WebResponse>,
    made: WebResourceReply,
)
    requires
        call_ensures(WebResourceReply::next, (reply,), said),
        call_ensures(WebResourceReply::new, (url, response), made),
    ensures
        said is None <==> words(reply).len() == 0,
        response is None ==> words(made) == seq![WebResourceResponseMsg::DoNotIntercept],
        response matches Some(given) ==> words(made) == seq![
            WebResourceResponseMsg::Start { url, headers: given.headers, status: given.status },
            WebResourceResponseMsg::SendBodyData(given.body),
            WebResourceResponseMsg::FinishLoad,
        ],
{
}

// --------------------------------------------------------------- windows
/// A new window has the web views and the tab that it was made with, and nobody listens to
/// it; a refreshed one has those that it was refreshed with, and who listens stays.
pub proof fn law_windows_have_what_they_were_given<R>(
    webviews: Vec<WebViewId>,
    tab: Option<Tab>,
    made: Window<R>,
    refreshed: &mut Window<R>,
    shell: &mut Verso<R>,
    id: WindowId,
    other: WindowId,
)
    requires
        call_ensures(Window::<R>::new, (webviews, tab), made),
        call_ensures(Window::<R>::refresh, (refreshed, webviews, tab), ()),
        call_ensures(Verso::<R>::refresh_window, (shell, id, webviews, tab), ()),
        old(shell)@.windows.contains_key(id),
        other != id,
    ensures
        made@.webviews == webviews@,
        made@.current_tab is Some <==> tab is Some,
        tab matches Some(t) ==> made@.current_tab == Some(
            (TabModel { id: t.id, history: t.history@, current_idx: t.current_idx as int }),
        ),
        !made@.on_close_requested,
        !made@.on_navigation_starting,
        made@.on_web_resource_requested is None,
        final(refreshed)@.webviews == made@.webviews,
        final(refreshed)@.current_tab == made@.current_tab,
        final(refreshed)@.on_close_requested == old(refreshed)@.on_close_requested,
        final(refreshed)@.on_navigation_starting == old(refreshed)@.on_navigation_starting,
        final(refreshed)@.on_web_resource_requested == old(refreshed)@.on_web_resource_requested,
        final(shell)@.windows[id].webviews == made@.webviews,
        final(shell)@.windows[id].current_tab == made@.current_tab,
        final(shell)@.windows[id].on_close_requested
            == old(shell)@.windows[id].on_close_requested,
        final(shell)@.windows[id].on_navigation_starting
            == old(shell)@.windows[id].on_navigation_starting,
        final(shell)@.windows[id].on_web_resource_requested
            == old(shell)@.windows[id].on_web_resource_requested,
        final(shell)@.windows.contains_key(other) == old(shell)@.windows.contains_key(other),
        final(shell)@.windows[other] == old(shell)@.windows[other],
        final(shell)@.documents == old(shell)@.documents,
        final(shell)@.compositor == old(shell)@.compositor,
        final(shell)@.has_controller == old(shell)@.has_controller,
        final(shell)@.url == old(shell)@.url,
{
}

/// What a window is asked of itself: whether a web view is anywhere among its own, and
/// whether it shows a page of its tab's history.
pub proof fn law_windows_know_themselves<R>(
    window: &Window<R>,
    webview: WebViewId,
    has: bool,
    shows: bool,
)
    requires
        call_ensures(Window::<R>::has_webview, (window, webview), has),
        call_ensures(Window::<R>::shows_address, (window,), shows),
    ensures
        has <==> exists|i: int|
            0 <= i < window.webviews@.len() && #[trigger] window.webviews@[i] == webview,
        shows <==> window.current_tab is Some && window.current_tab->0.current_idx
            < window.current_tab->0.history@.len(),
{
}

// --------------------------------------------------------------- the shell
/// A new shell has one window, with the document that was added for it, and all else that
/// it was made with.
pub proof fn law_new_shells<R>(
    id: WindowId,
    window: Window<R>,
    document: DocumentId,
    status: CompositorStatus,
    has_controller: bool,
    url: Url,
    made: Verso<R>,
    other: WindowId,
)
    requires
        call_ensures(Verso::<R>::new, (id, window, document, status, has_controller, url), made),
    ensures
        made@.windows.contains_key(other) <==> other == id,
        made@.windows[id] == window@,
        made@.documents.contains_key(other) <==> other == id,
        made@.documents[id] == document,
        made@.compositor == Some(status),
        made@.has_controller == has_controller,
        made@.url == url,
{
}

/// What the shell is asked of itself is what is in it.
pub proof fn law_shells_know_themselves<R>(
    shell: &Verso<R>,
    id: WindowId,
    is_there: bool,
    none: bool,
    ids: Vec<WindowId>,
    window: Option<&Window<R>>,
    document: Option<DocumentId>,
    compositor: Option<CompositorStatus>,
    has_controller: bool,
    url: &Url,
    animating: bool,
)
    requires
        call_ensures(Verso::<R>::has_window, (shell, id), is_there),
        call_ensures(Verso::<R>::has_no_windows, (shell,), none),
        call_ensures(Verso::<R>::window_ids, (shell,), ids),
        call_ensures(Verso::<R>::window, (shell, id), window),
        call_ensures(Verso::<R>::document, (shell, id), document),
        call_ensures(Verso::<R>::compositor, (shell,), compositor),
        call_ensures(Verso::<R>::has_controller, (shell,), has_controller),
        call_ensures(Verso::<R>::start_url, (shell,), url),
        call_ensures(Verso::<R>::is_animating, (shell,), animating),
    ensures
        is_there <==> shell@.windows.contains_key(id),
        none ==> !is_there,
        ids@.contains(id) <==> is_there,
        ids@.len() == 0 ==> none,
        window is Some <==> is_there,
        window is Some ==> window->0@ == shell@.windows[id],
        document is Some <==> is_there,
        document is Some ==> document->0 == shell@.documents[id],
        compositor == shell@.compositor,
        has_controller == shell@.has_controller,
        *url == shell@.url,
        animating <==> compositor is Some && compositor->0.is_animating,
{
    if none {
        assert(!Set::<WindowId>::empty().contains(id));
    }
    assert(ids@.to_set().contains(id) <==> ids@.contains(id));
    if ids@.len() == 0 {
        assert(ids@.to_set() =~= Set::<WindowId>::empty());
    }
}

/// The first window is a window, if there is one; its web view is that of its tab; and a
/// window that is found for a web view has it.
pub proof fn law_windows_are_found<R>(
    shell: &Verso<R>,
    id: WindowId,
    at: int,
    first: Option<WindowId>,
    shown: Option<WebViewId>,
    webview: WebViewId,
    found: Option<WindowId>,
)
    requires
        call_ensures(Verso::<R>::first_window, (shell,), first),
        call_ensures(Verso::<R>::first_webview_id, (shell, Some(id)), shown),
        call_ensures(Verso::<R>::window_with_webview, (shell, webview), found),
        shell@.windows.contains_key(id),
    ensures
        first is Some && shell@.windows.contains_key(first->0),
        shown is Some <==> shell@.windows[id].current_tab is Some,
        shown is Some ==> shown->0 == shell@.windows[id].current_tab->0.id,
        found matches Some(w) ==> shell@.windows.contains_key(w)
            && shell@.windows[w].webviews.contains(webview),
        found is None && 0 <= at < shell@.windows[id].webviews.len()
            ==> shell@.windows[id].webviews[at] != webview,
{
    assert(!Set::<WindowId>::empty().contains(id));
    if first is None {
        assert(shell@.windows.dom().contains(id));
    }
}

/// A window that is changed in its place is then there as it was changed to, and nothing
/// else changes; an unknown window is not there to be changed.
pub proof fn law_windows_change_in_place<R>(
    shell: &mut Verso<R>,
    id: WindowId,
    found: Option<&mut Window<R>>,
    other: WindowId,
)
    requires
        call_ensures(Verso::<R>::window_mut, (shell, id), found),
        other != id,
    ensures
        found is Some <==> old(shell)@.windows.contains_key(id),
        found matches Some(window) ==> {
            &&& window@ == old(shell)@.windows[id]
            &&& final(shell)@.windows.contains_key(id)
            &&& final(shell)@.windows[id] == final(window)@
        },
        found is None ==> final(shell)@.windows == old(shell)@.windows,
        final(shell)@.windows.contains_key(other) == old(shell)@.windows.contains_key(other),
        final(shell)@.windows[other] == old(shell)@.windows[other],
        final(shell)@.documents == old(shell)@.documents,
        final(shell)@.compositor == old(shell)@.compositor,
        final(shell)@.has_controller == old(shell)@.has_controller,
        final(shell)@.url == old(shell)@.url,
{
}

/// What the compositor says is noted, the windows that it closed are gone, and nothing
/// else changes.
pub proof fn law_compositor_is_heard<R>(
    noted: &mut Verso<R>,
    status: CompositorStatus,
    reported: &mut Verso<R>,
    report: CompositorReport,
    id: WindowId,
)
    requires
        call_ensures(Verso::<R>::observe_status, (noted, status), ()),
        call_ensures(Verso::<R>::observe_report, (reported, report), ()),
    ensures
        final(noted)@.compositor == Some(status),
        final(noted)@.windows == old(noted)@.windows,
        final(noted)@.documents == old(noted)@.documents,
        final(noted)@.has_controller == old(noted)@.has_controller,
        final(noted)@.url == old(noted)@.url,
        final(reported)@.compositor == Some(report.status),
        final(reported)@.windows.contains_key(id) <==> old(reported)@.windows.contains_key(id)
            && !report.closed@.contains(id),
        final(reported)@.windows.contains_key(id) ==> final(reported)@.windows[id]
            == old(reported)@.windows[id],
        final(reported)@.documents.contains_key(id) <==> old(reported)@.documents.contains_key(id)
            && !report.closed@.contains(id),
        final(reported)@.documents.contains_key(id) ==> final(reported)@.documents[id]
            == old(reported)@.documents[id],
        final(reported)@.has_controller == old(reported)@.has_controller,
        final(reported)@.url == old(reported)@.url,
{
    assert(report.closed@.to_set().contains(id) <==> report.closed@.contains(id));
}

/// The shell handles messages of the host as the laws on messages say, for the window that
/// is chosen as the first or for one that may be.
pub proof fn law_shells_handle_messages<R, A, S>(
    shell: &mut Verso<R>,
    first: Option<WindowId>,
    message: ToVersoMessage<A>,
    step: WebviewStep<R, S>,
    any: &mut Verso<R>,
    any_step: WebviewStep<R, S>,
    asked: &Verso<R>,
    can: bool,
)
    requires
        call_ensures(
            Verso::<R>::handle_webview_message_at::<A, S>,
            (shell, first, message),
            step,
        ),
        call_ensures(Verso::<R>::handle_incoming_webview_message::<A, S>, (any, message), any_step),
        call_ensures(Verso::<R>::can_handle_message::<A>, (asked, first, &message), can),
    ensures
        step == webview_step::<R, A, S>(old(shell)@, first, message),
        final(shell)@ == verso_after(old(shell)@, first, message),
        exists|w: Option<WindowId>|
            {
                &&& #[trigger] old(any)@.may_come_first(w)
                &&& any_step == webview_step::<R, A, S>(old(any)@, w, message)
                &&& final(any)@ == verso_after(old(any)@, w, message)
            },
        can == can_handle(asked@, first, message),
{
}

/// The shell begins to handle an event, goes on and ends as the laws on events say.
pub proof fn law_shells_handle_events<R>(
    shell: &Verso<R>,
    platform: Platform,
    window: WindowId,
    event: WindowEvent,
    begun: WindowEventStep,
    sent: bool,
    reported: WindowEventStep,
    resizing: bool,
    ended: WindowEventStep,
    redraw: RedrawStep,
    visible: Option<bool>,
    redrawn: RedrawStep,
)
    requires
        call_ensures(Verso::<R>::handle_window_event, (shell, platform, window, event), begun),
        call_ensures(Verso::<R>::close_request_reported, (platform, sent), reported),
        call_ensures(Verso::<R>::event_handled, (platform, event, resizing), ended),
        call_ensures(Verso::<R>::request_redraw, (shell,), redraw),
        call_ensures(Verso::<R>::window_redraw_requested, (visible,), redrawn),
    ensures
        begun == event_start(shell@, platform, window, event),
        reported == after_close_report(platform, sent),
        ended == event_end(platform, event, resizing),
        redraw == redraw_start(shell@),
        visible == Some(false) ==> redrawn == RedrawStep::HandleServoMessages,
        visible != Some(false) ==> redrawn == RedrawStep::Nothing,
{
}

// --------------------------------------------------------------- turns
/// A turn of the shell begins, and goes on after the steps that change nothing, as the laws
/// on turns say.
pub proof fn law_shells_take_turns<R>(
    shell: &Verso<R>,
    begun: ServoStep,
    msg: EmbedderMsg,
    polled: Option<EmbedderMsg>,
    next: ServoStep,
    concerned: Option<WebViewId>,
    handled: ServoStep,
    port: Result<u16, ()>,
)
    requires
        call_ensures(Verso::<R>::handle_servo_messages, (shell,), begun),
        call_ensures(Verso::<R>::embedder_polled, (shell, polled), next),
        call_ensures(get_embedder_message_webview_id, (&msg,), concerned),
        call_ensures(Verso::<R>::message_handled, (shell,), handled),
    ensures
        begun == turn_start(shell@),
        turn_next(shell@, ServoStep::PollEmbedder, TurnEvent::Polled(polled), shell@, next),
        concerned == concerned_webview(msg),
        turn_next(shell@, ServoStep::AllowDevtools, TurnEvent::Done, shell@, handled),
        turn_next(shell@, ServoStep::ReportDevtools(port), TurnEvent::Done, shell@, handled),
{
}

/// A turn of the shell goes on after the work of the compositor as the laws on turns say.
pub proof fn law_shells_follow_the_compositor<R>(
    received: &mut Verso<R>,
    report: CompositorReport,
    after_receiving: ServoStep,
    updated: &mut Verso<R>,
    after_updates: ServoStep,
    finished: &mut Verso<R>,
    status: CompositorStatus,
    after_finishing: ServoStep,
    started: &mut Verso<R>,
    after_starting: ServoStep,
)
    requires
        call_ensures(Verso::<R>::compositor_received, (received, report), after_receiving),
        call_ensures(Verso::<R>::updates_performed, (updated, report), after_updates),
        call_ensures(Verso::<R>::shutdown_finished, (finished, status), after_finishing),
        call_ensures(Verso::<R>::shutdown_started, (started, status), after_starting),
    ensures
        turn_next(
            old(received)@,
            ServoStep::ReceiveCompositorMessages,
            TurnEvent::Reported { status: report.status, closed: report.closed@.to_set() },
            final(received)@,
            after_receiving,
        ),
        turn_next(
            old(updated)@,
            ServoStep::PerformUpdates,
            TurnEvent::Reported { status: report.status, closed: report.closed@.to_set() },
            final(updated)@,
            after_updates,
        ),
        turn_next(
            old(finished)@,
            ServoStep::FinishShuttingDown,
            TurnEvent::Observed(status),
            final(finished)@,
            after_finishing,
        ),
        turn_next(
            old(started)@,
            ServoStep::StartShuttingDown,
            TurnEvent::Observed(status),
            final(started)@,
            after_starting,
        ),
{
}

/// A turn of the shell goes on after the work of a window as the laws on turns say.
pub proof fn law_shells_follow_the_windows<R>(
    handled: &mut Verso<R>,
    window: WindowId,
    webview: WebViewId,
    wants_window: bool,
    status: CompositorStatus,
    after_handling: ServoStep,
    opened: &mut Verso<R>,
    id: WindowId,
    new_window: Window<R>,
    url: Url,
    after_opening: ServoStep,
    redrawn: &mut Verso<R>,
    after_redraw: ServoStep,
)
    requires
        call_ensures(
            Verso::<R>::window_handled_message,
            (handled, window, wants_window, status),
            after_handling,
        ),
        call_ensures(
            Verso::<R>::window_opened,
            (opened, window, id, new_window, status),
            after_opening,
        ),
        call_ensures(Verso::<R>::redraw_requested, (redrawn,), after_redraw),
    ensures
        turn_next(
            old(handled)@,
            ServoStep::DeliverToWindow { window, webview },
            TurnEvent::Handled { wants_window, status },
            final(handled)@,
            after_handling,
        ),
        turn_next(
            old(opened)@,
            ServoStep::OpenWindow { opener: window, url },
            TurnEvent::Opened { id, window: new_window@, status },
            final(opened)@,
            after_opening,
        ),
        turn_next(
            old(redrawn)@,
            ServoStep::RequestRedraw(window),
            TurnEvent::Done,
            final(redrawn)@,
            after_redraw,
        ),
{
}

} // verus!
