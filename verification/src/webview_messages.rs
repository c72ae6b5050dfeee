//! What the browser does about a message from its host.
use std::collections::HashMap;

use dpi::{PhysicalPosition, PhysicalSize, Position, Size};
use url::Url;
use vstd::prelude::*;

#[allow(unused_imports)]
use crate::ids::{names_pipeline, pipeline_named};
use crate::ids::{PipelineId, RequestId, WebViewId, WindowId};
use crate::messages::{
    PositionType, SizeType, Theme, ToControllerMessage, ToVersoMessage, WindowLevel,
};
use crate::verso::Verso;
#[allow(unused_imports)]
use crate::verso::VersoModel;
use crate::window::WebResourceReply;
#[allow(unused_imports)]
use crate::window::WindowModel;

verus! {

broadcast use vstd::std_specs::hash::group_hash_axioms;

/// A message to the engine.
#[derive(Debug)]
pub enum ConstellationMsg {
    LoadUrl(WebViewId, Url),
    Reload(WebViewId),
    AllowNavigationResponse(PipelineId, bool),
}

/// How a window fills the screen: without a frame, on the monitor it is on.
#[derive(Clone, Copy, Debug, PartialEq, Eq, Structural)]
pub enum Fullscreen {
    Borderless,
}

/// Something for the windowing system to do to a window.
#[derive(Debug)]
pub enum WindowCommand {
    SetTitle(String),
    RequestInnerSize(Size),
    SetOuterPosition(Position),
    SetMaximized(bool),
    SetMinimized(bool),
    SetFullscreen(Option<Fullscreen>),
    SetVisible(bool),
    SetWindowLevel(WindowLevel),
    SetTheme(Option<Theme>),
    DragWindow,
    FocusWindow,
}

/// Something for the windowing system to tell of a window.
#[derive(Clone, Copy, Debug, PartialEq, Eq, Structural)]
pub enum WindowQuery {
    Title,
    Size(SizeType),
    Position(PositionType),
    Minimized,
    Maximized,
    Fullscreen,
    Visible,
    ScaleFactor,
    Theme,
}

/// What the windowing system told. Where it does not know, there is `None`.
#[derive(Debug)]
pub enum WindowFact {
    Title(String),
    Size(PhysicalSize<u32>),
    Position(Option<PhysicalPosition<i32>>),
    Minimized(Option<bool>),
    Maximized(bool),
    /// How the window fills the screen, if it does.
    Fullscreen(Option<Fullscreen>),
    Visible(Option<bool>),
    /// The scale factor by the bits of its double.
    ScaleFactor(u64),
    Theme(Option<Theme>),
}

/// What to do about a message from the host. `R` takes the word on one
/// intercepted request back to the engine, `S` reaches the browser.
#[derive(Debug)]
pub enum WebviewStep<R, S> {
    Nothing,
    /// Start shutting the compositor down, then handle the engine's messages.
    StartShuttingDown,
    /// Send to the engine.
    Constellation(ConstellationMsg),
    /// Run the script in the web view.
    ExecuteScript(WebViewId, String),
    /// Say the words of the reply on `sender`, one by one, until one fails.
    Reply { sender: R, reply: WebResourceReply },
    /// Have the windowing system do this to the window.
    Command(WindowId, WindowCommand),
    /// Have the windowing system tell this of the window, and send the host what
    /// [`answer_query`] makes of it.
    Query { window: WindowId, id: RequestId, query: WindowQuery },
    /// Send to the host.
    Controller(ToControllerMessage<S>),
    /// Settings came after the first message: report it and drop them.
    LateConfig,
}

/// `fact` is of the kind that `query` asks for.
pub open spec fn tells(fact: WindowFact, query: WindowQuery) -> bool {
    match query {
        WindowQuery::Title => fact is Title,
        WindowQuery::Size(_) => fact is Size,
        WindowQuery::Position(_) => fact is Position,
        WindowQuery::Minimized => fact is Minimized,
        WindowQuery::Maximized => fact is Maximized,
        WindowQuery::Fullscreen => fact is Fullscreen,
        WindowQuery::Visible => fact is Visible,
        WindowQuery::ScaleFactor => fact is ScaleFactor,
        WindowQuery::Theme => fact is Theme,
    }
}

/// The answer to the question `id`. A window of which it is not known is taken
/// not to be minimized, to be visible, and to be light.
pub open spec fn answer_to<S>(id: RequestId, fact: WindowFact) -> ToControllerMessage<S> {
    match fact {
        WindowFact::Title(title) => ToControllerMessage::GetTitleResponse(id, title),
        WindowFact::Size(size) => ToControllerMessage::GetSizeResponse(id, size),
        WindowFact::Position(position) => ToControllerMessage::GetPositionResponse(id, position),
        WindowFact::Minimized(minimized) => ToControllerMessage::GetMinimizedResponse(
            id,
            minimized == Some(true),
        ),
        WindowFact::Maximized(maximized) => ToControllerMessage::GetMaximizedResponse(
            id,
            maximized,
        ),
        WindowFact::Fullscreen(fullscreen) => ToControllerMessage::GetFullscreenResponse(
            id,
            fullscreen is Some,
        ),
        WindowFact::Visible(visible) => ToControllerMessage::GetVisibleResponse(
            id,
            visible != Some(false),
        ),
        WindowFact::ScaleFactor(bits) => ToControllerMessage::GetScaleFactorResponse(id, bits),
        WindowFact::Theme(theme) => ToControllerMessage::GetThemeResponse(
            id,
            if theme == Some(Theme::Dark) {
                Theme::Dark
            } else {
                Theme::Light
            },
        ),
    }
}

/// Makes the answer to the question `id` out of what the windowing system told.
pub fn answer_query<S>(id: RequestId, fact: WindowFact) -> (r: ToControllerMessage<S>)
    ensures
        r == answer_to::<S>(id, fact),
{
    match fact {
        WindowFact::Title(title) => ToControllerMessage::GetTitleResponse(id, title),
        WindowFact::Size(size) => ToControllerMessage::GetSizeResponse(id, size),
        WindowFact::Position(position) => ToControllerMessage::GetPositionResponse(id, position),
        WindowFact::Minimized(minimized) => ToControllerMessage::GetMinimizedResponse(
            id,
            match minimized {
                Some(minimized) => minimized,
                None => false,
            },
        ),
        WindowFact::Maximized(maximized) => ToControllerMessage::GetMaximizedResponse(
            id,
            maximized,
        ),
        WindowFact::Fullscreen(fullscreen) => ToControllerMessage::GetFullscreenResponse(
            id,
            fullscreen.is_some(),
        ),
        WindowFact::Visible(visible) => ToControllerMessage::GetVisibleResponse(
            id,
            match visible {
                Some(visible) => visible,
                None => true,
            },
        ),
        WindowFact::ScaleFactor(bits) => ToControllerMessage::GetScaleFactorResponse(id, bits),
        WindowFact::Theme(theme) => ToControllerMessage::GetThemeResponse(
            id,
            match theme {
                Some(Theme::Dark) => Theme::Dark,
                _ => Theme::Light,
            },
        ),
    }
}

/// The message asks the browser a question, to be answered to the host.
pub open spec fn is_question<A>(message: ToVersoMessage<A>) -> bool {
    ||| message is GetTitle
    ||| message is GetSize
    ||| message is GetPosition
    ||| message is GetMinimized
    ||| message is GetMaximized
    ||| message is GetFullscreen
    ||| message is GetVisible
    ||| message is GetScaleFactor
    ||| message is GetTheme
    ||| message is GetCurrentUrl
}

/// With `first` as the first window, the message can be handled: a navigation
/// answer names a pipeline, there is a host to answer questions to, and a window
/// asked for its address shows one.
pub open spec fn can_handle<R, A>(
    s: VersoModel<R>,
    first: Option<WindowId>,
    message: ToVersoMessage<A>,
) -> bool {
    &&& message matches ToVersoMessage::OnNavigationStartingResponse(id, _) ==> names_pipeline(id@)
    &&& is_question(message) && first is Some ==> s.has_controller
    &&& message is GetCurrentUrl ==> (first matches Some(w) ==> s.windows[w].shows_address())
}

/// A command to the first window, if there is one.
pub open spec fn command_step<R, S>(first: Option<WindowId>, command: WindowCommand) -> WebviewStep<
    R,
    S,
> {
    match first {
        Some(w) => WebviewStep::Command(w, command),
        None => WebviewStep::Nothing,
    }
}

/// A query of the first window, if there is one.
pub open spec fn query_step<R, S>(
    first: Option<WindowId>,
    id: RequestId,
    query: WindowQuery,
) -> WebviewStep<R, S> {
    match first {
        Some(w) => WebviewStep::Query { window: w, id, query },
        None => WebviewStep::Nothing,
    }
}

/// What is to be done about the message.
pub open spec fn webview_step<R, A, S>(
    s: VersoModel<R>,
    first: Option<WindowId>,
    message: ToVersoMessage<A>,
) -> WebviewStep<R, S> {
    match message {
        ToVersoMessage::Exit => if s.compositor is Some {
            WebviewStep::StartShuttingDown
        } else {
            WebviewStep::Nothing
        },
        ToVersoMessage::ListenToOnCloseRequested
        | ToVersoMessage::ListenToOnNavigationStarting
        | ToVersoMessage::ListenToWebResourceRequests => WebviewStep::Nothing,
        ToVersoMessage::NavigateTo(url) => match s.shown_webview(first) {
            Some(webview) => WebviewStep::Constellation(ConstellationMsg::LoadUrl(webview, url)),
            None => WebviewStep::Nothing,
        },
        ToVersoMessage::Reload => match s.shown_webview(first) {
            Some(webview) => WebviewStep::Constellation(ConstellationMsg::Reload(webview)),
            None => WebviewStep::Nothing,
        },
        ToVersoMessage::OnNavigationStartingResponse(id, allow) => WebviewStep::Constellation(
            ConstellationMsg::AllowNavigationResponse(pipeline_named(id@), allow),
        ),
        ToVersoMessage::ExecuteScript(js) => match s.shown_webview(first) {
            Some(webview) => WebviewStep::ExecuteScript(webview, js),
            None => WebviewStep::Nothing,
        },
        ToVersoMessage::WebResourceRequestResponse(word) => if first is Some
            && s.windows[first->0].waits_for(word.id) {
            let (url, sender) = s.windows[first->0].on_web_resource_requested->0[word.id];
            WebviewStep::Reply {
                sender,
                reply: match word.response {
                    Some(response) => WebResourceReply::Respond { url, response },
                    None => WebResourceReply::Decline,
                },
            }
        } else {
            WebviewStep::Nothing
        },
        ToVersoMessage::SetTitle(title) => command_step(first, WindowCommand::SetTitle(title)),
        ToVersoMessage::SetSize(size) => command_step(first, WindowCommand::RequestInnerSize(size)),
        ToVersoMessage::SetPosition(position) => command_step(
            first,
            WindowCommand::SetOuterPosition(position),
        ),
        ToVersoMessage::SetMaximized(maximized) => command_step(
            first,
            WindowCommand::SetMaximized(maximized),
        ),
        ToVersoMessage::SetMinimized(minimized) => command_step(
            first,
            WindowCommand::SetMinimized(minimized),
        ),
        ToVersoMessage::SetFullscreen(fullscreen) => command_step(
            first,
            WindowCommand::SetFullscreen(
                if fullscreen {
                    Some(Fullscreen::Borderless)
                } else {
                    None
                },
            ),
        ),
        ToVersoMessage::SetVisible(visible) => command_step(
            first,
            WindowCommand::SetVisible(visible),
        ),
        ToVersoMessage::SetWindowLevel(window_level) => command_step(
            first,
            WindowCommand::SetWindowLevel(window_level),
        ),
        ToVersoMessage::SetTheme(theme) => command_step(first, WindowCommand::SetTheme(theme)),
        ToVersoMessage::StartDragging => command_step(first, WindowCommand::DragWindow),
        ToVersoMessage::Focus => command_step(first, WindowCommand::FocusWindow),
        ToVersoMessage::GetTitle(id) => query_step(first, id, WindowQuery::Title),
        ToVersoMessage::GetSize(id, size_type) => query_step(
            first,
            id,
            WindowQuery::Size(size_type),
        ),
        ToVersoMessage::GetPosition(id, position_type) => query_step(
            first,
            id,
            WindowQuery::Position(position_type),
        ),
        ToVersoMessage::GetMinimized(id) => query_step(first, id, WindowQuery::Minimized),
        ToVersoMessage::GetMaximized(id) => query_step(first, id, WindowQuery::Maximized),
        ToVersoMessage::GetFullscreen(id) => query_step(first, id, WindowQuery::Fullscreen),
        ToVersoMessage::GetVisible(id) => query_step(first, id, WindowQuery::Visible),
        ToVersoMessage::GetScaleFactor(id) => query_step(first, id, WindowQuery::ScaleFactor),
        ToVersoMessage::GetTheme(id) => query_step(first, id, WindowQuery::Theme),
        ToVersoMessage::GetCurrentUrl(id) => match first {
            Some(w) => WebviewStep::Controller(
                ToControllerMessage::GetCurrentUrlResponse(id, s.windows[w].address()),
            ),
            None => WebviewStep::Nothing,
        },
        ToVersoMessage::SetConfig(_) => WebviewStep::LateConfig,
    }
}

/// The first window after the message: the host's wish to listen is noted in it,
/// and a request that the host has spoken on waits no longer.
pub open spec fn window_after<R, A>(
    w: WindowModel<R>,
    message: ToVersoMessage<A>,
) -> WindowModel<R> {
    match message {
        ToVersoMessage::ListenToOnCloseRequested => WindowModel { on_close_requested: true, ..w },
        ToVersoMessage::ListenToOnNavigationStarting => WindowModel {
            on_navigation_starting: true,
            ..w
        },
        ToVersoMessage::ListenToWebResourceRequests => WindowModel {
            on_web_resource_requested: Some(Map::empty()),
            ..w
        },
        ToVersoMessage::WebResourceRequestResponse(word) => match w.on_web_resource_requested {
            Some(pending) => WindowModel {
                on_web_resource_requested: Some(pending.remove(word.id)),
                ..w
            },
            None => w,
        },
        _ => w,
    }
}

/// The shell after the message: the first window is [`window_after`] it, and
/// nothing else changes.
pub open spec fn verso_after<R, A>(
    s: VersoModel<R>,
    first: Option<WindowId>,
    message: ToVersoMessage<A>,
) -> VersoModel<R> {
    match first {
        Some(w) => s.with_window_changed(w, window_after(s.windows[w], message)),
        None => s,
    }
}

/// Commands the first window, if there is one.
fn command_first<R, S>(first: Option<WindowId>, command: WindowCommand) -> (r: WebviewStep<R, S>)
    ensures
        r == command_step::<R, S>(first, command),
{
    match first {
        Some(w) => WebviewStep::Command(w, command),
        None => WebviewStep::Nothing,
    }
}

/// Queries the first window, if there is one.
fn query_first<R, S>(
    first: Option<WindowId>,
    id: RequestId,
    query: WindowQuery,
) -> (r: WebviewStep<R, S>)
    ensures
        r == query_step::<R, S>(first, id, query),
{
    match first {
        Some(w) => WebviewStep::Query { window: w, id, query },
        None => WebviewStep::Nothing,
    }
}

impl<R> Verso<R> {
    /// Whether the message can be handled as one to the window `first`.
    pub fn can_handle_message<A>(
        &self,
        first: Option<WindowId>,
        message: &ToVersoMessage<A>,
    ) -> (r: bool)
        requires
            self@.may_come_first(first),
        ensures
            r == can_handle(self@, first, *message),
    {
        let asks = match message {
            ToVersoMessage::GetTitle(_)
            | ToVersoMessage::GetSize(_, _)
            | ToVersoMessage::GetPosition(_, _)
            | ToVersoMessage::GetMinimized(_)
            | ToVersoMessage::GetMaximized(_)
            | ToVersoMessage::GetFullscreen(_)
            | ToVersoMessage::GetVisible(_)
            | ToVersoMessage::GetScaleFactor(_)
            | ToVersoMessage::GetTheme(_)
            | ToVersoMessage::GetCurrentUrl(_) => true,
            _ => false,
        };
        if asks && first.is_some() && !self.has_controller() {
            return false;
        }
        match message {
            ToVersoMessage::OnNavigationStartingResponse(id, _) => PipelineId::decode(
                id.as_slice(),
            ).is_some(),
            ToVersoMessage::GetCurrentUrl(_) => match first {
                Some(w) => match self.window(w) {
                    Some(window) => window.shows_address(),
                    None => false,
                },
                None => true,
            },
            _ => true,
        }
    }

    /// Handles a message from the host.
    ///
    /// It concerns the first window. Which window that is, is left open where there
    /// are several: of every outcome it holds that the message was handled as
    /// [`Self::handle_webview_message_at`] does for one of the windows.
    pub fn handle_incoming_webview_message<A, S>(
        &mut self,
        message: ToVersoMessage<A>,
    ) -> (r: WebviewStep<R, S>)
        requires
            forall|first: Option<WindowId>| #[trigger]
                old(self)@.may_come_first(first) ==> can_handle(old(self)@, first, message),
        ensures
            exists|first: Option<WindowId>|
                {
                    &&& #[trigger] old(self)@.may_come_first(first)
                    &&& r == webview_step::<R, A, S>(old(self)@, first, message)
                    &&& final(self)@ == verso_after(old(self)@, first, message)
                },
            old(self)@.well_formed() ==> final(self)@.well_formed(),
    {
        let first = self.first_window();
        self.handle_webview_message_at(first, message)
    }

    /// Handles a message from the host as one to the window `first`.
    pub fn handle_webview_message_at<A, S>(
        &mut self,
        first: Option<WindowId>,
        message: ToVersoMessage<A>,
    ) -> (r: WebviewStep<R, S>)
        requires
            old(self)@.may_come_first(first),
            can_handle(old(self)@, first, message),
        ensures
            r == webview_step::<R, A, S>(old(self)@, first, message),
            final(self)@ == verso_after(old(self)@, first, message),
            old(self)@.well_formed() ==> final(self)@.well_formed(),
    {
        proof {
            if let Some(w) = first {
                lemma_unchanged(old(self)@, w);
            }
        }
        match message {
            ToVersoMessage::Exit => if self.compositor().is_some() {
                WebviewStep::StartShuttingDown
            } else {
                WebviewStep::Nothing
            },
            ToVersoMessage::ListenToOnCloseRequested => {
                if let Some(w) = first {
                    if let Some(window) = self.window_mut(w) {
                        window.event_listeners.on_close_requested = true;
                    }
                }
                WebviewStep::Nothing
            },
            ToVersoMessage::NavigateTo(url) => match self.first_webview_id(first) {
                Some(webview) => WebviewStep::Constellation(
                    ConstellationMsg::LoadUrl(webview, url),
                ),
                None => WebviewStep::Nothing,
            },
            ToVersoMessage::Reload => match self.first_webview_id(first) {
                Some(webview) => WebviewStep::Constellation(ConstellationMsg::Reload(webview)),
                None => WebviewStep::Nothing,
            },
            ToVersoMessage::ListenToOnNavigationStarting => {
                if let Some(w) = first {
                    if let Some(window) = self.window_mut(w) {
                        window.event_listeners.on_navigation_starting = true;
                    }
                }
                WebviewStep::Nothing
            },
            ToVersoMessage::OnNavigationStartingResponse(id, allow) => match PipelineId::decode(
                id.as_slice(),
            ) {
                Some(pipeline) => WebviewStep::Constellation(
                    ConstellationMsg::AllowNavigationResponse(pipeline, allow),
                ),
                None => WebviewStep::Nothing,
            },
            ToVersoMessage::ExecuteScript(js) => match self.first_webview_id(first) {
                Some(webview) => WebviewStep::ExecuteScript(webview, js),
                None => WebviewStep::Nothing,
            },
            ToVersoMessage::ListenToWebResourceRequests => {
                if let Some(w) = first {
                    if let Some(window) = self.window_mut(w) {
                        window.event_listeners.on_web_resource_requested = Some(HashMap::new());
                    }
                }
                WebviewStep::Nothing
            },
            ToVersoMessage::WebResourceRequestResponse(word) => {
                let mut step = WebviewStep::Nothing;
                if let Some(w) = first {
                    if let Some(window) = self.window_mut(w) {
                        if let Some((url, sender)) = window.release_request(word.id) {
                            step = WebviewStep::Reply {
                                sender,
                                reply: WebResourceReply::new(url, word.response),
                            };
                        }
                    }
                }
                step
            },
            ToVersoMessage::SetTitle(title) => command_first(first, WindowCommand::SetTitle(title)),
            ToVersoMessage::SetSize(size) => command_first(
                first,
                WindowCommand::RequestInnerSize(size),
            ),
            ToVersoMessage::SetPosition(position) => command_first(
                first,
                WindowCommand::SetOuterPosition(position),
            ),
            ToVersoMessage::SetMaximized(maximized) => command_first(
                first,
                WindowCommand::SetMaximized(maximized),
            ),
            ToVersoMessage::SetMinimized(minimized) => command_first(
                first,
                WindowCommand::SetMinimized(minimized),
            ),
            ToVersoMessage::SetFullscreen(fullscreen) => command_first(
                first,
                WindowCommand::SetFullscreen(
                    if fullscreen {
                        Some(Fullscreen::Borderless)
                    } else {
                        None
                    },
                ),
            ),
            ToVersoMessage::SetVisible(visible) => command_first(
                first,
                WindowCommand::SetVisible(visible),
            ),
            ToVersoMessage::SetWindowLevel(window_level) => command_first(
                first,
                WindowCommand::SetWindowLevel(window_level),
            ),
            ToVersoMessage::SetTheme(theme) => command_first(first, WindowCommand::SetTheme(theme)),
            ToVersoMessage::StartDragging => command_first(first, WindowCommand::DragWindow),
            ToVersoMessage::Focus => command_first(first, WindowCommand::FocusWindow),
            ToVersoMessage::GetTitle(id) => query_first(first, id, WindowQuery::Title),
            ToVersoMessage::GetSize(id, size_type) => query_first(
                first,
                id,
                WindowQuery::Size(size_type),
            ),
            ToVersoMessage::GetPosition(id, position_type) => query_first(
                first,
                id,
                WindowQuery::Position(position_type),
            ),
            ToVersoMessage::GetMinimized(id) => query_first(first, id, WindowQuery::Minimized),
            ToVersoMessage::GetMaximized(id) => query_first(first, id, WindowQuery::Maximized),
            ToVersoMessage::GetFullscreen(id) => query_first(first, id, WindowQuery::Fullscreen),
            ToVersoMessage::GetVisible(id) => query_first(first, id, WindowQuery::Visible),
            ToVersoMessage::GetScaleFactor(id) => query_first(first, id, WindowQuery::ScaleFactor),
            ToVersoMessage::GetTheme(id) => query_first(first, id, WindowQuery::Theme),
            ToVersoMessage::GetCurrentUrl(id) => match first {
                Some(w) => match self.window(w) {
                    Some(window) => match &window.current_tab {
                        Some(tab) => WebviewStep::Controller(
                            ToControllerMessage::GetCurrentUrlResponse(
                                id,
                                tab.history[tab.current_idx].clone(),
                            ),
                        ),
                        None => WebviewStep::Nothing,
                    },
                    None => WebviewStep::Nothing,
                },
                None => WebviewStep::Nothing,
            },
            ToVersoMessage::SetConfig(_) => WebviewStep::LateConfig,
        }
    }
}

/// Changing a window to what it is changes nothing.
proof fn lemma_unchanged<R>(s: VersoModel<R>, id: WindowId)
    requires
        s.windows.contains_key(id),
    ensures
        s.with_window_changed(id, s.windows[id]) == s,
{
    assert(s.windows.insert(id, s.windows[id]) =~= s.windows);
}

} // verus!
