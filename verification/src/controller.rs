//! The host's side: a controller that sends commands, asks questions, and hands
//! out what comes back.
use std::collections::HashMap;

use dpi::{PhysicalPosition, PhysicalSize, Position, Size};
use url::Url;
use vstd::prelude::*;

use crate::foreign::new_v4;
#[allow(unused_imports)]
use crate::foreign::random_id;
use crate::ids::RequestId;
use crate::messages::{
    PositionType, SizeType, Theme, ToControllerMessage, ToVersoMessage, VersoviewSettings,
    WebResourceRequest, WebResourceRequestResponse, WebResponse, WindowLevel,
};

verus! {

broadcast use vstd::std_specs::hash::group_hash_axioms;

/// What the program around a controller registers with it: callbacks, and the
/// ends on which callers wait for answers. The controller stores them and hands
/// them back; it calls none of them.
pub trait Handles {
    /// What the settings hold besides the address.
    type Attributes;

    /// Sends messages to the browser.
    type Sender;

    /// Called when the user wants to close the window.
    type CloseCallback;

    /// Called when a navigation starts, to allow it or not.
    type NavigationCallback;

    /// Called when the engine is about to request a resource.
    type WebResourceCallback;

    /// Waits for a title.
    type TitleWaiter;

    /// Waits for a size.
    type SizeWaiter;

    /// Waits for a position.
    type PositionWaiter;

    /// Waits for a yes or a no.
    type FlagWaiter;

    /// Waits for a scale factor.
    type ScaleFactorWaiter;

    /// Waits for a theme.
    type ThemeWaiter;

    /// Waits for an address.
    type UrlWaiter;
}

/// The callers that wait for one kind of answer, each under the name of its
/// question.
pub struct ResponseListener<T> {
    pub waiting: HashMap<RequestId, T>,
}

impl<T> View for ResponseListener<T> {
    type V = Map<RequestId, T>;

    open spec fn view(&self) -> Map<RequestId, T> {
        self.waiting@
    }
}

impl<T> ResponseListener<T> {
    /// Nobody waits.
    pub fn new() -> (r: Self)
        ensures
            r@ == Map::<RequestId, T>::empty(),
    {
        ResponseListener { waiting: HashMap::new() }
    }

    /// Names a question and lets `waiter` wait for its answer. The name is drawn
    /// at random; of every name drawn it holds that the waiter is found under it
    /// and that no other name is touched.
    fn get_response(&mut self, waiter: T) -> (id: RequestId)
        ensures
            random_id(id),
            final(self)@ == old(self)@.insert(id, waiter),
    {
        let id: RequestId = new_v4();
        self.register(id, waiter);
        id
    }

    /// Lets `waiter` wait for the answer named `id`.
    pub fn register(&mut self, id: RequestId, waiter: T)
        ensures
            final(self)@ == old(self)@.insert(id, waiter),
    {
        self.waiting.insert(id, waiter);
    }

    /// Drops the waiter for a question that could not be sent.
    pub fn send_failed(&mut self, id: RequestId)
        ensures
            final(self)@ == old(self)@.remove(id),
    {
        self.waiting.remove(&id);
    }

    /// Who waits for the answer named `id`. The waiter stays registered.
    pub fn waiter(&self, id: RequestId) -> (r: Option<&T>)
        ensures
            match r {
                Some(t) => self@.contains_key(id) && *t == self@[id],
                None => !self@.contains_key(id),
            },
    {
        self.waiting.get(&id)
    }
}

/// The callbacks and the waiting callers of a controller.
pub struct EventListeners<H: Handles> {
    pub on_close_requested: Option<H::CloseCallback>,
    pub on_navigation_starting: Option<H::NavigationCallback>,
    pub on_web_resource_requested: Option<H::WebResourceCallback>,
    pub title_response: ResponseListener<H::TitleWaiter>,
    pub size_response: ResponseListener<H::SizeWaiter>,
    pub position_response: ResponseListener<H::PositionWaiter>,
    pub maximized_response: ResponseListener<H::FlagWaiter>,
    pub minimized_response: ResponseListener<H::FlagWaiter>,
    pub fullscreen_response: ResponseListener<H::FlagWaiter>,
    pub visible_response: ResponseListener<H::FlagWaiter>,
    pub scale_factor_response: ResponseListener<H::ScaleFactorWaiter>,
    pub theme_response: ResponseListener<H::ThemeWaiter>,
    pub get_url_response: ResponseListener<H::UrlWaiter>,
}

/// A controller of one browser.
pub struct VersoviewController<H: Handles> {
    pub event_listeners: EventListeners<H>,
}

/// What a controller holds: at most one callback of each kind, and for each kind
/// of question the callers that wait, by the question's name.
#[verifier::ext_equal]
pub struct ControllerModel<H: Handles> {
    pub on_close_requested: Option<H::CloseCallback>,
    pub on_navigation_starting: Option<H::NavigationCallback>,
    pub on_web_resource_requested: Option<H::WebResourceCallback>,
    pub title_response: Map<RequestId, H::TitleWaiter>,
    pub size_response: Map<RequestId, H::SizeWaiter>,
    pub position_response: Map<RequestId, H::PositionWaiter>,
    pub maximized_response: Map<RequestId, H::FlagWaiter>,
    pub minimized_response: Map<RequestId, H::FlagWaiter>,
    pub fullscreen_response: Map<RequestId, H::FlagWaiter>,
    pub visible_response: Map<RequestId, H::FlagWaiter>,
    pub scale_factor_response: Map<RequestId, H::ScaleFactorWaiter>,
    pub theme_response: Map<RequestId, H::ThemeWaiter>,
    pub get_url_response: Map<RequestId, H::UrlWaiter>,
}

impl<H: Handles> ControllerModel<H> {
    /// No callback and nobody waiting.
    pub open spec fn empty() -> Self {
        ControllerModel {
            on_close_requested: None,
            on_navigation_starting: None,
            on_web_resource_requested: None,
            title_response: Map::empty(),
            size_response: Map::empty(),
            position_response: Map::empty(),
            maximized_response: Map::empty(),
            minimized_response: Map::empty(),
            fullscreen_response: Map::empty(),
            visible_response: Map::empty(),
            scale_factor_response: Map::empty(),
            theme_response: Map::empty(),
            get_url_response: Map::empty(),
        }
    }
}

impl<H: Handles> View for VersoviewController<H> {
    type V = ControllerModel<H>;

    open spec fn view(&self) -> ControllerModel<H> {
        let l = self.event_listeners;
        ControllerModel {
            on_close_requested: l.on_close_requested,
            on_navigation_starting: l.on_navigation_starting,
            on_web_resource_requested: l.on_web_resource_requested,
            title_response: l.title_response@,
            size_response: l.size_response@,
            position_response: l.position_response@,
            maximized_response: l.maximized_response@,
            minimized_response: l.minimized_response@,
            fullscreen_response: l.fullscreen_response@,
            visible_response: l.visible_response@,
            scale_factor_response: l.scale_factor_response@,
            theme_response: l.theme_response@,
            get_url_response: l.get_url_response@,
        }
    }
}

/// The kinds of questions. Callers that wait are kept apart by kind.
#[derive(Clone, Copy, Debug, PartialEq, Eq, Structural)]
pub enum QuestionKind {
    Title,
    Size,
    Position,
    Maximized,
    Minimized,
    Fullscreen,
    Visible,
    ScaleFactor,
    Theme,
    CurrentUrl,
}

/// `s` without who waits for the answer named `id` to a question of that kind.
pub open spec fn without_question<H: Handles>(
    s: ControllerModel<H>,
    kind: QuestionKind,
    id: RequestId,
) -> ControllerModel<H> {
    match kind {
        QuestionKind::Title => ControllerModel {
            title_response: s.title_response.remove(id),
            ..s
        },
        QuestionKind::Size => ControllerModel {
            size_response: s.size_response.remove(id),
            ..s
        },
        QuestionKind::Position => ControllerModel {
            position_response: s.position_response.remove(id),
            ..s
        },
        QuestionKind::Maximized => ControllerModel {
            maximized_response: s.maximized_response.remove(id),
            ..s
        },
        QuestionKind::Minimized => ControllerModel {
            minimized_response: s.minimized_response.remove(id),
            ..s
        },
        QuestionKind::Fullscreen => ControllerModel {
            fullscreen_response: s.fullscreen_response.remove(id),
            ..s
        },
        QuestionKind::Visible => ControllerModel {
            visible_response: s.visible_response.remove(id),
            ..s
        },
        QuestionKind::ScaleFactor => ControllerModel {
            scale_factor_response: s.scale_factor_response.remove(id),
            ..s
        },
        QuestionKind::Theme => ControllerModel {
            theme_response: s.theme_response.remove(id),
            ..s
        },
        QuestionKind::CurrentUrl => ControllerModel {
            get_url_response: s.get_url_response.remove(id),
            ..s
        },
    }
}

/// What is to be done about a message from the browser.
pub enum ControllerAction<'a, H: Handles> {
    /// Nothing: nobody listens or waits.
    Nothing,
    /// Call back.
    CloseRequested(&'a H::CloseCallback),
    /// Call back with the address, and answer the bytes with
    /// [`navigation_response`].
    NavigationStarting(&'a H::NavigationCallback, Vec<u8>, Url),
    /// Call back with the request; the response, when it comes, goes out through
    /// [`web_resource_response`].
    WebResourceRequested(&'a H::WebResourceCallback, RequestId, http::Request<Vec<u8>>),
    /// Give the caller what it waits for.
    Title(&'a H::TitleWaiter, String),
    Size(&'a H::SizeWaiter, PhysicalSize<u32>),
    Position(&'a H::PositionWaiter, Option<PhysicalPosition<i32>>),
    Flag(&'a H::FlagWaiter, bool),
    ScaleFactor(&'a H::ScaleFactorWaiter, u64),
    Theme(&'a H::ThemeWaiter, Theme),
    CurrentUrl(&'a H::UrlWaiter, Url),
    /// A sender came after the first message: report it and drop it.
    LateSender,
}

/// What a controller in state `s` does about `message`.
pub open spec fn controller_action<'a, H: Handles>(
    s: ControllerModel<H>,
    message: ToControllerMessage<H::Sender>,
) -> ControllerAction<'a, H> {
    match message {
        ToControllerMessage::SetToVersoSender(_) => ControllerAction::LateSender,
        ToControllerMessage::OnCloseRequested => {
            match s.on_close_requested {
                Some(callback) => ControllerAction::CloseRequested(&callback),
                None => ControllerAction::Nothing,
            }
        },
        ToControllerMessage::OnNavigationStarting(id, url) => {
            match s.on_navigation_starting {
                Some(callback) => ControllerAction::NavigationStarting(&callback, id, url),
                None => ControllerAction::Nothing,
            }
        },
        ToControllerMessage::OnWebResourceRequested(r) => {
            match s.on_web_resource_requested {
                Some(callback) => ControllerAction::WebResourceRequested(
                    &callback,
                    r.id,
                    r.request,
                ),
                None => ControllerAction::Nothing,
            }
        },
        ToControllerMessage::GetTitleResponse(id, title) => {
            if s.title_response.contains_key(id) {
                ControllerAction::Title(&s.title_response[id], title)
            } else {
                ControllerAction::Nothing
            }
        },
        ToControllerMessage::GetSizeResponse(id, size) => {
            if s.size_response.contains_key(id) {
                ControllerAction::Size(&s.size_response[id], size)
            } else {
                ControllerAction::Nothing
            }
        },
        ToControllerMessage::GetPositionResponse(id, position) => {
            if s.position_response.contains_key(id) {
                ControllerAction::Position(&s.position_response[id], position)
            } else {
                ControllerAction::Nothing
            }
        },
        ToControllerMessage::GetMaximizedResponse(id, maximized) => {
            if s.maximized_response.contains_key(id) {
                ControllerAction::Flag(&s.maximized_response[id], maximized)
            } else {
                ControllerAction::Nothing
            }
        },
        ToControllerMessage::GetMinimizedResponse(id, minimized) => {
            if s.minimized_response.contains_key(id) {
                ControllerAction::Flag(&s.minimized_response[id], minimized)
            } else {
                ControllerAction::Nothing
            }
        },
        ToControllerMessage::GetFullscreenResponse(id, fullscreen) => {
            if s.fullscreen_response.contains_key(id) {
                ControllerAction::Flag(&s.fullscreen_response[id], fullscreen)
            } else {
                ControllerAction::Nothing
            }
        },
        ToControllerMessage::GetVisibleResponse(id, visible) => {
            if s.visible_response.contains_key(id) {
                ControllerAction::Flag(&s.visible_response[id], visible)
            } else {
                ControllerAction::Nothing
            }
        },
        ToControllerMessage::GetScaleFactorResponse(id, scale_factor) => {
            if s.scale_factor_response.contains_key(id) {
                ControllerAction::ScaleFactor(&s.scale_factor_response[id], scale_factor)
            } else {
                ControllerAction::Nothing
            }
        },
        ToControllerMessage::GetThemeResponse(id, theme) => {
            if s.theme_response.contains_key(id) {
                ControllerAction::Theme(&s.theme_response[id], theme)
            } else {
                ControllerAction::Nothing
            }
        },
        ToControllerMessage::GetCurrentUrlResponse(id, url) => {
            if s.get_url_response.contains_key(id) {
                ControllerAction::CurrentUrl(&s.get_url_response[id], url)
            } else {
                ControllerAction::Nothing
            }
        },
    }
}

/// The sender that a browser's first message brings, if it is one to begin with.
pub open spec fn sender_in<S>(hello: ToControllerMessage<S>) -> Option<S> {
    match hello {
        ToControllerMessage::SetToVersoSender(sender) => Some(sender),
        _ => None,
    }
}

/// Whether a browser's first message is one to begin with: it brings a sender.
pub fn brings_sender<S>(hello: &ToControllerMessage<S>) -> (r: bool)
    ensures
        r == (sender_in(*hello) is Some),
{
    match hello {
        ToControllerMessage::SetToVersoSender(_) => true,
        _ => false,
    }
}

/// The first message to a browser: the settings, with `initial_url` as the address.
pub open spec fn opening_message<A>(
    initial_url: Url,
    settings: VersoviewSettings<A>,
) -> ToVersoMessage<A> {
    ToVersoMessage::SetConfig(
        VersoviewSettings { url: Some(initial_url), attributes: settings.attributes },
    )
}

/// The argument that tells a browser which server to connect to.
pub fn ipc_channel_argument(server_name: &str) -> (r: String)
    ensures
        r@ == "--ipc-channel="@ + server_name@,
{
    let mut argument = "--ipc-channel=".to_string();
    argument.append(server_name);
    argument
}

/// The answer to a navigation question: its own bytes, and the callback's word.
pub fn navigation_response<A>(id: Vec<u8>, allow: bool) -> (r: ToVersoMessage<A>)
    ensures
        r == ToVersoMessage::<A>::OnNavigationStartingResponse(id, allow),
{
    ToVersoMessage::OnNavigationStartingResponse(id, allow)
}

/// The answer to a resource request: its name, and the response if there is one.
pub fn web_resource_response<A>(id: RequestId, response: Option<WebResponse>) -> (r: ToVersoMessage<
    A,
>)
    ensures
        r == ToVersoMessage::<A>::WebResourceRequestResponse(
            (WebResourceRequestResponse { id, response }),
        ),
{
    ToVersoMessage::WebResourceRequestResponse(WebResourceRequestResponse { id, response })
}

impl<H: Handles> VersoviewController<H> {
    /// Sets up a controller for a browser whose first message is `hello`, which must
    /// bring the sender to reach the browser by ([`brings_sender`]).
    ///
    /// With the controller come the sender and the first message to send on it:
    /// `settings`, with the address in them replaced by `initial_url`.
    pub fn create(
        initial_url: Url,
        settings: VersoviewSettings<H::Attributes>,
        hello: ToControllerMessage<H::Sender>,
    ) -> (r: (Self, H::Sender, ToVersoMessage<H::Attributes>))
        requires
            sender_in(hello) is Some,
        ensures
            r.0@ == ControllerModel::<H>::empty(),
            sender_in(hello) == Some(r.1),
            r.2 == opening_message(initial_url, settings),
    {
        let sender = match hello {
            ToControllerMessage::SetToVersoSender(sender) => Some(sender),
            _ => None,
        };
        let mut settings = settings;
        settings.url = Some(initial_url);
        let controller = VersoviewController {
            event_listeners: EventListeners {
                on_close_requested: None,
                on_navigation_starting: None,
                on_web_resource_requested: None,
                title_response: ResponseListener::new(),
                size_response: ResponseListener::new(),
                position_response: ResponseListener::new(),
                maximized_response: ResponseListener::new(),
                minimized_response: ResponseListener::new(),
                fullscreen_response: ResponseListener::new(),
                visible_response: ResponseListener::new(),
                scale_factor_response: ResponseListener::new(),
                theme_response: ResponseListener::new(),
                get_url_response: ResponseListener::new(),
            },
        };
        (controller, sender.unwrap(), ToVersoMessage::SetConfig(settings))
    }

    /// Sets up a controller as [`Self::create`] does, with the settings that hold
    /// no address and the attributes `default_attributes`.
    pub fn new(
        initial_url: Url,
        default_attributes: H::Attributes,
        hello: ToControllerMessage<H::Sender>,
    ) -> (r: (Self, H::Sender, ToVersoMessage<H::Attributes>))
        requires
            sender_in(hello) is Some,
        ensures
            r.0@ == ControllerModel::<H>::empty(),
            sender_in(hello) == Some(r.1),
            r.2 == opening_message(
                initial_url,
                (VersoviewSettings { url: None, attributes: default_attributes }),
            ),
    {
        let settings = VersoviewSettings { url: None, attributes: default_attributes };
        Self::create(initial_url, settings, hello)
    }

    /// Decides what to do about a message from the browser. The controller itself
    /// does not change: callbacks stay, and so do callers that were answered.
    pub fn handle_message(
        &self,
        message: ToControllerMessage<H::Sender>,
    ) -> (r: ControllerAction<'_, H>)
        ensures
            r == controller_action::<H>(self@, message),
    {
        let listeners = &self.event_listeners;
        match message {
            ToControllerMessage::SetToVersoSender(_) => ControllerAction::LateSender,
            ToControllerMessage::OnCloseRequested => {
                match &listeners.on_close_requested {
                    Some(callback) => ControllerAction::CloseRequested(callback),
                    None => ControllerAction::Nothing,
                }
            },
            ToControllerMessage::OnNavigationStarting(id, url) => {
                match &listeners.on_navigation_starting {
                    Some(callback) => ControllerAction::NavigationStarting(callback, id, url),
                    None => ControllerAction::Nothing,
                }
            },
            ToControllerMessage::OnWebResourceRequested(WebResourceRequest { id, request }) => {
                match &listeners.on_web_resource_requested {
                    Some(callback) => ControllerAction::WebResourceRequested(callback, id, request),
                    None => ControllerAction::Nothing,
                }
            },
            ToControllerMessage::GetTitleResponse(id, title) => {
                match listeners.title_response.waiter(id) {
                    Some(waiter) => ControllerAction::Title(waiter, title),
                    None => ControllerAction::Nothing,
                }
            },
            ToControllerMessage::GetSizeResponse(id, size) => {
                match listeners.size_response.waiter(id) {
                    Some(waiter) => ControllerAction::Size(waiter, size),
                    None => ControllerAction::Nothing,
                }
            },
            ToControllerMessage::GetPositionResponse(id, position) => {
                match listeners.position_response.waiter(id) {
                    Some(waiter) => ControllerAction::Position(waiter, position),
                    None => ControllerAction::Nothing,
                }
            },
            ToControllerMessage::GetMaximizedResponse(id, maximized) => {
                match listeners.maximized_response.waiter(id) {
                    Some(waiter) => ControllerAction::Flag(waiter, maximized),
                    None => ControllerAction::Nothing,
                }
            },
            ToControllerMessage::GetMinimizedResponse(id, minimized) => {
                match listeners.minimized_response.waiter(id) {
                    Some(waiter) => ControllerAction::Flag(waiter, minimized),
                    None => ControllerAction::Nothing,
                }
            },
            ToControllerMessage::GetFullscreenResponse(id, fullscreen) => {
                match listeners.fullscreen_response.waiter(id) {
                    Some(waiter) => ControllerAction::Flag(waiter, fullscreen),
                    None => ControllerAction::Nothing,
                }
            },
            ToControllerMessage::GetVisibleResponse(id, visible) => {
                match listeners.visible_response.waiter(id) {
                    Some(waiter) => ControllerAction::Flag(waiter, visible),
                    None => ControllerAction::Nothing,
                }
            },
            ToControllerMessage::GetScaleFactorResponse(id, scale_factor) => {
                match listeners.scale_factor_response.waiter(id) {
                    Some(waiter) => ControllerAction::ScaleFactor(waiter, scale_factor),
                    None => ControllerAction::Nothing,
                }
            },
            ToControllerMessage::GetThemeResponse(id, theme) => {
                match listeners.theme_response.waiter(id) {
                    Some(waiter) => ControllerAction::Theme(waiter, theme),
                    None => ControllerAction::Nothing,
                }
            },
            ToControllerMessage::GetCurrentUrlResponse(id, url) => {
                match listeners.get_url_response.waiter(id) {
                    Some(waiter) => ControllerAction::CurrentUrl(waiter, url),
                    None => ControllerAction::Nothing,
                }
            },
        }
    }

    /// The message that makes the browser exit.
    pub fn exit(&self) -> (r: ToVersoMessage<H::Attributes>)
        ensures
            r == ToVersoMessage::<H::Attributes>::Exit,
    {
        ToVersoMessage::Exit
    }

    /// Lets `callback` be told when the window is to be closed. From then on the
    /// browser does not close it by itself.
    ///
    /// An earlier callback of this kind is replaced. The message to send is there
    /// if and only if there was none: the browser is told once.
    pub fn on_close_requested(&mut self, callback: H::CloseCallback) -> (r: Option<
        ToVersoMessage<H::Attributes>,
    >)
        ensures
            final(self)@ == (ControllerModel { on_close_requested: Some(callback), ..old(self)@ }),
            r == (if old(self)@.on_close_requested is None {
                Some(ToVersoMessage::<H::Attributes>::ListenToOnCloseRequested)
            } else {
                None
            }),
    {
        let first = self.event_listeners.on_close_requested.is_none();
        self.event_listeners.on_close_requested = Some(callback);
        if first {
            Some(ToVersoMessage::ListenToOnCloseRequested)
        } else {
            None
        }
    }

    /// The message that runs a script in the current web view.
    pub fn execute_script(&self, script: String) -> (r: ToVersoMessage<H::Attributes>)
        ensures
            r == ToVersoMessage::<H::Attributes>::ExecuteScript(script),
    {
        ToVersoMessage::ExecuteScript(script)
    }

    /// The message that navigates the current web view.
    pub fn navigate(&self, url: Url) -> (r: ToVersoMessage<H::Attributes>)
        ensures
            r == ToVersoMessage::<H::Attributes>::NavigateTo(url),
    {
        ToVersoMessage::NavigateTo(url)
    }

    /// The message that reloads the current web view.
    pub fn reload(&self) -> (r: ToVersoMessage<H::Attributes>)
        ensures
            r == ToVersoMessage::<H::Attributes>::Reload,
    {
        ToVersoMessage::Reload
    }

    /// Lets `callback` decide on each navigation whether it goes ahead.
    ///
    /// An earlier callback of this kind is replaced. The message to send is there
    /// if and only if there was none: the browser is told once.
    pub fn on_navigation_starting(&mut self, callback: H::NavigationCallback) -> (r: Option<
        ToVersoMessage<H::Attributes>,
    >)
        ensures
            final(self)@ == (ControllerModel {
                on_navigation_starting: Some(callback),
                ..old(self)@
            }),
            r == (if old(self)@.on_navigation_starting is None {
                Some(ToVersoMessage::<H::Attributes>::ListenToOnNavigationStarting)
            } else {
                None
            }),
    {
        let first = self.event_listeners.on_navigation_starting.is_none();
        self.event_listeners.on_navigation_starting = Some(callback);
        if first {
            Some(ToVersoMessage::ListenToOnNavigationStarting)
        } else {
            None
        }
    }

    /// Lets `callback` see each resource request and supply a response to it.
    ///
    /// An earlier callback of this kind is replaced. The message to send is there
    /// if and only if there was none: the browser is told once.
    pub fn on_web_resource_requested(&mut self, callback: H::WebResourceCallback) -> (r: Option<
        ToVersoMessage<H::Attributes>,
    >)
        ensures
            final(self)@ == (ControllerModel {
                on_web_resource_requested: Some(callback),
                ..old(self)@
            }),
            r == (if old(self)@.on_web_resource_requested is None {
                Some(ToVersoMessage::<H::Attributes>::ListenToWebResourceRequests)
            } else {
                None
            }),
    {
        let first = self.event_listeners.on_web_resource_requested.is_none();
        self.event_listeners.on_web_resource_requested = Some(callback);
        if first {
            Some(ToVersoMessage::ListenToWebResourceRequests)
        } else {
            None
        }
    }

    /// The message that sets the window title.
    pub fn set_title(&self, title: String) -> (r: ToVersoMessage<H::Attributes>)
        ensures
            r == ToVersoMessage::<H::Attributes>::SetTitle(title),
    {
        ToVersoMessage::SetTitle(title)
    }

    /// The message that sets the window size.
    pub fn set_size(&self, size: Size) -> (r: ToVersoMessage<H::Attributes>)
        ensures
            r == ToVersoMessage::<H::Attributes>::SetSize(size),
    {
        ToVersoMessage::SetSize(size)
    }

    /// The message that sets the window position.
    pub fn set_position(&self, position: Position) -> (r: ToVersoMessage<H::Attributes>)
        ensures
            r == ToVersoMessage::<H::Attributes>::SetPosition(position),
    {
        ToVersoMessage::SetPosition(position)
    }

    /// The message that maximizes the window, or undoes it.
    pub fn set_maximized(&self, maximized: bool) -> (r: ToVersoMessage<H::Attributes>)
        ensures
            r == ToVersoMessage::<H::Attributes>::SetMaximized(maximized),
    {
        ToVersoMessage::SetMaximized(maximized)
    }

    /// The message that minimizes the window, or undoes it.
    pub fn set_minimized(&self, minimized: bool) -> (r: ToVersoMessage<H::Attributes>)
        ensures
            r == ToVersoMessage::<H::Attributes>::SetMinimized(minimized),
    {
        ToVersoMessage::SetMinimized(minimized)
    }

    /// The message that makes the window full-screen, or undoes it.
    pub fn set_fullscreen(&self, fullscreen: bool) -> (r: ToVersoMessage<H::Attributes>)
        ensures
            r == ToVersoMessage::<H::Attributes>::SetFullscreen(fullscreen),
    {
        ToVersoMessage::SetFullscreen(fullscreen)
    }

    /// The message that shows or hides the window.
    pub fn set_visible(&self, visible: bool) -> (r: ToVersoMessage<H::Attributes>)
        ensures
            r == ToVersoMessage::<H::Attributes>::SetVisible(visible),
    {
        ToVersoMessage::SetVisible(visible)
    }

    /// The message that changes the window level.
    pub fn set_window_level(&self, window_level: WindowLevel) -> (r: ToVersoMessage<H::Attributes>)
        ensures
            r == ToVersoMessage::<H::Attributes>::SetWindowLevel(window_level),
    {
        ToVersoMessage::SetWindowLevel(window_level)
    }

    /// The message that sets the theme, or leaves it to the system.
    pub fn set_theme(&self, theme: Option<Theme>) -> (r: ToVersoMessage<H::Attributes>)
        ensures
            r == ToVersoMessage::<H::Attributes>::SetTheme(theme),
    {
        ToVersoMessage::SetTheme(theme)
    }

    /// The message that lets the window follow the pointer until the button is
    /// released.
    pub fn start_dragging(&self) -> (r: ToVersoMessage<H::Attributes>)
        ensures
            r == ToVersoMessage::<H::Attributes>::StartDragging,
    {
        ToVersoMessage::StartDragging
    }

    /// The message that brings the window to the front and focuses it.
    pub fn focus(&self) -> (r: ToVersoMessage<H::Attributes>)
        ensures
            r == ToVersoMessage::<H::Attributes>::Focus,
    {
        ToVersoMessage::Focus
    }

    /// A question of that kind, named `id`, could not be sent: nobody waits for its
    /// answer any longer.
    pub fn question_failed(&mut self, kind: QuestionKind, id: RequestId)
        ensures
            final(self)@ == without_question(old(self)@, kind, id),
    {
        match kind {
            QuestionKind::Title => self.event_listeners.title_response.send_failed(id),
            QuestionKind::Size => self.event_listeners.size_response.send_failed(id),
            QuestionKind::Position => self.event_listeners.position_response.send_failed(id),
            QuestionKind::Maximized => self.event_listeners.maximized_response.send_failed(id),
            QuestionKind::Minimized => self.event_listeners.minimized_response.send_failed(id),
            QuestionKind::Fullscreen => self.event_listeners.fullscreen_response.send_failed(id),
            QuestionKind::Visible => self.event_listeners.visible_response.send_failed(id),
            QuestionKind::ScaleFactor => self.event_listeners.scale_factor_response.send_failed(id),
            QuestionKind::Theme => self.event_listeners.theme_response.send_failed(id),
            QuestionKind::CurrentUrl => self.event_listeners.get_url_response.send_failed(id),
        }
    }

    /// Asks for the window title. The result is the name of the question and the
    /// message to send. If that cannot be sent, the waiter is to be dropped by
    /// [`Self::question_failed`]. The other questions are asked likewise.
    pub fn get_title(&mut self, waiter: H::TitleWaiter) -> (r: (
        RequestId,
        ToVersoMessage<H::Attributes>,
    ))
        ensures
            random_id(r.0),
            r.1 == ToVersoMessage::<H::Attributes>::GetTitle(r.0),
            final(self)@ == (ControllerModel {
                title_response: old(self)@.title_response.insert(r.0, waiter),
                ..old(self)@
            }),
    {
        let id: RequestId = self.event_listeners.title_response.get_response(waiter);
        (id, ToVersoMessage::GetTitle(id))
    }

    /// Asks for the window size of the given type.
    fn get_size(&mut self, size_type: SizeType, waiter: H::SizeWaiter) -> (r: (
        RequestId,
        ToVersoMessage<H::Attributes>,
    ))
        ensures
            random_id(r.0),
            r.1 == ToVersoMessage::<H::Attributes>::GetSize(r.0, size_type),
            final(self)@ == (ControllerModel {
                size_response: old(self)@.size_response.insert(r.0, waiter),
                ..old(self)@
            }),
    {
        let id: RequestId = self.event_listeners.size_response.get_response(waiter);
        (id, ToVersoMessage::GetSize(id, size_type))
    }

    /// Asks for the size of the window without its frame.
    pub fn get_inner_size(&mut self, waiter: H::SizeWaiter) -> (r: (
        RequestId,
        ToVersoMessage<H::Attributes>,
    ))
        ensures
            random_id(r.0),
            r.1 == ToVersoMessage::<H::Attributes>::GetSize(r.0, SizeType::Inner),
            final(self)@ == (ControllerModel {
                size_response: old(self)@.size_response.insert(r.0, waiter),
                ..old(self)@
            }),
    {
        self.get_size(SizeType::Inner, waiter)
    }

    /// Asks for the size of the window with its frame.
    pub fn get_outer_size(&mut self, waiter: H::SizeWaiter) -> (r: (
        RequestId,
        ToVersoMessage<H::Attributes>,
    ))
        ensures
            random_id(r.0),
            r.1 == ToVersoMessage::<H::Attributes>::GetSize(r.0, SizeType::Outer),
            final(self)@ == (ControllerModel {
                size_response: old(self)@.size_response.insert(r.0, waiter),
                ..old(self)@
            }),
    {
        self.get_size(SizeType::Outer, waiter)
    }

    /// Asks for the window position of the given type.
    fn get_position(&mut self, position_type: PositionType, waiter: H::PositionWaiter) -> (r: (
        RequestId,
        ToVersoMessage<H::Attributes>,
    ))
        ensures
            random_id(r.0),
            r.1 == ToVersoMessage::<H::Attributes>::GetPosition(r.0, position_type),
            final(self)@ == (ControllerModel {
                position_response: old(self)@.position_response.insert(r.0, waiter),
                ..old(self)@
            }),
    {
        let id: RequestId = self.event_listeners.position_response.get_response(waiter);
        (id, ToVersoMessage::GetPosition(id, position_type))
    }

    /// Asks for the position of the window without its frame.
    pub fn get_inner_position(&mut self, waiter: H::PositionWaiter) -> (r: (
        RequestId,
        ToVersoMessage<H::Attributes>,
    ))
        ensures
            random_id(r.0),
            r.1 == ToVersoMessage::<H::Attributes>::GetPosition(r.0, PositionType::Inner),
            final(self)@ == (ControllerModel {
                position_response: old(self)@.position_response.insert(r.0, waiter),
                ..old(self)@
            }),
    {
        self.get_position(PositionType::Inner, waiter)
    }

    /// Asks for the position of the window with its frame.
    pub fn get_outer_position(&mut self, waiter: H::PositionWaiter) -> (r: (
        RequestId,
        ToVersoMessage<H::Attributes>,
    ))
        ensures
            random_id(r.0),
            r.1 == ToVersoMessage::<H::Attributes>::GetPosition(r.0, PositionType::Outer),
            final(self)@ == (ControllerModel {
                position_response: old(self)@.position_response.insert(r.0, waiter),
                ..old(self)@
            }),
    {
        self.get_position(PositionType::Outer, waiter)
    }

    /// Asks whether the window is maximized.
    pub fn is_maximized(&mut self, waiter: H::FlagWaiter) -> (r: (
        RequestId,
        ToVersoMessage<H::Attributes>,
    ))
        ensures
            random_id(r.0),
            r.1 == ToVersoMessage::<H::Attributes>::GetMaximized(r.0),
            final(self)@ == (ControllerModel {
                maximized_response: old(self)@.maximized_response.insert(r.0, waiter),
                ..old(self)@
            }),
    {
        let id: RequestId = self.event_listeners.maximized_response.get_response(waiter);
        (id, ToVersoMessage::GetMaximized(id))
    }

    /// Asks whether the window is minimized.
    pub fn is_minimized(&mut self, waiter: H::FlagWaiter) -> (r: (
        RequestId,
        ToVersoMessage<H::Attributes>,
    ))
        ensures
            random_id(r.0),
            r.1 == ToVersoMessage::<H::Attributes>::GetMinimized(r.0),
            final(self)@ == (ControllerModel {
                minimized_response: old(self)@.minimized_response.insert(r.0, waiter),
                ..old(self)@
            }),
    {
        let id: RequestId = self.event_listeners.minimized_response.get_response(waiter);
        (id, ToVersoMessage::GetMinimized(id))
    }

    /// Asks whether the window is full-screen.
    pub fn is_fullscreen(&mut self, waiter: H::FlagWaiter) -> (r: (
        RequestId,
        ToVersoMessage<H::Attributes>,
    ))
        ensures
            random_id(r.0),
            r.1 == ToVersoMessage::<H::Attributes>::GetFullscreen(r.0),
            final(self)@ == (ControllerModel {
                fullscreen_response: old(self)@.fullscreen_response.insert(r.0, waiter),
                ..old(self)@
            }),
    {
        let id: RequestId = self.event_listeners.fullscreen_response.get_response(waiter);
        (id, ToVersoMessage::GetFullscreen(id))
    }

    /// Asks whether the window is visible.
    pub fn is_visible(&mut self, waiter: H::FlagWaiter) -> (r: (
        RequestId,
        ToVersoMessage<H::Attributes>,
    ))
        ensures
            random_id(r.0),
            r.1 == ToVersoMessage::<H::Attributes>::GetVisible(r.0),
            final(self)@ == (ControllerModel {
                visible_response: old(self)@.visible_response.insert(r.0, waiter),
                ..old(self)@
            }),
    {
        let id: RequestId = self.event_listeners.visible_response.get_response(waiter);
        (id, ToVersoMessage::GetVisible(id))
    }

    /// Asks for the scale factor of the window.
    pub fn get_scale_factor(&mut self, waiter: H::ScaleFactorWaiter) -> (r: (
        RequestId,
        ToVersoMessage<H::Attributes>,
    ))
        ensures
            random_id(r.0),
            r.1 == ToVersoMessage::<H::Attributes>::GetScaleFactor(r.0),
            final(self)@ == (ControllerModel {
                scale_factor_response: old(self)@.scale_factor_response.insert(r.0, waiter),
                ..old(self)@
            }),
    {
        let id: RequestId = self.event_listeners.scale_factor_response.get_response(waiter);
        (id, ToVersoMessage::GetScaleFactor(id))
    }

    /// Asks for the theme of the window.
    pub fn get_theme(&mut self, waiter: H::ThemeWaiter) -> (r: (
        RequestId,
        ToVersoMessage<H::Attributes>,
    ))
        ensures
            random_id(r.0),
            r.1 == ToVersoMessage::<H::Attributes>::GetTheme(r.0),
            final(self)@ == (ControllerModel {
                theme_response: old(self)@.theme_response.insert(r.0, waiter),
                ..old(self)@
            }),
    {
        let id: RequestId = self.event_listeners.theme_response.get_response(waiter);
        (id, ToVersoMessage::GetTheme(id))
    }

    /// Asks for the address of the current web view.
    pub fn get_current_url(&mut self, waiter: H::UrlWaiter) -> (r: (
        RequestId,
        ToVersoMessage<H::Attributes>,
    ))
        ensures
            random_id(r.0),
            r.1 == ToVersoMessage::<H::Attributes>::GetCurrentUrl(r.0),
            final(self)@ == (ControllerModel {
                get_url_response: old(self)@.get_url_response.insert(r.0, waiter),
                ..old(self)@
            }),
    {
        let id: RequestId = self.event_listeners.get_url_response.get_response(waiter);
        (id, ToVersoMessage::GetCurrentUrl(id))
    }
}

} // verus!
