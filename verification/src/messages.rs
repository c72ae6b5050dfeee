//! The messages between the browser process and the host that controls it.
use dpi::{PhysicalPosition, PhysicalSize, Position, Size};
use url::Url;
use vstd::prelude::*;

use crate::ids::RequestId;

verus! {

/// A colour theme.
#[derive(Clone, Copy, Debug, PartialEq, Eq, Structural)]
pub enum Theme {
    Light,
    Dark,
}

/// Where a window stands among the others.
#[derive(Clone, Copy, Debug, PartialEq, Eq, Structural)]
pub enum WindowLevel {
    AlwaysOnBottom,
    Normal,
    AlwaysOnTop,
}

/// Which size of a window is meant: without or with its frame.
#[derive(Clone, Copy, Debug, PartialEq, Eq, Structural)]
pub enum SizeType {
    Inner,
    Outer,
}

/// Which position of a window is meant: without or with its frame.
#[derive(Clone, Copy, Debug, PartialEq, Eq, Structural)]
pub enum PositionType {
    Inner,
    Outer,
}

/// The settings that a browser starts with. Only the address is looked at here;
/// all else is `attributes`.
#[derive(Clone, Debug)]
pub struct VersoviewSettings<A> {
    pub url: Option<Url>,
    pub attributes: A,
}

/// A request that the engine is about to make, put before the host.
#[derive(Debug)]
pub struct WebResourceRequest {
    pub id: RequestId,
    pub request: http::Request<Vec<u8>>,
}

/// A response that the host wants the engine to take for the real one.
#[derive(Clone, Debug)]
pub struct WebResponse {
    pub status: u16,
    pub headers: Vec<(String, Vec<u8>)>,
    pub body: Vec<u8>,
}

/// The host's word on a [`WebResourceRequest`]: a response, or none to let the
/// request go its way.
#[derive(Clone, Debug)]
pub struct WebResourceRequestResponse {
    pub id: RequestId,
    pub response: Option<WebResponse>,
}

/// From the host to the browser.
#[derive(Debug)]
pub enum ToVersoMessage<A> {
    /// Shut down.
    Exit,
    /// Report close requests instead of closing.
    ListenToOnCloseRequested,
    NavigateTo(Url),
    Reload,
    /// Ask before a navigation.
    ListenToOnNavigationStarting,
    /// The answer to such a question, with the bytes it came with.
    OnNavigationStartingResponse(Vec<u8>, bool),
    ExecuteScript(String),
    /// Put resource requests before the host.
    ListenToWebResourceRequests,
    WebResourceRequestResponse(WebResourceRequestResponse),
    SetTitle(String),
    SetSize(Size),
    SetPosition(Position),
    SetMaximized(bool),
    SetMinimized(bool),
    SetFullscreen(bool),
    SetVisible(bool),
    SetWindowLevel(WindowLevel),
    SetTheme(Option<Theme>),
    StartDragging,
    Focus,
    GetTitle(RequestId),
    GetSize(RequestId, SizeType),
    GetPosition(RequestId, PositionType),
    GetMinimized(RequestId),
    GetMaximized(RequestId),
    GetFullscreen(RequestId),
    GetVisible(RequestId),
    GetScaleFactor(RequestId),
    GetTheme(RequestId),
    GetCurrentUrl(RequestId),
    /// The settings to start with. The first message, and only that.
    SetConfig(VersoviewSettings<A>),
}

/// From the browser to the host. `S` sends messages the other way.
#[derive(Debug)]
pub enum ToControllerMessage<S> {
    /// Where to send messages to. The first message, and only that.
    SetToVersoSender(S),
    OnCloseRequested,
    OnNavigationStarting(Vec<u8>, Url),
    OnWebResourceRequested(WebResourceRequest),
    GetTitleResponse(RequestId, String),
    GetSizeResponse(RequestId, PhysicalSize<u32>),
    GetPositionResponse(RequestId, Option<PhysicalPosition<i32>>),
    GetMinimizedResponse(RequestId, bool),
    GetMaximizedResponse(RequestId, bool),
    GetFullscreenResponse(RequestId, bool),
    GetVisibleResponse(RequestId, bool),
    /// The scale factor by the bits of its double.
    GetScaleFactorResponse(RequestId, u64),
    GetThemeResponse(RequestId, Theme),
    GetCurrentUrlResponse(RequestId, Url),
}

} // verus!
