//! What the engine tells the shell, as far as the shell decides on it.
use vstd::prelude::*;

use crate::ids::WebViewId;

verus! {

/// A message of the engine: its kind and the web view that it concerns. What else
/// it carries stays with the program that received it.
#[derive(Clone, Copy, Debug)]
pub enum EmbedderMsg {
    Status(WebViewId),
    ChangePageTitle(WebViewId),
    MoveTo(WebViewId),
    ResizeTo(WebViewId),
    ShowSimpleDialog(WebViewId),
    RequestAuthentication(WebViewId),
    ShowContextMenu(WebViewId),
    AllowNavigationRequest(WebViewId),
    AllowOpeningWebView(WebViewId),
    WebViewClosed(WebViewId),
    WebViewFocused(WebViewId),
    WebViewBlurred,
    AllowUnload(WebViewId),
    Keyboard(WebViewId),
    ClearClipboard(WebViewId),
    GetClipboardText(WebViewId),
    SetClipboardText(WebViewId),
    SetCursor(WebViewId),
    NewFavicon(WebViewId),
    HistoryChanged(WebViewId),
    NotifyFullscreenStateChanged(WebViewId),
    NotifyLoadStatusChanged(WebViewId),
    WebResourceRequested(Option<WebViewId>),
    Panic(WebViewId),
    GetSelectedBluetoothDevice(WebViewId),
    SelectFiles(WebViewId),
    PromptPermission(WebViewId),
    ShowIME(WebViewId),
    HideIME(WebViewId),
    ReportProfile,
    MediaSessionEvent(WebViewId),
    /// The server listens on this port, or failed to start.
    OnDevtoolsStarted(Result<u16, ()>),
    RequestDevtoolsConnection,
    PlayGamepadHapticEffect(WebViewId),
    StopGamepadHapticEffect(WebViewId),
    ShowNotification(Option<WebViewId>),
    ShowFormControl(WebViewId),
    ShutdownComplete,
    FinishJavaScriptEvaluation,
}

/// The web view that a message concerns, if it concerns one. Messages on the
/// devtools, on profiling, on shutting down, on script results and on the loss of
/// focus concern none; a resource request or a notification may concern none.
pub open spec fn concerned_webview(msg: EmbedderMsg) -> Option<WebViewId> {
    match msg {
        EmbedderMsg::WebResourceRequested(webview)
        | EmbedderMsg::ShowNotification(webview) => webview,
        EmbedderMsg::WebViewBlurred
        | EmbedderMsg::ReportProfile
        | EmbedderMsg::OnDevtoolsStarted(_)
        | EmbedderMsg::RequestDevtoolsConnection
        | EmbedderMsg::ShutdownComplete
        | EmbedderMsg::FinishJavaScriptEvaluation => None,
        EmbedderMsg::Status(webview)
        | EmbedderMsg::ChangePageTitle(webview)
        | EmbedderMsg::MoveTo(webview)
        | EmbedderMsg::ResizeTo(webview)
        | EmbedderMsg::ShowSimpleDialog(webview)
        | EmbedderMsg::RequestAuthentication(webview)
        | EmbedderMsg::ShowContextMenu(webview)
        | EmbedderMsg::AllowNavigationRequest(webview)
        | EmbedderMsg::AllowOpeningWebView(webview)
        | EmbedderMsg::WebViewClosed(webview)
        | EmbedderMsg::WebViewFocused(webview)
        | EmbedderMsg::AllowUnload(webview)
        | EmbedderMsg::Keyboard(webview)
        | EmbedderMsg::ClearClipboard(webview)
        | EmbedderMsg::GetClipboardText(webview)
        | EmbedderMsg::SetClipboardText(webview)
        | EmbedderMsg::SetCursor(webview)
        | EmbedderMsg::NewFavicon(webview)
        | EmbedderMsg::HistoryChanged(webview)
        | EmbedderMsg::NotifyFullscreenStateChanged(webview)
        | EmbedderMsg::NotifyLoadStatusChanged(webview)
        | EmbedderMsg::Panic(webview)
        | EmbedderMsg::GetSelectedBluetoothDevice(webview)
        | EmbedderMsg::SelectFiles(webview)
        | EmbedderMsg::PromptPermission(webview)
        | EmbedderMsg::ShowIME(webview)
        | EmbedderMsg::HideIME(webview)
        | EmbedderMsg::MediaSessionEvent(webview)
        | EmbedderMsg::PlayGamepadHapticEffect(webview)
        | EmbedderMsg::StopGamepadHapticEffect(webview)
        | EmbedderMsg::ShowFormControl(webview) => Some(webview),
    }
}

/// The web view that a message concerns, if it concerns one.
pub fn get_embedder_message_webview_id(msg: &EmbedderMsg) -> (r: Option<WebViewId>)
    ensures
        r == concerned_webview(*msg),
{
    match msg {
        EmbedderMsg::Status(webview)
        | EmbedderMsg::ChangePageTitle(webview)
        | EmbedderMsg::MoveTo(webview)
        | EmbedderMsg::ResizeTo(webview)
        | EmbedderMsg::ShowSimpleDialog(webview)
        | EmbedderMsg::RequestAuthentication(webview)
        | EmbedderMsg::ShowContextMenu(webview)
        | EmbedderMsg::AllowNavigationRequest(webview)
        | EmbedderMsg::AllowOpeningWebView(webview)
        | EmbedderMsg::WebViewClosed(webview)
        | EmbedderMsg::WebViewFocused(webview)
        | EmbedderMsg::AllowUnload(webview)
        | EmbedderMsg::Keyboard(webview)
        | EmbedderMsg::ClearClipboard(webview)
        | EmbedderMsg::GetClipboardText(webview)
        | EmbedderMsg::SetClipboardText(webview)
        | EmbedderMsg::SetCursor(webview)
        | EmbedderMsg::NewFavicon(webview)
        | EmbedderMsg::HistoryChanged(webview)
        | EmbedderMsg::NotifyFullscreenStateChanged(webview)
        | EmbedderMsg::NotifyLoadStatusChanged(webview)
        | EmbedderMsg::Panic(webview)
        | EmbedderMsg::GetSelectedBluetoothDevice(webview)
        | EmbedderMsg::SelectFiles(webview)
        | EmbedderMsg::PromptPermission(webview)
        | EmbedderMsg::ShowIME(webview)
        | EmbedderMsg::HideIME(webview)
        | EmbedderMsg::MediaSessionEvent(webview)
        | EmbedderMsg::PlayGamepadHapticEffect(webview)
        | EmbedderMsg::StopGamepadHapticEffect(webview)
        | EmbedderMsg::ShowFormControl(webview) => Some(*webview),
        EmbedderMsg::WebResourceRequested(webview)
        | EmbedderMsg::ShowNotification(webview) => *webview,
        EmbedderMsg::WebViewBlurred
        | EmbedderMsg::ReportProfile
        | EmbedderMsg::OnDevtoolsStarted(_)
        | EmbedderMsg::RequestDevtoolsConnection
        | EmbedderMsg::ShutdownComplete
        | EmbedderMsg::FinishJavaScriptEvaluation => None,
    }
}

} // verus!
