//! A browser window, as far as the shell decides on it.
use std::collections::HashMap;

use url::Url;
use vstd::prelude::*;

use crate::ids::{RequestId, WebViewId};
use crate::messages::WebResponse;

verus! {

broadcast use vstd::std_specs::hash::group_hash_axioms;

/// The tab that a window shows.
#[derive(Clone, Debug)]
pub struct Tab {
    pub id: WebViewId,
    /// The addresses visited, in order.
    pub history: Vec<Url>,
    /// Which of them is shown.
    pub current_idx: usize,
}

/// What the host has asked to be told of. `R` takes the word on one intercepted
/// request back to the engine.
pub struct EventListeners<R> {
    /// Close requests go to the host.
    pub on_close_requested: bool,
    /// Navigations are put before the host.
    pub on_navigation_starting: bool,
    /// Resource requests are put before the host; those that wait for its word.
    pub on_web_resource_requested: Option<HashMap<RequestId, (Url, R)>>,
}

/// A window: the web views in it, the tab it shows, and who listens to it.
pub struct Window<R> {
    pub webviews: Vec<WebViewId>,
    pub current_tab: Option<Tab>,
    pub event_listeners: EventListeners<R>,
}

/// What a [`Window`] holds.
#[verifier::ext_equal]
pub struct WindowModel<R> {
    pub webviews: Seq<WebViewId>,
    pub current_tab: Option<TabModel>,
    pub on_close_requested: bool,
    pub on_navigation_starting: bool,
    pub on_web_resource_requested: Option<Map<RequestId, (Url, R)>>,
}

/// What a [`Tab`] holds.
#[verifier::ext_equal]
pub struct TabModel {
    pub id: WebViewId,
    pub history: Seq<Url>,
    pub current_idx: int,
}

impl View for Tab {
    type V = TabModel;

    open spec fn view(&self) -> TabModel {
        TabModel { id: self.id, history: self.history@, current_idx: self.current_idx as int }
    }
}

/// The model of a tab that may be missing.
pub open spec fn tab_model(tab: Option<Tab>) -> Option<TabModel> {
    match tab {
        Some(t) => Some(t@),
        None => None,
    }
}

/// The model of a table that may be missing.
pub open spec fn pending_model<R>(pending: Option<HashMap<RequestId, (Url, R)>>) -> Option<
    Map<RequestId, (Url, R)>,
> {
    match pending {
        Some(m) => Some(m@),
        None => None,
    }
}

impl<R> View for Window<R> {
    type V = WindowModel<R>;

    open spec fn view(&self) -> WindowModel<R> {
        WindowModel {
            webviews: self.webviews@,
            current_tab: tab_model(self.current_tab),
            on_close_requested: self.event_listeners.on_close_requested,
            on_navigation_starting: self.event_listeners.on_navigation_starting,
            on_web_resource_requested: pending_model(
                self.event_listeners.on_web_resource_requested,
            ),
        }
    }
}

impl<R> WindowModel<R> {
    /// The web view is one of the window's.
    pub open spec fn has_webview(self, webview: WebViewId) -> bool {
        self.webviews.contains(webview)
    }

    /// The request `id` waits for the host's word.
    pub open spec fn waits_for(self, id: RequestId) -> bool {
        self.on_web_resource_requested matches Some(pending) && pending.contains_key(id)
    }

    /// The window shows a page of a tab's history.
    pub open spec fn shows_address(self) -> bool {
        self.current_tab matches Some(tab) && 0 <= tab.current_idx < tab.history.len()
    }

    /// The address of that page.
    pub open spec fn address(self) -> Url {
        self.current_tab->0.history[self.current_tab->0.current_idx]
    }
}

impl<R> Window<R> {
    /// A window that nobody listens to.
    pub fn new(webviews: Vec<WebViewId>, current_tab: Option<Tab>) -> (r: Self)
        ensures
            r@ == (WindowModel::<R> {
                webviews: webviews@,
                current_tab: tab_model(current_tab),
                on_close_requested: false,
                on_navigation_starting: false,
                on_web_resource_requested: None,
            }),
    {
        Window {
            webviews,
            current_tab,
            event_listeners: EventListeners {
                on_close_requested: false,
                on_navigation_starting: false,
                on_web_resource_requested: None,
            },
        }
    }

    /// Takes note of the web views and the tab that the window has now.
    pub fn refresh(&mut self, webviews: Vec<WebViewId>, current_tab: Option<Tab>)
        ensures
            final(self)@ == (WindowModel {
                webviews: webviews@,
                current_tab: tab_model(current_tab),
                ..old(self)@
            }),
    {
        self.webviews = webviews;
        self.current_tab = current_tab;
    }

    /// Whether the web view is one of the window's.
    pub fn has_webview(&self, webview: WebViewId) -> (r: bool)
        ensures
            r == self@.has_webview(webview),
    {
        let mut i: usize = 0;
        while i < self.webviews.len()
            invariant
                i <= self.webviews@.len(),
                forall|j: int| 0 <= j < i ==> self.webviews@[j] != webview,
            decreases self.webviews@.len() - i,
        {
            if self.webviews[i] == webview {
                return true;
            }
            i = i + 1;
        }
        false
    }

    /// Whether the window shows a page of a tab's history.
    pub fn shows_address(&self) -> (r: bool)
        ensures
            r == self@.shows_address(),
    {
        match &self.current_tab {
            Some(tab) => tab.current_idx < tab.history.len(),
            None => false,
        }
    }

    /// Lets the request `id` wait for the host's word, if requests are put before
    /// the host. If they are not, `sender` comes back.
    pub fn hold_request(&mut self, id: RequestId, url: Url, sender: R) -> (r: Option<R>)
        ensures
            match old(self)@.on_web_resource_requested {
                Some(pending) => {
                    &&& r is None
                    &&& final(self)@ == (WindowModel {
                        on_web_resource_requested: Some(pending.insert(id, (url, sender))),
                        ..old(self)@
                    })
                },
                None => r == Some(sender) && final(self)@ == old(self)@,
            },
    {
        match self.event_listeners.on_web_resource_requested.take() {
            Some(mut pending) => {
                pending.insert(id, (url, sender));
                self.event_listeners.on_web_resource_requested = Some(pending);
                None
            },
            None => Some(sender),
        }
    }

    /// Takes the request `id` from those that wait.
    pub fn release_request(&mut self, id: RequestId) -> (r: Option<(Url, R)>)
        ensures
            match old(self)@.on_web_resource_requested {
                Some(pending) => {
                    &&& r == (if pending.contains_key(id) {
                        Some(pending[id])
                    } else {
                        None
                    })
                    &&& final(self)@ == (WindowModel {
                        on_web_resource_requested: Some(pending.remove(id)),
                        ..old(self)@
                    })
                },
                None => r is None && final(self)@ == old(self)@,
            },
    {
        match self.event_listeners.on_web_resource_requested.take() {
            Some(mut pending) => {
                let request = pending.remove(&id);
                self.event_listeners.on_web_resource_requested = Some(pending);
                request
            },
            None => None,
        }
    }
}

/// One word to the engine on a request that it asked about.
#[derive(Debug)]
pub enum WebResourceResponseMsg {
    /// A response begins: the request's address, the headers and the status.
    Start { url: Url, headers: Vec<(String, Vec<u8>)>, status: u16 },
    SendBodyData(Vec<u8>),
    FinishLoad,
    /// Make the request.
    DoNotIntercept,
}

/// What is still to be said to the engine on one request, in order.
#[derive(Debug)]
pub enum WebResourceReply {
    Respond { url: Url, response: WebResponse },
    SendBody(Vec<u8>),
    Finish,
    Decline,
    Over,
}

/// The words that make up a reply, in order.
pub open spec fn words(reply: WebResourceReply) -> Seq<WebResourceResponseMsg> {
    match reply {
        WebResourceReply::Respond { url, response } => seq![
            WebResourceResponseMsg::Start {
                url,
                headers: response.headers,
                status: response.status,
            },
            WebResourceResponseMsg::SendBodyData(response.body),
            WebResourceResponseMsg::FinishLoad,
        ],
        WebResourceReply::SendBody(body) => seq![
            WebResourceResponseMsg::SendBodyData(body),
            WebResourceResponseMsg::FinishLoad,
        ],
        WebResourceReply::Finish => seq![WebResourceResponseMsg::FinishLoad],
        WebResourceReply::Decline => seq![WebResourceResponseMsg::DoNotIntercept],
        WebResourceReply::Over => seq![],
    }
}

impl WebResourceReply {
    /// The reply that the host's word amounts to.
    pub fn new(url: Url, response: Option<WebResponse>) -> (r: Self)
        ensures
            r == (match response {
                Some(response) => WebResourceReply::Respond { url, response },
                None => WebResourceReply::Decline,
            }),
    {
        match response {
            Some(response) => WebResourceReply::Respond { url, response },
            None => WebResourceReply::Decline,
        }
    }

    /// The next word, and what remains after it.
    pub fn next(self) -> (r: Option<(WebResourceResponseMsg, WebResourceReply)>)
        ensures
            match r {
                Some((word, rest)) => words(self) == seq![word] + words(rest),
                None => words(self).len() == 0,
            },
    {
        match self {
            WebResourceReply::Respond { url, response } => Some(
                (
                    WebResourceResponseMsg::Start {
                        url,
                        headers: response.headers,
                        status: response.status,
                    },
                    WebResourceReply::SendBody(response.body),
                ),
            ),
            WebResourceReply::SendBody(body) => Some(
                (WebResourceResponseMsg::SendBodyData(body), WebResourceReply::Finish),
            ),
            WebResourceReply::Finish => Some(
                (WebResourceResponseMsg::FinishLoad, WebResourceReply::Over),
            ),
            WebResourceReply::Decline => Some(
                (WebResourceResponseMsg::DoNotIntercept, WebResourceReply::Over),
            ),
            WebResourceReply::Over => None,
        }
    }

    /// What remains once a word has been sent, or has failed to be: then nothing.
    pub fn after_send(self, sent: bool) -> (r: Self)
        ensures
            words(r) == (if sent {
                words(self)
            } else {
                seq![]
            }),
    {
        if sent {
            self
        } else {
            WebResourceReply::Over
        }
    }
}

} // verus!
