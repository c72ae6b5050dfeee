//! What the shell's state says of the things in it.
use vstd::prelude::*;

#[allow(unused_imports)]
use crate::controller::VersoviewController;
#[allow(unused_imports)]
use crate::controller::{Handles, ResponseListener};
use crate::ids::{DocumentId, RequestId, WebViewId, WindowId};
#[allow(unused_imports)]
use crate::ids::{names_pipeline, pipeline_named};
#[allow(unused_imports)]
use crate::verso::{CompositorStatus, VersoModel};
use crate::window::Window;
#[allow(unused_imports)]
use crate::window::{TabModel, WindowModel};

verus! {

/// Nothing in a window is hidden from the laws: its web views, the page of the tab that
/// it shows, who listens to it, and every request that waits, with its address and its
/// sender.
pub proof fn law_windows_are_seen_whole<R>(window: Window<R>)
    ensures
        window@.webviews == window.webviews@,
        window@.current_tab is Some <==> window.current_tab is Some,
        window.current_tab is Some ==> {
            &&& window@.current_tab->0.id == window.current_tab->0.id
            &&& window@.current_tab->0.history == window.current_tab->0.history@
            &&& window@.current_tab->0.current_idx == window.current_tab->0.current_idx
        },
        window@.on_close_requested == window.event_listeners.on_close_requested,
        window@.on_navigation_starting == window.event_listeners.on_navigation_starting,
        window@.on_web_resource_requested is Some
            <==> window.event_listeners.on_web_resource_requested is Some,
        window.event_listeners.on_web_resource_requested is Some
            ==> window@.on_web_resource_requested->0
            == window.event_listeners.on_web_resource_requested->0@,
{
}

/// Nothing in a controller is hidden from the laws: its callbacks, and the callers that
/// wait for each kind of answer.
pub proof fn law_controllers_are_seen_whole<H: Handles>(c: VersoviewController<H>)
    ensures
        c@.on_close_requested == c.event_listeners.on_close_requested,
        c@.on_navigation_starting == c.event_listeners.on_navigation_starting,
        c@.on_web_resource_requested == c.event_listeners.on_web_resource_requested,
        c@.title_response == c.event_listeners.title_response.waiting@,
        c@.size_response == c.event_listeners.size_response.waiting@,
        c@.position_response == c.event_listeners.position_response.waiting@,
        c@.maximized_response == c.event_listeners.maximized_response.waiting@,
        c@.minimized_response == c.event_listeners.minimized_response.waiting@,
        c@.fullscreen_response == c.event_listeners.fullscreen_response.waiting@,
        c@.visible_response == c.event_listeners.visible_response.waiting@,
        c@.scale_factor_response == c.event_listeners.scale_factor_response.waiting@,
        c@.theme_response == c.event_listeners.theme_response.waiting@,
        c@.get_url_response == c.event_listeners.get_url_response.waiting@,
{
}

/// A window has a web view if and only if the web view stands somewhere among its own.
pub proof fn law_any_webview_counts<R>(window: WindowModel<R>, webview: WebViewId)
    ensures
        window.has_webview(webview) <==> exists|i: int|
            0 <= i < window.webviews.len() && #[trigger] window.webviews[i] == webview,
{
}

/// A request waits if and only if requests are put before the host and this one is among
/// those that were.
pub proof fn law_what_waits<R>(window: WindowModel<R>, id: RequestId)
    ensures
        window.waits_for(id) <==> window.on_web_resource_requested is Some
            && window.on_web_resource_requested->0.dom().contains(id),
{
}

/// A window shows an address if and only if it has a tab whose index is one of the tab's
/// history, and then the address is the one at that index.
pub proof fn law_shown_address<R>(window: WindowModel<R>)
    ensures
        window.shows_address() <==> window.current_tab is Some && 0
            <= window.current_tab->0.current_idx
            && window.current_tab->0.current_idx < window.current_tab->0.history.len(),
        window.current_tab matches Some(tab) ==> window.address()
            == tab.history[tab.current_idx],
{
}

/// The web view that a window shows is that of its tab, whatever other web views it has.
pub proof fn law_shown_webview_is_that_of_the_tab<R>(s: VersoModel<R>, window: WindowId)
    ensures
        s.windows[window].current_tab is Some ==> s.shown_webview(Some(window)) == Some(
            s.windows[window].current_tab->0.id,
        ),
        s.windows[window].current_tab is None ==> s.shown_webview(Some(window)) is None,
        s.shown_webview(None) is None,
{
}

/// Any window can come first; none comes first only if there is none.
pub proof fn law_which_may_come_first<R>(s: VersoModel<R>, window: WindowId)
    ensures
        s.may_come_first(Some(window)) <==> s.windows.dom().contains(window),
        s.may_come_first(None) <==> forall|w: WindowId| !#[trigger] s.windows.contains_key(w),
{
    if forall|w: WindowId| !#[trigger] s.windows.contains_key(w) {
        assert(s.windows.dom() =~= Set::<WindowId>::empty());
    }
    if s.may_come_first(None) {
        assert forall|w: WindowId| !#[trigger] s.windows.contains_key(w) by {
            assert(!Set::<WindowId>::empty().contains(w));
        }
    }
}

/// After a report the windows that the compositor closed are gone, and only they; the
/// others are as they were, with the documents that they had, and the status is the one
/// that was reported.
pub proof fn law_reports_close_windows<R>(
    s: VersoModel<R>,
    status: CompositorStatus,
    closed: Set<WindowId>,
    window: WindowId,
)
    ensures
        ({
            let t = s.with_report(status, closed);
            &&& t.windows.contains_key(window) <==> s.windows.contains_key(window)
                && !closed.contains(window)
            &&& t.documents.contains_key(window) <==> s.documents.contains_key(window)
                && !closed.contains(window)
            &&& t.windows.contains_key(window) ==> t.windows[window] == s.windows[window]
            &&& t.documents.contains_key(window) ==> t.documents[window] == s.documents[window]
            &&& t.compositor == Some(status)
            &&& t.has_controller == s.has_controller
            &&& t.url == s.url
        }),
{
}

/// What the compositor says of itself changes nothing else.
pub proof fn law_status_is_noted<R>(s: VersoModel<R>, status: CompositorStatus)
    ensures
        ({
            let t = s.with_status(status);
            &&& t.compositor == Some(status)
            &&& t.windows == s.windows
            &&& t.documents == s.documents
            &&& t.has_controller == s.has_controller
            &&& t.url == s.url
        }),
{
}

/// A window that is put in is there with its document, and one that is changed is there
/// as it was changed to; every other window, and all else, is as it was.
pub proof fn law_windows_are_put_and_changed<R>(
    s: VersoModel<R>,
    id: WindowId,
    window: WindowModel<R>,
    document: DocumentId,
    other: WindowId,
)
    requires
        other != id,
    ensures
        ({
            let t = s.with_window(id, window, document);
            &&& t.windows.contains_key(id) && t.windows[id] == window
            &&& t.documents.contains_key(id) && t.documents[id] == document
            &&& t.windows.contains_key(other) == s.windows.contains_key(other)
            &&& t.documents.contains_key(other) == s.documents.contains_key(other)
            &&& s.windows.contains_key(other) ==> t.windows[other] == s.windows[other]
            &&& s.documents.contains_key(other) ==> t.documents[other] == s.documents[other]
            &&& t.compositor == s.compositor
            &&& t.has_controller == s.has_controller
            &&& t.url == s.url
        }),
        ({
            let t = s.with_window_changed(id, window);
            &&& t.windows.contains_key(id) && t.windows[id] == window
            &&& t.windows.contains_key(other) == s.windows.contains_key(other)
            &&& s.windows.contains_key(other) ==> t.windows[other] == s.windows[other]
            &&& t.documents == s.documents
            &&& t.compositor == s.compositor
            &&& t.has_controller == s.has_controller
            &&& t.url == s.url
        }),
{
}

/// In a shell that is well-formed, a window and its document are there together, and any
/// two windows show the same document; and a shell of which that holds is well-formed.
pub proof fn law_well_formed_shells<R>(s: VersoModel<R>)
    ensures
        s.well_formed() <==> {
            &&& forall|w: WindowId|
                #![trigger s.windows.contains_key(w)]
                #![trigger s.documents.contains_key(w)]
                s.windows.contains_key(w) <==> s.documents.contains_key(w)
            &&& forall|a: WindowId, b: WindowId|
                s.documents.contains_key(a) && s.documents.contains_key(b)
                    ==> #[trigger] s.documents[a] == #[trigger] s.documents[b]
        },
{
    if forall|w: WindowId|
        #![trigger s.windows.contains_key(w)]
        s.windows.contains_key(w) <==> s.documents.contains_key(w) {
        assert(s.windows.dom() =~= s.documents.dom());
    }
}

/// Bytes name a pipeline if and only if there are eight of them or more and the fifth to
/// the eighth are not all zero. The first four are the namespace and the next four the
/// index, each with the least significant byte first; further bytes make no difference.
pub proof fn law_pipeline_bytes(bytes: Seq<u8>)
    ensures
        names_pipeline(bytes) <==> bytes.len() >= 8 && !(bytes[4] == 0 && bytes[5] == 0 && bytes[6]
            == 0 && bytes[7] == 0),
        pipeline_named(bytes).namespace == bytes[0] + 256 * bytes[1] + 65536 * bytes[2] + 16777216
            * bytes[3],
        pipeline_named(bytes).index == bytes[4] + 256 * bytes[5] + 65536 * bytes[6] + 16777216
            * bytes[7],
{
}

} // verus!
