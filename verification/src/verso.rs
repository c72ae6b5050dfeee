//! The browser shell's state: its windows, the compositor it follows, and whom it
//! reports to.
use std::collections::hash_map::Entry;
use std::collections::HashMap;

use url::Url;
use vstd::prelude::*;

use crate::ids::{DocumentId, WebViewId, WindowId};
use crate::window::{Tab, Window};
#[allow(unused_imports)]
use crate::window::{tab_model, WindowModel};

verus! {

broadcast use vstd::std_specs::hash::group_hash_axioms;

/// How far the compositor has come in shutting down.
#[derive(Clone, Copy, Debug, PartialEq, Eq, Structural)]
pub enum ShutdownState {
    NotShuttingDown,
    ShuttingDown,
    FinishedShuttingDown,
}

/// What the compositor said of itself when it was last asked.
#[derive(Clone, Copy, Debug, PartialEq, Eq, Structural)]
pub struct CompositorStatus {
    pub shutdown_state: ShutdownState,
    pub is_animating: bool,
    pub needs_repaint: bool,
    /// The window that it paints to.
    pub current_window: WindowId,
}

/// What the compositor says after it was given the windows to work on.
#[derive(Clone, Debug)]
pub struct CompositorReport {
    pub status: CompositorStatus,
    /// The windows that it closed.
    pub closed: Vec<WindowId>,
}

/// The browser shell. `R` takes the word on one intercepted request back to the
/// engine.
///
/// All its windows show one document ([`VersoModel::well_formed`]): [`Verso::new`]
/// sees to that, and every method keeps it so.
pub struct Verso<R> {
    /// The windows, each with the renderer's document that it shows.
    windows: HashMap<WindowId, (Window<R>, DocumentId)>,
    /// The compositor, until it has shut down.
    compositor: Option<CompositorStatus>,
    /// Whether there is a host to report to.
    has_controller: bool,
    /// The address that a new window opens.
    url: Url,
}

/// What a [`Verso`] holds.
#[verifier::ext_equal]
pub struct VersoModel<R> {
    pub windows: Map<WindowId, WindowModel<R>>,
    pub documents: Map<WindowId, DocumentId>,
    pub compositor: Option<CompositorStatus>,
    pub has_controller: bool,
    pub url: Url,
}

impl<R> View for Verso<R> {
    type V = VersoModel<R>;

    closed spec fn view(&self) -> VersoModel<R> {
        VersoModel {
            windows: self.windows@.map_values(|e: (Window<R>, DocumentId)| e.0@),
            documents: self.windows@.map_values(|e: (Window<R>, DocumentId)| e.1),
            compositor: self.compositor,
            has_controller: self.has_controller,
            url: self.url,
        }
    }
}

impl<R> VersoModel<R> {
    /// `first` is a window that can come first when the windows are walked in no
    /// particular order: any window, or none if there is none.
    pub open spec fn may_come_first(self, first: Option<WindowId>) -> bool {
        match first {
            Some(id) => self.windows.contains_key(id),
            None => self.windows.dom() == Set::<WindowId>::empty(),
        }
    }

    /// The web view that the window `first` shows in its tab.
    pub open spec fn shown_webview(self, first: Option<WindowId>) -> Option<WebViewId> {
        match first {
            Some(id) => match self.windows[id].current_tab {
                Some(tab) => Some(tab.id),
                None => None,
            },
            None => None,
        }
    }

    /// All windows show one document of the renderer.
    pub open spec fn one_document(self) -> bool {
        forall|a: WindowId, b: WindowId|
            #![trigger self.documents[a], self.documents[b]]
            self.documents.contains_key(a) && self.documents.contains_key(b)
                ==> self.documents[a] == self.documents[b]
    }

    /// Every window has a document and every document a window, and they are
    /// one document.
    pub open spec fn well_formed(self) -> bool {
        &&& self.windows.dom() == self.documents.dom()
        &&& self.one_document()
    }

    /// The compositor is running and has said `status` of itself.
    pub open spec fn with_status(self, status: CompositorStatus) -> Self {
        VersoModel { compositor: Some(status), ..self }
    }

    /// The state after a report of the compositor: its status is known and the
    /// windows that it closed are gone.
    pub open spec fn with_report(self, status: CompositorStatus, closed: Set<WindowId>) -> Self {
        VersoModel {
            windows: self.windows.remove_keys(closed),
            documents: self.documents.remove_keys(closed),
            compositor: Some(status),
            ..self
        }
    }

    /// The state with the window `id` in it, showing `document`.
    pub open spec fn with_window(
        self,
        id: WindowId,
        window: WindowModel<R>,
        document: DocumentId,
    ) -> Self {
        VersoModel {
            windows: self.windows.insert(id, window),
            documents: self.documents.insert(id, document),
            ..self
        }
    }

    /// The state in which the window `id`, one of those there are, is `window`.
    pub open spec fn with_window_changed(self, id: WindowId, window: WindowModel<R>) -> Self {
        VersoModel { windows: self.windows.insert(id, window), ..self }
    }
}

/// Removing one key more is removing the keys and then that one.
proof fn lemma_remove_one_more<V>(m: Map<WindowId, V>, keys: Seq<WindowId>, key: WindowId)
    ensures
        m.remove_keys(keys.push(key).to_set()) == m.remove_keys(keys.to_set()).remove(key),
{
    broadcast use vstd::seq_lib::group_seq_properties;

    assert forall|k: WindowId| #[trigger]
        keys.push(key).to_set().contains(k) <==> keys.to_set().contains(k) || k == key by {}
    assert(m.remove_keys(keys.push(key).to_set()) =~= m.remove_keys(keys.to_set()).remove(key));
}

impl<R> Verso<R> {
    /// The shell as it is once everything has been started: one window, showing
    /// the document that was added to the renderer for it.
    pub fn new(
        window_id: WindowId,
        window: Window<R>,
        document: DocumentId,
        compositor: CompositorStatus,
        has_controller: bool,
        url: Url,
    ) -> (r: Self)
        ensures
            r@ == (VersoModel::<R> {
                windows: map![window_id => window@],
                documents: map![window_id => document],
                compositor: Some(compositor),
                has_controller,
                url,
            }),
            r@.well_formed(),
    {
        let mut windows: HashMap<WindowId, (Window<R>, DocumentId)> = HashMap::new();
        windows.insert(window_id, (window, document));
        let verso = Verso { windows, compositor: Some(compositor), has_controller, url };
        assert(verso@.windows =~= map![window_id => window@]);
        assert(verso@.documents =~= map![window_id => document]);
        verso
    }

    /// A window, whichever comes first in an order that is not fixed.
    pub fn first_window(&self) -> (r: Option<WindowId>)
        ensures
            self@.may_come_first(r),
    {
        for id in ids: self.windows.keys()
            invariant
                ids.seq().unref().to_set() == self.windows@.dom(),
                ids.seq().len() == self.windows@.dom().len(),
                ids.index() == 0,
        {
            assert(ids.seq().unref()[0] == *id);
            assert(ids.seq().unref().to_set().contains(*id));
            return Some(*id);
        }
        assert(self.windows@.dom().len() == 0);
        assert(self@.windows.dom() =~= Set::<WindowId>::empty());
        None
    }

    /// The web view shown by `first`.
    pub fn first_webview_id(&self, first: Option<WindowId>) -> (r: Option<WebViewId>)
        requires
            first matches Some(id) ==> self@.windows.contains_key(id),
        ensures
            r == self@.shown_webview(first),
    {
        match first {
            Some(id) => match self.windows.get(&id) {
                Some((window, _)) => match &window.current_tab {
                    Some(tab) => Some(tab.id),
                    None => None,
                },
                None => None,
            },
            None => None,
        }
    }

    /// A window that has the web view, whichever comes first in an order that is not
    /// fixed.
    pub fn window_with_webview(&self, webview: WebViewId) -> (r: Option<WindowId>)
        ensures
            match r {
                Some(w) => self@.windows.contains_key(w) && self@.windows[w].has_webview(webview),
                None => forall|w: WindowId|
                    #![trigger self@.windows.contains_key(w)]
                    self@.windows.contains_key(w) ==> !self@.windows[w].has_webview(webview),
            },
    {
        for id in ids: self.windows.keys()
            invariant
                ids.seq().unref().to_set() == self.windows@.dom(),
                forall|i: int|
                    0 <= i < ids.index()
                        ==> !self@.windows[#[trigger] ids.seq().unref()[i]].has_webview(webview),
        {
            assert(ids.seq().unref()[ids.index() as int] == *id);
            assert(ids.seq().unref().to_set().contains(*id));
            if let Some((window, _)) = self.windows.get(id) {
                if window.has_webview(webview) {
                    return Some(*id);
                }
            }
        }
        None
    }

    /// Whether there is the window `id`.
    pub fn has_window(&self, id: WindowId) -> (r: bool)
        ensures
            r == self@.windows.contains_key(id),
    {
        self.windows.contains_key(&id)
    }

    /// Whether there is no window.
    pub fn has_no_windows(&self) -> (r: bool)
        ensures
            r == (self@.windows.dom() == Set::<WindowId>::empty()),
    {
        assert(self@.windows.dom() =~= self.windows@.dom());
        self.windows.is_empty()
    }

    /// The windows, in an order that is not fixed.
    pub fn window_ids(&self) -> (r: Vec<WindowId>)
        ensures
            r@.to_set() == self@.windows.dom(),
            r@.no_duplicates(),
    {
        let mut r: Vec<WindowId> = Vec::new();
        for id in ids: self.windows.keys()
            invariant
                ids.seq().unref().to_set() == self.windows@.dom(),
                ids.seq().unref().no_duplicates(),
                r@.len() == ids.index(),
                forall|i: int|
                    0 <= i < ids.index() ==> r@[i] == #[trigger] ids.seq().unref()[i],
                r@.no_duplicates(),
                forall|i: int| 0 <= i < r@.len() ==> self.windows@.contains_key(#[trigger] r@[i]),
        {
            let ghost before = r@;
            assert(ids.seq().unref()[ids.index() as int] == *id);
            assert(ids.seq().unref().to_set().contains(*id));
            assert forall|i: int| 0 <= i < before.len() implies before[i] != *id by {
                assert(ids.seq().unref()[i] == before[i]);
            }
            r.push(*id);
        }
        assert forall|id: WindowId| self@.windows.dom().contains(id) implies r@.contains(id) by {
            assert(self.windows@.dom().contains(id));
        }
        assert(r@.to_set() =~= self@.windows.dom());
        r
    }

    /// The window `id`, if there is one.
    pub fn window(&self, id: WindowId) -> (r: Option<&Window<R>>)
        ensures
            match r {
                Some(window) => self@.windows.contains_key(id) && window@ == self@.windows[id],
                None => !self@.windows.contains_key(id),
            },
    {
        match self.windows.get(&id) {
            Some((window, _)) => Some(window),
            None => None,
        }
    }

    /// The document that the window `id` shows, if there is that window.
    pub fn document(&self, id: WindowId) -> (r: Option<DocumentId>)
        ensures
            r == (if self@.windows.contains_key(id) {
                Some(self@.documents[id])
            } else {
                None
            }),
    {
        match self.windows.get(&id) {
            Some((_, document)) => Some(*document),
            None => None,
        }
    }

    /// The window `id`, if there is one, to be changed in its place: it is not taken out
    /// of the table, so the windows go on being walked in the order they were. The
    /// document that it shows stays.
    pub fn window_mut(&mut self, id: WindowId) -> (r: Option<&mut Window<R>>)
        ensures
            match r {
                Some(window) => {
                    &&& old(self)@.windows.contains_key(id)
                    &&& window@ == old(self)@.windows[id]
                    &&& final(self)@ == old(self)@.with_window_changed(id, final(window)@)
                    &&& old(self)@.well_formed() ==> final(self)@.well_formed()
                },
                None => !old(self)@.windows.contains_key(id) && final(self)@ == old(self)@,
            },
    {
        if !self.windows.contains_key(&id) {
            return None;
        }
        match self.windows.entry(id) {
            Entry::Occupied(entry) => {
                let (window, _) = entry.into_mut();
                Some(window)
            },
            Entry::Vacant(_) => None,
        }
    }

    /// What the compositor last said of itself, until it has shut down.
    pub fn compositor(&self) -> (r: Option<CompositorStatus>)
        ensures
            r == self@.compositor,
    {
        self.compositor
    }

    /// Whether there is a host to report to.
    pub fn has_controller(&self) -> (r: bool)
        ensures
            r == self@.has_controller,
    {
        self.has_controller
    }

    /// The address that a new window opens.
    pub fn start_url(&self) -> (r: &Url)
        ensures
            *r == self@.url,
    {
        &self.url
    }

    /// Puts a window in, with its document.
    pub(crate) fn put_window(&mut self, id: WindowId, window: Window<R>, document: DocumentId)
        ensures
            final(self)@ == old(self)@.with_window(id, window@, document),
    {
        self.windows.insert(id, (window, document));
        assert(self@.windows =~= old(self)@.windows.insert(id, window@));
        assert(self@.documents =~= old(self)@.documents.insert(id, document));
    }

    /// Takes note that the compositor is gone.
    pub(crate) fn forget_compositor(&mut self)
        ensures
            final(self)@ == (VersoModel { compositor: None, ..old(self)@ }),
    {
        self.compositor = None;
    }

    /// Takes note of the web views and the tab that the window `id` has now. An
    /// unknown window is passed over.
    pub fn refresh_window(
        &mut self,
        id: WindowId,
        webviews: Vec<WebViewId>,
        current_tab: Option<Tab>,
    )
        ensures
            final(self)@ == (if old(self)@.windows.contains_key(id) {
                old(self)@.with_window_changed(
                    id,
                    (WindowModel {
                        webviews: webviews@,
                        current_tab: tab_model(current_tab),
                        ..old(self)@.windows[id]
                    }),
                )
            } else {
                old(self)@
            }),
            old(self)@.well_formed() ==> final(self)@.well_formed(),
    {
        if let Some(window) = self.window_mut(id) {
            window.refresh(webviews, current_tab);
        }
    }

    /// Takes note of what the compositor says of itself.
    pub fn observe_status(&mut self, status: CompositorStatus)
        requires
            old(self)@.compositor is Some,
        ensures
            final(self)@ == old(self)@.with_status(status),
            old(self)@.well_formed() ==> final(self)@.well_formed(),
    {
        self.compositor = Some(status);
    }

    /// Takes note of what the compositor says after it worked on the windows.
    pub fn observe_report(&mut self, report: CompositorReport)
        requires
            old(self)@.compositor is Some,
        ensures
            final(self)@ == old(self)@.with_report(report.status, report.closed@.to_set()),
            old(self)@.well_formed() ==> final(self)@.well_formed(),
    {
        let mut i: usize = 0;
        while i < report.closed.len()
            invariant
                i <= report.closed@.len(),
                self@.windows == old(self)@.windows.remove_keys(
                    report.closed@.take(i as int).to_set(),
                ),
                self@.documents == old(self)@.documents.remove_keys(
                    report.closed@.take(i as int).to_set(),
                ),
                self@.compositor == old(self)@.compositor,
                self@.has_controller == old(self)@.has_controller,
                self@.url == old(self)@.url,
            decreases report.closed@.len() - i,
        {
            let ghost before = report.closed@.take(i as int);
            let ghost after = report.closed@.take(i + 1);
            proof {
                assert(after =~= before.push(report.closed@[i as int]));
                lemma_remove_one_more(old(self)@.windows, before, report.closed@[i as int]);
                lemma_remove_one_more(old(self)@.documents, before, report.closed@[i as int]);
            }
            let ghost windows = self@.windows;
            let ghost documents = self@.documents;
            self.windows.remove(&report.closed[i]);
            assert(self@.windows =~= windows.remove(report.closed@[i as int]));
            assert(self@.documents =~= documents.remove(report.closed@[i as int]));
            i = i + 1;
        }
        assert(report.closed@.take(i as int) =~= report.closed@);
        self.compositor = Some(report.status);
    }

    /// Whether the compositor is animating. It is not once it has shut down.
    pub fn is_animating(&self) -> (r: bool)
        ensures
            r == (self@.compositor matches Some(status) && status.is_animating),
    {
        match &self.compositor {
            Some(status) => status.is_animating,
            None => false,
        }
    }
}

} // verus!
