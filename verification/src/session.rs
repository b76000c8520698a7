//! One running browser as a whole: the navigation, the thumbnail cache and
//! the load of the catalog, stepped once per frame in a fixed order.
//!
//! Nothing here waits. The caller runs the fetches and the easing curve,
//! reports once per frame what it saw, and is told what to fetch and what to
//! draw. Within a frame the catalog is served first, then the thumbnail
//! scheduler, then time passes for the tweens, then the keys are served, and
//! what is laid out last shows the state that all of this has led to.

use vstd::prelude::*;
use crate::cache::{CacheState, FetchOrder, FetchReport, TextureCache, Url};
use crate::layout::Frame;
use crate::json::parsed;
use crate::loader::{
    lemma_loaded_rows_are_fresh, CatalogError, CatalogLoader, CatalogRequest, LoadStep,
    LoaderState, RequestView, StepView,
};
use crate::navigation::{Browser, BrowserState, Easing, Key, Reaction, SampleTimes};
use crate::ratio::Ratio;

verus! {

/// What happened at the window since the last frame.
#[derive(Clone, Copy, Debug, PartialEq, Eq, Structural)]
pub enum Event {
    Key(Key),
    Resized(u32, u32),
    Quit,
}

/// What the caller saw of the fetch of the wanted document.
#[derive(Debug)]
pub enum DocumentReport {
    /// Not finished yet, or nothing is wanted.
    Waiting,
    /// The document, as text.
    Arrived(String),
    /// The fetch failed.
    Lost,
}

/// Everything that the caller reports for one frame.
#[derive(Debug)]
pub struct TickInput {
    pub document: DocumentReport,
    pub fetch: FetchReport,
    /// The time since the last frame, in milliseconds.
    pub delta_ms: u64,
    /// The samples of the easing curve at the moments that
    /// [`Session::sample_times`] named for `delta_ms`.
    pub easing: Easing,
    pub events: Vec<Event>,
}

/// Everything that the caller has to do after one frame.
#[derive(Debug)]
pub struct TickOutput {
    /// The document to fetch next, where this frame has made one wanted.
    pub request: Option<CatalogRequest>,
    /// The thumbnail to fetch next, where this frame has begun one.
    pub fetch: FetchOrder,
    /// What to draw; none while there is no catalog.
    pub frame: Option<Frame>,
    /// Whether the user asked to leave.
    pub quit: bool,
}

/// Where the load of the catalog stands.
pub ghost enum LoadView {
    Awaiting(RequestView, LoaderState),
    Loaded,
    Failed(CatalogError),
}

/// The session as plain values.
pub ghost struct SessionState {
    pub browser: BrowserState,
    pub cache: CacheState,
    pub load: LoadView,
}

/// What a report on the wanted document says, if anything: the text, or
/// that there is none.
pub open spec fn document_view(report: DocumentReport) -> Option<Option<Seq<char>>> {
    match report {
        DocumentReport::Waiting => None,
        DocumentReport::Arrived(text) => Some(Some(text@)),
        DocumentReport::Lost => Some(None),
    }
}

/// The load after a report. A report counts only while a document is
/// awaited: then the loader takes it, and the load goes on with the next
/// document, ends with the catalog, or ends with an error.
pub open spec fn load_after(load: LoadView, report: Option<Option<Seq<char>>>) -> LoadView {
    match (load, report) {
        (LoadView::Awaiting(_, loader), Some(body)) => match loader.answered(body) {
            StepView::Fetch(request, next) => LoadView::Awaiting(request, next),
            StepView::Done(_) => LoadView::Loaded,
            StepView::Failed(error) => LoadView::Failed(error),
        },
        _ => load,
    }
}

/// The browser after a report on the wanted document: it takes the catalog
/// when the load ends with one.
pub open spec fn browser_after_document(
    browser: BrowserState,
    load: LoadView,
    report: Option<Option<Seq<char>>>,
) -> BrowserState {
    match (load, report) {
        (LoadView::Awaiting(_, loader), Some(body)) => match loader.answered(body) {
            StepView::Done(rows) => browser.loaded(rows),
            _ => browser,
        },
        _ => browser,
    }
}

/// The document that a report has made wanted.
pub open spec fn wanted_after(load: LoadView, report: Option<Option<Seq<char>>>) -> Option<
    RequestView,
> {
    match (load, report, load_after(load, report)) {
        (LoadView::Awaiting(_, _), Some(_), LoadView::Awaiting(request, _)) => Some(request),
        _ => None,
    }
}

/// The browser after one event.
pub open spec fn handled(browser: BrowserState, event: Event) -> BrowserState {
    match event {
        Event::Key(key) => browser.pressed(key),
        Event::Resized(width, height) => browser.resized(width, height),
        Event::Quit => browser,
    }
}

/// Whether an event asks to leave: the window was closed, or Cancel was
/// pressed with no content shown.
pub open spec fn leaves(browser: BrowserState, event: Event) -> bool {
    match event {
        Event::Key(key) => browser.reaction(key) == Reaction::Quit,
        Event::Resized(_, _) => false,
        Event::Quit => true,
    }
}

/// The browser after the events, served in their order.
pub open spec fn handled_all(browser: BrowserState, events: Seq<Event>) -> BrowserState
    decreases events.len(),
{
    if events.len() == 0 {
        browser
    } else {
        handled_all(handled(browser, events[0]), events.drop_first())
    }
}

/// Whether any of the events, served in their order, asks to leave.
pub open spec fn any_leaves(browser: BrowserState, events: Seq<Event>) -> bool
    decreases events.len(),
{
    if events.len() == 0 {
        false
    } else {
        leaves(browser, events[0]) || any_leaves(handled(browser, events[0]), events.drop_first())
    }
}

/// The browser at the end of a frame.
pub open spec fn browser_after(state: SessionState, input: TickInput) -> BrowserState {
    handled_all(
        browser_after_document(state.browser, state.load, document_view(input.document)).ticked(
            input.delta_ms as int,
            input.easing,
        ),
        input.events@,
    )
}

/// Whether the frame asks to leave.
pub open spec fn quits(state: SessionState, input: TickInput) -> bool {
    any_leaves(
        browser_after_document(state.browser, state.load, document_view(input.document)).ticked(
            input.delta_ms as int,
            input.easing,
        ),
        input.events@,
    )
}

/// The URL that an order names.
pub open spec fn order_view(order: FetchOrder) -> Option<Url> {
    match order {
        FetchOrder::Begin(url) => Some(url@),
        FetchOrder::Idle => None,
    }
}

/// The request that an output names.
pub open spec fn request_view(request: Option<CatalogRequest>) -> Option<RequestView> {
    match request {
        Some(r) => Some(r@),
        None => None,
    }
}

/// `frame` and `after` are what the layout of `browser` makes of the cache
/// `mid`: see [`crate::layout::layout`]. Without a catalog nothing is laid out
/// and the cache stays as it is.
pub open spec fn laid_out(
    browser: BrowserState,
    mid: CacheState,
    frame: Option<Frame>,
    after: CacheState,
) -> bool {
    match frame {
        None => browser.catalog is None && after == mid,
        Some(frame) => {
            &&& browser.catalog is Some
            &&& frame.titles@.len() == browser.rows().len()
            &&& forall|row: int|
                0 <= row < browser.rows().len() ==> frame.titles@[row] == browser.grid().title(row)
            &&& browser.grid().framed(frame.cells@, mid.resolved)
            &&& after == mid.forget().mark_all(browser.grid().urls(frame.cells@))
        },
    }
}

/// A running browser.
pub struct Session {
    browser: Browser,
    cache: TextureCache,
    loader: Option<CatalogLoader>,
    wanted: Option<CatalogRequest>,
    failure: Option<CatalogError>,
}

impl View for Session {
    type V = SessionState;

    closed spec fn view(&self) -> SessionState {
        SessionState {
            browser: self.browser@,
            cache: self.cache@,
            load: match (self.loader, self.wanted, self.failure) {
                (Some(loader), Some(request), _) => LoadView::Awaiting(request@, loader@),
                (_, _, Some(error)) => LoadView::Failed(error),
                _ => LoadView::Loaded,
            },
        }
    }
}

impl Session {
    /// The session is in a sound state.
    pub closed spec fn wf(&self) -> bool {
        &&& self.browser.wf()
        &&& self.cache.wf()
        &&& self.loader is Some <==> self.wanted is Some
        &&& self.loader matches Some(loader) ==> loader@.fresh() && self.failure is None
    }

    /// A session that has nothing yet and wants the home document. The
    /// thumbnails will be chosen for a screen of the ratio `target`; the
    /// registry of content has `registry_size` entries.
    pub fn new(registry_size: usize, target: Ratio) -> (r: Session)
        ensures
            r.wf(),
            r@.browser == BrowserState::initial(registry_size as nat),
            r@.load == LoadView::Awaiting(RequestView::Home, LoaderState::initial(target)),
            r@.cache == CacheState::empty(),
    {
        Session {
            browser: Browser::new(registry_size),
            cache: TextureCache::new(),
            loader: Some(CatalogLoader::new(target)),
            wanted: Some(CatalogRequest::Home),
            failure: None,
        }
    }

    pub fn browser(&self) -> (r: &Browser)
        requires
            self.wf(),
        ensures
            r@ == self@.browser,
            r.wf(),
    {
        &self.browser
    }

    pub fn cache(&self) -> (r: &TextureCache)
        requires
            self.wf(),
        ensures
            r@ == self@.cache,
            r.wf(),
    {
        &self.cache
    }

    /// The document that is awaited.
    pub fn wanted(&self) -> (r: Option<&CatalogRequest>)
        ensures
            match r {
                Some(request) => self@.load matches LoadView::Awaiting(wanted, _) && wanted
                    == request@,
                None => !(self@.load is Awaiting),
            },
    {
        match &self.loader {
            Some(_) => self.wanted.as_ref(),
            None => None,
        }
    }

    /// The error that ended the load, if one did.
    pub fn load_error(&self) -> (r: Option<CatalogError>)
        ensures
            match r {
                Some(error) => self@.load == LoadView::Failed(error),
                None => !(self@.load is Failed),
            },
    {
        match (&self.loader, &self.wanted) {
            (Some(_), Some(_)) => None,
            _ => self.failure,
        }
    }

    /// Where the caller has to sample the easing curve for a frame of `delta`
    /// milliseconds. A catalog that arrives in that frame starts no tween, so
    /// the moments are those of the present state.
    pub fn sample_times(&self, delta: u64) -> (r: SampleTimes)
        ensures
            r.camera == crate::tween::queue_sample_time(self@.browser.camera_tweens, delta as int),
            r.column == crate::tween::queue_sample_time(self@.browser.column_tweens, delta as int),
            r.content == crate::tween::queue_sample_time(self@.browser.reveal_tweens, delta as int),
    {
        self.browser.sample_times(delta)
    }

    /// One frame.
    ///
    /// The report on the wanted document is taken first: see [`load_after`]
    /// and [`browser_after_document`]. Then the thumbnail scheduler ticks with
    /// the report on the running fetch. Then `delta_ms` milliseconds pass for
    /// the tweens, and the events are served in their order. Last the frame
    /// is laid out, which also renews the interest in the thumbnails on
    /// screen.
    pub fn step(&mut self, input: TickInput) -> (out: TickOutput)
        requires
            old(self).wf(),
        ensures
            final(self).wf(),
            final(self)@.browser == browser_after(old(self)@, input),
            final(self)@.load == load_after(old(self)@.load, document_view(input.document)),
            request_view(out.request) == wanted_after(
                old(self)@.load,
                document_view(input.document),
            ),
            out.quit == quits(old(self)@, input),
            exists|mid: CacheState|
                old(self)@.cache.polled(input.fetch, mid, order_view(out.fetch)) && laid_out(
                    final(self)@.browser,
                    mid,
                    out.frame,
                    final(self)@.cache,
                ),
    {
        let TickInput { document, fetch, delta_ms, easing, events } = input;
        let request = self.take_document(document);
        let order = self.cache.poll(fetch);
        let ghost mid = self.cache@;
        self.browser.tick(delta_ms, easing);
        let quit = self.serve(&events);
        let frame = self.browser.frame(&mut self.cache);
        assert(laid_out(self@.browser, mid, frame, self@.cache));
        TickOutput { request, fetch: order, frame, quit }
    }

    fn take_document(&mut self, document: DocumentReport) -> (request: Option<CatalogRequest>)
        requires
            old(self).wf(),
        ensures
            final(self).wf(),
            final(self).cache == old(self).cache,
            final(self)@.browser == browser_after_document(
                old(self)@.browser,
                old(self)@.load,
                document_view(document),
            ),
            final(self)@.load == load_after(old(self)@.load, document_view(document)),
            request_view(request) == wanted_after(old(self)@.load, document_view(document)),
    {
        let loader = match document {
            DocumentReport::Waiting => {
                return None;
            },
            _ => match self.loader.take() {
                None => {
                    return None;
                },
                Some(loader) => loader,
            },
        };
        let ghost before = loader@;
        let ghost registry = self.browser@.registry_size;
        proof {
            match document_view(document)->0 {
                Some(body) => {
                    match parsed(body) {
                        Some(value) => {
                            lemma_loaded_rows_are_fresh(before, value, registry);
                        },
                        None => {},
                    }
                },
                None => {},
            }
        }
        let step = match &document {
            DocumentReport::Arrived(text) => loader.answer(Some(text.as_str())),
            _ => loader.answer(None),
        };
        self.wanted = None;
        match step {
            LoadStep::Fetch(request, next) => {
                self.loader = Some(next);
                self.wanted = Some(request.duplicate());
                Some(request)
            },
            LoadStep::Done(rows) => {
                self.browser.adopt_catalog(rows);
                None
            },
            LoadStep::Failed(error) => {
                self.failure = Some(error);
                None
            },
        }
    }

    fn serve(&mut self, events: &Vec<Event>) -> (quit: bool)
        requires
            old(self).wf(),
        ensures
            final(self).wf(),
            final(self).cache == old(self).cache,
            final(self).loader == old(self).loader,
            final(self).wanted == old(self).wanted,
            final(self).failure == old(self).failure,
            final(self)@.browser == handled_all(old(self)@.browser, events@),
            quit == any_leaves(old(self)@.browser, events@),
    {
        let mut quit: bool = false;
        let mut i: usize = 0;
        assert(events@.skip(0) =~= events@);
        while i < events.len()
            invariant
                self.wf(),
                self.cache == old(self).cache,
                self.loader == old(self).loader,
                self.wanted == old(self).wanted,
                self.failure == old(self).failure,
                i <= events.len(),
                handled_all(self@.browser, events@.skip(i as int)) == handled_all(
                    old(self)@.browser,
                    events@,
                ),
                quit || any_leaves(self@.browser, events@.skip(i as int)) == any_leaves(
                    old(self)@.browser,
                    events@,
                ),
                quit ==> any_leaves(old(self)@.browser, events@),
            decreases events.len() - i,
        {
            assert(events@.skip(i as int).drop_first() =~= events@.skip(i + 1));
            match events[i] {
                Event::Key(key) => {
                    if self.browser.press(key) == Reaction::Quit {
                        quit = true;
                    }
                },
                Event::Resized(width, height) => {
                    self.browser.resize(width, height);
                },
                Event::Quit => {
                    quit = true;
                },
            }
            i += 1;
        }
        quit
    }
}

} // verus!
