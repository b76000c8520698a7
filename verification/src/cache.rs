//! The thumbnail cache and its fetch scheduler.
//!
//! Every thumbnail URL that the cache has heard of is in exactly one of four
//! places: resolved to a texture, pending, failed for good, or in flight. At
//! most one fetch is in flight at a time. The cache never performs a fetch
//! itself: [`TextureCache::poll`] tells the caller which URL to fetch next and
//! is told, on a later tick, how that fetch ended.

use vstd::prelude::*;

verus! {

/// The name under which a thumbnail is cached: the text of its URL.
pub type Url = Seq<char>;

/// A texture that the renderer has uploaded.
#[derive(Clone, Copy, Debug, PartialEq, Eq, Structural)]
pub struct TextureHandle(pub u32);

/// Why a thumbnail could not be had.
#[derive(Clone, Copy, Debug, PartialEq, Eq, Structural)]
pub enum ImageError {
    /// The bytes never arrived: no connection, or a status other than success.
    Fetch,
    /// The bytes arrived and are no image.
    Decode,
}

/// What the caller saw of the running fetch during this tick.
#[derive(Clone, Copy, Debug, PartialEq, Eq, Structural)]
pub enum FetchReport {
    /// Not finished yet, or nothing is running.
    Waiting,
    /// Fetched, decoded and uploaded.
    Loaded(TextureHandle),
    /// Ended without a texture.
    Failed(ImageError),
}

/// What the caller has to do after a tick.
#[derive(Debug)]
pub enum FetchOrder {
    /// Nothing new.
    Idle,
    /// Start fetching this URL and report on it at every later tick.
    Begin(String),
}

/// The cache as sets: what the contracts of [`TextureCache`] speak of.
pub ghost struct CacheState {
    pub resolved: Map<Url, TextureHandle>,
    pub pending: Set<Url>,
    pub failed: Set<Url>,
    pub in_flight: Option<Url>,
}

impl CacheState {
    /// The cache that has heard of nothing.
    pub open spec fn empty() -> CacheState {
        CacheState {
            resolved: Map::empty(),
            pending: Set::empty(),
            failed: Set::empty(),
            in_flight: None,
        }
    }

    /// Whether the cache has heard of `url` at all.
    pub open spec fn tracks(self, url: Url) -> bool {
        ||| self.resolved.contains_key(url)
        ||| self.pending.contains(url)
        ||| self.failed.contains(url)
        ||| self.in_flight == Some(url)
    }

    /// In how many of the four places `url` is.
    pub open spec fn places(self, url: Url) -> nat {
        let resolved: nat = if self.resolved.contains_key(url) { 1 } else { 0 };
        let pending: nat = if self.pending.contains(url) { 1 } else { 0 };
        let failed: nat = if self.failed.contains(url) { 1 } else { 0 };
        let in_flight: nat = if self.in_flight == Some(url) { 1 } else { 0 };
        resolved + pending + failed + in_flight
    }

    /// No URL is in two places at once.
    pub open spec fn exclusive(self) -> bool {
        forall|u: Url| #[trigger] self.places(u) <= 1
    }

    /// A URL that the cache has not heard of becomes pending; any other call
    /// changes nothing.
    pub open spec fn mark(self, url: Url) -> CacheState {
        if self.tracks(url) {
            self
        } else {
            CacheState { pending: self.pending.insert(url), ..self }
        }
    }

    /// `mark` for each URL of `urls` in turn.
    pub open spec fn mark_all(self, urls: Seq<Url>) -> CacheState
        decreases urls.len(),
    {
        if urls.len() == 0 {
            self
        } else {
            self.mark_all(urls.drop_last()).mark(urls.last())
        }
    }

    /// Interest in everything that is still waiting is withdrawn.
    pub open spec fn forget(self) -> CacheState {
        CacheState { pending: Set::empty(), ..self }
    }

    /// `url` leaves the pending set and is in flight.
    pub open spec fn begin(self, url: Url) -> CacheState {
        CacheState { pending: self.pending.remove(url), in_flight: Some(url), ..self }
    }

    /// The fetch in flight, if there is one and it has ended, is filed under
    /// resolved or failed.
    pub open spec fn settle(self, report: FetchReport) -> CacheState {
        match (self.in_flight, report) {
            (Some(u), FetchReport::Loaded(h)) => CacheState {
                resolved: self.resolved.insert(u, h),
                in_flight: None,
                ..self
            },
            (Some(u), FetchReport::Failed(_)) => CacheState {
                failed: self.failed.insert(u),
                in_flight: None,
                ..self
            },
            _ => self,
        }
    }

    /// One tick of the scheduler, as a relation: `next` and `order` are a
    /// possible outcome of polling in state `self` with `report`.
    ///
    /// With a fetch in flight the tick only files its result, if it has one.
    /// With none in flight and something pending, some pending URL is chosen
    /// and begun; which one is left open.
    pub open spec fn polled(self, report: FetchReport, next: CacheState, order: Option<Url>) -> bool {
        if self.in_flight is Some {
            next == self.settle(report) && order is None
        } else if self.pending =~= Set::empty() {
            next == self && order is None
        } else {
            order matches Some(u) && self.pending.contains(u) && next == self.begin(u)
        }
    }
}

/// The URLs that a list of strings spells.
pub open spec fn url_seq(list: Seq<String>) -> Seq<Url> {
    Seq::new(list.len(), |i: int| list[i]@)
}

/// The thumbnail cache. See the module's description.
pub struct TextureCache {
    resolved_urls: Vec<String>,
    resolved_handles: Vec<TextureHandle>,
    pending: Vec<String>,
    failed: Vec<String>,
    in_flight: Option<String>,
}

impl View for TextureCache {
    type V = CacheState;

    closed spec fn view(&self) -> CacheState {
        CacheState {
            resolved: Map::new(
                |u: Url| url_seq(self.resolved_urls@).contains(u),
                |u: Url| self.resolved_handles@[url_seq(self.resolved_urls@).index_of(u)],
            ),
            pending: Set::new(|u: Url| url_seq(self.pending@).contains(u)),
            failed: Set::new(|u: Url| url_seq(self.failed@).contains(u)),
            in_flight: match self.in_flight {
                Some(s) => Some(s@),
                None => None,
            },
        }
    }
}

proof fn lemma_url_seq_push(list: Seq<String>, s: String)
    ensures
        url_seq(list.push(s)) == url_seq(list).push(s@),
        forall|u: Url| #[trigger]
            url_seq(list.push(s)).contains(u) <==> url_seq(list).contains(u) || u == s@,
        url_seq(list).no_duplicates() && !url_seq(list).contains(s@) ==> url_seq(
            list.push(s),
        ).no_duplicates(),
{
    let before = url_seq(list);
    let after = url_seq(list.push(s));
    assert forall|u: Url| #[trigger] after.contains(u) <==> before.contains(u) || u == s@ by {
        if after.contains(u) {
            let i = choose|i: int| 0 <= i < after.len() && after[i] == u;
            if i < before.len() {
                assert(before[i] == u);
            }
        }
        if before.contains(u) {
            let i = choose|i: int| 0 <= i < before.len() && before[i] == u;
            assert(after[i] == u);
        }
        if u == s@ {
            assert(after[before.len() as int] == u);
        }
    }
}

/// Finds `url` in `list`.
fn find_url(list: &Vec<String>, url: &String) -> (r: Option<usize>)
    ensures
        match r {
            Some(i) => i < list.len() && list[i as int]@ == url@,
            None => !url_seq(list@).contains(url@),
        },
{
    let mut i: usize = 0;
    while i < list.len()
        invariant
            i <= list.len(),
            forall|k: int| 0 <= k < i ==> list[k]@ != url@,
        decreases list.len() - i,
    {
        if list[i] == *url {
            return Some(i);
        }
        i += 1;
    }
    assert forall|k: int| 0 <= k < url_seq(list@).len() implies url_seq(list@)[k] != url@ by {
        assert(url_seq(list@)[k] == list[k]@);
    }
    None
}

impl TextureCache {
    /// The representation is sound: each of the three lists names every
    /// URL once, and the four places share none.
    pub closed spec fn wf(&self) -> bool {
        &&& self.resolved_urls.len() == self.resolved_handles.len()
        &&& url_seq(self.resolved_urls@).no_duplicates()
        &&& url_seq(self.pending@).no_duplicates()
        &&& url_seq(self.failed@).no_duplicates()
        &&& self@.exclusive()
    }

    /// In a sound cache no URL is in two places at once.
    pub proof fn lemma_wf_exclusive(&self)
        requires
            self.wf(),
        ensures
            self@.exclusive(),
    {
    }

    /// A cache that has heard of nothing.
    pub fn new() -> (r: TextureCache)
        ensures
            r@ == CacheState::empty(),
            r.wf(),
    {
        let r = TextureCache {
            resolved_urls: Vec::new(),
            resolved_handles: Vec::new(),
            pending: Vec::new(),
            failed: Vec::new(),
            in_flight: None,
        };
        assert(r@.resolved =~= Map::<Url, TextureHandle>::empty());
        r
    }

    /// The texture that `url` resolved to, if it has.
    pub fn get(&self, url: &str) -> (r: Option<TextureHandle>)
        requires
            self.wf(),
        ensures
            r == (if self@.resolved.contains_key(url@) {
                Some(self@.resolved[url@])
            } else {
                None
            }),
    {
        let key: String = url.to_owned();
        match find_url(&self.resolved_urls, &key) {
            Some(i) => {
                proof {
                    let urls = url_seq(self.resolved_urls@);
                    assert(urls[i as int] == url@);
                    let j = urls.index_of(url@);
                    assert(j == i);
                }
                Some(self.resolved_handles[i])
            },
            None => None,
        }
    }

    /// Whether a fetch is running.
    pub fn is_fetching(&self) -> (r: bool)
        ensures
            r == self@.in_flight is Some,
    {
        self.in_flight.is_some()
    }

    /// Whether the cache has heard of `url`.
    pub fn tracks(&self, url: &str) -> (r: bool)
        ensures
            r == self@.tracks(url@),
    {
        let key: String = url.to_owned();
        self.tracks_key(&key)
    }

    fn tracks_key(&self, key: &String) -> (r: bool)
        ensures
            r == self@.tracks(key@),
    {
        let flying: bool = match &self.in_flight {
            Some(s) => *s == *key,
            None => false,
        };
        let r: bool = flying || find_url(&self.resolved_urls, key).is_some() || find_url(
            &self.pending,
            key,
        ).is_some() || find_url(&self.failed, key).is_some();
        proof {
            Self::lemma_found(self.resolved_urls@, key@);
            Self::lemma_found(self.pending@, key@);
            Self::lemma_found(self.failed@, key@);
        }
        r
    }

    proof fn lemma_found(list: Seq<String>, url: Url)
        ensures
            url_seq(list).contains(url) <==> exists|i: int| 0 <= i < list.len() && list[i]@ == url,
    {
        if url_seq(list).contains(url) {
            let i = choose|i: int| 0 <= i < url_seq(list).len() && url_seq(list)[i] == url;
            assert(list[i]@ == url);
        }
        if exists|i: int| 0 <= i < list.len() && list[i]@ == url {
            let i = choose|i: int| 0 <= i < list.len() && list[i]@ == url;
            assert(url_seq(list)[i] == url);
        }
    }

    /// Declares that `url` is wanted. A URL that the cache has not heard of
    /// becomes pending. One that is resolved, pending, failed or in flight
    /// stays where it is: in particular a failed URL is not tried again.
    pub fn mark_of_interest(&mut self, url: &str)
        requires
            old(self).wf(),
        ensures
            final(self).wf(),
            final(self)@ == old(self)@.mark(url@),
    {
        let key: String = url.to_owned();
        if !self.tracks_key(&key) {
            let ghost before = *self;
            proof {
                lemma_url_seq_push(self.pending@, key);
                Self::lemma_found(self.pending@, key@);
            }
            self.pending.push(key);
            assert(self@.pending =~= before@.pending.insert(url@));
            proof {
                lemma_exclusive_is_kept(before@, url@, FetchReport::Waiting);
            }
        }
    }

    /// Withdraws interest in every URL that is still waiting for its turn.
    /// What is resolved, failed or in flight stays.
    pub fn forget_pending(&mut self)
        requires
            old(self).wf(),
        ensures
            final(self).wf(),
            final(self)@ == old(self)@.forget(),
    {
        let ghost before = *self;
        self.pending.clear();
        assert(self@.pending =~= Set::<Url>::empty());
        proof {
            lemma_exclusive_is_kept(before@, Seq::empty(), FetchReport::Waiting);
        }
    }

    /// One tick of the scheduler.
    ///
    /// While a fetch is in flight, `report` says how it stands: a finished one
    /// is filed under resolved or failed, an unfinished one is left alone, and
    /// nothing new is begun in the same tick. With no fetch in flight `report`
    /// is ignored; if anything is pending, one pending URL is picked, becomes
    /// the fetch in flight and is handed to the caller to be fetched.
    pub fn poll(&mut self, report: FetchReport) -> (order: FetchOrder)
        requires
            old(self).wf(),
        ensures
            final(self).wf(),
            old(self)@.polled(
                report,
                final(self)@,
                match order {
                    FetchOrder::Begin(u) => Some(u@),
                    FetchOrder::Idle => None,
                },
            ),
    {
        let ghost before = *self;
        if self.in_flight.is_some() {
            match report {
                FetchReport::Waiting => {},
                FetchReport::Loaded(handle) => {
                    let url: String = self.in_flight.take().unwrap();
                    proof {
                        assert(before@.places(url@) <= 1);
                        lemma_url_seq_push(self.resolved_urls@, url);
                        Self::lemma_resolved_push(
                            self.resolved_urls@,
                            self.resolved_handles@,
                            url,
                            handle,
                        );
                    }
                    self.resolved_urls.push(url);
                    self.resolved_handles.push(handle);
                    proof {
                        lemma_exclusive_is_kept(before@, url@, report);
                    }
                },
                FetchReport::Failed(_) => {
                    let url: String = self.in_flight.take().unwrap();
                    proof {
                        assert(before@.places(url@) <= 1);
                        lemma_url_seq_push(self.failed@, url);
                    }
                    self.failed.push(url);
                    assert(self@.failed =~= before@.failed.insert(url@));
                    proof {
                        lemma_exclusive_is_kept(before@, url@, report);
                    }
                },
            }
            FetchOrder::Idle
        } else {
            match self.pending.pop() {
                Some(url) => {
                    proof {
                        let rest = self.pending@;
                        assert(before.pending@ =~= rest.push(url));
                        lemma_url_seq_push(rest, url);
                        assert(url_seq(before.pending@)[rest.len() as int] == url@);
                        assert(!url_seq(rest).contains(url@)) by {
                            if url_seq(rest).contains(url@) {
                                let i = choose|i: int|
                                    0 <= i < url_seq(rest).len() && url_seq(rest)[i] == url@;
                                assert(url_seq(before.pending@)[i] == url@);
                            }
                        }
                        assert(url_seq(rest).no_duplicates()) by {
                            assert forall|i: int, j: int|
                                0 <= i < rest.len() && 0 <= j < rest.len() && i != j implies url_seq(
                                rest,
                            )[i] != url_seq(rest)[j] by {
                                assert(url_seq(before.pending@)[i] == url_seq(rest)[i]);
                                assert(url_seq(before.pending@)[j] == url_seq(rest)[j]);
                            }
                        }
                    }
                    self.in_flight = Some(url.clone());
                    assert(self@.pending =~= before@.pending.remove(url@));
                    proof {
                        lemma_exclusive_is_kept(before@, url@, report);
                    }
                    FetchOrder::Begin(url)
                },
                None => {
                    FetchOrder::Idle
                },
            }
        }
    }

    proof fn lemma_resolved_push(
        urls: Seq<String>,
        handles: Seq<TextureHandle>,
        url: String,
        handle: TextureHandle,
    )
        requires
            urls.len() == handles.len(),
            url_seq(urls).no_duplicates(),
            !url_seq(urls).contains(url@),
        ensures
            Map::new(
                |u: Url| url_seq(urls.push(url)).contains(u),
                |u: Url| handles.push(handle)[url_seq(urls.push(url)).index_of(u)],
            ) =~= Map::new(
                |u: Url| url_seq(urls).contains(u),
                |u: Url| handles[url_seq(urls).index_of(u)],
            ).insert(url@, handle),
    {
        lemma_url_seq_push(urls, url);
        let before = url_seq(urls);
        let after = url_seq(urls.push(url));
        assert forall|u: Url| after.contains(u) implies handles.push(handle)[after.index_of(u)] == (
        if u == url@ {
            handle
        } else {
            handles[before.index_of(u)]
        }) by {
            let j = after.index_of(u);
            if u == url@ {
                assert(j == urls.len());
            } else {
                let i = before.index_of(u);
                assert(i == j);
            }
        }
    }
}

/// The four places stay disjoint under every operation of the cache.
pub proof fn lemma_exclusive_is_kept(s: CacheState, url: Url, report: FetchReport)
    requires
        s.exclusive(),
    ensures
        s.mark(url).exclusive(),
        s.forget().exclusive(),
        s.settle(report).exclusive(),
        s.in_flight is None && s.pending.contains(url) ==> s.begin(url).exclusive(),
{
    assert forall|u: Url| #[trigger] s.mark(url).places(u) <= 1 by {
        assert(s.places(u) <= 1);
    }
    assert forall|u: Url| #[trigger] s.forget().places(u) <= 1 by {
        assert(s.places(u) <= 1);
    }
    assert forall|u: Url| #[trigger] s.settle(report).places(u) <= 1 by {
        assert(s.places(u) <= 1);
    }
    if s.in_flight is None && s.pending.contains(url) {
        assert forall|u: Url| #[trigger] s.begin(url).places(u) <= 1 by {
            assert(s.places(u) <= 1);
        }
    }
}

/// Marking one more URL after others is marking the others, then that one.
pub proof fn lemma_mark_all_push(s: CacheState, urls: Seq<Url>, url: Url)
    ensures
        s.mark_all(urls.push(url)) == s.mark_all(urls).mark(url),
{
    assert(urls.push(url).drop_last() =~= urls);
}

/// Declaring interest moves nothing that is resolved, failed or in flight.
pub proof fn lemma_mark_all_keeps_the_rest(s: CacheState, urls: Seq<Url>)
    ensures
        s.mark_all(urls).resolved == s.resolved,
        s.mark_all(urls).failed == s.failed,
        s.mark_all(urls).in_flight == s.in_flight,
    decreases urls.len(),
{
    if urls.len() > 0 {
        lemma_mark_all_keeps_the_rest(s, urls.drop_last());
    }
}

/// A failed URL stays failed and out of the pending set, however often and
/// among whatever other URLs interest in it is declared again.
pub proof fn lemma_failed_is_permanent(s: CacheState, url: Url, urls: Seq<Url>)
    requires
        s.exclusive(),
        s.failed.contains(url),
    ensures
        s.mark_all(urls).exclusive(),
        s.mark_all(urls).failed.contains(url),
        !s.mark_all(urls).pending.contains(url),
    decreases urls.len(),
{
    if urls.len() > 0 {
        lemma_failed_is_permanent(s, url, urls.drop_last());
        lemma_exclusive_is_kept(s.mark_all(urls.drop_last()), urls.last(), FetchReport::Waiting);
    } else {
        assert(s.places(url) <= 1);
    }
}

/// A tick never hands out a failed URL, and leaves it failed.
pub proof fn lemma_failed_is_never_fetched(
    s: CacheState,
    url: Url,
    report: FetchReport,
    next: CacheState,
    order: Option<Url>,
)
    requires
        s.exclusive(),
        s.failed.contains(url),
        s.polled(report, next, order),
    ensures
        order != Some(url),
        next.failed.contains(url),
        !next.pending.contains(url),
{
    assert(s.places(url) <= 1);
}

/// A tick begins a fetch only when none is in flight, and then that fetch is
/// the one in flight: there are never two.
pub proof fn lemma_single_flight(
    s: CacheState,
    report: FetchReport,
    next: CacheState,
    order: Option<Url>,
)
    requires
        s.polled(report, next, order),
    ensures
        order is Some ==> s.in_flight is None && next.in_flight == order,
        s.in_flight is Some && report == FetchReport::Waiting ==> next == s,
        s.in_flight is Some ==> next.in_flight is None || next.in_flight == s.in_flight,
{
}

/// After interest was withdrawn, only what is marked again can be fetched:
/// a URL outside `urls` is not pending once `urls` have been marked.
pub proof fn lemma_only_marked_are_pending(s: CacheState, urls: Seq<Url>, url: Url)
    requires
        !urls.contains(url),
    ensures
        !s.forget().mark_all(urls).pending.contains(url),
    decreases urls.len(),
{
    if urls.len() > 0 {
        let front = urls.drop_last();
        assert(!front.contains(url)) by {
            if front.contains(url) {
                let i = choose|i: int| 0 <= i < front.len() && front[i] == url;
                assert(urls[i] == url);
            }
        }
        lemma_only_marked_are_pending(s, front, url);
    }
}

} // verus!
