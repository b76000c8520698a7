//! Loading the catalog.
//!
//! The catalog comes as JSON documents: a home document that lists the rows,
//! and, for each row that is only referred to there, a document of its own.
//! The loader never fetches anything. It says which document it needs next,
//! is handed the text of that document, and ends with the rows of the catalog
//! or with an error. Any error ends the load: there is no catalog of parts.
//!
//! Every document is read strictly. A member that is missing, or is of
//! another kind than expected, is an error of format.

use std::collections::VecDeque;
use vstd::prelude::*;
use crate::catalog::{
    catalog_fits, catalog_view, videos_view, Collection, CollectionView, Video, VideoView,
};
use crate::json::{
    as_array, as_str, get, items_of, keys, keys_of, member, parse, parsed, text_of, texts,
};
use crate::ratio::{closest, closest_place, parse_ratio, ratio_of, Ratio};

verus! {

/// Why there is no catalog.
#[derive(Clone, Copy, Debug, PartialEq, Eq, Structural)]
pub enum CatalogError {
    /// A document could not be fetched.
    Fetch,
    /// A document is no JSON, or lacks what a catalog has to have.
    Format,
}

/// A document that the loader needs.
#[derive(Clone, Debug)]
pub enum CatalogRequest {
    /// The home document.
    Home,
    /// The document of the set with this reference.
    Referenced(String),
}

pub ghost enum RequestView {
    Home,
    Referenced(Seq<char>),
}

impl View for CatalogRequest {
    type V = RequestView;

    open spec fn view(&self) -> RequestView {
        match self {
            CatalogRequest::Home => RequestView::Home,
            CatalogRequest::Referenced(id) => RequestView::Referenced(id@),
        }
    }
}

impl CatalogRequest {
    /// The same request once more.
    pub fn duplicate(&self) -> (r: CatalogRequest)
        ensures
            r@ == self@,
    {
        match self {
            CatalogRequest::Home => CatalogRequest::Home,
            CatalogRequest::Referenced(id) => CatalogRequest::Referenced(id.clone()),
        }
    }
}

/// What the home document says of one row: the row itself, or where it is
/// to be had.
#[derive(Debug)]
pub enum SetPlan {
    Curated(Collection),
    Referenced { name: String, ref_id: String },
}

pub ghost enum PlanView {
    Curated(CollectionView),
    Referenced { name: Seq<char>, ref_id: Seq<char> },
}

impl View for SetPlan {
    type V = PlanView;

    open spec fn view(&self) -> PlanView {
        match self {
            SetPlan::Curated(row) => PlanView::Curated(row@),
            SetPlan::Referenced { name, ref_id } => PlanView::Referenced {
                name: name@,
                ref_id: ref_id@,
            },
        }
    }
}

/// The plans of a list, each by its view.
pub open spec fn plans_view(plans: Seq<SetPlan>) -> Seq<PlanView> {
    Seq::new(plans.len(), |i: int| plans[i]@)
}

/// What is found under `key` in a value, where there is a value.
pub open spec fn child(value: Option<serde_json::Value>, key: Seq<char>) -> Option<
    serde_json::Value,
> {
    match value {
        Some(v) => member(v, key),
        None => None,
    }
}

/// The text of a value, where there is a value and it is a string.
pub open spec fn text(value: Option<serde_json::Value>) -> Option<Seq<char>> {
    match value {
        Some(v) => text_of(v),
        None => None,
    }
}

/// The items of a value, where there is a value and it is an array.
pub open spec fn items(value: Option<serde_json::Value>) -> Option<Seq<serde_json::Value>> {
    match value {
        Some(v) => items_of(v),
        None => None,
    }
}

/// The name under which an item of the given type files what belongs to it.
pub open spec fn content_type(kind: Seq<char>) -> Option<Seq<char>> {
    if kind == "DmcSeries"@ {
        Some("series"@)
    } else if kind == "DmcVideo"@ {
        Some("program"@)
    } else if kind == "StandardCollection"@ {
        Some("collection"@)
    } else {
        None
    }
}

/// The full title that `value` carries under `kind`.
pub open spec fn title_of(value: serde_json::Value, kind: Seq<char>) -> Option<Seq<char>> {
    text(
        child(
            child(
                child(child(child(member(value, "text"@), "title"@), "full"@), kind),
                "default"@,
            ),
            "content"@,
        ),
    )
}

/// The ratios that the keys of the thumbnail variants spell, where every key
/// spells one.
pub open spec fn variant_ratios(keys: Seq<Seq<char>>) -> Option<Seq<Ratio>> {
    if forall|i: int| 0 <= i < keys.len() ==> (#[trigger] ratio_of(keys[i])) is Some {
        Some(Seq::new(keys.len(), |i: int| Ratio { millionths: ratio_of(keys[i])->0 as u64 }))
    } else {
        None
    }
}

/// The URL of the thumbnail of `item`: of the variants that the item has,
/// the one whose ratio is closest to `target`, the first of them where
/// several are as close; in that variant the image filed under `kind`, or,
/// where there is none, the one filed under `default`.
pub open spec fn thumbnail_of(item: serde_json::Value, kind: Seq<char>, target: Ratio) -> Option<
    Seq<char>,
> {
    match child(member(item, "image"@), "tile"@) {
        None => None,
        Some(tiles) => match keys_of(tiles) {
            None => None,
            Some(keys) => match variant_ratios(keys) {
                None => None,
                Some(ratios) => match closest_place(ratios, target) {
                    None => None,
                    Some(place) => match member(tiles, keys[place]) {
                        None => None,
                        Some(variant) => {
                            let branch = if member(variant, kind) is Some {
                                kind
                            } else {
                                "default"@
                            };
                            text(child(child(member(variant, branch), "default"@), "url"@))
                        },
                    },
                },
            },
        },
    }
}

/// The video that `item` describes, where it describes one.
pub open spec fn video_of(item: serde_json::Value, target: Ratio) -> Option<VideoView> {
    match text(member(item, "type"@)) {
        None => None,
        Some(item_type) => match content_type(item_type) {
            None => None,
            Some(kind) => match (title_of(item, kind), thumbnail_of(item, kind, target)) {
                (Some(display_name), Some(thumbnail_url)) => Some(
                    VideoView { display_name, thumbnail_url, content_binding: None },
                ),
                _ => None,
            },
        },
    }
}

/// The videos that `list` describes, where every item describes one.
pub open spec fn videos_of(list: Seq<serde_json::Value>, target: Ratio) -> Option<Seq<VideoView>> {
    if forall|i: int| 0 <= i < list.len() ==> (#[trigger] video_of(list[i], target)) is Some {
        Some(Seq::new(list.len(), |i: int| video_of(list[i], target)->0))
    } else {
        None
    }
}

/// A row as it is when it is loaded: the first place selected.
pub open spec fn fresh_row(name: Seq<char>, videos: Seq<VideoView>) -> CollectionView {
    CollectionView { name, videos, selected_index: 0 }
}

/// What `container` of the home document says of its row.
pub open spec fn plan_of(container: serde_json::Value, target: Ratio) -> Option<PlanView> {
    match member(container, "set"@) {
        None => None,
        Some(set) => match (title_of(set, "set"@), text(member(set, "type"@))) {
            (Some(name), Some(set_type)) => if set_type == "CuratedSet"@ {
                match items(member(set, "items"@)) {
                    None => None,
                    Some(list) => match videos_of(list, target) {
                        None => None,
                        Some(videos) => Some(PlanView::Curated(fresh_row(name, videos))),
                    },
                }
            } else {
                match text(member(set, "refId"@)) {
                    None => None,
                    Some(ref_id) => Some(PlanView::Referenced { name, ref_id }),
                }
            },
            _ => None,
        },
    }
}

/// The containers of the home document.
pub open spec fn containers_of(home: serde_json::Value) -> Option<Seq<serde_json::Value>> {
    items(child(child(member(home, "data"@), "StandardCollection"@), "containers"@))
}

/// What the home document says of its rows, in their order, where it says it
/// of all.
pub open spec fn plans_of(home: serde_json::Value, target: Ratio) -> Option<Seq<PlanView>> {
    match containers_of(home) {
        None => None,
        Some(containers) => if forall|i: int|
            0 <= i < containers.len() ==> (#[trigger] plan_of(containers[i], target)) is Some {
            Some(Seq::new(containers.len(), |i: int| plan_of(containers[i], target)->0))
        } else {
            None
        },
    }
}

/// The videos of a set that has a document of its own: those of the first
/// member of its `data`.
pub open spec fn referenced_videos(document: serde_json::Value, target: Ratio) -> Option<
    Seq<VideoView>,
> {
    match member(document, "data"@) {
        None => None,
        Some(data) => match keys_of(data) {
            None => None,
            Some(keys) => if keys.len() == 0 {
                None
            } else {
                match items(child(member(data, keys[0]), "items"@)) {
                    None => None,
                    Some(list) => videos_of(list, target),
                }
            },
        },
    }
}

/// A borrowed value, or none, as a value, or none.
pub open spec fn held(value: Option<&serde_json::Value>) -> Option<serde_json::Value> {
    match value {
        Some(v) => Some(*v),
        None => None,
    }
}

fn get_child<'a>(value: Option<&'a serde_json::Value>, key: &str) -> (r: Option<
    &'a serde_json::Value,
>)
    ensures
        held(r) == child(held(value), key@),
{
    match value {
        Some(v) => get(v, key),
        None => None,
    }
}

fn get_text<'a>(value: Option<&'a serde_json::Value>) -> (r: Option<&'a str>)
    ensures
        match r {
            Some(s) => text(held(value)) == Some(s@),
            None => text(held(value)) is None,
        },
{
    match value {
        Some(v) => as_str(v),
        None => None,
    }
}

fn get_items<'a>(value: Option<&'a serde_json::Value>) -> (r: Option<&'a Vec<serde_json::Value>>)
    ensures
        match r {
            Some(list) => items(held(value)) == Some(list@),
            None => items(held(value)) is None,
        },
{
    match value {
        Some(v) => as_array(v),
        None => None,
    }
}

/// Whether two texts are the same.
fn same(a: &str, b: &str) -> (r: bool)
    ensures
        r == (a@ == b@),
{
    a.to_owned() == b.to_owned()
}

fn content_type_for(kind: &str) -> (r: Option<&'static str>)
    ensures
        match r {
            Some(name) => content_type(kind@) == Some(name@),
            None => content_type(kind@) is None,
        },
{
    if same(kind, "DmcSeries") {
        Some("series")
    } else if same(kind, "DmcVideo") {
        Some("program")
    } else if same(kind, "StandardCollection") {
        Some("collection")
    } else {
        None
    }
}

fn read_title(value: &serde_json::Value, kind: &str) -> (r: Option<String>)
    ensures
        match r {
            Some(title) => title_of(*value, kind@) == Some(title@),
            None => title_of(*value, kind@) is None,
        },
{
    let full = get_child(get_child(get(value, "text"), "title"), "full");
    match get_text(get_child(get_child(get_child(full, kind), "default"), "content")) {
        Some(title) => Some(title.to_owned()),
        None => None,
    }
}

fn read_ratios(names: &Vec<String>) -> (r: Option<Vec<Ratio>>)
    ensures
        match r {
            Some(ratios) => variant_ratios(texts(names@)) == Some(ratios@),
            None => variant_ratios(texts(names@)) is None,
        },
{
    let mut ratios: Vec<Ratio> = Vec::new();
    let mut i: usize = 0;
    while i < names.len()
        invariant
            i <= names.len(),
            ratios.len() == i,
            forall|k: int|
                0 <= k < i ==> (#[trigger] ratio_of(texts(names@)[k])) == Some(
                    ratios[k].millionths as nat,
                ),
        decreases names.len() - i,
    {
        assert(texts(names@)[i as int] == names[i as int]@);
        match parse_ratio(names[i].as_str()) {
            Some(ratio) => {
                ratios.push(ratio);
            },
            None => {
                return None;
            },
        }
        i += 1;
    }
    Some(ratios)
}

fn read_thumbnail(item: &serde_json::Value, kind: &str, target: Ratio) -> (r: Option<String>)
    ensures
        match r {
            Some(url) => thumbnail_of(*item, kind@, target) == Some(url@),
            None => thumbnail_of(*item, kind@, target) is None,
        },
{
    let tiles = match get_child(get(item, "image"), "tile") {
        Some(tiles) => tiles,
        None => {
            return None;
        },
    };
    let names = match keys(tiles) {
        Some(names) => names,
        None => {
            return None;
        },
    };
    let ratios = match read_ratios(&names) {
        Some(ratios) => ratios,
        None => {
            return None;
        },
    };
    let place = match closest(&ratios, target) {
        Some(place) => place,
        None => {
            return None;
        },
    };
    let variant = match get(tiles, names[place].as_str()) {
        Some(variant) => variant,
        None => {
            return None;
        },
    };
    let filed = if get(variant, kind).is_some() {
        get(variant, kind)
    } else {
        get(variant, "default")
    };
    match get_text(get_child(get_child(filed, "default"), "url")) {
        Some(url) => Some(url.to_owned()),
        None => None,
    }
}

/// Reads one item of a set: see [`video_of`].
pub fn handle_item(item: &serde_json::Value, target: Ratio) -> (r: Option<Video>)
    ensures
        match r {
            Some(video) => video_of(*item, target) == Some(video@),
            None => video_of(*item, target) is None,
        },
{
    let item_type = match get_text(get(item, "type")) {
        Some(item_type) => item_type,
        None => {
            return None;
        },
    };
    let kind = match content_type_for(item_type) {
        Some(kind) => kind,
        None => {
            return None;
        },
    };
    let display_name = match read_title(item, kind) {
        Some(name) => name,
        None => {
            return None;
        },
    };
    match read_thumbnail(item, kind, target) {
        Some(thumbnail_url) => Some(Video::new(display_name, thumbnail_url)),
        None => None,
    }
}

/// Reads the items of a set: see [`videos_of`].
pub fn read_videos(list: &Vec<serde_json::Value>, target: Ratio) -> (r: Option<Vec<Video>>)
    ensures
        match r {
            Some(videos) => videos_of(list@, target) == Some(videos_view(videos@)),
            None => videos_of(list@, target) is None,
        },
{
    let mut videos: Vec<Video> = Vec::new();
    let mut i: usize = 0;
    while i < list.len()
        invariant
            i <= list.len(),
            videos.len() == i,
            forall|k: int|
                0 <= k < i ==> (#[trigger] video_of(list[k], target)) == Some(videos[k]@),
        decreases list.len() - i,
    {
        match handle_item(&list[i], target) {
            Some(video) => {
                videos.push(video);
            },
            None => {
                return None;
            },
        }
        i += 1;
    }
    Some(videos)
}

/// Reads what one container of the home document says of its row: see
/// [`plan_of`].
pub fn read_plan(container: &serde_json::Value, target: Ratio) -> (r: Option<SetPlan>)
    ensures
        match r {
            Some(plan) => plan_of(*container, target) == Some(plan@),
            None => plan_of(*container, target) is None,
        },
{
    let set = match get(container, "set") {
        Some(set) => set,
        None => {
            return None;
        },
    };
    let name = match read_title(set, "set") {
        Some(name) => name,
        None => {
            return None;
        },
    };
    let set_type = match get_text(get(set, "type")) {
        Some(set_type) => set_type,
        None => {
            return None;
        },
    };
    if same(set_type, "CuratedSet") {
        let list = match get_items(get(set, "items")) {
            Some(list) => list,
            None => {
                return None;
            },
        };
        match read_videos(list, target) {
            Some(videos) => Some(SetPlan::Curated(Collection::new(name, videos))),
            None => None,
        }
    } else {
        match get_text(get(set, "refId")) {
            Some(ref_id) => Some(SetPlan::Referenced { name, ref_id: ref_id.to_owned() }),
            None => None,
        }
    }
}

/// Reads the home document: see [`plans_of`].
pub fn read_plans(home: &serde_json::Value, target: Ratio) -> (r: Option<VecDeque<SetPlan>>)
    ensures
        match r {
            Some(plans) => plans_of(*home, target) == Some(plans_view(plans@)),
            None => plans_of(*home, target) is None,
        },
{
    let collection = get_child(get(home, "data"), "StandardCollection");
    let containers = match get_items(get_child(collection, "containers")) {
        Some(containers) => containers,
        None => {
            return None;
        },
    };
    let mut plans: VecDeque<SetPlan> = VecDeque::new();
    let mut i: usize = 0;
    while i < containers.len()
        invariant
            containers_of(*home) == Some(containers@),
            i <= containers.len(),
            plans.len() == i,
            forall|k: int|
                0 <= k < i ==> (#[trigger] plan_of(containers[k], target)) == Some(plans@[k]@),
        decreases containers.len() - i,
    {
        match read_plan(&containers[i], target) {
            Some(plan) => {
                plans.push_back(plan);
            },
            None => {
                return None;
            },
        }
        i += 1;
    }
    Some(plans)
}

/// Reads the document of a set that is referred to: see
/// [`referenced_videos`].
pub fn read_referenced(document: &serde_json::Value, target: Ratio) -> (r: Option<Vec<Video>>)
    ensures
        match r {
            Some(videos) => referenced_videos(*document, target) == Some(videos_view(videos@)),
            None => referenced_videos(*document, target) is None,
        },
{
    let data = match get(document, "data") {
        Some(data) => data,
        None => {
            return None;
        },
    };
    let names = match keys(data) {
        Some(names) => names,
        None => {
            return None;
        },
    };
    if names.len() == 0 {
        return None;
    }
    match get_items(get_child(get(data, names[0].as_str()), "items")) {
        Some(list) => read_videos(list, target),
        None => None,
    }
}

/// The loader between two documents.
pub ghost struct LoaderState {
    pub target: Ratio,
    /// The rows that are complete, in the order of the catalog.
    pub done: Seq<CollectionView>,
    /// The name of the row whose document is awaited; none while the home
    /// document is awaited.
    pub awaiting: Option<Seq<char>>,
    /// What the home document says of the rows behind the awaited one.
    pub waiting: Seq<PlanView>,
}

/// Where a load stands after a document.
pub ghost enum StepView {
    Fetch(RequestView, LoaderState),
    Done(Seq<CollectionView>),
    Failed(CatalogError),
}

/// Takes the rows that the home document holds itself, up to the first that
/// it only refers to: that one is asked for. With none left the catalog is
/// complete.
pub open spec fn proceed(target: Ratio, done: Seq<CollectionView>, waiting: Seq<PlanView>) -> StepView
    decreases waiting.len(),
{
    if waiting.len() == 0 {
        StepView::Done(done)
    } else {
        match waiting[0] {
            PlanView::Curated(row) => proceed(target, done.push(row), waiting.drop_first()),
            PlanView::Referenced { name, ref_id } => StepView::Fetch(
                RequestView::Referenced(ref_id),
                LoaderState { target, done, awaiting: Some(name), waiting: waiting.drop_first() },
            ),
        }
    }
}

impl LoaderState {
    /// The load before any document.
    pub open spec fn initial(target: Ratio) -> LoaderState {
        LoaderState { target, done: Seq::empty(), awaiting: None, waiting: Seq::empty() }
    }

    /// Where the load stands after the awaited document has come as
    /// `document`.
    pub open spec fn supplied(self, document: serde_json::Value) -> StepView {
        match self.awaiting {
            None => match plans_of(document, self.target) {
                None => StepView::Failed(CatalogError::Format),
                Some(plans) => proceed(self.target, Seq::empty(), plans),
            },
            Some(name) => match referenced_videos(document, self.target) {
                None => StepView::Failed(CatalogError::Format),
                Some(videos) => proceed(
                    self.target,
                    self.done.push(fresh_row(name, videos)),
                    self.waiting,
                ),
            },
        }
    }

    /// Where the load stands after the fetch of the awaited document has
    /// ended: with `body` as its text, or with no text at all.
    pub open spec fn answered(self, body: Option<Seq<char>>) -> StepView {
        match body {
            None => StepView::Failed(CatalogError::Fetch),
            Some(body) => match parsed(body) {
                None => StepView::Failed(CatalogError::Format),
                Some(document) => self.supplied(document),
            },
        }
    }

    /// Every row is as it is when it is loaded: the first place selected and
    /// no video bound.
    pub open spec fn fresh(self) -> bool {
        &&& forall|r: int| 0 <= r < self.done.len() ==> is_fresh(#[trigger] self.done[r])
        &&& forall|k: int|
            0 <= k < self.waiting.len() ==> (#[trigger] self.waiting[k] matches PlanView::Curated(
                row,
            ) ==> is_fresh(row))
    }
}

/// `row` is as it is when it is loaded.
pub open spec fn is_fresh(row: CollectionView) -> bool {
    &&& row.selected_index == 0
    &&& forall|i: int| 0 <= i < row.videos.len() ==> (#[trigger] row.videos[i]).content_binding is None
}

/// A load in progress.
#[derive(Debug)]
pub struct CatalogLoader {
    target: Ratio,
    done: Vec<Collection>,
    awaiting: Option<String>,
    waiting: VecDeque<SetPlan>,
}

impl View for CatalogLoader {
    type V = LoaderState;

    closed spec fn view(&self) -> LoaderState {
        LoaderState {
            target: self.target,
            done: catalog_view(self.done@),
            awaiting: match self.awaiting {
                Some(name) => Some(name@),
                None => None,
            },
            waiting: plans_view(self.waiting@),
        }
    }
}

/// Where a load stands: the document that is needed next, with the loader
/// that takes it; or the catalog; or the error that ended the load.
#[derive(Debug)]
pub enum LoadStep {
    Fetch(CatalogRequest, CatalogLoader),
    Done(Vec<Collection>),
    Failed(CatalogError),
}

impl View for LoadStep {
    type V = StepView;

    open spec fn view(&self) -> StepView {
        match self {
            LoadStep::Fetch(request, loader) => StepView::Fetch(request@, loader@),
            LoadStep::Done(rows) => StepView::Done(catalog_view(rows@)),
            LoadStep::Failed(error) => StepView::Failed(*error),
        }
    }
}

/// Begins to load the catalog, with thumbnails chosen for a screen of the
/// ratio `target_aspect_ratio`: the home document is needed first.
pub fn load_catalog(target_aspect_ratio: Ratio) -> (r: LoadStep)
    ensures
        r@ == StepView::Fetch(RequestView::Home, LoaderState::initial(target_aspect_ratio)),
{
    LoadStep::Fetch(CatalogRequest::Home, CatalogLoader::new(target_aspect_ratio))
}

impl CatalogLoader {
    /// A loader that awaits the home document.
    pub fn new(target: Ratio) -> (r: CatalogLoader)
        ensures
            r@ == LoaderState::initial(target),
            r@.fresh(),
    {
        let loader = CatalogLoader {
            target,
            done: Vec::new(),
            awaiting: None,
            waiting: VecDeque::new(),
        };
        assert(loader@.done =~= Seq::empty());
        assert(loader@.waiting =~= Seq::empty());
        loader
    }

    /// The fetch of the awaited document has ended, with `body` as the text
    /// of the document or with no text: see [`LoaderState::answered`].
    pub fn answer(self, body: Option<&str>) -> (r: LoadStep)
        ensures
            r@ == self@.answered(
                match body {
                    Some(text) => Some(text@),
                    None => None,
                },
            ),
    {
        match body {
            None => LoadStep::Failed(CatalogError::Fetch),
            Some(text) => match parse(text) {
                Err(_) => LoadStep::Failed(CatalogError::Format),
                Ok(document) => self.supply(&document),
            },
        }
    }

    /// The awaited document has come: see [`LoaderState::supplied`].
    pub fn supply(self, document: &serde_json::Value) -> (r: LoadStep)
        ensures
            r@ == self@.supplied(*document),
    {
        let CatalogLoader { target, done, awaiting, waiting } = self;
        match awaiting {
            None => match read_plans(document, target) {
                None => LoadStep::Failed(CatalogError::Format),
                Some(plans) => {
                    let fresh: Vec<Collection> = Vec::new();
                    assert(catalog_view(fresh@) =~= Seq::empty());
                    advance(target, fresh, plans)
                },
            },
            Some(name) => match read_referenced(document, target) {
                None => LoadStep::Failed(CatalogError::Format),
                Some(videos) => {
                    let mut done = done;
                    let row = Collection::new(name, videos);
                    let ghost before = done@;
                    done.push(row);
                    assert(catalog_view(done@) =~= catalog_view(before).push(row@));
                    advance(target, done, waiting)
                },
            },
        }
    }
}

/// See [`proceed`].
fn advance(target: Ratio, done: Vec<Collection>, waiting: VecDeque<SetPlan>) -> (r: LoadStep)
    ensures
        r@ == proceed(target, catalog_view(done@), plans_view(waiting@)),
{
    let mut rows = done;
    let mut plans = waiting;
    loop
        invariant
            proceed(target, catalog_view(rows@), plans_view(plans@)) == proceed(
                target,
                catalog_view(done@),
                plans_view(waiting@),
            ),
        decreases plans.len(),
    {
        let ghost plans_before = plans@;
        let ghost rows_before = rows@;
        match plans.pop_front() {
            None => {
                return LoadStep::Done(rows);
            },
            Some(plan) => {
                assert(plans_view(plans@) =~= plans_view(plans_before).drop_first());
                match plan {
                    SetPlan::Curated(row) => {
                        rows.push(row);
                        assert(catalog_view(rows@) =~= catalog_view(rows_before).push(row@));
                    },
                    SetPlan::Referenced { name, ref_id } => {
                        let loader = CatalogLoader {
                            target,
                            done: rows,
                            awaiting: Some(name),
                            waiting: plans,
                        };
                        return LoadStep::Fetch(CatalogRequest::Referenced(ref_id), loader);
                    },
                }
            },
        }
    }
}

/// A load keeps its rows fresh, and a catalog of fresh rows fits a browser
/// with a registry of any size.
pub proof fn lemma_loaded_rows_are_fresh(state: LoaderState, document: serde_json::Value, n: nat)
    requires
        state.fresh(),
    ensures
        match state.supplied(document) {
            StepView::Fetch(_, next) => next.fresh() && next.target == state.target,
            StepView::Done(rows) => catalog_fits(rows, n),
            StepView::Failed(_) => true,
        },
{
    match state.awaiting {
        None => {
            match plans_of(document, state.target) {
                None => {},
                Some(plans) => {
                    assert forall|k: int| 0 <= k < plans.len() implies (
                    #[trigger] plans[k] matches PlanView::Curated(row) ==> is_fresh(row)) by {
                        let containers = containers_of(document)->0;
                        lemma_plan_is_fresh(containers[k], state.target);
                    }
                    lemma_proceed_keeps_fresh(state.target, Seq::empty(), plans, n);
                },
            }
        },
        Some(name) => {
            match referenced_videos(document, state.target) {
                None => {},
                Some(videos) => {
                    let data = member(document, "data"@)->0;
                    let keys = keys_of(data)->0;
                    let list = items(child(member(data, keys[0]), "items"@))->0;
                    lemma_videos_are_unbound(list, state.target);
                    let row = fresh_row(name, videos);
                    let done = state.done.push(row);
                    assert forall|r: int| 0 <= r < done.len() implies is_fresh(
                        #[trigger] done[r],
                    ) by {
                        if r < state.done.len() {
                            assert(done[r] == state.done[r]);
                        }
                    }
                    lemma_proceed_keeps_fresh(state.target, done, state.waiting, n);
                },
            }
        },
    }
}

proof fn lemma_videos_are_unbound(list: Seq<serde_json::Value>, target: Ratio)
    requires
        videos_of(list, target) is Some,
    ensures
        forall|i: int|
            0 <= i < videos_of(list, target)->0.len() ==> (#[trigger] videos_of(
                list,
                target,
            )->0[i]).content_binding is None,
{
    assert forall|i: int| 0 <= i < videos_of(list, target)->0.len() implies (#[trigger] videos_of(
        list,
        target,
    )->0[i]).content_binding is None by {
        assert(video_of(list[i], target) is Some);
    }
}

proof fn lemma_plan_is_fresh(container: serde_json::Value, target: Ratio)
    requires
        plan_of(container, target) is Some,
    ensures
        plan_of(container, target)->0 matches PlanView::Curated(row) ==> is_fresh(row),
{
    let set = member(container, "set"@)->0;
    if text(member(set, "type"@))->0 == "CuratedSet"@ {
        let list = items(member(set, "items"@))->0;
        lemma_videos_are_unbound(list, target);
    }
}

proof fn lemma_proceed_keeps_fresh(
    target: Ratio,
    done: Seq<CollectionView>,
    waiting: Seq<PlanView>,
    n: nat,
)
    requires
        forall|r: int| 0 <= r < done.len() ==> is_fresh(#[trigger] done[r]),
        forall|k: int|
            0 <= k < waiting.len() ==> (#[trigger] waiting[k] matches PlanView::Curated(row)
                ==> is_fresh(row)),
    ensures
        match proceed(target, done, waiting) {
            StepView::Fetch(_, next) => next.fresh() && next.target == target,
            StepView::Done(rows) => catalog_fits(rows, n),
            StepView::Failed(_) => true,
        },
    decreases waiting.len(),
{
    if waiting.len() == 0 {
        assert forall|r: int| 0 <= r < done.len() implies (#[trigger] done[r]).selection_in_range()
            && done[r].bindings_in_range(n) by {
            assert(is_fresh(done[r]));
        }
    } else {
        let rest = waiting.drop_first();
        assert forall|k: int| 0 <= k < rest.len() implies (#[trigger] rest[k] matches PlanView::Curated(
            row,
        ) ==> is_fresh(row)) by {
            assert(rest[k] == waiting[k + 1]);
        }
        match waiting[0] {
            PlanView::Curated(row) => {
                let more = done.push(row);
                assert forall|r: int| 0 <= r < more.len() implies is_fresh(#[trigger] more[r]) by {
                    if r < done.len() {
                        assert(more[r] == done[r]);
                    }
                }
                lemma_proceed_keeps_fresh(target, more, rest, n);
            },
            PlanView::Referenced { name, ref_id } => {},
        }
    }
}

} // verus!
