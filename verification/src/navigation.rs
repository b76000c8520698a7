//! The navigation state machine.
//!
//! The browser owns the catalog, the camera, the selection and the three
//! tween queues (camera position, selected column, content reveal). Keys
//! change the selection and enqueue tweens; ticks play the tweens and write
//! their values into the live state. Keys that would start a second tween on
//! top of a running one are ignored, so that a queue of the navigation never
//! holds more than one tween.
//!
//! The column and the reveal amount are fixed-point numbers:
//! [`UNIT`](crate::tween::UNIT) stands for one column, and for content that is
//! fully revealed.

use vstd::prelude::*;
use crate::camera::{Camera2D, PAN_STEP};
use crate::catalog::{
    catalog_fits, catalog_view, Collection, CollectionView, ContentCycle, VideoView,
};
use crate::geometry::{clamp_coord, saturate, Region, Vec2};
use crate::cache::TextureCache;
use crate::layout::{layout, row_height, Frame, Grid, Metrics};
use crate::tween::{
    queue_after, queue_report, queue_sample_time, SampleTime, Tween, TweenQueue, TweenStep, UNIT,
};

verus! {

/// How long a tween of the navigation takes, in milliseconds.
pub const NAVIGATION_MS: u64 = 500;

/// How long content takes to open or to close, in milliseconds.
pub const REVEAL_MS: u64 = 1000;

/// What the user can ask for.
#[derive(Clone, Copy, Debug, PartialEq, Eq, Structural)]
pub enum Key {
    Left,
    Right,
    Up,
    Down,
    Confirm,
    Cancel,
    PanLeft,
    PanRight,
    PanUp,
    PanDown,
}

/// What a key led to.
#[derive(Clone, Copy, Debug, PartialEq, Eq, Structural)]
pub enum Reaction {
    /// The key is not served in the present state; nothing changed.
    Ignored,
    /// The key was served.
    Handled,
    /// The user wants to leave; nothing changed.
    Quit,
}

/// What the browser is busy with.
#[derive(Clone, Copy, Debug, PartialEq, Eq, Structural)]
pub enum Phase {
    Idle,
    AnimatingSelection,
    AnimatingRow,
    ShowingContent,
    ContentTransitioning,
}

/// Where the selection is: the selected row, and the column at which the
/// selection is drawn, in fixed-point units. The column follows the place
/// selected in the row, by a tween while the selection moves along the row.
#[derive(Clone, Copy, Debug, PartialEq, Eq, Structural)]
pub struct Selection {
    pub row: usize,
    pub column: i64,
}

/// The easing curve's samples for one tick, one for the front tween of each
/// queue. A sample for a queue that does not move is not looked at.
#[derive(Clone, Copy, Debug, PartialEq, Eq, Structural)]
pub struct Easing {
    pub camera: u32,
    pub column: u32,
    pub content: u32,
}

/// Where the easing curve is to be sampled for one tick, one moment for the
/// front tween of each queue; `None` for a queue that does not move.
#[derive(Clone, Copy, Debug, PartialEq, Eq, Structural)]
pub struct SampleTimes {
    pub camera: Option<SampleTime>,
    pub column: Option<SampleTime>,
    pub content: Option<SampleTime>,
}

/// The fixed-point column of place `index`, saturating at the largest
/// coordinate.
pub open spec fn column_units(index: nat) -> i64 {
    clamp_coord(index * UNIT)
}

/// How far down the grid row `row` begins, saturating at the largest
/// coordinate.
pub open spec fn row_offset(row: nat, viewport_height: int) -> i64 {
    clamp_coord(row * row_height(viewport_height))
}

/// The place after `index` among `count` places, the first after the last.
pub open spec fn wrap_next(index: nat, count: nat) -> nat
    recommends
        count > 0,
{
    (((index + 1) as int) % (count as int)) as nat
}

/// The place before `index` among `count` places, the last before the first.
pub open spec fn wrap_previous(index: nat, count: nat) -> nat
    recommends
        count > 0,
{
    (((index + count - 1) as int) % (count as int)) as nat
}

/// The browser as plain values: what the contracts of [`Browser`] speak of.
pub ghost struct BrowserState {
    pub catalog: Option<Seq<CollectionView>>,
    pub camera: Camera2D,
    pub row: nat,
    pub column: i64,
    pub camera_tweens: Seq<Tween<Vec2>>,
    pub column_tweens: Seq<Tween<i64>>,
    pub reveal_tweens: Seq<Tween<i64>>,
    pub showing: Option<nat>,
    pub content_size: i64,
    pub registry_size: nat,
    pub upcoming: nat,
}

impl BrowserState {
    /// The rows of the catalog; none while it is not loaded.
    pub open spec fn rows(self) -> Seq<CollectionView> {
        match self.catalog {
            Some(rows) => rows,
            None => Seq::empty(),
        }
    }

    /// The selected row.
    pub open spec fn current(self) -> CollectionView {
        self.rows()[self.row as int]
    }

    /// The column at which the selection rests when no tween is moving it.
    pub open spec fn resting_column(self) -> i64 {
        if self.rows().len() == 0 {
            0
        } else {
            column_units(self.current().selected_index)
        }
    }

    /// What holds of every state that the browser reaches.
    pub open spec fn wf(self) -> bool {
        &&& catalog_fits(self.rows(), self.registry_size)
        &&& if self.rows().len() == 0 {
            self.row == 0 && self.camera_tweens.len() == 0 && self.column_tweens.len() == 0
        } else {
            self.row < self.rows().len()
        }
        &&& self.camera_tweens.len() <= 1
        &&& self.column_tweens.len() <= 1
        &&& self.column_tweens.len() == 0 ==> self.column == self.resting_column()
        &&& self.column_tweens.len() == 1 ==> {
            &&& self.column_tweens[0].to == self.resting_column()
            &&& self.column_tweens[0].is_finished() ==> self.column == self.column_tweens[0].to
        }
        &&& self.showing matches Some(i) ==> i < self.registry_size
        &&& if self.registry_size == 0 {
            self.upcoming == 0
        } else {
            self.upcoming < self.registry_size
        }
    }

    /// The state in which a browser starts.
    pub open spec fn initial(registry_size: nat) -> BrowserState {
        BrowserState {
            catalog: None,
            camera: Camera2D { position: Vec2 { x: 0, y: 0 }, viewport: Vec2 { x: 0, y: 0 } },
            row: 0,
            column: 0,
            camera_tweens: Seq::empty(),
            column_tweens: Seq::empty(),
            reveal_tweens: Seq::empty(),
            showing: None,
            content_size: 0,
            registry_size,
            upcoming: 0,
        }
    }

    /// What the layout of the present state starts from.
    pub open spec fn grid(self) -> Grid {
        Grid {
            rows: self.rows(),
            camera: self.camera,
            selected_row: self.row,
            live_column: self.column as int,
        }
    }

    pub open spec fn phase(self) -> Phase {
        if self.showing is Some {
            if self.reveal_tweens.len() > 0 {
                Phase::ContentTransitioning
            } else {
                Phase::ShowingContent
            }
        } else if self.column_tweens.len() > 0 {
            Phase::AnimatingSelection
        } else if self.camera_tweens.len() > 0 {
            Phase::AnimatingRow
        } else {
            Phase::Idle
        }
    }

    /// The catalog arrives. It is taken once; a second one is dropped.
    pub open spec fn loaded(self, rows: Seq<CollectionView>) -> BrowserState {
        if self.catalog is Some {
            self
        } else {
            let with_rows = BrowserState { catalog: Some(rows), ..self };
            BrowserState { column: with_rows.resting_column(), ..with_rows }
        }
    }

    pub open spec fn resized(self, width: u32, height: u32) -> BrowserState {
        BrowserState {
            camera: Camera2D {
                position: self.camera.position,
                viewport: Vec2 { x: width as i64, y: height as i64 },
            },
            ..self
        }
    }

    /// Left and Right are served when no content is shown, the column is at
    /// rest and the selected row has a video.
    pub open spec fn may_step_column(self) -> bool {
        &&& self.showing is None
        &&& self.column_tweens.len() == 0
        &&& self.row < self.rows().len()
        &&& self.current().videos.len() > 0
    }

    /// Up and Down are served when no content is shown, camera and column are
    /// at rest and the catalog has a row.
    pub open spec fn may_step_row(self) -> bool {
        &&& self.showing is None
        &&& self.camera_tweens.len() == 0
        &&& self.column_tweens.len() == 0
        &&& self.rows().len() > 0
    }

    /// Confirm is served when no content is shown, camera and column are at
    /// rest, a video is selected, and there is content to bind it to.
    pub open spec fn may_confirm(self) -> bool {
        &&& self.showing is None
        &&& self.camera_tweens.len() == 0
        &&& self.column_tweens.len() == 0
        &&& self.row < self.rows().len()
        &&& self.current().selected_index < self.current().videos.len()
        &&& self.registry_size > 0
    }

    /// The selected video: meaningful where [`BrowserState::may_confirm`]
    /// holds.
    pub open spec fn selected_video(self) -> VideoView {
        self.current().videos[self.current().selected_index as int]
    }

    /// The selection moves one place along its row, around the ends, and a
    /// tween leads the live column from where it is to the new place.
    pub open spec fn step_column(self, forward: bool) -> BrowserState {
        if !self.may_step_column() {
            self
        } else {
            let row = self.current();
            let target = if forward {
                wrap_next(row.selected_index, row.videos.len())
            } else {
                wrap_previous(row.selected_index, row.videos.len())
            };
            BrowserState {
                catalog: Some(
                    self.rows().update(
                        self.row as int,
                        CollectionView { selected_index: target, ..row },
                    ),
                ),
                column_tweens: self.column_tweens.push(
                    Tween {
                        from: self.column,
                        to: column_units(target),
                        duration: NAVIGATION_MS,
                        elapsed: 0,
                    },
                ),
                ..self
            }
        }
    }

    /// The selection moves one row, around the ends. The live column jumps to
    /// the place that the new row remembers, and a tween leads the camera
    /// from where it is to the start of the new row.
    pub open spec fn step_row(self, down: bool) -> BrowserState {
        if !self.may_step_row() {
            self
        } else {
            let target = if down {
                wrap_next(self.row, self.rows().len())
            } else {
                wrap_previous(self.row, self.rows().len())
            };
            BrowserState {
                row: target,
                column: column_units(self.rows()[target as int].selected_index),
                camera_tweens: self.camera_tweens.push(
                    Tween {
                        from: self.camera.position,
                        to: Vec2 { x: 0, y: row_offset(target, self.camera.viewport.y as int) },
                        duration: NAVIGATION_MS,
                        elapsed: 0,
                    },
                ),
                ..self
            }
        }
    }

    /// The selected video is opened. A video that was never opened is bound
    /// to the next content of the cycle, for good; one that was keeps its
    /// content. A tween reveals the content from nothing to all.
    pub open spec fn confirm(self) -> BrowserState {
        if !self.may_confirm() {
            self
        } else {
            let row = self.current();
            let video = self.selected_video();
            let bound: nat = match video.content_binding {
                Some(index) => index,
                None => self.upcoming,
            };
            let upcoming: nat = match video.content_binding {
                Some(_) => self.upcoming,
                None => wrap_next(self.upcoming, self.registry_size),
            };
            BrowserState {
                catalog: Some(
                    self.rows().update(
                        self.row as int,
                        CollectionView {
                            videos: row.videos.update(
                                row.selected_index as int,
                                VideoView { content_binding: Some(bound), ..video },
                            ),
                            ..row
                        },
                    ),
                ),
                showing: Some(bound),
                upcoming,
                reveal_tweens: self.reveal_tweens.push(
                    Tween { from: 0, to: UNIT, duration: REVEAL_MS, elapsed: 0 },
                ),
                ..self
            }
        }
    }

    /// While content is shown, a tween closes it from all to nothing. The
    /// content stays shown until that tween has been played to its end.
    pub open spec fn cancel(self) -> BrowserState {
        if self.showing is Some {
            BrowserState {
                reveal_tweens: self.reveal_tweens.push(
                    Tween { from: UNIT, to: 0, duration: REVEAL_MS, elapsed: 0 },
                ),
                ..self
            }
        } else {
            self
        }
    }

    /// The camera moves at once, whatever else is going on.
    pub open spec fn panned(self, dx: int, dy: int) -> BrowserState {
        BrowserState {
            camera: Camera2D {
                position: Vec2 {
                    x: clamp_coord(self.camera.position.x + dx),
                    y: clamp_coord(self.camera.position.y + dy),
                },
                viewport: self.camera.viewport,
            },
            ..self
        }
    }

    /// The state after `key`.
    pub open spec fn pressed(self, key: Key) -> BrowserState {
        match key {
            Key::Left => self.step_column(false),
            Key::Right => self.step_column(true),
            Key::Up => self.step_row(false),
            Key::Down => self.step_row(true),
            Key::Confirm => self.confirm(),
            Key::Cancel => self.cancel(),
            Key::PanLeft => self.panned(-PAN_STEP, 0),
            Key::PanRight => self.panned(PAN_STEP as int, 0),
            Key::PanUp => self.panned(0, -PAN_STEP),
            Key::PanDown => self.panned(0, PAN_STEP as int),
        }
    }

    /// What `key` leads to.
    pub open spec fn reaction(self, key: Key) -> Reaction {
        let served = match key {
            Key::Left | Key::Right => self.may_step_column(),
            Key::Up | Key::Down => self.may_step_row(),
            Key::Confirm => self.may_confirm(),
            Key::Cancel => self.showing is Some,
            _ => true,
        };
        if served {
            Reaction::Handled
        } else if key == Key::Cancel {
            Reaction::Quit
        } else {
            Reaction::Ignored
        }
    }

    /// The state after a tick of `delta` milliseconds. Each queue plays its
    /// front tween; a tween that moved writes its value into the live state.
    /// A reveal tween that has been played to its end and ended below all
    /// closes the content.
    pub open spec fn ticked(self, delta: int, easing: Easing) -> BrowserState {
        let camera_step = queue_report(self.camera_tweens, delta, easing.camera as int);
        let column_step = queue_report(self.column_tweens, delta, easing.column as int);
        let reveal_step = queue_report(self.reveal_tweens, delta, easing.content as int);
        BrowserState {
            camera: match camera_step {
                TweenStep::Moved(position) => Camera2D {
                    position,
                    viewport: self.camera.viewport,
                },
                _ => self.camera,
            },
            column: match column_step {
                TweenStep::Moved(column) => column,
                _ => self.column,
            },
            content_size: match reveal_step {
                TweenStep::Moved(amount) => amount,
                _ => self.content_size,
            },
            showing: match reveal_step {
                TweenStep::Completed(end) => if end < UNIT {
                    None
                } else {
                    self.showing
                },
                _ => self.showing,
            },
            camera_tweens: queue_after(self.camera_tweens, delta),
            column_tweens: queue_after(self.column_tweens, delta),
            reveal_tweens: queue_after(self.reveal_tweens, delta),
            ..self
        }
    }
}

/// Wrapping stays among the places.
pub proof fn lemma_wrap_in_range(index: nat, count: nat)
    requires
        count > 0,
    ensures
        wrap_next(index, count) < count,
        wrap_previous(index, count) < count,
        index + 1 < count ==> wrap_next(index, count) == index + 1,
        index + 1 == count ==> wrap_next(index, count) == 0,
        0 < index < count ==> wrap_previous(index, count) == index - 1,
        index == 0 ==> wrap_previous(index, count) == count - 1,
{
    let n = count as int;
    if index + 1 < count {
        vstd::arithmetic::div_mod::lemma_small_mod((index + 1) as nat, count);
    }
    if index + 1 == count {
        assert(n % n == 0) by (nonlinear_arith)
            requires
                n > 0,
        ;
    }
    if 0 < index < count {
        let i = index as int;
        assert((i + n - 1) % n == i - 1) by (nonlinear_arith)
            requires
                0 < i < n,
        ;
    }
    if index == 0 {
        vstd::arithmetic::div_mod::lemma_small_mod((count - 1) as nat, count);
    }
    let up = (index + 1) as int;
    let down = (index + count - 1) as int;
    assert(0 <= up % n < n) by (nonlinear_arith)
        requires
            n > 0,
    ;
    assert(0 <= down % n < n) by (nonlinear_arith)
        requires
            n > 0,
    ;
}

/// Every key leaves a sound state sound.
pub proof fn lemma_pressed_keeps_wf(s: BrowserState, key: Key)
    requires
        s.wf(),
    ensures
        s.pressed(key).wf(),
{
    let next = s.pressed(key);
    match key {
        Key::Left | Key::Right => {
            if s.may_step_column() {
                let row = s.current();
                lemma_wrap_in_range(row.selected_index, row.videos.len());
                let target = next.current().selected_index;
                assert(next.rows()[s.row as int] == (CollectionView {
                    selected_index: target,
                    ..row
                }));
                assert forall|r: int| 0 <= r < next.rows().len() implies (
                #[trigger] next.rows()[r]).selection_in_range() && next.rows()[r].bindings_in_range(
                    next.registry_size,
                ) by {
                    if r == s.row {
                        assert forall|i: int| 0 <= i < next.rows()[r].videos.len() implies (
                        #[trigger] next.rows()[r].videos[i].content_binding matches Some(b) ==> b
                            < next.registry_size) by {
                            assert(s.rows()[r].videos[i] == next.rows()[r].videos[i]);
                        }
                    }
                }
            }
        },
        Key::Up | Key::Down => {
            if s.may_step_row() {
                lemma_wrap_in_range(s.row, s.rows().len());
            }
        },
        Key::Confirm => {
            if s.may_confirm() {
                let row = s.current();
                let video = s.selected_video();
                lemma_wrap_in_range(s.upcoming, s.registry_size);
                assert(video.content_binding matches Some(b) ==> b < s.registry_size);
                assert forall|r: int| 0 <= r < next.rows().len() implies (
                #[trigger] next.rows()[r]).selection_in_range() && next.rows()[r].bindings_in_range(
                    next.registry_size,
                ) by {
                    if r == s.row {
                        assert forall|i: int| 0 <= i < next.rows()[r].videos.len() implies (
                        #[trigger] next.rows()[r].videos[i].content_binding matches Some(b) ==> b
                            < next.registry_size) by {
                            if i != row.selected_index {
                                assert(s.rows()[r].videos[i] == next.rows()[r].videos[i]);
                            }
                        }
                    }
                }
            }
        },
        _ => {},
    }
}

/// A catalog that fits leaves a sound state sound.
pub proof fn lemma_loaded_keeps_wf(s: BrowserState, rows: Seq<CollectionView>)
    requires
        s.wf(),
        catalog_fits(rows, s.registry_size),
    ensures
        s.loaded(rows).wf(),
{
}

/// Every tick leaves a sound state sound.
pub proof fn lemma_ticked_keeps_wf(s: BrowserState, delta: int, easing: Easing)
    requires
        s.wf(),
        delta >= 0,
    ensures
        s.ticked(delta, easing).wf(),
{
}

/// A tween of the navigation starts where the animated value is at that
/// moment: the live column for Left and Right, the live camera position for
/// Up and Down. A tick right after the key, however short, therefore moves
/// nothing by a jump.
pub proof fn lemma_tween_starts_at_live_value(s: BrowserState, key: Key, easing: Easing)
    requires
        s.wf(),
    ensures
        (key == Key::Left || key == Key::Right) && s.may_step_column() ==> {
            &&& s.pressed(key).column_tweens.len() == 1
            &&& s.pressed(key).column_tweens[0].from == s.column
            &&& s.pressed(key).column_tweens[0].to == s.pressed(key).resting_column()
            &&& s.pressed(key).ticked(0, easing).column == s.column
        },
        (key == Key::Up || key == Key::Down) && s.may_step_row() ==> {
            &&& s.pressed(key).camera_tweens.len() == 1
            &&& s.pressed(key).camera_tweens[0].from == s.camera.position
            &&& s.pressed(key).ticked(0, easing).camera.position == s.camera.position
        },
{
    lemma_pressed_keeps_wf(s, key);
}

/// Whether `key` is one of the keys that the tweens serve: every key but
/// those that pan the camera at once.
pub open spec fn is_tweened(key: Key) -> bool {
    key != Key::PanLeft && key != Key::PanRight && key != Key::PanUp && key != Key::PanDown
}

/// A tick of no time, with the curve sampled where it was sampled last, moves
/// neither the camera nor the live column, whatever is being played.
pub proof fn lemma_no_time_moves_nothing(s: BrowserState, delta: int, easing: Easing)
    requires
        s.wf(),
        delta >= 0,
    ensures
        s.ticked(delta, easing).ticked(0, easing).camera == s.ticked(delta, easing).camera,
        s.ticked(delta, easing).ticked(0, easing).column == s.ticked(delta, easing).column,
{
    lemma_ticked_keeps_wf(s, delta, easing);
}

/// No key that the tweens serve makes the camera snap, at whatever point of
/// a tween it comes. Let a tick have left the camera at its live position,
/// on the way of a tween or at rest. A key follows, then a tick of no time:
/// the camera is where it was, to the unit. A key that is ignored changes
/// nothing, and one that is served starts its tween at the live position.
/// So no rectangle changes its visibility by the key. The live column stays
/// as well, but for Up and Down, which move it to the place that the new row
/// remembers.
pub proof fn lemma_keys_never_snap(
    s: BrowserState,
    delta: int,
    key: Key,
    easing: Easing,
    rect: Region,
)
    requires
        s.wf(),
        delta >= 0,
        is_tweened(key),
    ensures
        s.ticked(delta, easing).pressed(key).ticked(0, easing).camera == s.ticked(
            delta,
            easing,
        ).camera,
        rect.overlaps(s.ticked(delta, easing).pressed(key).ticked(0, easing).camera.region())
            == rect.overlaps(s.ticked(delta, easing).camera.region()),
        key != Key::Up && key != Key::Down ==> s.ticked(delta, easing).pressed(key).ticked(
            0,
            easing,
        ).column == s.ticked(delta, easing).column,
{
    let live = s.ticked(delta, easing);
    lemma_ticked_keeps_wf(s, delta, easing);
    lemma_no_time_moves_nothing(s, delta, easing);
    lemma_pressed_keeps_wf(live, key);
}

/// While a tween of the navigation is in its queue, the keys that would put
/// a second one there are ignored.
pub proof fn lemma_keys_are_gated(s: BrowserState, key: Key)
    requires
        s.wf(),
    ensures
        s.pressed(key).wf(),
        s.column_tweens.len() > 0 && (key == Key::Left || key == Key::Right || key == Key::Up
            || key == Key::Down || key == Key::Confirm) ==> s.pressed(key) == s && s.reaction(key)
            == Reaction::Ignored,
        s.camera_tweens.len() > 0 && (key == Key::Up || key == Key::Down || key == Key::Confirm)
            ==> s.pressed(key) == s && s.reaction(key) == Reaction::Ignored,
        s.showing is Some && (key == Key::Left || key == Key::Right || key == Key::Up || key
            == Key::Down || key == Key::Confirm) ==> s.pressed(key) == s && s.reaction(key)
            == Reaction::Ignored,
{
    lemma_pressed_keeps_wf(s, key);
}

/// A video is bound to content once: no key changes a binding that is set,
/// and opening a bound video shows the content it is bound to.
pub proof fn lemma_binding_is_permanent(s: BrowserState, key: Key, r: int, i: int)
    requires
        s.wf(),
        0 <= r < s.rows().len(),
        0 <= i < s.rows()[r].videos.len(),
        s.rows()[r].videos[i].content_binding is Some,
    ensures
        s.pressed(key).rows().len() == s.rows().len(),
        s.pressed(key).rows()[r].videos.len() == s.rows()[r].videos.len(),
        s.pressed(key).rows()[r].videos[i].content_binding == s.rows()[r].videos[i].content_binding,
        key == Key::Confirm && s.may_confirm() && r == s.row && i == s.current().selected_index ==> {
            &&& s.pressed(key).showing == s.rows()[r].videos[i].content_binding
            &&& s.pressed(key).upcoming == s.upcoming
        },
{
}

/// Time touches neither the catalog nor the selected row nor the cycle of
/// content.
pub proof fn lemma_time_leaves_the_catalog(s: BrowserState, delta: int, easing: Easing)
    ensures
        s.ticked(delta, easing).catalog == s.catalog,
        s.ticked(delta, easing).row == s.row,
        s.ticked(delta, easing).upcoming == s.upcoming,
{
}

/// Content that is shown stays shown until a closing tween has been played
/// to its end: Cancel alone only enqueues that tween.
pub proof fn lemma_cancel_closes_by_tween(s: BrowserState, delta: int, easing: Easing)
    requires
        s.wf(),
        s.showing is Some,
    ensures
        s.pressed(Key::Cancel).showing == s.showing,
        s.pressed(Key::Cancel).reveal_tweens == s.reveal_tweens.push(
            Tween { from: UNIT, to: 0, duration: REVEAL_MS, elapsed: 0 },
        ),
        s.ticked(delta, easing).showing is None <==> s.reveal_tweens.len() > 0
            && s.reveal_tweens[0].is_finished() && s.reveal_tweens[0].to < UNIT,
{
}

/// The initial state is sound.
pub proof fn lemma_initial_wf(registry_size: nat)
    ensures
        BrowserState::initial(registry_size).wf(),
{
}

/// The fixed-point column of place `index`.
pub fn column_of(index: usize) -> (r: i64)
    ensures
        r == column_units(index as nat),
{
    assert(index * UNIT <= usize::MAX * UNIT) by (nonlinear_arith)
        requires
            index <= usize::MAX,
    ;
    saturate(index as i128 * UNIT as i128)
}

/// How far down the grid row `row` begins for a viewport of height
/// `viewport_height`.
pub fn row_start(row: usize, viewport_height: i64) -> (r: i64)
    ensures
        r == row_offset(row as nat, viewport_height as int),
{
    let metrics = Metrics::new(Vec2 { x: 0, y: viewport_height });
    assert(0 <= row * metrics.row_height <= usize::MAX * i64::MAX) by (nonlinear_arith)
        requires
            0 <= row <= usize::MAX,
            0 <= metrics.row_height <= i64::MAX,
    ;
    saturate(row as i128 * metrics.row_height as i128)
}

/// The browser. See the module's description.
pub struct Browser {
    collections: Option<Vec<Collection>>,
    camera: Camera2D,
    row: usize,
    column: i64,
    camera_tweens: TweenQueue<Vec2>,
    column_tweens: TweenQueue<i64>,
    reveal_tweens: TweenQueue<i64>,
    showing_content: Option<usize>,
    content_size: i64,
    provider: ContentCycle,
}

impl View for Browser {
    type V = BrowserState;

    closed spec fn view(&self) -> BrowserState {
        BrowserState {
            catalog: match self.collections {
                Some(rows) => Some(catalog_view(rows@)),
                None => None,
            },
            camera: self.camera,
            row: self.row as nat,
            column: self.column,
            camera_tweens: self.camera_tweens@,
            column_tweens: self.column_tweens@,
            reveal_tweens: self.reveal_tweens@,
            showing: match self.showing_content {
                Some(i) => Some(i as nat),
                None => None,
            },
            content_size: self.content_size,
            registry_size: self.provider.size(),
            upcoming: self.provider.upcoming(),
        }
    }
}

impl Browser {
    /// The browser is in a sound state.
    pub closed spec fn wf(&self) -> bool {
        self.provider.wf() && self@.wf()
    }

    /// A browser without a catalog, for a registry of `registry_size` pieces
    /// of content.
    pub fn new(registry_size: usize) -> (r: Browser)
        ensures
            r.wf(),
            r@ == BrowserState::initial(registry_size as nat),
    {
        Browser {
            collections: None,
            camera: Camera2D::new(),
            row: 0,
            column: 0,
            camera_tweens: TweenQueue::new(),
            column_tweens: TweenQueue::new(),
            reveal_tweens: TweenQueue::new(),
            showing_content: None,
            content_size: 0,
            provider: ContentCycle::new(registry_size),
        }
    }

    /// In a sound browser the state is sound.
    pub proof fn lemma_wf(&self)
        requires
            self.wf(),
        ensures
            self@.wf(),
    {
    }

    pub fn camera(&self) -> (r: Camera2D)
        ensures
            r == self@.camera,
    {
        self.camera
    }

    pub fn selection(&self) -> (r: Selection)
        ensures
            r.row == self@.row,
            r.column == self@.column,
    {
        Selection { row: self.row, column: self.column }
    }

    pub fn selected_row(&self) -> (r: usize)
        ensures
            r == self@.row,
    {
        self.row
    }

    /// The live column, in fixed-point units.
    pub fn live_column(&self) -> (r: i64)
        ensures
            r == self@.column,
    {
        self.column
    }

    /// The content that is shown, by its place in the registry.
    pub fn showing_content(&self) -> (r: Option<usize>)
        ensures
            match r {
                Some(i) => self@.showing == Some(i as nat),
                None => self@.showing is None,
            },
    {
        self.showing_content
    }

    /// How far the content is revealed, in fixed-point units.
    pub fn content_size(&self) -> (r: i64)
        ensures
            r == self@.content_size,
    {
        self.content_size
    }

    pub fn is_loaded(&self) -> (r: bool)
        ensures
            r == self@.catalog is Some,
    {
        self.collections.is_some()
    }

    /// The rows of the catalog, once it is loaded.
    pub fn collections(&self) -> (r: Option<&Vec<Collection>>)
        ensures
            match r {
                Some(rows) => self@.catalog == Some(catalog_view(rows@)),
                None => self@.catalog is None,
            },
    {
        self.collections.as_ref()
    }

    /// The tween that is moving the camera, if one is.
    pub fn camera_tween(&self) -> (r: Option<Tween<Vec2>>)
        ensures
            r == (if self@.camera_tweens.len() == 0 {
                None
            } else {
                Some(self@.camera_tweens[0])
            }),
    {
        self.camera_tweens.front()
    }

    /// The tween that is moving the selection along its row, if one is.
    pub fn column_tween(&self) -> (r: Option<Tween<i64>>)
        ensures
            r == (if self@.column_tweens.len() == 0 {
                None
            } else {
                Some(self@.column_tweens[0])
            }),
    {
        self.column_tweens.front()
    }

    /// The tween that is opening or closing the content, if one is.
    pub fn content_tween(&self) -> (r: Option<Tween<i64>>)
        ensures
            r == (if self@.reveal_tweens.len() == 0 {
                None
            } else {
                Some(self@.reveal_tweens[0])
            }),
    {
        self.reveal_tweens.front()
    }

    /// How many tweens of the content are waiting, the one being played
    /// included.
    pub fn content_tweens_waiting(&self) -> (r: usize)
        ensures
            r == self@.reveal_tweens.len(),
    {
        self.reveal_tweens.len()
    }

    pub fn phase(&self) -> (r: Phase)
        ensures
            r == self@.phase(),
    {
        if self.showing_content.is_some() {
            if !self.reveal_tweens.is_empty() {
                Phase::ContentTransitioning
            } else {
                Phase::ShowingContent
            }
        } else if !self.column_tweens.is_empty() {
            Phase::AnimatingSelection
        } else if !self.camera_tweens.is_empty() {
            Phase::AnimatingRow
        } else {
            Phase::Idle
        }
    }

    /// The catalog has arrived. The first catalog is taken; a later one is
    /// dropped.
    pub fn adopt_catalog(&mut self, collections: Vec<Collection>)
        requires
            old(self).wf(),
            catalog_fits(catalog_view(collections@), old(self)@.registry_size),
        ensures
            final(self).wf(),
            final(self)@ == old(self)@.loaded(catalog_view(collections@)),
    {
        proof {
            lemma_loaded_keeps_wf(self@, catalog_view(collections@));
        }
        if self.collections.is_none() {
            self.column = if collections.len() == 0 {
                0
            } else {
                column_of(collections[0].selected_index)
            };
            self.collections = Some(collections);
        }
    }

    /// Serves one key: see [`BrowserState::pressed`] for what changes and
    /// [`BrowserState::reaction`] for what is returned.
    pub fn press(&mut self, key: Key) -> (r: Reaction)
        requires
            old(self).wf(),
        ensures
            final(self).wf(),
            final(self)@ == old(self)@.pressed(key),
            r == old(self)@.reaction(key),
    {
        proof {
            lemma_pressed_keeps_wf(self@, key);
        }
        match key {
            Key::Left => self.step_column(false),
            Key::Right => self.step_column(true),
            Key::Up => self.step_row(false),
            Key::Down => self.step_row(true),
            Key::Confirm => self.confirm(),
            Key::Cancel => {
                if self.showing_content.is_some() {
                    self.reveal_tweens.push_back(Tween::new(UNIT, 0, REVEAL_MS));
                    Reaction::Handled
                } else {
                    Reaction::Quit
                }
            },
            Key::PanLeft => {
                self.camera.pan(-PAN_STEP, 0);
                Reaction::Handled
            },
            Key::PanRight => {
                self.camera.pan(PAN_STEP, 0);
                Reaction::Handled
            },
            Key::PanUp => {
                self.camera.pan(0, -PAN_STEP);
                Reaction::Handled
            },
            Key::PanDown => {
                self.camera.pan(0, PAN_STEP);
                Reaction::Handled
            },
        }
    }

    fn step_column(&mut self, forward: bool) -> (r: Reaction)
        requires
            old(self).wf(),
        ensures
            final(self)@ == old(self)@.step_column(forward),
            final(self).provider == old(self).provider,
            r == (if old(self)@.may_step_column() {
                Reaction::Handled
            } else {
                Reaction::Ignored
            }),
    {
        if self.showing_content.is_some() || !self.column_tweens.is_empty() {
            return Reaction::Ignored;
        }
        let row: usize = self.row;
        let from: i64 = self.column;
        match &mut self.collections {
            None => Reaction::Ignored,
            Some(rows) => {
                if row >= rows.len() || rows[row].videos.len() == 0 {
                    return Reaction::Ignored;
                }
                let ghost before = rows@;
                let count: usize = rows[row].videos.len();
                let selected: usize = rows[row].selected_index;
                proof {
                    lemma_wrap_in_range(selected as nat, count as nat);
                }
                let target: usize = if forward {
                    if selected + 1 == count {
                        0
                    } else {
                        selected + 1
                    }
                } else {
                    if selected == 0 {
                        count - 1
                    } else {
                        selected - 1
                    }
                };
                rows[row].selected_index = target;
                assert(catalog_view(rows@) =~= catalog_view(before).update(
                    row as int,
                    CollectionView {
                        selected_index: target as nat,
                        ..catalog_view(before)[row as int]
                    },
                ));
                self.column_tweens.push_back(Tween::new(from, column_of(target), NAVIGATION_MS));
                Reaction::Handled
            },
        }
    }

    fn step_row(&mut self, down: bool) -> (r: Reaction)
        requires
            old(self).wf(),
        ensures
            final(self)@ == old(self)@.step_row(down),
            final(self).provider == old(self).provider,
            r == (if old(self)@.may_step_row() {
                Reaction::Handled
            } else {
                Reaction::Ignored
            }),
    {
        if self.showing_content.is_some() || !self.camera_tweens.is_empty()
            || !self.column_tweens.is_empty() {
            return Reaction::Ignored;
        }
        match &self.collections {
            None => Reaction::Ignored,
            Some(rows) => {
                let count: usize = rows.len();
                if count == 0 {
                    return Reaction::Ignored;
                }
                proof {
                    lemma_wrap_in_range(self.row as nat, count as nat);
                }
                let target: usize = if down {
                    if self.row + 1 == count {
                        0
                    } else {
                        self.row + 1
                    }
                } else {
                    if self.row == 0 {
                        count - 1
                    } else {
                        self.row - 1
                    }
                };
                let column: i64 = column_of(rows[target].selected_index);
                self.row = target;
                self.column = column;
                let to = Vec2 { x: 0, y: row_start(target, self.camera.viewport.y) };
                self.camera_tweens.push_back(Tween::new(self.camera.position, to, NAVIGATION_MS));
                Reaction::Handled
            },
        }
    }

    fn confirm(&mut self) -> (r: Reaction)
        requires
            old(self).wf(),
        ensures
            final(self)@ == old(self)@.confirm(),
            final(self).provider.wf(),
            r == (if old(self)@.may_confirm() {
                Reaction::Handled
            } else {
                Reaction::Ignored
            }),
    {
        if self.showing_content.is_some() || !self.camera_tweens.is_empty()
            || !self.column_tweens.is_empty() || self.provider.registry_size() == 0 {
            return Reaction::Ignored;
        }
        let row: usize = self.row;
        match &mut self.collections {
            None => Reaction::Ignored,
            Some(rows) => {
                if row >= rows.len() || rows[row].selected_index >= rows[row].videos.len() {
                    return Reaction::Ignored;
                }
                let ghost before = rows@;
                let selected: usize = rows[row].selected_index;
                proof {
                    assert(before[row as int]@.videos[selected as int]
                        == before[row as int].videos[selected as int]@);
                }
                let bound: usize = match rows[row].videos[selected].content_binding {
                    Some(index) => index,
                    None => {
                        let index: usize = self.provider.next_index().unwrap();
                        rows[row].videos[selected].content_binding = Some(index);
                        index
                    },
                };
                proof {
                    let old_row = catalog_view(before)[row as int];
                    let old_video = old_row.videos[selected as int];
                    assert(rows@[row as int]@.videos =~= old_row.videos.update(
                        selected as int,
                        VideoView { content_binding: Some(bound as nat), ..old_video },
                    ));
                    assert(catalog_view(rows@) =~= catalog_view(before).update(
                        row as int,
                        CollectionView {
                            videos: old_row.videos.update(
                                selected as int,
                                VideoView { content_binding: Some(bound as nat), ..old_video },
                            ),
                            ..old_row
                        },
                    ));
                }
                self.showing_content = Some(bound);
                self.reveal_tweens.push_back(Tween::new(0, UNIT, REVEAL_MS));
                Reaction::Handled
            },
        }
    }

    /// Where the caller has to sample the easing curve before it calls
    /// [`Browser::tick`] with the same `delta`.
    pub fn sample_times(&self, delta: u64) -> (r: SampleTimes)
        ensures
            r.camera == queue_sample_time(self@.camera_tweens, delta as int),
            r.column == queue_sample_time(self@.column_tweens, delta as int),
            r.content == queue_sample_time(self@.reveal_tweens, delta as int),
    {
        SampleTimes {
            camera: self.camera_tweens.sample_time(delta),
            column: self.column_tweens.sample_time(delta),
            content: self.reveal_tweens.sample_time(delta),
        }
    }

    /// Lets `delta` milliseconds pass: see [`BrowserState::ticked`].
    pub fn tick(&mut self, delta: u64, easing: Easing)
        requires
            old(self).wf(),
        ensures
            final(self).wf(),
            final(self)@ == old(self)@.ticked(delta as int, easing),
    {
        proof {
            lemma_ticked_keeps_wf(self@, delta as int, easing);
        }
        match self.camera_tweens.step(delta, easing.camera) {
            TweenStep::Moved(position) => {
                self.camera.position = position;
            },
            _ => {},
        }
        match self.column_tweens.step(delta, easing.column) {
            TweenStep::Moved(column) => {
                self.column = column;
            },
            _ => {},
        }
        match self.reveal_tweens.step(delta, easing.content) {
            TweenStep::Moved(amount) => {
                self.content_size = amount;
            },
            TweenStep::Completed(end) => {
                if end < UNIT {
                    self.showing_content = None;
                }
            },
            TweenStep::Idle => {},
        }
    }

    /// Lays out the present frame, once the catalog is loaded: see
    /// [`layout`].
    pub fn frame(&self, cache: &mut TextureCache) -> (r: Option<Frame>)
        requires
            old(cache).wf(),
        ensures
            final(cache).wf(),
            match r {
                None => self@.catalog is None && final(cache)@ == old(cache)@,
                Some(frame) => {
                    &&& self@.catalog is Some
                    &&& frame.titles@.len() == self@.rows().len()
                    &&& forall|row: int|
                        0 <= row < self@.rows().len() ==> frame.titles@[row] == self@.grid().title(
                            row,
                        )
                    &&& self@.grid().framed(frame.cells@, old(cache)@.resolved)
                    &&& final(cache)@ == old(cache)@.forget().mark_all(
                        self@.grid().urls(frame.cells@),
                    )
                },
            },
    {
        match &self.collections {
            None => None,
            Some(rows) => Some(layout(rows, &self.camera, self.row, self.column, cache)),
        }
    }

    /// The window was resized.
    pub fn resize(&mut self, width: u32, height: u32)
        requires
            old(self).wf(),
        ensures
            final(self).wf(),
            final(self)@ == old(self)@.resized(width, height),
    {
        self.camera.update_viewport_dimensions(width, height);
    }
}

} // verus!
