use portcullis::camera::Camera2D;
use portcullis::catalog::{Collection, Video};
use portcullis::geometry::Vec2;
use portcullis::navigation::{
    column_of, row_start, Browser, Easing, Key, Phase, Reaction, Selection, NAVIGATION_MS,
    REVEAL_MS,
};
use portcullis::tween::{SampleTime, PROGRESS_ONE, UNIT};

const HALF: Easing = Easing { camera: 500_000, column: 500_000, content: 500_000 };

fn row(name: &str, videos: usize) -> Collection {
    let videos = (0..videos)
        .map(|i| Video::new(format!("{}-{}", name, i), format!("https://img.example/{}/{}", name, i)))
        .collect();
    Collection::new(name.to_string(), videos)
}

fn browser(rows: Vec<Collection>, registry: usize) -> Browser {
    let mut b = Browser::new(registry);
    b.resize(1024, 768);
    b.adopt_catalog(rows);
    b
}

/// Plays every tween of the navigation to its end and takes it out.
fn settle(b: &mut Browser) {
    b.tick(NAVIGATION_MS, HALF);
    b.tick(0, HALF);
}

/// Plays the front reveal tween to its end and takes it out.
fn settle_content(b: &mut Browser) {
    b.tick(REVEAL_MS, HALF);
    b.tick(0, HALF);
}

fn selected(b: &Browser, row: usize) -> usize {
    b.collections().unwrap()[row].selected_index
}

fn binding(b: &Browser, row: usize, video: usize) -> Option<usize> {
    b.collections().unwrap()[row].videos[video].content_binding
}

#[test]
fn new_browser_is_idle_and_empty() {
    let b = Browser::new(21);
    assert!(!b.is_loaded());
    assert!(b.collections().is_none());
    assert_eq!(b.selected_row(), 0);
    assert_eq!(b.live_column(), 0);
    assert_eq!(b.showing_content(), None);
    assert_eq!(b.content_size(), 0);
    assert_eq!(b.phase(), Phase::Idle);
    assert_eq!(b.camera().position, Vec2::new(0, 0));
    assert_eq!(b.camera().viewport, Vec2::new(0, 0));
}

#[test]
fn keys_before_the_catalog_is_loaded() {
    let mut b = Browser::new(21);
    b.resize(1024, 768);
    for key in [Key::Left, Key::Right, Key::Up, Key::Down, Key::Confirm] {
        assert_eq!(b.press(key), Reaction::Ignored);
    }
    assert_eq!(b.phase(), Phase::Idle);
    // Panning works without a catalog.
    assert_eq!(b.press(Key::PanRight), Reaction::Handled);
    assert_eq!(b.press(Key::PanDown), Reaction::Handled);
    assert_eq!(b.camera().position, Vec2::new(64, 64));
    assert_eq!(b.press(Key::PanLeft), Reaction::Handled);
    assert_eq!(b.press(Key::PanUp), Reaction::Handled);
    assert_eq!(b.camera().position, Vec2::new(0, 0));
    // Cancel with no content shown asks to leave.
    assert_eq!(b.press(Key::Cancel), Reaction::Quit);
}

#[test]
fn catalog_is_adopted_once() {
    let mut b = browser(vec![row("a", 2)], 3);
    assert!(b.is_loaded());
    b.adopt_catalog(vec![row("x", 1), row("y", 1)]);
    let rows = b.collections().unwrap();
    assert_eq!(rows.len(), 1);
    assert_eq!(rows[0].name, "a");
}

#[test]
fn adopted_catalog_keeps_its_selection() {
    let mut rows = vec![row("a", 5), row("b", 5)];
    rows[0].selected_index = 3;
    let b = browser(rows, 3);
    assert_eq!(b.live_column(), 3 * UNIT);
    assert_eq!(selected(&b, 0), 3);
}

#[test]
fn row_index_wraps() {
    let mut b = browser(vec![row("a", 2), row("b", 2), row("c", 2)], 3);
    assert_eq!(b.press(Key::Down), Reaction::Handled);
    settle(&mut b);
    assert_eq!(b.press(Key::Down), Reaction::Handled);
    settle(&mut b);
    assert_eq!(b.selected_row(), 2);
    assert_eq!(b.press(Key::Down), Reaction::Handled);
    assert_eq!(b.selected_row(), 0);
    settle(&mut b);
    assert_eq!(b.camera().position, Vec2::new(0, 0));
    // And the other way round.
    assert_eq!(b.press(Key::Up), Reaction::Handled);
    assert_eq!(b.selected_row(), 2);
    settle(&mut b);
    assert_eq!(b.camera().position, Vec2::new(0, 2 * 192));
}

#[test]
fn column_wraps() {
    let mut b = browser(vec![row("a", 4)], 3);
    for _ in 0..3 {
        assert_eq!(b.press(Key::Right), Reaction::Handled);
        settle(&mut b);
    }
    assert_eq!(selected(&b, 0), 3);
    assert_eq!(b.live_column(), 3 * UNIT);
    assert_eq!(b.press(Key::Right), Reaction::Handled);
    assert_eq!(selected(&b, 0), 0);
    let tween = b.column_tween().unwrap();
    assert_eq!(tween.from, 3 * UNIT);
    assert_eq!(tween.to, 0);
    assert_eq!(tween.duration, 500);
    assert_eq!(tween.elapsed, 0);
    assert_eq!(b.phase(), Phase::AnimatingSelection);
    settle(&mut b);
    assert_eq!(b.live_column(), 0);
    assert_eq!(b.phase(), Phase::Idle);
    // Left from the first place goes to the last.
    assert_eq!(b.press(Key::Left), Reaction::Handled);
    assert_eq!(selected(&b, 0), 3);
    let tween = b.column_tween().unwrap();
    assert_eq!((tween.from, tween.to), (0, 3 * UNIT));
}

#[test]
fn confirming_twice_reuses_the_binding() {
    let mut b = browser(vec![row("a", 3), row("b", 3)], 5);
    assert_eq!(binding(&b, 0, 0), None);
    assert_eq!(b.press(Key::Confirm), Reaction::Handled);
    assert_eq!(b.showing_content(), Some(0));
    assert_eq!(binding(&b, 0, 0), Some(0));
    settle_content(&mut b);
    assert_eq!(b.phase(), Phase::ShowingContent);
    assert_eq!(b.content_size(), UNIT);
    assert_eq!(b.press(Key::Cancel), Reaction::Handled);
    settle_content(&mut b);
    assert_eq!(b.showing_content(), None);

    // Another video takes the next content of the cycle.
    assert_eq!(b.press(Key::Right), Reaction::Handled);
    settle(&mut b);
    assert_eq!(b.press(Key::Confirm), Reaction::Handled);
    assert_eq!(b.showing_content(), Some(1));
    assert_eq!(binding(&b, 0, 1), Some(1));
    settle_content(&mut b);
    b.press(Key::Cancel);
    settle_content(&mut b);

    // Back on the first: the same content as before, and the cycle is not
    // moved by it.
    assert_eq!(b.press(Key::Left), Reaction::Handled);
    settle(&mut b);
    assert_eq!(b.press(Key::Confirm), Reaction::Handled);
    assert_eq!(b.showing_content(), Some(0));
    assert_eq!(binding(&b, 0, 0), Some(0));
    settle_content(&mut b);
    b.press(Key::Cancel);
    settle_content(&mut b);
    assert_eq!(b.press(Key::Down), Reaction::Handled);
    settle(&mut b);
    assert_eq!(b.press(Key::Confirm), Reaction::Handled);
    assert_eq!(b.showing_content(), Some(2));
}

#[test]
fn the_cycle_starts_over_after_the_last_content() {
    let mut b = browser(vec![row("a", 4)], 2);
    let mut shown = Vec::new();
    for _ in 0..4 {
        assert_eq!(b.press(Key::Confirm), Reaction::Handled);
        shown.push(b.showing_content().unwrap());
        settle_content(&mut b);
        b.press(Key::Cancel);
        settle_content(&mut b);
        b.press(Key::Right);
        settle(&mut b);
    }
    assert_eq!(shown, vec![0, 1, 0, 1]);
}

#[test]
fn keys_are_ignored_while_a_tween_runs() {
    let mut b = browser(vec![row("a", 4), row("b", 4)], 3);
    assert_eq!(b.press(Key::Right), Reaction::Handled);
    // The column is moving: no second step, no row change, no confirm.
    assert_eq!(b.press(Key::Right), Reaction::Ignored);
    assert_eq!(b.press(Key::Left), Reaction::Ignored);
    assert_eq!(b.press(Key::Down), Reaction::Ignored);
    assert_eq!(b.press(Key::Confirm), Reaction::Ignored);
    assert_eq!(selected(&b, 0), 1);
    b.tick(NAVIGATION_MS, HALF);
    // Finished but still in its queue until the next tick.
    assert_eq!(b.press(Key::Right), Reaction::Ignored);
    b.tick(0, HALF);
    assert_eq!(b.press(Key::Down), Reaction::Handled);
    assert_eq!(b.phase(), Phase::AnimatingRow);
    // The camera is moving: the column may move, the row may not.
    assert_eq!(b.press(Key::Up), Reaction::Ignored);
    assert_eq!(b.press(Key::Confirm), Reaction::Ignored);
    assert_eq!(b.press(Key::Right), Reaction::Handled);
    assert_eq!(b.phase(), Phase::AnimatingSelection);
    assert_eq!(selected(&b, 1), 1);
}

#[test]
fn keys_are_ignored_while_content_is_shown() {
    let mut b = browser(vec![row("a", 4), row("b", 4)], 3);
    assert_eq!(b.press(Key::Confirm), Reaction::Handled);
    assert_eq!(b.phase(), Phase::ContentTransitioning);
    for key in [Key::Left, Key::Right, Key::Up, Key::Down, Key::Confirm] {
        assert_eq!(b.press(key), Reaction::Ignored);
    }
    assert_eq!(b.selected_row(), 0);
    assert_eq!(selected(&b, 0), 0);
    // Panning is never gated.
    assert_eq!(b.press(Key::PanRight), Reaction::Handled);
    assert_eq!(b.camera().position, Vec2::new(64, 0));
}

#[test]
fn empty_rows_and_empty_catalogs() {
    let mut b = browser(Vec::new(), 3);
    for key in [Key::Left, Key::Right, Key::Up, Key::Down, Key::Confirm] {
        assert_eq!(b.press(key), Reaction::Ignored);
    }
    let mut b = browser(vec![row("empty", 0), row("full", 2)], 3);
    assert_eq!(b.press(Key::Left), Reaction::Ignored);
    assert_eq!(b.press(Key::Right), Reaction::Ignored);
    assert_eq!(b.press(Key::Confirm), Reaction::Ignored);
    assert_eq!(b.press(Key::Down), Reaction::Handled);
    assert_eq!(b.selected_row(), 1);
}

#[test]
fn confirm_without_content_is_ignored() {
    let mut b = browser(vec![row("a", 2)], 0);
    assert_eq!(b.press(Key::Confirm), Reaction::Ignored);
    assert_eq!(b.showing_content(), None);
    assert_eq!(binding(&b, 0, 0), None);
}

#[test]
fn row_change_snaps_the_column_and_tweens_the_camera() {
    let mut b = browser(vec![row("a", 4), row("b", 4)], 3);
    b.press(Key::Right);
    settle(&mut b);
    b.press(Key::Right);
    settle(&mut b);
    assert_eq!(b.live_column(), 2 * UNIT);
    b.press(Key::PanRight);
    b.press(Key::PanDown);
    assert_eq!(b.press(Key::Down), Reaction::Handled);
    // The column jumps to what the new row remembers; no column tween.
    assert_eq!(b.live_column(), 0);
    assert!(b.column_tween().is_none());
    // The camera starts from where it is now, pan included.
    let tween = b.camera_tween().unwrap();
    assert_eq!(tween.from, Vec2::new(64, 64));
    assert_eq!(tween.to, Vec2::new(0, 192));
    assert_eq!(tween.duration, 500);
    // A tick of no time leaves the camera where it was.
    b.tick(0, HALF);
    assert_eq!(b.camera().position, Vec2::new(64, 64));
    b.tick(250, HALF);
    assert_eq!(b.camera().position, Vec2::new(32, 128));
    b.tick(250, HALF);
    assert_eq!(b.camera().position, Vec2::new(0, 192));
    // Back up: the first row remembers its place.
    b.tick(0, HALF);
    assert_eq!(b.press(Key::Up), Reaction::Handled);
    assert_eq!(b.live_column(), 2 * UNIT);
}

#[test]
fn column_tween_is_played_by_ticks() {
    let mut b = browser(vec![row("a", 4)], 3);
    b.press(Key::Right);
    assert_eq!(
        b.sample_times(100).column,
        Some(SampleTime { elapsed: 100, duration: 500 })
    );
    assert_eq!(b.sample_times(100).camera, None);
    assert_eq!(b.sample_times(100).content, None);
    b.tick(100, Easing { camera: 0, column: 95_492, content: 0 });
    assert_eq!(b.live_column(), 95_492);
    b.tick(150, Easing { camera: 0, column: 500_000, content: 0 });
    assert_eq!(b.live_column(), 500_000);
    assert_eq!(
        b.sample_times(1000).column,
        Some(SampleTime { elapsed: 500, duration: 500 })
    );
    b.tick(1000, Easing { camera: 0, column: 17, content: 0 });
    assert_eq!(b.live_column(), UNIT);
    assert_eq!(b.sample_times(1).column, None);
    b.tick(1, HALF);
    assert!(b.column_tween().is_none());
    assert_eq!(b.live_column(), UNIT);
}

#[test]
fn content_opens_and_closes_by_tween() {
    let mut b = browser(vec![row("a", 2)], 3);
    b.press(Key::Confirm);
    let opening = b.content_tween().unwrap();
    assert_eq!((opening.from, opening.to, opening.duration), (0, UNIT, 1000));
    b.tick(500, Easing { camera: 0, column: 0, content: 500_000 });
    assert_eq!(b.content_size(), 500_000);
    b.tick(500, HALF);
    assert_eq!(b.content_size(), UNIT);
    // The opening tween ended at all: taking it out does not close.
    b.tick(0, HALF);
    assert_eq!(b.showing_content(), Some(0));
    assert_eq!(b.phase(), Phase::ShowingContent);

    assert_eq!(b.press(Key::Cancel), Reaction::Handled);
    let closing = b.content_tween().unwrap();
    assert_eq!((closing.from, closing.to, closing.duration), (UNIT, 0, 1000));
    // Still shown while it closes.
    assert_eq!(b.showing_content(), Some(0));
    assert_eq!(b.phase(), Phase::ContentTransitioning);
    b.tick(400, Easing { camera: 0, column: 0, content: 250_000 });
    assert_eq!(b.content_size(), 750_000);
    assert_eq!(b.showing_content(), Some(0));
    b.tick(600, HALF);
    assert_eq!(b.content_size(), 0);
    assert_eq!(b.showing_content(), Some(0));
    // Cleared on the tick that takes the finished closing tween out.
    b.tick(16, HALF);
    assert_eq!(b.showing_content(), None);
    assert_eq!(b.phase(), Phase::Idle);
    assert_eq!(b.press(Key::Cancel), Reaction::Quit);
}

#[test]
fn cancel_during_opening_queues_behind_it() {
    let mut b = browser(vec![row("a", 2)], 3);
    b.press(Key::Confirm);
    b.tick(300, HALF);
    assert_eq!(b.press(Key::Cancel), Reaction::Handled);
    assert_eq!(b.content_tweens_waiting(), 2);
    // The opening tween is still the one being played.
    assert_eq!(b.content_tween().unwrap().to, UNIT);
    b.tick(700, HALF);
    assert_eq!(b.content_size(), UNIT);
    b.tick(0, HALF);
    assert_eq!(b.content_tweens_waiting(), 1);
    assert_eq!(b.showing_content(), Some(0));
    b.tick(1000, HALF);
    b.tick(0, HALF);
    assert_eq!(b.showing_content(), None);
}

#[test]
fn resize_changes_the_target_of_the_next_row_change() {
    let mut b = browser(vec![row("a", 1), row("b", 1), row("c", 1)], 3);
    b.resize(800, 400);
    assert_eq!(b.camera().viewport, Vec2::new(800, 400));
    b.press(Key::Down);
    assert_eq!(b.camera_tween().unwrap().to, Vec2::new(0, 100));
    settle(&mut b);
    b.press(Key::Down);
    assert_eq!(b.camera_tween().unwrap().to, Vec2::new(0, 200));
}

#[test]
fn selection_is_row_and_live_column() {
    let mut b = browser(vec![row("a", 4), row("b", 4)], 3);
    assert_eq!(b.selection(), Selection { row: 0, column: 0 });
    b.press(Key::Right);
    // The selection has moved on; the column follows by its tween.
    assert_eq!(b.selection(), Selection { row: 0, column: 0 });
    b.tick(250, HALF);
    assert_eq!(b.selection(), Selection { row: 0, column: UNIT / 2 });
    settle(&mut b);
    b.press(Key::Down);
    assert_eq!(b.selection(), Selection { row: 1, column: 0 });
}

#[test]
fn a_column_tween_starts_at_the_live_column() {
    let mut b = browser(vec![row("a", 4)], 3);
    b.press(Key::Right);
    settle(&mut b);
    let live = b.live_column();
    b.press(Key::Right);
    assert_eq!(b.column_tween().unwrap().from, live);
    // A tick of no time right after the key moves nothing.
    b.tick(0, Easing { camera: 0, column: 999_999, content: 0 });
    assert_eq!(b.live_column(), live);
}

#[test]
fn column_and_row_units() {
    assert_eq!(column_of(0), 0);
    assert_eq!(column_of(3), 3_000_000);
    assert_eq!(column_of(usize::MAX), i64::MAX);
    assert_eq!(row_start(0, 768), 0);
    assert_eq!(row_start(3, 768), 576);
    assert_eq!(row_start(3, 770), 576);
    assert_eq!(row_start(3, -5), 0);
    assert_eq!(row_start(usize::MAX, i64::MAX), i64::MAX);
    assert_eq!(PROGRESS_ONE, 1_000_000);
}

#[test]
fn a_key_during_a_camera_tween_does_not_snap_the_camera() {
    let probe_position = Vec2::new(0, 96 + 768);
    let probe_size = Vec2::new(10, 10);
    let visible = |camera: Camera2D| camera.is_rectangle_in_view(probe_position, probe_size);

    let mut b = browser(vec![row("a", 4), row("b", 4), row("c", 4)], 3);
    b.press(Key::Down);
    let sample = Easing { camera: 500_000, column: 123_456, content: 0 };
    b.tick(250, sample);
    // Half way from (0, 0) to (0, 192).
    let live = b.camera().position;
    assert_eq!(live, Vec2::new(0, 96));
    let seen = visible(b.camera());
    assert!(seen);

    // Up and Down come too early: nothing is enqueued and nothing moves.
    assert_eq!(b.press(Key::Down), Reaction::Ignored);
    assert_eq!(b.press(Key::Up), Reaction::Ignored);
    b.tick(0, sample);
    assert_eq!(b.camera().position, live);
    assert_eq!(visible(b.camera()), seen);

    // Right is served while the camera moves: the column tween starts at the
    // live column, and the camera stays on its way.
    assert_eq!(b.press(Key::Right), Reaction::Handled);
    assert_eq!(b.column_tween().unwrap().from, b.live_column());
    b.tick(0, sample);
    assert_eq!(b.camera().position, live);
    assert_eq!(b.live_column(), 0);
    assert_eq!(visible(b.camera()), seen);

    // The camera has been panned while it was at rest: the next tween starts
    // from there, not from where the last one ended.
    settle(&mut b);
    b.press(Key::PanRight);
    let panned = b.camera().position;
    assert_eq!(panned, Vec2::new(64, 192));
    assert_eq!(b.press(Key::Down), Reaction::Handled);
    assert_eq!(b.camera_tween().unwrap().from, panned);
    b.tick(0, sample);
    assert_eq!(b.camera().position, panned);
}
