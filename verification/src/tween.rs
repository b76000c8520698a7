//! Tweens and the queues that play them.
//!
//! A tween leads a value from `from` to `to` over `duration` milliseconds.
//! How far along the way the value is at a given moment is decided by an
//! easing curve that lives outside this module: the caller samples the curve
//! at the moment [`TweenQueue::sample_time`] names and hands the sample in as a
//! whole number of millionths. The two ends do not depend on the curve: a
//! tween that has not moved is at `from`, a finished one is at `to`.
//!
//! A queue plays its tweens strictly one after the other. Only the front one
//! moves; when it has finished it is taken out, and the next tick starts the
//! one behind it.

use std::collections::VecDeque;
use vstd::prelude::*;
use crate::geometry::Vec2;

verus! {

/// The curve sample that stands for "all the way": samples are millionths.
pub const PROGRESS_ONE: u32 = 1_000_000;

/// One whole, in the fixed-point values that the tweens of the browser lead:
/// one column of the grid, and content that is fully revealed.
pub const UNIT: i64 = 1_000_000;

/// A curve sample held to the range from nothing to all the way.
pub open spec fn clamp_progress(progress: int) -> int {
    if progress < 0 {
        0
    } else if progress > PROGRESS_ONE {
        PROGRESS_ONE as int
    } else {
        progress
    }
}

/// The point `progress` millionths of the way from `from` to `to`, rounded
/// towards `from`.
pub open spec fn blend(from: int, to: int, progress: int) -> int {
    if from <= to {
        from + ((to - from) * progress) / (PROGRESS_ONE as int)
    } else {
        from - ((from - to) * progress) / (PROGRESS_ONE as int)
    }
}

/// A blend starts at `from`, ends at `to`, and never leaves the span between
/// the two.
pub proof fn lemma_blend_between(from: int, to: int, progress: int)
    requires
        0 <= progress <= PROGRESS_ONE,
    ensures
        blend(from, to, 0) == from,
        blend(from, to, PROGRESS_ONE as int) == to,
        from <= to ==> from <= blend(from, to, progress) <= to,
        from >= to ==> to <= blend(from, to, progress) <= from,
{
    let one = PROGRESS_ONE as int;
    let span = if from <= to { to - from } else { from - to };
    lemma_scaled_within(span, progress);
    lemma_scaled_within(span, 0);
    lemma_scaled_within(span, one);
}

/// `span * progress / one` lies between nothing and `span`, and hits both ends.
proof fn lemma_scaled_within(span: int, progress: int)
    requires
        0 <= span,
        0 <= progress <= PROGRESS_ONE,
    ensures
        0 <= (span * progress) / (PROGRESS_ONE as int) <= span,
        progress == 0 ==> (span * progress) / (PROGRESS_ONE as int) == 0,
        progress == PROGRESS_ONE ==> (span * progress) / (PROGRESS_ONE as int) == span,
        span * progress <= span * PROGRESS_ONE,
{
    let one = PROGRESS_ONE as int;
    assert(0 <= span * progress <= span * one) by (nonlinear_arith)
        requires
            0 <= span,
            0 <= progress <= one,
    ;
    assert((span * one) / one == span) by (nonlinear_arith)
        requires
            one > 0,
    ;
    assert(0 <= (span * progress) / one <= (span * one) / one) by (nonlinear_arith)
        requires
            0 <= span * progress <= span * one,
            one > 0,
    ;
    if progress == 0 {
        assert(span * progress == 0) by (nonlinear_arith)
            requires
                progress == 0,
        ;
    }
}

/// A value that can be led from one state to another.
pub trait CanTween: Sized + Copy {
    /// The state `progress` millionths of the way from `from` to `to`, for a
    /// `progress` between nothing and all the way.
    spec fn eased(from: Self, to: Self, progress: int) -> Self;

    fn ease(from: Self, to: Self, progress: u32) -> (r: Self)
        requires
            progress <= PROGRESS_ONE,
        ensures
            r == Self::eased(from, to, progress as int),
    ;

    /// The way starts at `from` and ends at `to`.
    proof fn lemma_ends(from: Self, to: Self)
        ensures
            Self::eased(from, to, 0) == from,
            Self::eased(from, to, PROGRESS_ONE as int) == to,
    ;
}

impl CanTween for i64 {
    open spec fn eased(from: i64, to: i64, progress: int) -> i64 {
        blend(from as int, to as int, progress) as i64
    }

    fn ease(from: i64, to: i64, progress: u32) -> (r: i64) {
        proof {
            lemma_blend_between(from as int, to as int, progress as int);
        }
        if from <= to {
            let span: u128 = (to as i128 - from as i128) as u128;
            proof {
                lemma_scaled_within(span as int, progress as int);
            }
            let step: u128 = span * (progress as u128) / (PROGRESS_ONE as u128);
            (from as i128 + step as i128) as i64
        } else {
            let span: u128 = (from as i128 - to as i128) as u128;
            proof {
                lemma_scaled_within(span as int, progress as int);
            }
            let step: u128 = span * (progress as u128) / (PROGRESS_ONE as u128);
            (from as i128 - step as i128) as i64
        }
    }

    proof fn lemma_ends(from: i64, to: i64) {
        lemma_blend_between(from as int, to as int, 0);
    }
}

impl CanTween for Vec2 {
    open spec fn eased(from: Vec2, to: Vec2, progress: int) -> Vec2 {
        Vec2 {
            x: blend(from.x as int, to.x as int, progress) as i64,
            y: blend(from.y as int, to.y as int, progress) as i64,
        }
    }

    fn ease(from: Vec2, to: Vec2, progress: u32) -> (r: Vec2) {
        Vec2 { x: i64::ease(from.x, to.x, progress), y: i64::ease(from.y, to.y, progress) }
    }

    proof fn lemma_ends(from: Vec2, to: Vec2) {
        lemma_blend_between(from.x as int, to.x as int, 0);
        lemma_blend_between(from.y as int, to.y as int, 0);
    }
}

/// One tween: the two ends, the time the way takes and the time spent on it,
/// both in milliseconds.
#[derive(Clone, Copy, Debug)]
pub struct Tween<V> {
    pub from: V,
    pub to: V,
    pub duration: u64,
    pub elapsed: u64,
}

/// The moment at which the caller samples the easing curve: `elapsed` out of
/// `duration` milliseconds, with `elapsed <= duration` and `duration > 0`.
#[derive(Clone, Copy, Debug, PartialEq, Eq, Structural)]
pub struct SampleTime {
    pub elapsed: u64,
    pub duration: u64,
}

impl<V: CanTween> Tween<V> {
    /// A tween that has spent as much time as the way takes, or more.
    pub open spec fn is_finished(self) -> bool {
        self.elapsed >= self.duration
    }

    /// The tween `delta` milliseconds later. Time stops at the end of the way.
    pub open spec fn advanced(self, delta: int) -> Tween<V> {
        if self.is_finished() {
            self
        } else if self.elapsed + delta >= self.duration {
            Tween { elapsed: self.duration, ..self }
        } else {
            Tween { elapsed: (self.elapsed + delta) as u64, ..self }
        }
    }

    /// Where the value stands, given the curve's sample for the present
    /// moment. The sample counts only on the way, not at its ends.
    pub open spec fn value_at(self, progress: int) -> V {
        if self.is_finished() {
            self.to
        } else if self.elapsed == 0 {
            self.from
        } else {
            V::eased(self.from, self.to, clamp_progress(progress))
        }
    }

    /// A tween at the start of its way.
    pub fn new(from: V, to: V, duration: u64) -> (r: Tween<V>)
        ensures
            r == (Tween { from, to, duration, elapsed: 0 }),
    {
        Tween { from, to, duration, elapsed: 0 }
    }

    pub fn finished(&self) -> (r: bool)
        ensures
            r == self.is_finished(),
    {
        self.elapsed >= self.duration
    }

    /// Lets `delta` milliseconds pass.
    pub fn advance_by(&mut self, delta: u64)
        ensures
            *final(self) == old(self).advanced(delta as int),
    {
        if self.elapsed < self.duration {
            if delta >= self.duration - self.elapsed {
                self.elapsed = self.duration;
            } else {
                self.elapsed = self.elapsed + delta;
            }
        }
    }

    /// The present value, given the curve's sample for the present moment.
    /// A sample beyond all the way counts as all the way.
    pub fn now(&self, progress: u32) -> (r: V)
        ensures
            r == self.value_at(progress as int),
    {
        if self.elapsed >= self.duration {
            self.to
        } else if self.elapsed == 0 {
            self.from
        } else {
            let held: u32 = if progress > PROGRESS_ONE {
                PROGRESS_ONE
            } else {
                progress
            };
            V::ease(self.from, self.to, held)
        }
    }
}

/// What one tick did to a queue.
#[derive(Clone, Copy, Debug)]
pub enum TweenStep<V> {
    /// The queue was empty.
    Idle,
    /// The front tween had finished and was taken out; the value is where it
    /// ended.
    Completed(V),
    /// The front tween moved on; the value is where it stands now.
    Moved(V),
}

/// The queue after one tick of `delta` milliseconds: a finished front tween
/// leaves, an unfinished one moves on, and nothing behind the front changes.
pub open spec fn queue_after<V: CanTween>(queue: Seq<Tween<V>>, delta: int) -> Seq<Tween<V>> {
    if queue.len() == 0 {
        queue
    } else if queue[0].is_finished() {
        queue.drop_first()
    } else {
        queue.update(0, queue[0].advanced(delta))
    }
}

/// What one tick of `delta` milliseconds reports, given the curve's sample
/// for the moment after it.
pub open spec fn queue_report<V: CanTween>(
    queue: Seq<Tween<V>>,
    delta: int,
    progress: int,
) -> TweenStep<V> {
    if queue.len() == 0 {
        TweenStep::Idle
    } else if queue[0].is_finished() {
        TweenStep::Completed(queue[0].to)
    } else {
        TweenStep::Moved(queue[0].advanced(delta).value_at(progress))
    }
}

/// Where the curve is to be sampled for a tick of `delta` milliseconds: at
/// the moment that the front tween reaches by it, if that tween moves at all.
pub open spec fn queue_sample_time<V: CanTween>(queue: Seq<Tween<V>>, delta: int) -> Option<
    SampleTime,
> {
    if queue.len() == 0 || queue[0].is_finished() {
        None
    } else {
        Some(
            SampleTime {
                elapsed: queue[0].advanced(delta).elapsed,
                duration: queue[0].duration,
            },
        )
    }
}

/// Tweens waiting to be played, first in, first out.
pub struct TweenQueue<V> {
    items: VecDeque<Tween<V>>,
}

impl<V> View for TweenQueue<V> {
    type V = Seq<Tween<V>>;

    closed spec fn view(&self) -> Seq<Tween<V>> {
        self.items@
    }
}

impl<V: CanTween> TweenQueue<V> {
    pub fn new() -> (r: TweenQueue<V>)
        ensures
            r@ == Seq::<Tween<V>>::empty(),
    {
        TweenQueue { items: VecDeque::new() }
    }

    pub fn is_empty(&self) -> (r: bool)
        ensures
            r == (self@.len() == 0),
    {
        self.items.len() == 0
    }

    pub fn len(&self) -> (r: usize)
        ensures
            r == self@.len(),
    {
        self.items.len()
    }

    /// The tween that is being played.
    pub fn front(&self) -> (r: Option<Tween<V>>)
        ensures
            r == (if self@.len() == 0 {
                None
            } else {
                Some(self@[0])
            }),
    {
        if self.items.len() == 0 {
            None
        } else {
            Some(self.items[0])
        }
    }

    /// Puts `tween` behind all that wait.
    pub fn push_back(&mut self, tween: Tween<V>)
        ensures
            final(self)@ == old(self)@.push(tween),
    {
        self.items.push_back(tween);
    }

    /// See [`queue_sample_time`].
    pub fn sample_time(&self, delta: u64) -> (r: Option<SampleTime>)
        ensures
            r == queue_sample_time(self@, delta as int),
            r matches Some(t) ==> t.elapsed <= t.duration && t.duration > 0,
    {
        if self.items.len() == 0 {
            return None;
        }
        let mut front: Tween<V> = self.items[0];
        if front.finished() {
            None
        } else {
            front.advance_by(delta);
            Some(SampleTime { elapsed: front.elapsed, duration: front.duration })
        }
    }

    /// One tick: see [`queue_after`] and [`queue_report`].
    pub fn step(&mut self, delta: u64, progress: u32) -> (r: TweenStep<V>)
        ensures
            final(self)@ == queue_after(old(self)@, delta as int),
            r == queue_report(old(self)@, delta as int, progress as int),
    {
        if self.items.len() == 0 {
            return TweenStep::Idle;
        }
        let mut front: Tween<V> = self.items[0];
        if front.finished() {
            self.items.pop_front();
            TweenStep::Completed(front.to)
        } else {
            front.advance_by(delta);
            let value: V = front.now(progress);
            self.items.pop_front();
            self.items.push_front(front);
            TweenStep::Moved(value)
        }
    }
}

/// A tween that has been given its whole time, or more, stands exactly at its
/// end; one that takes any time and has been given none stands exactly at its
/// start. Neither depends on the curve.
pub proof fn lemma_tween_round_trip<V: CanTween>(
    from: V,
    to: V,
    duration: u64,
    delta: int,
    progress: int,
)
    requires
        delta >= 0,
    ensures
        delta >= duration ==> (Tween { from, to, duration, elapsed: 0 }).advanced(delta).value_at(
            progress,
        ) == to,
        delta == 0 && duration > 0 ==> (Tween { from, to, duration, elapsed: 0 }).advanced(
            delta,
        ).value_at(progress) == from,
{
}

/// Time on a tween adds up, and stops at the end: two ticks do what one tick
/// of their sum does.
pub proof fn lemma_advance_adds<V: CanTween>(tween: Tween<V>, first: int, second: int)
    requires
        first >= 0,
        second >= 0,
    ensures
        tween.advanced(first).advanced(second) == tween.advanced(first + second),
{
}

/// Only the front of a queue is played: a tick neither moves nor reorders
/// what waits behind it, and a newcomer changes nothing for those already
/// there.
pub proof fn lemma_queue_is_fifo<V: CanTween>(
    queue: Seq<Tween<V>>,
    newcomer: Tween<V>,
    delta: int,
    progress: int,
)
    requires
        queue.len() > 0,
    ensures
        queue_after(queue.push(newcomer), delta) == queue_after(queue, delta).push(newcomer),
        queue_report(queue.push(newcomer), delta, progress) == queue_report(queue, delta, progress),
        queue[0].is_finished() ==> queue_after(queue, delta) == queue.subrange(
            1,
            queue.len() as int,
        ),
        !queue[0].is_finished() ==> queue_after(queue, delta).subrange(1, queue.len() as int)
            == queue.subrange(1, queue.len() as int),
{
    if queue[0].is_finished() {
        assert(queue_after(queue, delta) =~= queue.subrange(1, queue.len() as int));
    } else {
        assert(queue_after(queue, delta).subrange(1, queue.len() as int) =~= queue.subrange(
            1,
            queue.len() as int,
        ));
    }
}

} // verus!
