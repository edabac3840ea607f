//! Scheduling of animated values (the camera rotation of the gizmo): a
//! queue of timed interpolation steps.
//!
//! Times are whole nanoseconds on a clock the caller keeps. Evaluating an
//! interpolation at a point in time is the caller's part; this module
//! decides which step is running, which steps are over, and where a new
//! step starts.
use vstd::prelude::*;

verus! {

/// How an interpolation moves from its start to its end value.
#[derive(Clone, Copy, Debug, PartialEq, Eq, Structural)]
pub enum Easing {
    /// At constant speed.
    Linear,
    /// Slow at both ends (a half cosine).
    Swing,
}

/// A move from one value to another.
#[derive(Clone, Copy, Debug)]
pub struct Interpolation<V> {
    pub easing: Easing,
    pub from: V,
    pub to: V,
}

impl<V: Copy> Interpolation<V> {
    pub fn linear(a: V, b: V) -> (r: Self)
        ensures
            r.easing == Easing::Linear,
            r.from == a,
            r.to == b,
    {
        Interpolation { easing: Easing::Linear, from: a, to: b }
    }

    pub fn swing(a: V, b: V) -> (r: Self)
        ensures
            r.easing == Easing::Swing,
            r.from == a,
            r.to == b,
    {
        Interpolation { easing: Easing::Swing, from: a, to: b }
    }
}

/// An interpolation that runs from `start` to `end`.
#[derive(Clone, Copy, Debug)]
pub struct Animation<V> {
    pub interpolation: Interpolation<V>,
    pub start: u64,
    pub end: u64,
}

impl<V: Copy> Animation<V> {
    /// A step that holds `value` and is already over.
    pub fn instant(value: V, now: u64) -> (r: Self)
        ensures
            r.interpolation == (Interpolation { easing: Easing::Linear, from: value, to: value }),
            r.start == now,
            r.end == now,
    {
        Animation { interpolation: Interpolation::linear(value, value), start: now, end: now }
    }

    /// A linear step that holds `value` for `duration` from `now`.
    pub fn linear(value: V, duration: u64, now: u64) -> (r: Self)
        requires
            now + duration <= u64::MAX,
        ensures
            r.interpolation == (Interpolation { easing: Easing::Linear, from: value, to: value }),
            r.start == now,
            r.end == now + duration,
    {
        Animation { interpolation: Interpolation::linear(value, value), start: now, end: now + duration }
    }

    /// A swinging step that holds `value` for `duration` from `now`.
    pub fn swing(value: V, duration: u64, now: u64) -> (r: Self)
        requires
            now + duration <= u64::MAX,
        ensures
            r.interpolation == (Interpolation { easing: Easing::Swing, from: value, to: value }),
            r.start == now,
            r.end == now + duration,
    {
        Animation { interpolation: Interpolation::swing(value, value), start: now, end: now + duration }
    }
}

/// The step is running at `now`.
pub open spec fn is_running<V>(step: Animation<V>, now: u64) -> bool {
    step.start <= now <= step.end
}

/// The steps that are not over at `now`, in order.
pub open spec fn steps_not_over<V>(q: Seq<Animation<V>>, now: u64) -> Seq<Animation<V>>
    decreases q.len(),
{
    if q.len() == 0 {
        Seq::empty()
    } else if now > q.last().end {
        steps_not_over(q.drop_last(), now)
    } else {
        steps_not_over(q.drop_last(), now).push(q.last())
    }
}

/// The last step running at `now`.
pub open spec fn last_running<V>(q: Seq<Animation<V>>, now: u64) -> Option<Animation<V>>
    decreases q.len(),
{
    if q.len() == 0 {
        None
    } else if is_running(q.last(), now) {
        Some(q.last())
    } else {
        last_running(q.drop_last(), now)
    }
}

/// Where a new step starts: at the target and end of the first queued step,
/// or at the current value and time when nothing is queued.
pub open spec fn chain_start<V>(q: Seq<Animation<V>>, last_value: V, now: u64) -> (V, u64) {
    if q.len() > 0 {
        (q[0].interpolation.to, q[0].end)
    } else {
        (last_value, now)
    }
}

/// The step queued towards `next` for `duration`: it starts at
/// `chain_start`.
pub open spec fn queued_step<V>(
    q: Seq<Animation<V>>,
    last_value: V,
    now: u64,
    next: V,
    duration: u64,
    easing: Easing,
) -> Animation<V> {
    let (from, start) = chain_start(q, last_value, now);
    Animation {
        interpolation: Interpolation { easing, from, to: next },
        start,
        end: (start + duration) as u64,
    }
}

/// A value that moves through a queue of animation steps.
#[derive(Debug)]
pub struct AnimatedValue<V> {
    pub queue: Vec<Animation<V>>,
    pub last_value: V,
}

impl<V: Copy> AnimatedValue<V> {
    /// A value at rest.
    pub fn new(value: V) -> (r: Self)
        ensures
            r.queue@.len() == 0,
            r.last_value == value,
    {
        AnimatedValue { queue: Vec::new(), last_value: value }
    }

    /// Whether steps are queued.
    pub fn has_queued(&self) -> (r: bool)
        ensures
            r == (self.queue@.len() > 0),
    {
        self.queue.len() > 0
    }

    /// Drops every queued step; the value stays where it is.
    pub fn clear(&mut self)
        ensures
            final(self).queue@.len() == 0,
            final(self).last_value == old(self).last_value,
    {
        self.queue.clear();
    }

    /// Drops every queued step and jumps to `value`.
    pub fn set_immediate(&mut self, value: V)
        ensures
            final(self).queue@.len() == 0,
            final(self).last_value == value,
    {
        self.clear();
        self.last_value = value;
    }

    /// Queues a step towards `next` that lasts `duration`; it starts where
    /// the first queued step ends (or at the current value, now, when
    /// nothing is queued).
    pub fn push_animation(&mut self, next: V, duration: u64, easing: Easing, now: u64)
        requires
            chain_start(old(self).queue@, old(self).last_value, now).1 + duration <= u64::MAX,
        ensures
            final(self).last_value == old(self).last_value,
            final(self).queue@ == old(self).queue@.push(
                queued_step(old(self).queue@, old(self).last_value, now, next, duration, easing),
            ),
    {
        let (start_value, start_time) = if self.queue.len() > 0 {
            (self.queue[0].interpolation.to, self.queue[0].end)
        } else {
            (self.last_value, now)
        };
        self.queue.push(
            Animation {
                interpolation: Interpolation { easing, from: start_value, to: next },
                start: start_time,
                end: start_time + duration,
            },
        );
    }

    /// Queues a linear step towards `next`.
    pub fn push_linear(&mut self, next: V, duration: u64, now: u64)
        requires
            chain_start(old(self).queue@, old(self).last_value, now).1 + duration <= u64::MAX,
        ensures
            final(self).last_value == old(self).last_value,
            final(self).queue@ == old(self).queue@.push(
                queued_step(old(self).queue@, old(self).last_value, now, next, duration, Easing::Linear),
            ),
    {
        self.push_animation(next, duration, Easing::Linear, now)
    }

    /// Queues a swinging step towards `next`.
    pub fn push_swing(&mut self, next: V, duration: u64, now: u64)
        requires
            chain_start(old(self).queue@, old(self).last_value, now).1 + duration <= u64::MAX,
        ensures
            final(self).last_value == old(self).last_value,
            final(self).queue@ == old(self).queue@.push(
                queued_step(old(self).queue@, old(self).last_value, now, next, duration, Easing::Swing),
            ),
    {
        self.push_animation(next, duration, Easing::Swing, now)
    }

    /// Moves the queue to time `now`: drops the steps that are over and
    /// returns the last step that is running, whose interpolation at `now`
    /// is the new value (to be stored with `set_value`).
    pub fn advance(&mut self, now: u64) -> (r: Option<Animation<V>>)
        ensures
            final(self).queue@ == steps_not_over(old(self).queue@, now),
            final(self).last_value == old(self).last_value,
            r == last_running(old(self).queue@, now),
    {
        let mut kept: Vec<Animation<V>> = Vec::new();
        let mut running: Option<Animation<V>> = None;
        let mut i: usize = 0;
        while i < self.queue.len()
            invariant
                i <= self.queue@.len(),
                self.queue@ == old(self).queue@,
                kept@ == steps_not_over(self.queue@.take(i as int), now),
                running == last_running(self.queue@.take(i as int), now),
            decreases self.queue@.len() - i,
        {
            let step = self.queue[i];
            proof {
                assert(self.queue@.take(i as int + 1).drop_last() =~= self.queue@.take(i as int));
            }
            if now >= step.start && now <= step.end {
                running = Some(step);
            }
            if now <= step.end {
                kept.push(step);
            }
            i = i + 1;
        }
        assert(self.queue@.take(i as int) =~= self.queue@);
        self.queue = kept;
        running
    }

    /// The value at time `now`: the queue moves to `now` (see `advance`);
    /// when a step is running, the value becomes what `current` computes for
    /// it at `now` (interpolating is the caller's arithmetic), otherwise the
    /// value stays where it is.
    pub fn value<F: Fn(Animation<V>, u64) -> V>(&mut self, now: u64, current: &F) -> (r: V)
        requires
            forall|step: Animation<V>, t: u64| #[trigger] call_requires(*current, (step, t)),
        ensures
            final(self).queue@ == steps_not_over(old(self).queue@, now),
            final(self).last_value == r,
            match last_running(old(self).queue@, now) {
                Some(step) => call_ensures(*current, (step, now), r),
                None => r == old(self).last_value,
            },
    {
        match self.advance(now) {
            Some(step) => {
                let v = current(step, now);
                self.last_value = v;
                v
            },
            None => self.last_value,
        }
    }

    /// Stores the value computed for the running step.
    pub fn set_value(&mut self, value: V)
        ensures
            final(self).last_value == value,
            final(self).queue@ == old(self).queue@,
    {
        self.last_value = value;
    }
}

/// After advancing to `now`, no queued step is over, and the steps kept are
/// the ones that were queued, in their order.
pub proof fn law_advance_drops_finished<V>(q: Seq<Animation<V>>, now: u64)
    ensures
        forall|i: int|
            0 <= i < steps_not_over(q, now).len() ==> now <= (#[trigger] steps_not_over(q, now)[i]).end,
        forall|i: int|
            0 <= i < steps_not_over(q, now).len() ==> q.contains(#[trigger] steps_not_over(q, now)[i]),
        steps_not_over(q, now).len() <= q.len(),
    decreases q.len(),
{
    if q.len() > 0 {
        law_advance_drops_finished(q.drop_last(), now);
        let prev = steps_not_over(q.drop_last(), now);
        assert forall|i: int| 0 <= i < steps_not_over(q, now).len() implies q.contains(
            #[trigger] steps_not_over(q, now)[i],
        ) by {
            if i < prev.len() {
                let x = prev[i];
                assert(q.drop_last().contains(x));
                let k = choose|k: int| 0 <= k < q.drop_last().len() && q.drop_last()[k] == x;
                assert(q[k] == x);
            } else {
                assert(q[q.len() - 1] == q.last());
            }
        }
    }
}

/// The running step reported by an advance is one of the queued steps and
/// runs at that time; advancing twice to the same time reports the same
/// step and keeps the same queue.
pub proof fn law_advance_is_stable<V>(q: Seq<Animation<V>>, now: u64)
    ensures
        last_running(q, now) matches Some(s) ==> is_running(s, now) && q.contains(s),
        steps_not_over(steps_not_over(q, now), now) == steps_not_over(q, now),
        last_running(steps_not_over(q, now), now) == last_running(q, now),
    decreases q.len(),
{
    if q.len() > 0 {
        let rest = q.drop_last();
        law_advance_is_stable(rest, now);
        let kept = steps_not_over(q, now);
        if now <= q.last().end {
            assert(kept.drop_last() =~= steps_not_over(rest, now));
            assert(kept.last() == q.last());
        }
        if let Some(s) = last_running(q, now) {
            if !is_running(q.last(), now) {
                let k = choose|k: int| 0 <= k < rest.len() && rest[k] == s;
                assert(q[k] == s);
            } else {
                assert(q[q.len() - 1] == s);
            }
        }
    }
}

/// A step queued onto an idle value starts from the current value at the
/// current time and runs at once: advancing to that time reports it as the
/// running step and keeps it queued, so the motion is continuous.
pub proof fn law_push_starts_at_rest<V>(
    last_value: V,
    now: u64,
    next: V,
    duration: u64,
    easing: Easing,
)
    requires
        now + duration <= u64::MAX,
    ensures
        queued_step(Seq::<Animation<V>>::empty(), last_value, now, next, duration, easing).interpolation.from
            == last_value,
        queued_step(Seq::<Animation<V>>::empty(), last_value, now, next, duration, easing).start
            == now,
        last_running(
            seq![queued_step(Seq::<Animation<V>>::empty(), last_value, now, next, duration, easing)],
            now,
        ) == Some(queued_step(Seq::<Animation<V>>::empty(), last_value, now, next, duration, easing)),
        steps_not_over(
            seq![queued_step(Seq::<Animation<V>>::empty(), last_value, now, next, duration, easing)],
            now,
        ) == seq![queued_step(Seq::<Animation<V>>::empty(), last_value, now, next, duration, easing)],
{
    let step = queued_step(Seq::<Animation<V>>::empty(), last_value, now, next, duration, easing);
    let q = seq![step];
    assert(chain_start(Seq::<Animation<V>>::empty(), last_value, now) == (last_value, now));
    assert(step.start == now && step.end == now + duration);
    assert(is_running(step, now));
    assert(q.len() == 1);
    assert(q.drop_last() =~= Seq::<Animation<V>>::empty());
    assert(q.last() == step);
    assert(steps_not_over(q.drop_last(), now) =~= Seq::<Animation<V>>::empty());
    assert(steps_not_over(q, now) =~= q);
}

/// A value with nothing queued stays where it is: `value` and `advance`
/// find no running step at any time (so the value is returned unchanged)
/// and leave the queue empty, however often they are called.
pub proof fn law_idle_value_stays<V>(q: Seq<Animation<V>>, now: u64)
    requires
        q.len() == 0,
    ensures
        last_running(q, now) is None,
        steps_not_over(q, now).len() == 0,
{
}

} // verus!
