//! The animation scheduler: a two-state machine that decides, from the
//! current timestamp alone, which slide is shown, which one is blended in,
//! and how far that blend has progressed.
//!
//! Timestamps are monotonic milliseconds. The blend weight is kept exact,
//! as the fraction `mix_numer / transition_ms`; the host divides the two
//! when it sets its interpolation factor, so no rounding ever enters the
//! state machine itself.

use vstd::prelude::*;

verus! {

/// The two states of the scheduler: showing one slide at full opacity,
/// or blending the current slide into the next one.
#[derive(Clone, Copy, PartialEq, Eq, Structural, Debug)]
pub enum Phase {
    Holding,
    Transitioning,
}

/// Mathematical model of a scheduler: the same record over unbounded
/// integers, so that laws about sequences of ticks can be stated and
/// proved without machine-width side conditions.
pub struct ScheduleView {
    pub slide_count: int,
    pub interval_ms: int,
    pub transition_ms: int,
    pub current_idx: int,
    pub next_idx: int,
    pub mix_numer: int,
    pub phase: Phase,
    pub last_switch_time: int,
    pub transition_start_time: int,
}

/// Well-formedness of a scheduler model: indices stay inside the cyclic
/// slide sequence, the next slide is always the cyclic successor of the
/// current one, and the blend weight never exceeds one.
pub open spec fn view_wf(v: ScheduleView) -> bool {
    &&& 1 <= v.slide_count
    &&& 0 <= v.interval_ms
    &&& 0 <= v.transition_ms
    &&& 0 <= v.current_idx < v.slide_count
    &&& v.next_idx == (v.current_idx + 1) % v.slide_count
    &&& 0 <= v.mix_numer <= v.transition_ms
    &&& (v.phase is Holding ==> v.mix_numer == 0)
    &&& 0 <= v.last_switch_time
    &&& 0 <= v.transition_start_time
}

/// The freshly mounted scheduler: holding slide zero, blend weight zero,
/// the hold period measured from `now`.
pub open spec fn initial_view(
    slide_count: int,
    interval_ms: int,
    transition_ms: int,
    now: int,
) -> ScheduleView {
    ScheduleView {
        slide_count,
        interval_ms,
        transition_ms,
        current_idx: 0,
        next_idx: 1int % slide_count,
        mix_numer: 0,
        phase: Phase::Holding,
        last_switch_time: now,
        transition_start_time: now,
    }
}

/// One tick of the state machine at timestamp `now`.
///
/// Holding: once more than `interval_ms` has passed since the last switch,
/// enter the transition and record its start. Transitioning: at or after
/// `transition_start_time + transition_ms` the blend finalizes — the next
/// slide becomes current, its cyclic successor becomes next, the blend
/// weight returns to zero and the hold period restarts; before that, the
/// blend weight is the elapsed time, so that `mix_numer / transition_ms`
/// is the progress of the episode.
pub open spec fn spec_tick(v: ScheduleView, now: int) -> ScheduleView {
    match v.phase {
        Phase::Holding => {
            if now - v.last_switch_time > v.interval_ms {
                ScheduleView {
                    phase: Phase::Transitioning,
                    transition_start_time: now,
                    ..v
                }
            } else {
                v
            }
        },
        Phase::Transitioning => {
            let elapsed = now - v.transition_start_time;
            if elapsed >= v.transition_ms {
                ScheduleView {
                    current_idx: v.next_idx,
                    next_idx: (v.next_idx + 1) % v.slide_count,
                    mix_numer: 0,
                    phase: Phase::Holding,
                    last_switch_time: now,
                    ..v
                }
            } else {
                ScheduleView { mix_numer: elapsed, ..v }
            }
        },
    }
}

/// A tick never loses well-formedness, and never records a timestamp
/// ahead of the clock value it was given.
pub proof fn lemma_tick_preserves_wf(v: ScheduleView, now: int)
    requires
        view_wf(v),
        now >= v.last_switch_time,
        now >= v.transition_start_time,
    ensures
        view_wf(spec_tick(v, now)),
        spec_tick(v, now).last_switch_time <= now,
        spec_tick(v, now).transition_start_time <= now,
        spec_tick(v, now).slide_count == v.slide_count,
        spec_tick(v, now).interval_ms == v.interval_ms,
        spec_tick(v, now).transition_ms == v.transition_ms,
{
    vstd::arithmetic::div_mod::lemma_mod_bound(v.current_idx + 1, v.slide_count);
    vstd::arithmetic::div_mod::lemma_mod_bound(v.next_idx + 1, v.slide_count);
}

/// Law: within one transitioning episode the blend weight is the time
/// elapsed since the episode began, so it never decreases from one tick
/// to a later one, and it never exceeds the episode's full duration.
pub proof fn lemma_mix_monotonic(v: ScheduleView, t1: int, t2: int)
    requires
        view_wf(v),
        v.phase is Transitioning,
        v.transition_start_time <= t1 <= t2,
        t2 < v.transition_start_time + v.transition_ms,
    ensures
        0 <= spec_tick(v, t1).mix_numer <= v.transition_ms,
        spec_tick(v, t1).mix_numer <= spec_tick(spec_tick(v, t1), t2).mix_numer,
        0 <= spec_tick(spec_tick(v, t1), t2).mix_numer <= v.transition_ms,
{
}

/// Law: once `transition_ms` has elapsed since the episode began, the
/// next tick finalizes the blend — the weight returns to zero, the
/// current index advances by exactly one step around the cycle, and the
/// next index is again the cyclic successor of the current one.
pub proof fn lemma_transition_finalizes(v: ScheduleView, now: int)
    requires
        view_wf(v),
        v.phase is Transitioning,
        now >= v.transition_start_time + v.transition_ms,
    ensures
        spec_tick(v, now).phase is Holding,
        spec_tick(v, now).mix_numer == 0,
        spec_tick(v, now).current_idx == (v.current_idx + 1) % v.slide_count,
        spec_tick(v, now).next_idx == (spec_tick(v, now).current_idx + 1) % v.slide_count,
        spec_tick(v, now).last_switch_time == now,
{
}

/// Law: a tick that does not finalize a transition leaves both indices
/// where they were — the current slide changes only at the moment a
/// blend completes, however many ticks fall in between.
pub proof fn lemma_index_moves_only_at_finalize(v: ScheduleView, now: int)
    requires
        !(v.phase is Transitioning && now - v.transition_start_time >= v.transition_ms),
    ensures
        spec_tick(v, now).current_idx == v.current_idx,
        spec_tick(v, now).next_idx == v.next_idx,
{
}

/// One full cycle as the clock sees it: a tick at `t_go` that leaves the
/// hold, followed by a tick at `t_end` that finalizes the blend.
pub open spec fn spec_cycle(v: ScheduleView, t_go: int, t_end: int) -> ScheduleView {
    spec_tick(spec_tick(v, t_go), t_end)
}

/// The pairs of timestamps in `times` each drive one full cycle from the
/// state reached so far: the first timestamp falls after the hold period
/// has run out, the second at or after the transition has run its course.
pub open spec fn cycle_times_valid(v: ScheduleView, times: Seq<(int, int)>) -> bool
    decreases times.len(),
{
    times.len() == 0 || {
        &&& times[0].0 > v.last_switch_time + v.interval_ms
        &&& times[0].1 >= times[0].0 + v.transition_ms
        &&& cycle_times_valid(spec_cycle(v, times[0].0, times[0].1), times.drop_first())
    }
}

/// The state after running one full cycle for each timestamp pair.
pub open spec fn spec_run_cycles(v: ScheduleView, times: Seq<(int, int)>) -> ScheduleView
    decreases times.len(),
{
    if times.len() == 0 {
        v
    } else {
        spec_run_cycles(spec_cycle(v, times[0].0, times[0].1), times.drop_first())
    }
}

/// Law: each full interval-plus-transition cycle advances the current
/// index by exactly one, so `k` cycles from a holding state move it `k`
/// steps around the cyclic slide sequence. From the initial state, where
/// the current index is zero, `k` cycles leave it at `k % slide_count`.
pub proof fn lemma_cycles_advance(v: ScheduleView, times: Seq<(int, int)>)
    requires
        view_wf(v),
        v.phase is Holding,
        cycle_times_valid(v, times),
    ensures
        view_wf(spec_run_cycles(v, times)),
        spec_run_cycles(v, times).phase is Holding,
        spec_run_cycles(v, times).current_idx == (v.current_idx + times.len()) % v.slide_count,
        spec_run_cycles(v, times).slide_count == v.slide_count,
    decreases times.len(),
{
    if times.len() == 0 {
        vstd::arithmetic::div_mod::lemma_small_mod(v.current_idx as nat, v.slide_count as nat);
    } else {
        let t_go = times[0].0;
        let t_end = times[0].1;
        let mid = spec_tick(v, t_go);
        assert(mid.phase is Transitioning && mid.transition_start_time == t_go);
        assert(view_wf(mid));
        lemma_tick_preserves_wf(mid, t_end);
        let v1 = spec_cycle(v, t_go, t_end);
        lemma_cycles_advance(v1, times.drop_first());
        assert(v1.current_idx == (v.current_idx + 1) % v.slide_count);
        assert(spec_run_cycles(v1, times.drop_first()).current_idx == ((v.current_idx + 1)
            % v.slide_count + (times.len() - 1)) % v.slide_count);
        assert(((v.current_idx + 1) % v.slide_count + (times.len() - 1)) % v.slide_count == (
        v.current_idx + times.len()) % v.slide_count) by {
            vstd::arithmetic::div_mod::lemma_add_mod_noop_right(
                times.len() - 1,
                v.current_idx + 1,
                v.slide_count,
            );
            assert((times.len() - 1) + (v.current_idx + 1) % v.slide_count == (v.current_idx + 1)
                % v.slide_count + (times.len() - 1));
        }
        assert(spec_run_cycles(v, times) == spec_run_cycles(v1, times.drop_first()));
    }
}

/// Law: with more than one slide the two active indices never coincide —
/// the cyclic successor of an index is a different index.
pub proof fn lemma_distinct_indices(v: ScheduleView)
    requires
        view_wf(v),
        v.slide_count > 1,
    ensures
        v.next_idx != v.current_idx,
{
    if v.current_idx + 1 < v.slide_count {
        vstd::arithmetic::div_mod::lemma_small_mod(
            (v.current_idx + 1) as nat,
            v.slide_count as nat,
        );
    } else {
        vstd::arithmetic::div_mod::lemma_mod_self_0(v.slide_count);
    }
}

/// Law: with a single slide the cyclic successor of the current index is
/// the current index itself, so the blend is always self-to-self and no
/// index ever leaves the sequence.
pub proof fn lemma_single_slide_self_blend(v: ScheduleView)
    requires
        view_wf(v),
        v.slide_count == 1,
    ensures
        v.current_idx == 0,
        v.next_idx == 0,
{
    vstd::arithmetic::div_mod::lemma_mod_self_0(1int);
}

/// The scheduler as the render loop holds it. `mix_numer` together with
/// `transition_ms` is the exact blend weight: zero while holding, the
/// milliseconds elapsed in the episode while transitioning.
pub struct AnimationScheduler {
    pub slide_count: usize,
    pub interval_ms: u64,
    pub transition_ms: u64,
    pub current_idx: usize,
    pub next_idx: usize,
    pub mix_numer: u64,
    pub phase: Phase,
    pub last_switch_time: u64,
    pub transition_start_time: u64,
}

impl View for AnimationScheduler {
    type V = ScheduleView;

    open spec fn view(&self) -> ScheduleView {
        ScheduleView {
            slide_count: self.slide_count as int,
            interval_ms: self.interval_ms as int,
            transition_ms: self.transition_ms as int,
            current_idx: self.current_idx as int,
            next_idx: self.next_idx as int,
            mix_numer: self.mix_numer as int,
            phase: self.phase,
            last_switch_time: self.last_switch_time as int,
            transition_start_time: self.transition_start_time as int,
        }
    }
}

impl AnimationScheduler {
    /// Mounts a scheduler over `slide_count` slides with the given timing,
    /// measuring the first hold period from `now`.
    pub fn new(slide_count: usize, interval_ms: u64, transition_ms: u64, now: u64) -> (s: Self)
        requires
            1 <= slide_count,
        ensures
            s@ == initial_view(slide_count as int, interval_ms as int, transition_ms as int, now as int),
            view_wf(s@),
    {
        let next_idx: usize = if slide_count == 1 {
            0
        } else {
            1
        };
        proof {
            if slide_count == 1 {
                vstd::arithmetic::div_mod::lemma_mod_self_0(1int);
            } else {
                vstd::arithmetic::div_mod::lemma_small_mod(1nat, slide_count as nat);
            }
        }
        AnimationScheduler {
            slide_count,
            interval_ms,
            transition_ms,
            current_idx: 0,
            next_idx,
            mix_numer: 0,
            phase: Phase::Holding,
            last_switch_time: now,
            transition_start_time: now,
        }
    }

    /// Advances the state machine by one tick at timestamp `now`. The
    /// clock is monotonic, so `now` is never behind the timestamps the
    /// scheduler has already recorded.
    pub fn tick(&mut self, now: u64)
        requires
            view_wf(old(self)@),
            now >= old(self)@.last_switch_time,
            now >= old(self)@.transition_start_time,
        ensures
            final(self)@ == spec_tick(old(self)@, now as int),
            view_wf(final(self)@),
            final(self)@.last_switch_time <= now,
            final(self)@.transition_start_time <= now,
    {
        match self.phase {
            Phase::Holding => {
                if now - self.last_switch_time > self.interval_ms {
                    self.phase = Phase::Transitioning;
                    self.transition_start_time = now;
                }
            },
            Phase::Transitioning => {
                let elapsed = now - self.transition_start_time;
                if elapsed >= self.transition_ms {
                    self.mix_numer = 0;
                    self.phase = Phase::Holding;
                    self.current_idx = self.next_idx;
                    proof {
                        vstd::arithmetic::div_mod::lemma_mod_bound(
                            old(self)@.current_idx + 1,
                            old(self)@.slide_count,
                        );
                    }
                    self.next_idx = (self.current_idx + 1) % self.slide_count;
                    self.last_switch_time = now;
                } else {
                    self.mix_numer = elapsed;
                }
            },
        }
    }
}

} // verus!
