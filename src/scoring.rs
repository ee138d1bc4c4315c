//! Scoring of a completed run against its template: a verdict per step, and
//! the share of 60Hz clock phases under which the whole run is on time.

use vstd::prelude::*;
use crate::input_sequence::{
    elapsed, ControllerAction, InputSequence, InputSequenceState, TICKS_PER_FRAME,
    TICKS_PER_MICROSECOND,
};

verus! {

/// How a step's timing compares with its window.
#[derive(Clone, Copy, Debug, PartialEq, Eq, Structural)]
pub enum ActionSuccess {
    EarlyMiss,
    Early,
    Success,
    Late,
    LateMiss,
}

/// The verdict for a step that came `e` microseconds after its reference
/// step, against the window `[start, end]` frames with a band of `soft`
/// frames on each side.
pub open spec fn verdict(e: int, start: int, end: int, soft: int) -> ActionSuccess {
    let t = e * TICKS_PER_MICROSECOND;
    if t > (end + soft) * TICKS_PER_FRAME {
        ActionSuccess::LateMiss
    } else if t > end * TICKS_PER_FRAME {
        ActionSuccess::Late
    } else if t < (start - soft) * TICKS_PER_FRAME {
        ActionSuccess::EarlyMiss
    } else if t < start * TICKS_PER_FRAME {
        ActionSuccess::Early
    } else {
        ActionSuccess::Success
    }
}

/// The report line for step `i` of `run`: its action, the microseconds
/// since the action before it, and its verdict.
pub open spec fn classify_step(tpl: InputSequence, run: Seq<(ControllerAction, u64)>, i: int) -> (ControllerAction, u64, ActionSuccess) {
    if i == 0 {
        (run[0].0, 0u64, ActionSuccess::Success)
    } else {
        let step = tpl.actions@[i];
        (
            run[i].0,
            elapsed(run[i].1, run[i - 1].1) as u64,
            verdict(
                elapsed(run[i].1, run[step.from as int].1),
                step.start as int,
                step.end as int,
                tpl.soft_frames as int,
            ),
        )
    }
}

/// The report lines for every step of `run`.
pub open spec fn classify(tpl: InputSequence, run: Seq<(ControllerAction, u64)>) -> Seq<(ControllerAction, u64, ActionSuccess)> {
    Seq::new(run.len(), |i: int| classify_step(tpl, run, i))
}

/// The verdict for `e` microseconds against `[start, end]` and `soft`.
pub fn verdict_of(e: u64, start: i32, end: i32, soft: u32) -> (r: ActionSuccess)
    ensures
        r == verdict(e as int, start as int, end as int, soft as int),
{
    assert(0 <= e * 60 <= 0x1_0000_0000_0000_0000 * 60) by (nonlinear_arith)
        requires 0 <= e <= 0x1_0000_0000_0000_0000;
    assert(-0x2_0000_0000 * 1_000_000 <= (start - soft) * 1_000_000 <= 0x2_0000_0000 * 1_000_000)
        by (nonlinear_arith)
        requires -0x2_0000_0000 <= start - soft <= 0x2_0000_0000;
    assert(-0x2_0000_0000 * 1_000_000 <= (end + soft) * 1_000_000 <= 0x2_0000_0000 * 1_000_000)
        by (nonlinear_arith)
        requires -0x2_0000_0000 <= end + soft <= 0x2_0000_0000;
    assert(-0x2_0000_0000 * 1_000_000 <= start * 1_000_000 <= 0x2_0000_0000 * 1_000_000)
        by (nonlinear_arith)
        requires -0x2_0000_0000 <= start <= 0x2_0000_0000;
    assert(-0x2_0000_0000 * 1_000_000 <= end * 1_000_000 <= 0x2_0000_0000 * 1_000_000)
        by (nonlinear_arith)
        requires -0x2_0000_0000 <= end <= 0x2_0000_0000;
    let t: i128 = e as i128 * TICKS_PER_MICROSECOND as i128;
    let frame: i128 = TICKS_PER_FRAME as i128;
    if t > (end as i128 + soft as i128) * frame {
        ActionSuccess::LateMiss
    } else if t > end as i128 * frame {
        ActionSuccess::Late
    } else if t < (start as i128 - soft as i128) * frame {
        ActionSuccess::EarlyMiss
    } else if t < start as i128 * frame {
        ActionSuccess::Early
    } else {
        ActionSuccess::Success
    }
}

fn elapsed_exec(now: u64, then: u64) -> (r: u64)
    ensures
        r == elapsed(now, then),
{
    if now >= then {
        now - then
    } else {
        0
    }
}

impl<'a> InputSequenceState<'a> {
    /// The report lines of the last completed run: for each step its action,
    /// the microseconds since the previous action, and its verdict. `None`
    /// when there is no completed run of at least two actions.
    pub fn sequence_info(&self) -> (r: Option<Vec<(ControllerAction, u64, ActionSuccess)>>)
        requires
            self.wf(),
        ensures
            r is Some <==> (self@.completed is Some && self@.completed->0.len() >= 2),
            r is Some ==> r->0@ == classify(*self.sequence, self@.completed->0),
    {
        let seq = match self.completed_sequence() {
            Some(run) => run,
            None => return None,
        };
        if seq.len() < 2 {
            return None;
        }
        let ghost tpl = *self.sequence;
        let steps = &self.sequence.actions;
        let mut out: Vec<(ControllerAction, u64, ActionSuccess)> = Vec::new();
        out.push((seq[0].0, 0, ActionSuccess::Success));
        let mut i: usize = 1;
        while i < seq.len()
            invariant
                1 <= i <= seq@.len(),
                seq@.len() == steps@.len(),
                tpl == *self.sequence,
                steps == &tpl.actions,
                tpl.wf(),
                out@ == classify(tpl, seq@).take(i as int),
            decreases seq@.len() - i,
        {
            let step = &steps[i];
            let time = seq[i].1;
            let since_last = elapsed_exec(time, seq[i - 1].1);
            let since_ref = elapsed_exec(time, seq[step.from].1);
            let v = verdict_of(since_ref, step.start, step.end, self.sequence.soft_frames);
            out.push((seq[i].0, since_last, v));
            assert(out@ =~= classify(tpl, seq@).take(i + 1));
            i = i + 1;
        }
        assert(out@ =~= classify(tpl, seq@));
        Some(out)
    }
}

/// Ticks from the first action of `run` to its action `i`.
pub open spec fn ticks_of(run: Seq<(ControllerAction, u64)>, i: int) -> int {
    (run[i].1 - run[0].1) * TICKS_PER_MICROSECOND
}

/// The frame of a 60Hz clock in which the moment `p` ticks after a run's
/// start falls, when that clock's frame boundaries lie `k` ticks earlier
/// than the run's start would place them (`0 <= k < TICKS_PER_FRAME`).
pub open spec fn frame_at(p: int, k: int) -> int {
    (p + k) / (TICKS_PER_FRAME as int)
}

/// The frame of each action of `run` under phase `k`.
pub open spec fn frames_with_phase(run: Seq<(ControllerAction, u64)>, k: int) -> Seq<int> {
    Seq::new(run.len(), |i: int| frame_at(ticks_of(run, i), k))
}

/// Whether each step after the first lies, in whole frames, within its
/// window after its reference step.
pub open spec fn frames_fit(steps: Seq<crate::input_sequence::InputSequenceAction>, frames: Seq<int>) -> bool {
    forall|i: int|
        1 <= i < frames.len() ==> steps[i].start <= #[trigger] frames[i] - frames[steps[i].from as int]
            <= steps[i].end
}

/// Whether `run` is on time for a 60Hz clock of phase `k`.
pub open spec fn on_time_at(tpl: InputSequence, run: Seq<(ControllerAction, u64)>, k: int) -> bool {
    frames_fit(tpl.actions@, frames_with_phase(run, k))
}

/// How many of the phases `0..n` make `run` on time.
pub open spec fn phases_on_time(tpl: InputSequence, run: Seq<(ControllerAction, u64)>, n: int) -> nat
    decreases n,
{
    if n <= 0 {
        0
    } else {
        phases_on_time(tpl, run, n - 1) + if on_time_at(tpl, run, n - 1) {
            1nat
        } else {
            0nat
        }
    }
}

/// No action of `run` precedes its first.
pub open spec fn starts_first(run: Seq<(ControllerAction, u64)>) -> bool {
    forall|i: int| 0 <= i < run.len() ==> run[0].1 <= #[trigger] run[i].1
}

/// The phase at which the moment `p` ticks after a run's start moves into
/// the next frame.
pub open spec fn boundary_phase(p: int) -> int {
    (TICKS_PER_FRAME - p % (TICKS_PER_FRAME as int)) % (TICKS_PER_FRAME as int)
}

pub open spec fn sorted(s: Seq<u64>) -> bool {
    forall|a: int, b: int| 0 <= a <= b < s.len() ==> s[a] <= s[b]
}

/// Between two neighbouring phases the frame of a moment changes only where
/// the later phase is that moment's boundary phase.
proof fn lemma_frame_steady(p: int, k: int)
    requires
        p >= 0,
        0 < k < TICKS_PER_FRAME,
        k != boundary_phase(p),
    ensures
        frame_at(p, k) == frame_at(p, k - 1),
{
    let d = TICKS_PER_FRAME as int;
    let a = p / d;
    let c = p % d;
    vstd::arithmetic::div_mod::lemma_fundamental_div_mod(p, d);
    assert(0 <= c < d);
    if c + k < d {
        vstd::arithmetic::div_mod::lemma_fundamental_div_mod_converse(p + k, d, a, c + k);
        vstd::arithmetic::div_mod::lemma_fundamental_div_mod_converse(p + k - 1, d, a, c + k - 1);
    } else {
        if c + k == d {
            assert(c > 0);
            vstd::arithmetic::div_mod::lemma_small_mod((d - c) as nat, d as nat);
            assert(boundary_phase(p) == k);
        }
        assert(c + k > d);
        vstd::arithmetic::div_mod::lemma_fundamental_div_mod_converse(p + k, d, a + 1, c + k - d);
        vstd::arithmetic::div_mod::lemma_fundamental_div_mod_converse(p + k - 1, d, a + 1, c + k - d - 1);
    }
}

/// Whether `run` is on time stays fixed from phase `lo` up to (not
/// including) `hi` when no boundary phase of its actions lies in between.
proof fn lemma_on_time_steady(tpl: InputSequence, run: Seq<(ControllerAction, u64)>, lo: int, hi: int)
    requires
        0 <= lo < hi <= TICKS_PER_FRAME,
        starts_first(run),
        forall|i: int|
            0 <= i < run.len() ==> !(lo < #[trigger] boundary_phase(ticks_of(run, i)) < hi),
    ensures
        forall|k: int| lo <= k < hi ==> #[trigger] on_time_at(tpl, run, k) == on_time_at(tpl, run, lo),
    decreases hi - lo,
{
    if hi - lo > 1 {
        lemma_on_time_steady(tpl, run, lo, hi - 1);
        let k = hi - 1;
        assert forall|i: int| 0 <= i < run.len() implies frames_with_phase(run, k)[i]
            == frames_with_phase(run, k - 1)[i] by {
            assert(run[0].1 <= run[i].1);
            assert(ticks_of(run, i) >= 0) by (nonlinear_arith)
                requires ticks_of(run, i) == (run[i].1 - run[0].1) * 60, run[0].1 <= run[i].1;
            lemma_frame_steady(ticks_of(run, i), k);
        }
        assert(frames_with_phase(run, k) =~= frames_with_phase(run, k - 1));
        assert(on_time_at(tpl, run, k) == on_time_at(tpl, run, k - 1));
    }
}

/// Over a stretch of phases on which being on time does not change, the
/// count grows by the stretch's length or not at all.
proof fn lemma_count_steady(tpl: InputSequence, run: Seq<(ControllerAction, u64)>, lo: int, hi: int)
    requires
        0 <= lo <= hi,
        forall|k: int| lo <= k < hi ==> #[trigger] on_time_at(tpl, run, k) == on_time_at(tpl, run, lo),
    ensures
        phases_on_time(tpl, run, hi) == phases_on_time(tpl, run, lo) + if on_time_at(tpl, run, lo) {
            hi - lo
        } else {
            0
        },
    decreases hi - lo,
{
    if hi > lo {
        lemma_count_steady(tpl, run, lo, hi - 1);
        assert(on_time_at(tpl, run, hi - 1) == on_time_at(tpl, run, lo));
    }
}

/// The count of on-time phases among `0..n` is at most `n`.
proof fn lemma_count_bounded(tpl: InputSequence, run: Seq<(ControllerAction, u64)>, n: int)
    requires
        n >= 0,
    ensures
        phases_on_time(tpl, run, n) <= n,
    decreases n,
{
    if n > 0 {
        lemma_count_bounded(tpl, run, n - 1);
    }
}

/// When every phase among `0..n` is on time, all `n` are counted.
proof fn lemma_count_full(tpl: InputSequence, run: Seq<(ControllerAction, u64)>, n: int)
    requires
        n >= 0,
        forall|k: int| 0 <= k < n ==> #[trigger] on_time_at(tpl, run, k),
    ensures
        phases_on_time(tpl, run, n) == n,
    decreases n,
{
    if n > 0 {
        lemma_count_full(tpl, run, n - 1);
    }
}

/// The largest tick count of an action after its run's start.
pub const MAX_TICKS: u128 = 0xffff_ffff_ffff_ffff * 60;

/// A sorted copy of `v`.
fn sorted_copy(v: &Vec<u64>) -> (r: Vec<u64>)
    ensures
        r@.len() == v@.len(),
        sorted(r@),
        forall|i: int| 0 <= i < v@.len() ==> r@.contains(#[trigger] v@[i]),
        forall|m: int| 0 <= m < r@.len() ==> v@.contains(#[trigger] r@[m]),
{
    let mut out: Vec<u64> = Vec::new();
    let mut i: usize = 0;
    while i < v.len()
        invariant
            i <= v@.len(),
            out@.len() == i,
            sorted(out@),
            forall|j: int| 0 <= j < i ==> out@.contains(#[trigger] v@[j]),
            forall|m: int| 0 <= m < out@.len() ==> v@.contains(#[trigger] out@[m]),
        decreases v@.len() - i,
    {
        let x = v[i];
        let mut pos: usize = 0;
        while pos < out.len() && out[pos] <= x
            invariant
                pos <= out@.len(),
                forall|m: int| 0 <= m < pos ==> #[trigger] out@[m] <= x,
            decreases out@.len() - pos,
        {
            pos = pos + 1;
        }
        let ghost before = out@;
        out.insert(pos, x);
        assert(out@ == before.insert(pos as int, x));
        assert forall|a: int, b: int| 0 <= a <= b < out@.len() implies out@[a] <= out@[b] by {
            if a < pos && b > pos {
                assert(out@[b] == before[b - 1]);
                assert(before[a] <= before[b - 1]);
            } else if a > pos {
                assert(before[a - 1] <= before[b - 1]);
            } else if a == pos && b > pos {
                assert(out@[b] == before[b - 1]);
                assert(before[pos as int] > x);
                assert(before[pos as int] <= before[b - 1]);
            }
        }
        assert forall|j: int| 0 <= j < i + 1 implies out@.contains(#[trigger] v@[j]) by {
            if j < i {
                let m = choose|m: int| 0 <= m < before.len() && before[m] == v@[j];
                if m < pos {
                    assert(out@[m] == v@[j]);
                } else {
                    assert(out@[m + 1] == v@[j]);
                }
            } else {
                assert(out@[pos as int] == v@[j]);
            }
        }
        assert forall|m: int| 0 <= m < out@.len() implies v@.contains(#[trigger] out@[m]) by {
            if m < pos {
                assert(out@[m] == before[m]);
            } else if m > pos {
                assert(out@[m] == before[m - 1]);
            } else {
                assert(v@[i as int] == x);
            }
        }
        i = i + 1;
    }
    out
}

/// The frame of each action under phase `k`, from the actions' tick counts.
fn frames_for_phase(ticks: &Vec<u128>, k: u64) -> (r: Vec<i64>)
    requires
        k < TICKS_PER_FRAME,
        forall|i: int| 0 <= i < ticks@.len() ==> #[trigger] ticks@[i] <= MAX_TICKS,
    ensures
        r@.len() == ticks@.len(),
        forall|i: int| 0 <= i < ticks@.len() ==> #[trigger] r@[i] == frame_at(ticks@[i] as int, k as int),
{
    let mut out: Vec<i64> = Vec::new();
    let mut i: usize = 0;
    while i < ticks.len()
        invariant
            k < TICKS_PER_FRAME,
            forall|j: int| 0 <= j < ticks@.len() ==> #[trigger] ticks@[j] <= MAX_TICKS,
            i <= ticks@.len(),
            out@.len() == i,
            forall|j: int| 0 <= j < i ==> #[trigger] out@[j] == frame_at(ticks@[j] as int, k as int),
        decreases ticks@.len() - i,
    {
        let p = ticks[i];
        let f: u128 = (p + k as u128) / TICKS_PER_FRAME as u128;
        proof {
            vstd::arithmetic::div_mod::lemma_multiply_divide_lt(
                (p + k) as int,
                TICKS_PER_FRAME as int,
                0x8000_0000_0000_0000,
            );
        }
        out.push(f as i64);
        i = i + 1;
    }
    out
}

impl<'a> InputSequenceState<'a> {
    /// Whether the frame numbers `frame_numbers` (one per step, in order)
    /// put every step after the first within its window after its
    /// reference step.
    pub fn is_successful(&self, frame_numbers: &Vec<i64>) -> (r: bool)
        requires
            self.sequence.wf(),
            frame_numbers@.len() <= self.sequence.actions@.len(),
        ensures
            r == frames_fit(self.sequence.actions@, frame_numbers@.map_values(|f: i64| f as int)),
    {
        let steps = &self.sequence.actions;
        let ghost frames = frame_numbers@.map_values(|f: i64| f as int);
        let mut i: usize = 1;
        while i < frame_numbers.len()
            invariant
                self.sequence.wf(),
                steps == &self.sequence.actions,
                frame_numbers@.len() <= steps@.len(),
                frames == frame_numbers@.map_values(|f: i64| f as int),
                1 <= i,
                i <= frame_numbers@.len() || frame_numbers@.len() == 0,
                forall|j: int|
                    1 <= j < i && j < frames.len() ==> steps@[j].start <= #[trigger] frames[j]
                        - frames[steps@[j].from as int] <= steps@[j].end,
            decreases frame_numbers@.len() - i,
        {
            let step = &steps[i];
            assert(step.from < i);
            let diff: i128 = frame_numbers[i] as i128 - frame_numbers[step.from] as i128;
            if diff < step.start as i128 || diff > step.end as i128 {
                assert(!(steps@[i as int].start <= frames[i as int] - frames[steps@[i as int].from as int]
                    <= steps@[i as int].end));
                return false;
            }
            i = i + 1;
        }
        true
    }

    /// How many of the `TICKS_PER_FRAME` equally likely phases of a 60Hz
    /// clock make the last completed run on time; the chance of success is
    /// this count divided by `TICKS_PER_FRAME`. `None` when there is no
    /// completed run of at least two actions, or an action of it is dated
    /// before its first.
    pub fn success_rate(&self) -> (r: Option<u32>)
        requires
            self.wf(),
        ensures
            r is Some <==> ({
                &&& self@.completed is Some
                &&& self@.completed->0.len() >= 2
                &&& starts_first(self@.completed->0)
            }),
            r is Some ==> r->0 == phases_on_time(*self.sequence, self@.completed->0, TICKS_PER_FRAME as int),
    {
        let run = match self.completed_sequence() {
            Some(run) => run,
            None => return None,
        };
        let n = run.len();
        if n < 2 {
            return None;
        }
        let ghost tpl = *self.sequence;
        let ghost rs = run@;
        let start = run[0].1;
        let frame: u128 = TICKS_PER_FRAME as u128;
        let mut ticks: Vec<u128> = Vec::new();
        let mut phases: Vec<u64> = Vec::new();
        let mut i: usize = 0;
        while i < n
            invariant
                n == rs.len(),
                rs == run@,
                self@.completed == Some(rs),
                start == rs[0].1,
                frame == TICKS_PER_FRAME,
                i <= n,
                ticks@.len() == i,
                phases@.len() == i,
                forall|j: int| 0 <= j < i ==> rs[0].1 <= #[trigger] rs[j].1,
                forall|j: int| 0 <= j < i ==> #[trigger] ticks@[j] == ticks_of(rs, j),
                forall|j: int| 0 <= j < i ==> #[trigger] ticks@[j] <= MAX_TICKS,
                forall|j: int| 0 <= j < i ==> #[trigger] phases@[j] == boundary_phase(ticks_of(rs, j)),
            decreases n - i,
        {
            let t = run[i].1;
            if t < start {
                assert(rs[i as int].1 < rs[0].1);
                assert(!starts_first(rs));
                return None;
            }
            assert((t - start) * 60 <= MAX_TICKS) by (nonlinear_arith)
                requires 0 <= t - start <= 0xffff_ffff_ffff_ffff;
            let p: u128 = (t - start) as u128 * TICKS_PER_MICROSECOND as u128;
            ticks.push(p);
            phases.push(((frame - p % frame) % frame) as u64);
            i = i + 1;
        }
        assert(starts_first(rs));
        let sorted_phases = sorted_copy(&phases);
        proof {
            assert(phases@[0] == 0) by {
                assert(ticks_of(rs, 0) == 0);
            }
            assert(rs.len() > 0);
            assert(phases@.contains(phases@[0]));
            let m = choose|m: int| 0 <= m < sorted_phases@.len() && sorted_phases@[m] == phases@[0];
            assert(sorted_phases@[0] <= sorted_phases@[m]);
        }
        let mut failed: u64 = 0;
        let mut j: usize = 0;
        while j < n
            invariant
                n == rs.len(),
                rs == run@,
                tpl == *self.sequence,
                self.wf(),
                self@.completed == Some(rs),
                2 <= n,
                j <= n,
                starts_first(rs),
                sorted_phases@.len() == n,
                sorted(sorted_phases@),
                sorted_phases@[0] == 0,
                forall|m: int| 0 <= m < n ==> #[trigger] sorted_phases@[m] < TICKS_PER_FRAME,
                forall|a: int| 0 <= a < n ==> sorted_phases@.contains(#[trigger] phases@[a]),
                ticks@.len() == n,
                phases@.len() == n,
                forall|a: int| 0 <= a < n ==> #[trigger] ticks@[a] == ticks_of(rs, a),
                forall|a: int| 0 <= a < n ==> #[trigger] ticks@[a] <= MAX_TICKS,
                forall|a: int| 0 <= a < n ==> #[trigger] phases@[a] == boundary_phase(ticks_of(rs, a)),
                ({
                    let pos = if j < n { sorted_phases@[j as int] as int } else { TICKS_PER_FRAME as int };
                    failed == pos - phases_on_time(tpl, rs, pos)
                }),
            decreases n - j,
        {
            let lo = sorted_phases[j];
            let hi: u64 = if j + 1 < n { sorted_phases[j + 1] } else { TICKS_PER_FRAME };
            proof {
                assert(lo <= hi);
                assert forall|a: int| 0 <= a < n implies !(lo < #[trigger] boundary_phase(ticks_of(rs, a)) < hi) by {
                    let b = boundary_phase(ticks_of(rs, a));
                    assert(sorted_phases@.contains(phases@[a]));
                    let m = choose|m: int| 0 <= m < n && sorted_phases@[m] == phases@[a];
                    if m <= j {
                        assert(sorted_phases@[m] <= sorted_phases@[j as int]);
                    } else {
                        assert(sorted_phases@[j + 1] <= sorted_phases@[m]);
                    }
                }
                if lo < hi {
                    lemma_on_time_steady(tpl, rs, lo as int, hi as int);
                }
                lemma_count_steady(tpl, rs, lo as int, hi as int);
                lemma_count_bounded(tpl, rs, hi as int);
            }
            if lo < hi {
                let frames = frames_for_phase(&ticks, lo);
                proof {
                    assert(frames@.map_values(|f: i64| f as int) =~= frames_with_phase(rs, lo as int));
                }
                if !self.is_successful(&frames) {
                    failed = failed + (hi - lo);
                }
            }
            j = j + 1;
        }
        Some((TICKS_PER_FRAME - failed) as u32)
    }
}

/// The count of on-time phases never exceeds the number of phases, so the
/// chance of success lies in `[0, 1]`; and it is exactly one when the run is
/// on time under every phase.
pub proof fn lemma_success_rate_bounds(tpl: InputSequence, run: Seq<(ControllerAction, u64)>)
    ensures
        phases_on_time(tpl, run, TICKS_PER_FRAME as int) <= TICKS_PER_FRAME,
        (forall|k: int| 0 <= k < TICKS_PER_FRAME ==> #[trigger] on_time_at(tpl, run, k))
            ==> phases_on_time(tpl, run, TICKS_PER_FRAME as int) == TICKS_PER_FRAME,
{
    lemma_count_bounded(tpl, run, TICKS_PER_FRAME as int);
    if forall|k: int| 0 <= k < TICKS_PER_FRAME ==> #[trigger] on_time_at(tpl, run, k) {
        lemma_count_full(tpl, run, TICKS_PER_FRAME as int);
    }
}

/// A step that lands exactly on either end of its window is a success.
pub proof fn lemma_window_ends_succeed(e: int, start: int, end: int, soft: int)
    requires
        start <= end,
        soft >= 0,
        e * TICKS_PER_MICROSECOND == start * TICKS_PER_FRAME || e * TICKS_PER_MICROSECOND == end
            * TICKS_PER_FRAME,
    ensures
        verdict(e, start, end, soft) == ActionSuccess::Success,
{
}

} // verus!
