//! Templates of multi-step input techniques, and the matcher that recognises
//! them in a stream of timestamped controller actions.
//!
//! Timestamps are microseconds on a monotonic clock. A frame is 1/60 s, so
//! an elapsed time of `e` microseconds is `e * 60 / 1_000_000` frames; every
//! comparison against a frame count is made exactly, in integers, on
//! `e * 60` ("ticks", a millionth of a frame each).

use vstd::prelude::*;
use crate::controller::{Button, Controller};
use crate::zones::{left_smash, right_smash, up_smash, Zone, ZoneTrait};
use crate::zones::{left_smash_spec, right_smash_spec, up_smash_spec};

verus! {

/// Ticks in one frame.
pub const TICKS_PER_FRAME: u64 = 1_000_000;

/// Ticks in one microsecond.
pub const TICKS_PER_MICROSECOND: u64 = 60;

/// Step index that marks "no reference step" (a template's first step).
pub const NO_REFERENCE: usize = usize::MAX;

/// Default distance, in frames, outside a step's window at which an attempt
/// is abandoned.
pub const DEFAULT_TIMEOUT_FRAMES: u32 = 5;

/// Default width, in frames, of the band just outside a step's window in
/// which the step counts as slightly early or slightly late.
pub const DEFAULT_SOFT_FRAMES: u32 = 1;

/// One discrete controller event.
#[derive(Debug, Clone, Copy)]
pub enum ControllerAction {
    Nothing,
    Press(Button),
    Release(Button),
    Enter(Zone),
    Leave(Zone),
    CEnter(Zone),
    CLeave(Zone),
    LEnter((u8, u8)),
    LLeave((u8, u8)),
    REnter((u8, u8)),
    RLeave((u8, u8)),
}

impl ControllerAction {
    /// Two actions are the same event: same kind, and the same button,
    /// trigger range, or zone (zones compared by name).
    pub open spec fn same(self, other: ControllerAction) -> bool {
        match (self, other) {
            (ControllerAction::Nothing, ControllerAction::Nothing) => true,
            (ControllerAction::Press(a), ControllerAction::Press(b)) => a == b,
            (ControllerAction::Release(a), ControllerAction::Release(b)) => a == b,
            (ControllerAction::Enter(a), ControllerAction::Enter(b)) => a.label() == b.label(),
            (ControllerAction::Leave(a), ControllerAction::Leave(b)) => a.label() == b.label(),
            (ControllerAction::CEnter(a), ControllerAction::CEnter(b)) => a.label() == b.label(),
            (ControllerAction::CLeave(a), ControllerAction::CLeave(b)) => a.label() == b.label(),
            (ControllerAction::LEnter(a), ControllerAction::LEnter(b)) => a == b,
            (ControllerAction::LLeave(a), ControllerAction::LLeave(b)) => a == b,
            (ControllerAction::REnter(a), ControllerAction::REnter(b)) => a == b,
            (ControllerAction::RLeave(a), ControllerAction::RLeave(b)) => a == b,
            _ => false,
        }
    }

    /// Whether `self` and `other` are the same event.
    pub fn same_as(&self, other: &ControllerAction) -> (r: bool)
        ensures
            r == self.same(*other),
    {
        match (self, other) {
            (ControllerAction::Nothing, ControllerAction::Nothing) => true,
            (ControllerAction::Press(a), ControllerAction::Press(b)) => *a == *b,
            (ControllerAction::Release(a), ControllerAction::Release(b)) => *a == *b,
            (ControllerAction::Enter(a), ControllerAction::Enter(b)) => same_zone(a, b),
            (ControllerAction::Leave(a), ControllerAction::Leave(b)) => same_zone(a, b),
            (ControllerAction::CEnter(a), ControllerAction::CEnter(b)) => same_zone(a, b),
            (ControllerAction::CLeave(a), ControllerAction::CLeave(b)) => same_zone(a, b),
            (ControllerAction::LEnter(a), ControllerAction::LEnter(b)) => a.0 == b.0 && a.1 == b.1,
            (ControllerAction::LLeave(a), ControllerAction::LLeave(b)) => a.0 == b.0 && a.1 == b.1,
            (ControllerAction::REnter(a), ControllerAction::REnter(b)) => a.0 == b.0 && a.1 == b.1,
            (ControllerAction::RLeave(a), ControllerAction::RLeave(b)) => a.0 == b.0 && a.1 == b.1,
            _ => false,
        }
    }
}

fn same_zone(a: &Zone, b: &Zone) -> (r: bool)
    ensures
        r == (a.label() == b.label()),
{
    a.get_name().to_owned() == b.get_name().to_owned()
}

impl PartialEq for ControllerAction {
    fn eq(&self, other: &ControllerAction) -> (r: bool) {
        self.same_as(other)
    }
}

impl vstd::std_specs::cmp::PartialEqSpecImpl for ControllerAction {
    open spec fn obeys_eq_spec() -> bool {
        true
    }

    open spec fn eq_spec(&self, other: &ControllerAction) -> bool {
        self.same(*other)
    }
}

/// A timing window, in frames, written either as one frame count or as a
/// range `min..max` (both ends inclusive).
pub trait FrameRange {
    /// The window's `(min, max)`.
    spec fn bounds(&self) -> (i32, i32);

    fn get_range(&self) -> (r: (i32, i32))
        ensures
            r == self.bounds(),
    ;
}

impl FrameRange for core::ops::Range<i32> {
    open spec fn bounds(&self) -> (i32, i32) {
        (self.start, self.end)
    }

    fn get_range(&self) -> (r: (i32, i32)) {
        (self.start, self.end)
    }
}

impl FrameRange for i32 {
    open spec fn bounds(&self) -> (i32, i32) {
        (*self, *self)
    }

    fn get_range(&self) -> (r: (i32, i32)) {
        (*self, *self)
    }
}

/// One step of a template: the actions that satisfy it, and its window
/// `[start, end]` in frames after the step with index `from`.
pub struct InputSequenceAction {
    pub actions: Vec<ControllerAction>,
    pub start: i32,
    pub end: i32,
    pub from: usize,
    pub is_fail: bool,
}

/// A named technique: an ordered list of steps.
pub struct InputSequence {
    pub name: &'static str,
    pub actions: Vec<InputSequenceAction>,
    /// Frames outside a step's window after which an attempt is abandoned.
    pub timeout_frames: u32,
    /// Frames just outside a step's window that count as slightly off.
    pub soft_frames: u32,
}

impl InputSequenceAction {
    /// Whether `a` satisfies this step.
    pub open spec fn accepts(&self, a: ControllerAction) -> bool {
        exists|i: int| 0 <= i < self.actions@.len() && (#[trigger] self.actions@[i]).same(a)
    }

    /// Whether `a` satisfies this step.
    pub fn accepts_action(&self, a: &ControllerAction) -> (r: bool)
        ensures
            r == self.accepts(*a),
    {
        let mut i: usize = 0;
        while i < self.actions.len()
            invariant
                i <= self.actions@.len(),
                forall|j: int| 0 <= j < i ==> !(#[trigger] self.actions@[j]).same(*a),
            decreases self.actions@.len() - i,
        {
            if self.actions[i].same_as(a) {
                return true;
            }
            i = i + 1;
        }
        false
    }
}

impl InputSequence {
    /// Every step but the first refers to an earlier step.
    pub open spec fn wf(&self) -> bool {
        forall|i: int| 1 <= i < self.actions@.len() ==> (#[trigger] self.actions@[i]).from < i
    }

    pub fn new(name: &'static str) -> (r: InputSequence)
        ensures
            r.name == name,
            r.actions@.len() == 0,
            r.timeout_frames == DEFAULT_TIMEOUT_FRAMES,
            r.soft_frames == DEFAULT_SOFT_FRAMES,
            r.wf(),
    {
        InputSequence {
            name,
            actions: Vec::new(),
            timeout_frames: DEFAULT_TIMEOUT_FRAMES,
            soft_frames: DEFAULT_SOFT_FRAMES,
        }
    }

    /// Appends a step timed from the step before it (the first step gets no
    /// reference step).
    pub fn add<R: FrameRange>(&mut self, action: Vec<ControllerAction>, frame_number: R)
        requires
            old(self).wf(),
        ensures
            final(self).wf(),
            final(self).name == old(self).name,
            final(self).timeout_frames == old(self).timeout_frames,
            final(self).soft_frames == old(self).soft_frames,
            final(self).actions@ == old(self).actions@.push(
                (InputSequenceAction {
                    actions: action,
                    start: frame_number.bounds().0,
                    end: frame_number.bounds().1,
                    from: if old(self).actions@.len() == 0 {
                        NO_REFERENCE
                    } else {
                        (old(self).actions@.len() - 1) as usize
                    },
                    is_fail: false,
                }),
            ),
    {
        let from = if self.actions.len() == 0 {
            NO_REFERENCE
        } else {
            self.actions.len() - 1
        };
        self.add_from(action, frame_number, from)
    }

    /// Appends a step timed from step `from`, which must come before it.
    pub fn add_from<R: FrameRange>(&mut self, action: Vec<ControllerAction>, frame_number: R, from: usize)
        requires
            old(self).wf(),
            old(self).actions@.len() == 0 || from < old(self).actions@.len(),
        ensures
            final(self).wf(),
            final(self).name == old(self).name,
            final(self).timeout_frames == old(self).timeout_frames,
            final(self).soft_frames == old(self).soft_frames,
            final(self).actions@ == old(self).actions@.push(
                (InputSequenceAction {
                    actions: action,
                    start: frame_number.bounds().0,
                    end: frame_number.bounds().1,
                    from,
                    is_fail: false,
                }),
            ),
    {
        let range = frame_number.get_range();
        self.actions.push(InputSequenceAction { actions: action, start: range.0, end: range.1, from, is_fail: false });
        assert(forall|i: int| 1 <= i < self.actions@.len() ==> (#[trigger] self.actions@[i]).from < i) by {
            assert forall|i: int| 1 <= i < self.actions@.len() implies (#[trigger] self.actions@[i]).from < i by {
                if i < self.actions@.len() - 1 {
                    assert(self.actions@[i] == old(self).actions@[i]);
                }
            }
        }
    }

    /// Sets how far outside a window an attempt is abandoned, and how far
    /// outside it a step counts as slightly early or late.
    pub fn set_tolerances(&mut self, timeout_frames: u32, soft_frames: u32)
        ensures
            final(self).name == old(self).name,
            final(self).actions@ == old(self).actions@,
            final(self).timeout_frames == timeout_frames,
            final(self).soft_frames == soft_frames,
    {
        self.timeout_frames = timeout_frames;
        self.soft_frames = soft_frames;
    }

    /// The template's name.
    pub fn name(&self) -> (r: &'static str)
        ensures
            r == self.name,
    {
        self.name
    }
}

/// Microseconds from `then` to `now`, or zero when `now` is the earlier.
pub open spec fn elapsed(now: u64, then: u64) -> int {
    if now >= then {
        now - then
    } else {
        0
    }
}

/// Whether `e` microseconds lie more than `tol` frames outside the window
/// `[start, end]` frames.
pub open spec fn beyond_window(e: int, start: int, end: int, tol: int) -> bool {
    e * TICKS_PER_MICROSECOND < (start - tol) * TICKS_PER_FRAME
        || e * TICKS_PER_MICROSECOND > (end + tol) * TICKS_PER_FRAME
}

/// The observable state of a matcher.
pub struct MatcherView {
    /// Index of the step expected next.
    pub state: int,
    /// The actions matched so far in the current attempt, with their times.
    pub history: Seq<(ControllerAction, u64)>,
    /// The last completed attempt.
    pub completed: Option<Seq<(ControllerAction, u64)>>,
}

/// `v` with the current attempt abandoned.
pub open spec fn restarted(v: MatcherView) -> MatcherView {
    MatcherView { state: 0, history: seq![], completed: v.completed }
}

/// The attempt of a matcher for `tpl` in state `v` after action `a` arrives
/// at time `now`, before a finished attempt is archived: abandoned first if
/// `a` came too long after the last matched action, then extended by `a`
/// if `a` satisfies the step expected next.
pub open spec fn attempt(tpl: InputSequence, v: MatcherView, a: ControllerAction, now: u64) -> MatcherView
    recommends
        0 <= v.state < tpl.actions@.len(),
{
    let steps = tpl.actions@;
    let timed_out = v.history.len() > 0 && beyond_window(
        elapsed(now, v.history.last().1),
        steps[v.state].start as int,
        steps[v.state].end as int,
        tpl.timeout_frames as int,
    );
    let base = if timed_out {
        restarted(v)
    } else {
        v
    };
    if steps[base.state].accepts(a) {
        MatcherView { state: base.state + 1, history: base.history.push((a, now)), completed: base.completed }
    } else {
        base
    }
}

/// What a matcher for `tpl` in state `v` becomes when action `a` arrives at
/// time `now`, and whether that completed the technique.
pub open spec fn advance(tpl: InputSequence, v: MatcherView, a: ControllerAction, now: u64) -> (MatcherView, bool) {
    if !(0 <= v.state < tpl.actions@.len()) {
        (v, false)
    } else {
        let moved = attempt(tpl, v, a, now);
        if moved.state == tpl.actions@.len() {
            (MatcherView { state: 0, history: seq![], completed: Some(moved.history) }, true)
        } else {
            (moved, false)
        }
    }
}

/// The state reached from `v` by feeding `events` in order.
pub open spec fn advance_all(tpl: InputSequence, v: MatcherView, events: Seq<(ControllerAction, u64)>) -> MatcherView
    decreases events.len(),
{
    if events.len() == 0 {
        v
    } else {
        advance_all(tpl, advance(tpl, v, events[0].0, events[0].1).0, events.drop_first())
    }
}

/// A matcher of one template against one stream of actions.
pub struct InputSequenceState<'a> {
    pub sequence: &'a InputSequence,
    pub state: usize,
    pub history: Vec<(ControllerAction, u64)>,
    pub completed: Option<Vec<(ControllerAction, u64)>>,
}

impl<'a> View for InputSequenceState<'a> {
    type V = MatcherView;

    open spec fn view(&self) -> MatcherView {
        MatcherView {
            state: self.state as int,
            history: self.history@,
            completed: match self.completed {
                Some(run) => Some(run@),
                None => None,
            },
        }
    }
}

/// Whether `v` is a reachable state of a matcher for `tpl`: the history
/// holds one entry per matched step, the matcher never rests at the end of
/// the template, and a completed run has one entry per step.
pub open spec fn matcher_wf(tpl: InputSequence, v: MatcherView) -> bool {
    &&& tpl.wf()
    &&& v.state == v.history.len()
    &&& v.state == 0 || v.state < tpl.actions@.len()
    &&& v.completed is Some ==> v.completed->0.len() == tpl.actions@.len()
}

impl<'a> InputSequenceState<'a> {
    pub open spec fn wf(&self) -> bool {
        matcher_wf(*self.sequence, self@)
    }

    pub fn new(sequence: &'a InputSequence) -> (r: Self)
        requires
            sequence.wf(),
        ensures
            r.sequence == sequence,
            r@ == (MatcherView { state: 0, history: seq![], completed: None }),
            r.wf(),
    {
        let r = Self { sequence, state: 0, history: Vec::new(), completed: None };
        assert(r@.history =~= seq![]);
        r
    }

    /// Feeds one action, received at time `now` (microseconds). Returns true
    /// when this action completed the technique; the completed run is then
    /// in `completed` and a new attempt begins.
    pub fn action(&mut self, action: ControllerAction, _controller: &Controller, now: u64) -> (r: bool)
        requires
            old(self).wf(),
        ensures
            final(self).wf(),
            final(self).sequence == old(self).sequence,
            (final(self)@, r) == advance(*old(self).sequence, old(self)@, action, now),
    {
        let n = self.sequence.actions.len();
        if self.state >= n {
            return false;
        }
        if self.history.len() > 0 {
            let last = self.history[self.history.len() - 1].1;
            let e: u64 = if now >= last { now - last } else { 0 };
            let step = &self.sequence.actions[self.state];
            if beyond_window_exec(e, step.start, step.end, self.sequence.timeout_frames) {
                self.reset();
            }
        }
        if self.sequence.actions[self.state].accepts_action(&action) {
            self.state = self.state + 1;
            self.history.push((action, now));
        }
        if self.state == n {
            let mut run: Vec<(ControllerAction, u64)> = Vec::new();
            std::mem::swap(&mut run, &mut self.history);
            self.completed = Some(run);
            self.reset();
            return true;
        }
        false
    }

    /// The last completed run, if any.
    pub fn completed_sequence(&self) -> (r: Option<&Vec<(ControllerAction, u64)>>)
        ensures
            r == match self.completed {
                Some(ref run) => Some(run),
                None => None::<&Vec<(ControllerAction, u64)>>,
            },
    {
        self.completed.as_ref()
    }

    /// Abandons the current attempt.
    pub fn reset(&mut self)
        ensures
            final(self).sequence == old(self).sequence,
            final(self)@ == restarted(old(self)@),
    {
        self.state = 0;
        self.history.clear();
    }
}

fn beyond_window_exec(e: u64, start: i32, end: i32, tol: u32) -> (r: bool)
    ensures
        r == beyond_window(e as int, start as int, end as int, tol as int),
{
    let ticks: i128 = e as i128 * TICKS_PER_MICROSECOND as i128;
    assert(-0x2_0000_0000 <= start - tol <= 0x2_0000_0000 && -0x2_0000_0000 <= end + tol <= 0x2_0000_0000);
    assert(-0x2_0000_0000 * 1_000_000 <= (start - tol) * 1_000_000 <= 0x2_0000_0000 * 1_000_000)
        by (nonlinear_arith)
        requires -0x2_0000_0000 <= start - tol <= 0x2_0000_0000;
    assert(-0x2_0000_0000 * 1_000_000 <= (end + tol) * 1_000_000 <= 0x2_0000_0000 * 1_000_000)
        by (nonlinear_arith)
        requires -0x2_0000_0000 <= end + tol <= 0x2_0000_0000;
    let low: i128 = (start as i128 - tol as i128) * TICKS_PER_FRAME as i128;
    let high: i128 = (end as i128 + tol as i128) * TICKS_PER_FRAME as i128;
    ticks < low || ticks > high
}

/// Matchers are deterministic: two matchers of one template that start in
/// the same state and are fed the same actions at the same times pass
/// through the same states and archive the same runs.
pub proof fn lemma_deterministic(
    tpl: InputSequence,
    v1: MatcherView,
    v2: MatcherView,
    events: Seq<(ControllerAction, u64)>,
)
    requires
        v1 == v2,
    ensures
        advance_all(tpl, v1, events) == advance_all(tpl, v2, events),
        forall|n: int|
            0 <= n <= events.len() ==> #[trigger] advance_all(tpl, v1, events.take(n))
                == advance_all(tpl, v2, events.take(n)),
{
}

/// A matcher reports completion exactly when its attempt reaches the
/// template's length. Right after, it expects the first step again with an
/// empty history, and the archived run has one entry per step. Otherwise
/// the history holds one entry per matched step and the archived run is
/// untouched. Either way the matcher stays well formed.
pub proof fn lemma_completion(tpl: InputSequence, v: MatcherView, a: ControllerAction, now: u64)
    requires
        matcher_wf(tpl, v),
    ensures
        ({
            let (w, done) = advance(tpl, v, a, now);
            &&& matcher_wf(tpl, w)
            &&& done <==> (tpl.actions@.len() > 0 && attempt(tpl, v, a, now).history.len()
                == tpl.actions@.len())
            &&& done ==> w.state == 0 && w.history.len() == 0 && w.completed == Some(
                attempt(tpl, v, a, now).history,
            ) && w.completed->0.len() == tpl.actions@.len()
            &&& !done ==> w.history.len() == w.state && w.completed == v.completed
        }),
{
}

/// A matcher stays well formed along any stream of actions.
pub proof fn lemma_wf_along(tpl: InputSequence, v: MatcherView, events: Seq<(ControllerAction, u64)>)
    requires
        matcher_wf(tpl, v),
    ensures
        matcher_wf(tpl, advance_all(tpl, v, events)),
    decreases events.len(),
{
    if events.len() > 0 {
        lemma_completion(tpl, v, events[0].0, events[0].1);
        lemma_wf_along(tpl, advance(tpl, v, events[0].0, events[0].1).0, events.drop_first());
    }
}

/// An action that arrives more than the timeout tolerance after the end of
/// the expected step's window abandons the attempt in progress: it is judged
/// exactly as by a matcher that had just started over, so with two or more
/// steps in the template it cannot complete the technique.
pub proof fn lemma_timeout_restarts(tpl: InputSequence, v: MatcherView, a: ControllerAction, now: u64)
    requires
        matcher_wf(tpl, v),
        v.history.len() > 0,
        elapsed(now, v.history.last().1) * TICKS_PER_MICROSECOND > (tpl.actions@[v.state].end
            + tpl.timeout_frames) * TICKS_PER_FRAME,
    ensures
        advance(tpl, v, a, now) == advance(tpl, restarted(v), a, now),
        tpl.actions@.len() >= 2 ==> !advance(tpl, v, a, now).1,
{
    assert(restarted(v).history =~= seq![]);
}

/// Whether `s` is the step satisfied by `actions` with window `[start, end]`
/// frames after step `from`.
pub open spec fn step_is(s: InputSequenceAction, actions: Seq<ControllerAction>, start: int, end: int, from: usize) -> bool {
    &&& s.actions@ == actions
    &&& s.start == start
    &&& s.end == end
    &&& s.from == from
    &&& !s.is_fail
}

/// The built-in techniques.
pub fn make_some_sequences() -> (r: Vec<InputSequence>)
    ensures
        r@.len() == 15,
        forall|i: int| 0 <= i < r@.len() ==> (#[trigger] r@[i]).wf(),
        forall|i: int|
            0 <= i < r@.len() ==> #[trigger] r@[i].timeout_frames == DEFAULT_TIMEOUT_FRAMES
                && r@[i].soft_frames == DEFAULT_SOFT_FRAMES,
            r@[0].name@ == "3f short hop"@,
            r@[0].actions@.len() == 2,
            step_is(r@[0].actions@[0], seq![ControllerAction::Press(Button::Y), ControllerAction::Press(Button::X)], 0, 0, NO_REFERENCE),
            step_is(r@[0].actions@[1], seq![ControllerAction::Release(Button::Y), ControllerAction::Release(Button::X)], 1, 2, 0),
            r@[1].name@ == "3f wavedash"@,
            r@[1].actions@.len() == 2,
            step_is(r@[1].actions@[0], seq![ControllerAction::Press(Button::Y)], 0, 0, NO_REFERENCE),
            step_is(r@[1].actions@[1], seq![ControllerAction::Press(Button::R)], 3, 3, 0),
            r@[2].name@ == "3f wavedash"@,
            r@[2].actions@.len() == 2,
            step_is(r@[2].actions@[0], seq![ControllerAction::Press(Button::Y)], 0, 0, NO_REFERENCE),
            step_is(r@[2].actions@[1], seq![ControllerAction::Press(Button::L)], 3, 3, 0),
            r@[3].name@ == "hax OS wavedash 3f"@,
            r@[3].actions@.len() == 3,
            step_is(r@[3].actions@[0], seq![ControllerAction::Press(Button::Y), ControllerAction::Press(Button::X)], 0, 0, NO_REFERENCE),
            step_is(r@[3].actions@[1], seq![ControllerAction::Press(Button::L), ControllerAction::Press(Button::R)], 2, 3, 0),
            step_is(r@[3].actions@[2], seq![ControllerAction::Press(Button::L), ControllerAction::Press(Button::R)], 0, 1, 1),
            r@[4].name@ == "hax OS wavedash 3f"@,
            r@[4].actions@.len() == 3,
            step_is(r@[4].actions@[0], seq![ControllerAction::Press(Button::Y)], 0, 0, NO_REFERENCE),
            step_is(r@[4].actions@[1], seq![ControllerAction::Press(Button::R)], 2, 3, 0),
            step_is(r@[4].actions@[2], seq![ControllerAction::Press(Button::L)], 0, 1, 0),
            r@[5].name@ == "jc shine"@,
            r@[5].actions@.len() == 2,
            step_is(r@[5].actions@[0], seq![ControllerAction::Press(Button::Y)], 0, 0, NO_REFERENCE),
            step_is(r@[5].actions@[1], seq![ControllerAction::Press(Button::B)], 3, 3, 0),
            r@[6].name@ == "jc grab"@,
            r@[6].actions@.len() == 2,
            step_is(r@[6].actions@[0], seq![ControllerAction::Press(Button::Y)], 0, 0, NO_REFERENCE),
            step_is(r@[6].actions@[1], seq![ControllerAction::Press(Button::Z)], 1, 2, 0),
            r@[7].name@ == "jc grab"@,
            r@[7].actions@.len() == 2,
            step_is(r@[7].actions@[0], seq![ControllerAction::Press(Button::X)], 0, 0, NO_REFERENCE),
            step_is(r@[7].actions@[1], seq![ControllerAction::Press(Button::Z)], 1, 2, 0),
            r@[8].name@ == "jc up_smash"@,
            r@[8].actions@.len() == 2,
            step_is(r@[8].actions@[0], seq![ControllerAction::Press(Button::Y)], 0, 0, NO_REFERENCE),
            step_is(r@[8].actions@[1], seq![ControllerAction::CEnter(Zone::SquareZone(up_smash_spec()))], 1, 2, 0),
            r@[9].name@ == "jc up_smash"@,
            r@[9].actions@.len() == 2,
            step_is(r@[9].actions@[0], seq![ControllerAction::Press(Button::X)], 0, 0, NO_REFERENCE),
            step_is(r@[9].actions@[1], seq![ControllerAction::CEnter(Zone::SquareZone(up_smash_spec()))], 1, 2, 0),
            r@[10].name@ == "press A+B on same frame"@,
            r@[10].actions@.len() == 2,
            step_is(r@[10].actions@[0], seq![ControllerAction::Press(Button::A)], 0, 0, NO_REFERENCE),
            step_is(r@[10].actions@[1], seq![ControllerAction::Press(Button::B)], 0, 0, 0),
            r@[11].name@ == "press A+B on same frame"@,
            r@[11].actions@.len() == 2,
            step_is(r@[11].actions@[0], seq![ControllerAction::Press(Button::B)], 0, 0, NO_REFERENCE),
            step_is(r@[11].actions@[1], seq![ControllerAction::Press(Button::A)], 0, 0, 0),
            r@[12].name@ == "pivot right"@,
            r@[12].actions@.len() == 3,
            step_is(r@[12].actions@[0], seq![ControllerAction::Leave(Zone::SquareZone(right_smash_spec()))], 0, 0, NO_REFERENCE),
            step_is(r@[12].actions@[1], seq![ControllerAction::Enter(Zone::SquareZone(left_smash_spec()))], 0, 5, 0),
            step_is(r@[12].actions@[2], seq![ControllerAction::Leave(Zone::SquareZone(left_smash_spec()))], 1, 1, 1),
            r@[13].name@ == "pivot left"@,
            r@[13].actions@.len() == 3,
            step_is(r@[13].actions@[0], seq![ControllerAction::Leave(Zone::SquareZone(left_smash_spec()))], 0, 0, NO_REFERENCE),
            step_is(r@[13].actions@[1], seq![ControllerAction::Enter(Zone::SquareZone(right_smash_spec()))], 0, 5, 0),
            step_is(r@[13].actions@[2], seq![ControllerAction::Leave(Zone::SquareZone(right_smash_spec()))], 1, 1, 1),
            r@[14].name@ == "adt"@,
            r@[14].actions@.len() == 2,
            step_is(r@[14].actions@[0], seq![ControllerAction::LEnter((43u8, 140u8)), ControllerAction::REnter((43u8, 140u8))], 0, 0, NO_REFERENCE),
            step_is(r@[14].actions@[1], seq![ControllerAction::Press(Button::L), ControllerAction::Press(Button::R)], 1, 1, 0),
{
    let mut ret: Vec<InputSequence> = Vec::new();
    let mut t0 = InputSequence::new("3f short hop");
    t0.add(vec![ControllerAction::Press(Button::Y), ControllerAction::Press(Button::X)], 0);
    assert(t0.actions@[0].actions@ =~= seq![ControllerAction::Press(Button::Y), ControllerAction::Press(Button::X)]);
    t0.add(vec![ControllerAction::Release(Button::Y), ControllerAction::Release(Button::X)], 1..2);
    assert(t0.actions@[1].actions@ =~= seq![ControllerAction::Release(Button::Y), ControllerAction::Release(Button::X)]);
    ret.push(t0);
    let mut t1 = InputSequence::new("3f wavedash");
    t1.add(vec![ControllerAction::Press(Button::Y)], 0);
    assert(t1.actions@[0].actions@ =~= seq![ControllerAction::Press(Button::Y)]);
    t1.add(vec![ControllerAction::Press(Button::R)], 3);
    assert(t1.actions@[1].actions@ =~= seq![ControllerAction::Press(Button::R)]);
    ret.push(t1);
    let mut t2 = InputSequence::new("3f wavedash");
    t2.add(vec![ControllerAction::Press(Button::Y)], 0);
    assert(t2.actions@[0].actions@ =~= seq![ControllerAction::Press(Button::Y)]);
    t2.add(vec![ControllerAction::Press(Button::L)], 3);
    assert(t2.actions@[1].actions@ =~= seq![ControllerAction::Press(Button::L)]);
    ret.push(t2);
    let mut t3 = InputSequence::new("hax OS wavedash 3f");
    t3.add(vec![ControllerAction::Press(Button::Y), ControllerAction::Press(Button::X)], 0);
    assert(t3.actions@[0].actions@ =~= seq![ControllerAction::Press(Button::Y), ControllerAction::Press(Button::X)]);
    t3.add(vec![ControllerAction::Press(Button::L), ControllerAction::Press(Button::R)], 2..3);
    assert(t3.actions@[1].actions@ =~= seq![ControllerAction::Press(Button::L), ControllerAction::Press(Button::R)]);
    t3.add_from(vec![ControllerAction::Press(Button::L), ControllerAction::Press(Button::R)], 0..1, 1);
    assert(t3.actions@[2].actions@ =~= seq![ControllerAction::Press(Button::L), ControllerAction::Press(Button::R)]);
    ret.push(t3);
    let mut t4 = InputSequence::new("hax OS wavedash 3f");
    t4.add(vec![ControllerAction::Press(Button::Y)], 0);
    assert(t4.actions@[0].actions@ =~= seq![ControllerAction::Press(Button::Y)]);
    t4.add(vec![ControllerAction::Press(Button::R)], 2..3);
    assert(t4.actions@[1].actions@ =~= seq![ControllerAction::Press(Button::R)]);
    t4.add_from(vec![ControllerAction::Press(Button::L)], 0..1, 0);
    assert(t4.actions@[2].actions@ =~= seq![ControllerAction::Press(Button::L)]);
    ret.push(t4);
    let mut t5 = InputSequence::new("jc shine");
    t5.add(vec![ControllerAction::Press(Button::Y)], 0);
    assert(t5.actions@[0].actions@ =~= seq![ControllerAction::Press(Button::Y)]);
    t5.add(vec![ControllerAction::Press(Button::B)], 3);
    assert(t5.actions@[1].actions@ =~= seq![ControllerAction::Press(Button::B)]);
    ret.push(t5);
    let mut t6 = InputSequence::new("jc grab");
    t6.add(vec![ControllerAction::Press(Button::Y)], 0);
    assert(t6.actions@[0].actions@ =~= seq![ControllerAction::Press(Button::Y)]);
    t6.add(vec![ControllerAction::Press(Button::Z)], 1..2);
    assert(t6.actions@[1].actions@ =~= seq![ControllerAction::Press(Button::Z)]);
    ret.push(t6);
    let mut t7 = InputSequence::new("jc grab");
    t7.add(vec![ControllerAction::Press(Button::X)], 0);
    assert(t7.actions@[0].actions@ =~= seq![ControllerAction::Press(Button::X)]);
    t7.add(vec![ControllerAction::Press(Button::Z)], 1..2);
    assert(t7.actions@[1].actions@ =~= seq![ControllerAction::Press(Button::Z)]);
    ret.push(t7);
    let mut t8 = InputSequence::new("jc up_smash");
    t8.add(vec![ControllerAction::Press(Button::Y)], 0);
    assert(t8.actions@[0].actions@ =~= seq![ControllerAction::Press(Button::Y)]);
    t8.add(vec![ControllerAction::CEnter(Zone::SquareZone(up_smash()))], 1..2);
    assert(t8.actions@[1].actions@ =~= seq![ControllerAction::CEnter(Zone::SquareZone(up_smash_spec()))]);
    ret.push(t8);
    let mut t9 = InputSequence::new("jc up_smash");
    t9.add(vec![ControllerAction::Press(Button::X)], 0);
    assert(t9.actions@[0].actions@ =~= seq![ControllerAction::Press(Button::X)]);
    t9.add(vec![ControllerAction::CEnter(Zone::SquareZone(up_smash()))], 1..2);
    assert(t9.actions@[1].actions@ =~= seq![ControllerAction::CEnter(Zone::SquareZone(up_smash_spec()))]);
    ret.push(t9);
    let mut t10 = InputSequence::new("press A+B on same frame");
    t10.add(vec![ControllerAction::Press(Button::A)], 0);
    assert(t10.actions@[0].actions@ =~= seq![ControllerAction::Press(Button::A)]);
    t10.add(vec![ControllerAction::Press(Button::B)], 0);
    assert(t10.actions@[1].actions@ =~= seq![ControllerAction::Press(Button::B)]);
    ret.push(t10);
    let mut t11 = InputSequence::new("press A+B on same frame");
    t11.add(vec![ControllerAction::Press(Button::B)], 0);
    assert(t11.actions@[0].actions@ =~= seq![ControllerAction::Press(Button::B)]);
    t11.add(vec![ControllerAction::Press(Button::A)], 0);
    assert(t11.actions@[1].actions@ =~= seq![ControllerAction::Press(Button::A)]);
    ret.push(t11);
    let mut t12 = InputSequence::new("pivot right");
    t12.add(vec![ControllerAction::Leave(Zone::SquareZone(right_smash()))], 0);
    assert(t12.actions@[0].actions@ =~= seq![ControllerAction::Leave(Zone::SquareZone(right_smash_spec()))]);
    t12.add(vec![ControllerAction::Enter(Zone::SquareZone(left_smash()))], 0..5);
    assert(t12.actions@[1].actions@ =~= seq![ControllerAction::Enter(Zone::SquareZone(left_smash_spec()))]);
    t12.add(vec![ControllerAction::Leave(Zone::SquareZone(left_smash()))], 1);
    assert(t12.actions@[2].actions@ =~= seq![ControllerAction::Leave(Zone::SquareZone(left_smash_spec()))]);
    ret.push(t12);
    let mut t13 = InputSequence::new("pivot left");
    t13.add(vec![ControllerAction::Leave(Zone::SquareZone(left_smash()))], 0);
    assert(t13.actions@[0].actions@ =~= seq![ControllerAction::Leave(Zone::SquareZone(left_smash_spec()))]);
    t13.add(vec![ControllerAction::Enter(Zone::SquareZone(right_smash()))], 0..5);
    assert(t13.actions@[1].actions@ =~= seq![ControllerAction::Enter(Zone::SquareZone(right_smash_spec()))]);
    t13.add(vec![ControllerAction::Leave(Zone::SquareZone(right_smash()))], 1);
    assert(t13.actions@[2].actions@ =~= seq![ControllerAction::Leave(Zone::SquareZone(right_smash_spec()))]);
    ret.push(t13);
    let mut t14 = InputSequence::new("adt");
    t14.add(vec![ControllerAction::LEnter((43, 140)), ControllerAction::REnter((43, 140))], 0);
    assert(t14.actions@[0].actions@ =~= seq![ControllerAction::LEnter((43u8, 140u8)), ControllerAction::REnter((43u8, 140u8))]);
    t14.add(vec![ControllerAction::Press(Button::L), ControllerAction::Press(Button::R)], 1);
    assert(t14.actions@[1].actions@ =~= seq![ControllerAction::Press(Button::L), ControllerAction::Press(Button::R)]);
    ret.push(t14);
    ret
}

} // verus!
