//! The work/break timer as a state machine.
//!
//! The driving loop (sleeping, reading the shared settings and pause flags,
//! asking the system which application has the focus, capturing the screen,
//! sending events) lives with the caller. Every half second it measures the time
//! since the previous round, calls [`BreakTimer::tick`], and, when that asks for
//! it, checks whether a whitelisted application has the focus and hands the
//! answer to [`BreakTimer::resolve_focus`].
use vstd::prelude::*;

verus! {

/// Nanoseconds in a second.
pub const NANOS_PER_SEC: u64 = 1_000_000_000;
/// Once no more than this many whole seconds of work remain, the background of
/// the break overlay is captured ahead of time.
pub const PRE_CAPTURE_SECS: u64 = 5;
/// How long a break is postponed while a whitelisted application has the focus.
pub const POSTPONE_SECS: u64 = 60;
/// How long a break waits when the session got locked just as it was due.
pub const SESSION_RETRY_SECS: u64 = 5;

/// `secs` seconds, in nanoseconds.
pub open spec fn secs_to_nanos(secs: u64) -> u64
    recommends
        secs <= u32::MAX,
{
    (secs * NANOS_PER_SEC) as u64
}

/// What the timer is waiting to learn from the caller.
#[derive(PartialEq, Eq, Structural, Clone, Copy, Debug)]
pub enum PendingCheck {
    /// Nothing.
    Nothing,
    /// The work period is about to end: is a whitelisted application in focus?
    BeforeCapture,
    /// The work period has ended: is a whitelisted application in focus?
    BeforeBreak,
}

/// What the caller is to do after a step of the timer.
#[derive(PartialEq, Eq, Structural, Clone, Copy, Debug)]
pub enum TimerAction {
    /// Nothing; sleep until the next round.
    Idle,
    /// Find out whether a whitelisted application has the focus and hand the
    /// answer to [`BreakTimer::resolve_focus`].
    CheckFocus,
    /// Capture and blur the screen in the background for the coming break.
    CaptureBackground,
    /// The break was put off because a whitelisted application has the focus.
    Postponed,
    /// The break was put off for a few seconds because the session is locked.
    Deferred,
    /// Start the break: show the overlay.
    ShowOverlay,
    /// End the break: hide the overlay.
    HideOverlay,
}

/// The state of the work/break cycle.
#[derive(Debug)]
pub struct BreakTimer {
    /// Time left in the current work period or break, in nanoseconds.
    pub remaining_ns: u64,
    /// Whether a break is under way.
    pub is_breaking: bool,
    /// Whether the background capture for the coming break was already started.
    pub pre_capture_triggered: bool,
    /// The work period last seen in the settings, in seconds.
    pub work_secs: u32,
    /// The break length last seen in the settings, in seconds.
    pub break_secs: u32,
    /// The question the caller still has to answer.
    pub pending: PendingCheck,
}

/// A plain copy of a timer's state.
pub struct TimerView {
    pub remaining_ns: u64,
    pub is_breaking: bool,
    pub pre_capture_triggered: bool,
    pub work_secs: u32,
    pub break_secs: u32,
    pub pending: PendingCheck,
}

impl View for BreakTimer {
    type V = TimerView;

    open spec fn view(&self) -> TimerView {
        TimerView {
            remaining_ns: self.remaining_ns,
            is_breaking: self.is_breaking,
            pre_capture_triggered: self.pre_capture_triggered,
            work_secs: self.work_secs,
            break_secs: self.break_secs,
            pending: self.pending,
        }
    }
}

/// A timer at the start of a work period of `work_secs` seconds.
pub open spec fn timer_start(work_secs: u32, break_secs: u32) -> TimerView {
    TimerView {
        remaining_ns: secs_to_nanos(work_secs as u64),
        is_breaking: false,
        pre_capture_triggered: false,
        work_secs,
        break_secs,
        pending: PendingCheck::Nothing,
    }
}

/// The timer after noticing the settings it reads now: a change of either
/// period is recorded, and, outside a break, restarts the work period at the
/// new length.
pub open spec fn with_settings(t: TimerView, work_secs: u32, break_secs: u32) -> TimerView {
    if work_secs != t.work_secs || break_secs != t.break_secs {
        if !t.is_breaking {
            TimerView {
                remaining_ns: secs_to_nanos(work_secs as u64),
                pre_capture_triggered: false,
                work_secs,
                break_secs,
                ..t
            }
        } else {
            TimerView { work_secs, break_secs, ..t }
        }
    } else {
        t
    }
}

/// Whether reading these settings restarts the work period (which also restarts
/// the measurement of elapsed time).
pub open spec fn restarts_work(t: TimerView, work_secs: u32, break_secs: u32) -> bool {
    (work_secs != t.work_secs || break_secs != t.break_secs) && !t.is_breaking
}

/// One round of the timer: the settings now in force, whether the timer is
/// paused (by the user or by a locked session), and the time since the previous
/// round.
pub open spec fn tick_spec(
    t: TimerView,
    work_secs: u32,
    break_secs: u32,
    paused: bool,
    elapsed_ns: u64,
) -> (TimerView, TimerAction) {
    let t1 = TimerView { pending: PendingCheck::Nothing, ..with_settings(t, work_secs, break_secs) };
    let elapsed = if restarts_work(t, work_secs, break_secs) { 0 } else { elapsed_ns };
    if paused {
        (t1, TimerAction::Idle)
    } else if t1.remaining_ns > elapsed {
        let rem = (t1.remaining_ns - elapsed) as u64;
        if !t1.is_breaking && rem / NANOS_PER_SEC <= PRE_CAPTURE_SECS && !t1.pre_capture_triggered {
            (
                TimerView {
                    remaining_ns: rem,
                    pre_capture_triggered: true,
                    pending: PendingCheck::BeforeCapture,
                    ..t1
                },
                TimerAction::CheckFocus,
            )
        } else {
            (TimerView { remaining_ns: rem, ..t1 }, TimerAction::Idle)
        }
    } else if !t1.is_breaking {
        (TimerView { pending: PendingCheck::BeforeBreak, ..t1 }, TimerAction::CheckFocus)
    } else {
        (
            TimerView {
                is_breaking: false,
                pre_capture_triggered: false,
                remaining_ns: secs_to_nanos(work_secs as u64),
                ..t1
            },
            TimerAction::HideOverlay,
        )
    }
}

/// The timer after the caller answered its question: whether a whitelisted
/// application has the focus, whether the session is locked now, and the break
/// length now in the settings.
pub open spec fn resolve_spec(
    t: TimerView,
    whitelisted: bool,
    session_paused: bool,
    break_secs: u32,
) -> (TimerView, TimerAction) {
    let t1 = TimerView { pending: PendingCheck::Nothing, ..t };
    match t.pending {
        PendingCheck::Nothing => (t, TimerAction::Idle),
        PendingCheck::BeforeCapture => {
            if whitelisted {
                (
                    TimerView {
                        remaining_ns: secs_to_nanos(POSTPONE_SECS),
                        pre_capture_triggered: false,
                        ..t1
                    },
                    TimerAction::Postponed,
                )
            } else {
                (t1, TimerAction::CaptureBackground)
            }
        },
        PendingCheck::BeforeBreak => {
            if whitelisted {
                (
                    TimerView {
                        remaining_ns: secs_to_nanos(POSTPONE_SECS),
                        pre_capture_triggered: false,
                        ..t1
                    },
                    TimerAction::Postponed,
                )
            } else if session_paused {
                (TimerView { remaining_ns: secs_to_nanos(SESSION_RETRY_SECS), ..t1 }, TimerAction::Deferred)
            } else {
                (
                    TimerView {
                        is_breaking: true,
                        remaining_ns: secs_to_nanos(break_secs as u64),
                        ..t1
                    },
                    TimerAction::ShowOverlay,
                )
            }
        },
    }
}

/// `secs` seconds in nanoseconds.
fn nanos(secs: u32) -> (r: u64)
    ensures
        r == secs_to_nanos(secs as u64),
{
    assert(secs as u64 * NANOS_PER_SEC <= u64::MAX) by (nonlinear_arith)
        requires
            secs <= u32::MAX,
    ;
    secs as u64 * NANOS_PER_SEC
}

impl BreakTimer {
    /// A timer at the start of a work period, with the periods of the settings.
    pub fn new(work_secs: u32, break_secs: u32) -> (r: BreakTimer)
        ensures
            r@ == timer_start(work_secs, break_secs),
    {
        BreakTimer {
            remaining_ns: nanos(work_secs),
            is_breaking: false,
            pre_capture_triggered: false,
            work_secs,
            break_secs,
            pending: PendingCheck::Nothing,
        }
    }

    /// One round of the timer. `work_secs` and `break_secs` are the periods now in
    /// the settings, `paused` whether the user paused the timer or the session is
    /// locked, `elapsed_ns` the time since the previous round.
    ///
    /// A change of the periods is noticed first; outside a break it restarts the
    /// work period at its new length (the round then counts no elapsed time).
    /// While paused nothing counts down. Otherwise the time left drops by the
    /// elapsed time; when it falls to five whole seconds or less in a work period
    /// the caller is asked to check the focus before capturing the background;
    /// when a work period runs out the caller is asked to check the focus before
    /// the break; when a break runs out the overlay is hidden and a new work
    /// period starts.
    pub fn tick(&mut self, work_secs: u32, break_secs: u32, paused: bool, elapsed_ns: u64) -> (r:
        TimerAction)
        ensures
            (final(self)@, r) == tick_spec(old(self)@, work_secs, break_secs, paused, elapsed_ns),
    {
        let mut elapsed = elapsed_ns;
        if work_secs != self.work_secs || break_secs != self.break_secs {
            self.work_secs = work_secs;
            self.break_secs = break_secs;
            if !self.is_breaking {
                self.remaining_ns = nanos(work_secs);
                self.pre_capture_triggered = false;
                elapsed = 0;
            }
        }
        self.pending = PendingCheck::Nothing;
        if paused {
            return TimerAction::Idle;
        }
        if self.remaining_ns > elapsed {
            self.remaining_ns = self.remaining_ns - elapsed;
            if !self.is_breaking && self.remaining_ns / NANOS_PER_SEC <= PRE_CAPTURE_SECS
                && !self.pre_capture_triggered {
                self.pre_capture_triggered = true;
                self.pending = PendingCheck::BeforeCapture;
                TimerAction::CheckFocus
            } else {
                TimerAction::Idle
            }
        } else if !self.is_breaking {
            self.pending = PendingCheck::BeforeBreak;
            TimerAction::CheckFocus
        } else {
            self.is_breaking = false;
            self.pre_capture_triggered = false;
            self.remaining_ns = nanos(work_secs);
            TimerAction::HideOverlay
        }
    }

    /// Completes a round that asked for a focus check. `whitelisted` tells whether
    /// a whitelisted application has the focus, `session_paused` whether the
    /// session is locked now, `break_secs` the break length now in the settings.
    ///
    /// A whitelisted application in focus puts the break off by a minute. Else,
    /// before the capture, the background is captured; at the end of the work
    /// period the break starts, unless the session got locked, in which case it
    /// is tried again five seconds later.
    pub fn resolve_focus(&mut self, whitelisted: bool, session_paused: bool, break_secs: u32) -> (r:
        TimerAction)
        ensures
            (final(self)@, r) == resolve_spec(old(self)@, whitelisted, session_paused, break_secs),
    {
        match self.pending {
            PendingCheck::Nothing => TimerAction::Idle,
            PendingCheck::BeforeCapture => {
                self.pending = PendingCheck::Nothing;
                if whitelisted {
                    self.remaining_ns = nanos(POSTPONE_SECS as u32);
                    self.pre_capture_triggered = false;
                    TimerAction::Postponed
                } else {
                    TimerAction::CaptureBackground
                }
            },
            PendingCheck::BeforeBreak => {
                self.pending = PendingCheck::Nothing;
                if whitelisted {
                    self.remaining_ns = nanos(POSTPONE_SECS as u32);
                    self.pre_capture_triggered = false;
                    TimerAction::Postponed
                } else if session_paused {
                    self.remaining_ns = nanos(SESSION_RETRY_SECS as u32);
                    TimerAction::Deferred
                } else {
                    self.is_breaking = true;
                    self.remaining_ns = nanos(break_secs);
                    TimerAction::ShowOverlay
                }
            },
        }
    }
}


/// Whether an action starts or ends a break consistently with the change of
/// the timer's break flag: only `ShowOverlay` enters a break, only
/// `HideOverlay` leaves one, and no other action changes the flag.
pub open spec fn break_flag_follows(old: TimerView, new: TimerView, action: TimerAction) -> bool {
    match action {
        TimerAction::ShowOverlay => !old.is_breaking && new.is_breaking,
        TimerAction::HideOverlay => old.is_breaking && !new.is_breaking,
        _ => old.is_breaking == new.is_breaking,
    }
}

/// An input to the timer: a round, or the answer to a focus check.
pub enum TimerInput {
    Tick { work_secs: u32, break_secs: u32, paused: bool, elapsed_ns: u64 },
    Answer { whitelisted: bool, session_paused: bool, break_secs: u32 },
}

/// The timer and action after one input.
pub open spec fn step_spec(t: TimerView, i: TimerInput) -> (TimerView, TimerAction) {
    match i {
        TimerInput::Tick { work_secs, break_secs, paused, elapsed_ns } => tick_spec(
            t,
            work_secs,
            break_secs,
            paused,
            elapsed_ns,
        ),
        TimerInput::Answer { whitelisted, session_paused, break_secs } => resolve_spec(
            t,
            whitelisted,
            session_paused,
            break_secs,
        ),
    }
}

/// Whether an action shows or hides the overlay.
pub open spec fn is_overlay_action(a: TimerAction) -> bool {
    a == TimerAction::ShowOverlay || a == TimerAction::HideOverlay
}

/// The timer after a run of inputs, and the overlay actions it produced, in
/// order.
pub open spec fn run_timer(t: TimerView, inputs: Seq<TimerInput>) -> (TimerView, Seq<TimerAction>)
    decreases inputs.len(),
{
    if inputs.len() == 0 {
        (t, Seq::empty())
    } else {
        let (t1, events) = run_timer(t, inputs.drop_last());
        let (t2, a) = step_spec(t1, inputs.last());
        (t2, if is_overlay_action(a) { events.push(a) } else { events })
    }
}

/// Whether overlay actions alternate, starting with showing it.
pub open spec fn alternating(events: Seq<TimerAction>) -> bool {
    forall|i: int|
        0 <= i < events.len() ==> #[trigger] events[i] == if i % 2 == 0 {
            TimerAction::ShowOverlay
        } else {
            TimerAction::HideOverlay
        }
}

/// The timer's invariant: a focus question is only ever open during a work
/// period.
pub open spec fn timer_wf(t: TimerView) -> bool {
    t.pending != PendingCheck::Nothing ==> !t.is_breaking
}

/// Every reachable timer keeps the invariant: a new timer has it, and rounds
/// and answers preserve it.
pub proof fn lemma_timer_wf_preserved(
    t: TimerView,
    work_secs: u32,
    break_secs: u32,
    paused: bool,
    elapsed_ns: u64,
    whitelisted: bool,
    session_paused: bool,
)
    requires
        timer_wf(t),
    ensures
        timer_wf(timer_start(work_secs, break_secs)),
        timer_wf(tick_spec(t, work_secs, break_secs, paused, elapsed_ns).0),
        timer_wf(resolve_spec(t, whitelisted, session_paused, break_secs).0),
{
}

/// Overlays are shown and hidden in turn: a round of the timer, or the
/// answer to its focus check, enters a break exactly when it shows the overlay
/// and leaves one exactly when it hides it.
pub proof fn lemma_show_and_hide_alternate(
    t: TimerView,
    work_secs: u32,
    break_secs: u32,
    paused: bool,
    elapsed_ns: u64,
    whitelisted: bool,
    session_paused: bool,
)
    requires
        timer_wf(t),
    ensures
        ({
            let (n, a) = tick_spec(t, work_secs, break_secs, paused, elapsed_ns);
            break_flag_follows(t, n, a)
        }),
        ({
            let (n, a) = resolve_spec(t, whitelisted, session_paused, break_secs);
            break_flag_follows(t, n, a)
        }),
{
}

/// Over any run of rounds and answers from a timer in a work period (a new
/// timer in particular), the overlay is shown and hidden strictly in turn,
/// starting with showing it, and a break is under way exactly when it was
/// shown once more than hidden.
pub proof fn lemma_overlay_events_alternate(t: TimerView, inputs: Seq<TimerInput>)
    requires
        timer_wf(t),
        !t.is_breaking,
    ensures
        alternating(run_timer(t, inputs).1),
        run_timer(t, inputs).0.is_breaking == (run_timer(t, inputs).1.len() % 2 == 1),
        timer_wf(run_timer(t, inputs).0),
    decreases inputs.len(),
{
    if inputs.len() > 0 {
        lemma_overlay_events_alternate(t, inputs.drop_last());
        let (t1, events) = run_timer(t, inputs.drop_last());
        let i = inputs.last();
        match i {
            TimerInput::Tick { work_secs, break_secs, paused, elapsed_ns } => {
                lemma_show_and_hide_alternate(t1, work_secs, break_secs, paused, elapsed_ns, false, false);
                lemma_timer_wf_preserved(t1, work_secs, break_secs, paused, elapsed_ns, false, false);
            },
            TimerInput::Answer { whitelisted, session_paused, break_secs } => {
                lemma_show_and_hide_alternate(t1, 0, break_secs, false, 0, whitelisted, session_paused);
                lemma_timer_wf_preserved(t1, 0, break_secs, false, 0, whitelisted, session_paused);
            },
        }
        let (t2, a) = step_spec(t1, i);
        if is_overlay_action(a) {
            let ev2 = events.push(a);
            assert forall|k: int| 0 <= k < ev2.len() implies #[trigger] ev2[k] == if k % 2 == 0 {
                TimerAction::ShowOverlay
            } else {
                TimerAction::HideOverlay
            } by {
                if k < events.len() {
                    assert(ev2[k] == events[k]);
                }
            }
        }
    }
}

/// A new timer starts in a work period, so the law above covers every run
/// from a new timer.
pub proof fn lemma_new_timer_in_work(work_secs: u32, break_secs: u32)
    ensures
        timer_wf(timer_start(work_secs, break_secs)),
        !timer_start(work_secs, break_secs).is_breaking,
{
}

/// A paused timer stands still: with the settings unchanged and no question
/// open, a paused round changes nothing and asks for nothing.
pub proof fn lemma_pause_freezes(t: TimerView, elapsed_ns: u64)
    requires
        t.pending == PendingCheck::Nothing,
    ensures
        tick_spec(t, t.work_secs, t.break_secs, true, elapsed_ns) == (t, TimerAction::Idle),
{
}

/// While running, the time left drops by exactly the time elapsed, as long as
/// it does not run out.
pub proof fn lemma_counts_down(t: TimerView, elapsed_ns: u64)
    requires
        t.remaining_ns > elapsed_ns,
    ensures
        ({
            let (n, a) = tick_spec(t, t.work_secs, t.break_secs, false, elapsed_ns);
            &&& n.remaining_ns == t.remaining_ns - elapsed_ns
            &&& n.is_breaking == t.is_breaking
            &&& (a == TimerAction::Idle || a == TimerAction::CheckFocus)
        }),
{
}

/// No break starts while the timer is paused or the session is locked: a
/// paused round asks for nothing, and a focus check answered while the session
/// is locked never shows the overlay.
pub proof fn lemma_no_break_while_locked(
    t: TimerView,
    work_secs: u32,
    break_secs: u32,
    elapsed_ns: u64,
    whitelisted: bool,
)
    ensures
        tick_spec(t, work_secs, break_secs, true, elapsed_ns).1 == TimerAction::Idle,
        resolve_spec(t, whitelisted, true, break_secs).1 != TimerAction::ShowOverlay,
{
}

/// A whitelisted application in focus puts the break off by one minute: the
/// timer stays in its work period with sixty seconds left.
pub proof fn lemma_whitelist_postpones(t: TimerView, session_paused: bool, break_secs: u32)
    requires
        t.pending != PendingCheck::Nothing,
    ensures
        ({
            let (n, a) = resolve_spec(t, true, session_paused, break_secs);
            &&& a == TimerAction::Postponed
            &&& n.remaining_ns == secs_to_nanos(POSTPONE_SECS)
            &&& n.is_breaking == t.is_breaking
            &&& !n.pre_capture_triggered
        }),
{
}

/// A work period that runs out with no whitelisted application in focus and
/// the session unlocked turns into a break of the configured length.
pub proof fn lemma_work_end_starts_break(t: TimerView, elapsed_ns: u64, break_secs: u32)
    requires
        !t.is_breaking,
        t.remaining_ns <= elapsed_ns,
    ensures
        ({
            let (n, a) = tick_spec(t, t.work_secs, t.break_secs, false, elapsed_ns);
            let (m, b) = resolve_spec(n, false, false, break_secs);
            &&& a == TimerAction::CheckFocus
            &&& b == TimerAction::ShowOverlay
            &&& m.is_breaking
            &&& m.remaining_ns == secs_to_nanos(break_secs as u64)
        }),
{
}

/// A break that runs out hides the overlay and starts a new work period of the
/// configured length, with the background capture to be done again.
pub proof fn lemma_break_end_starts_work(t: TimerView, elapsed_ns: u64)
    requires
        t.is_breaking,
        t.remaining_ns <= elapsed_ns,
    ensures
        ({
            let (n, a) = tick_spec(t, t.work_secs, t.break_secs, false, elapsed_ns);
            &&& a == TimerAction::HideOverlay
            &&& !n.is_breaking
            &&& !n.pre_capture_triggered
            &&& n.remaining_ns == secs_to_nanos(t.work_secs as u64)
        }),
{
}

/// New periods in the settings restart a work period at the new length, paused
/// or not (the round counts no elapsed time), but leave a running break alone.
pub proof fn lemma_settings_change(
    t: TimerView,
    work_secs: u32,
    break_secs: u32,
    paused: bool,
    elapsed_ns: u64,
)
    requires
        work_secs != t.work_secs || break_secs != t.break_secs,
    ensures
        ({
            let (n, a) = tick_spec(t, work_secs, break_secs, paused, elapsed_ns);
            &&& n.work_secs == work_secs
            &&& n.break_secs == break_secs
            &&& (!t.is_breaking && work_secs > 0 ==> n.remaining_ns == secs_to_nanos(work_secs as u64))
            &&& (t.is_breaking && paused ==> n.remaining_ns == t.remaining_ns)
        }),
{
    if !t.is_breaking && work_secs > 0 {
        assert(secs_to_nanos(work_secs as u64) > 0) by (nonlinear_arith)
            requires
                work_secs > 0,
                secs_to_nanos(work_secs as u64) == (work_secs as u64 * NANOS_PER_SEC) as u64,
                work_secs as u64 * NANOS_PER_SEC <= u64::MAX,
        ;
    }
}


/// A running, unpaused break keeps counting down whatever the settings say now:
/// the time left drops by exactly the time elapsed (as long as it does not run
/// out), the break goes on with nothing asked of the caller, and new periods
/// are only recorded for later.
pub proof fn lemma_break_runs_through_settings_change(
    t: TimerView,
    work_secs: u32,
    break_secs: u32,
    elapsed_ns: u64,
)
    requires
        t.is_breaking,
        t.remaining_ns > elapsed_ns,
    ensures
        ({
            let (n, a) = tick_spec(t, work_secs, break_secs, false, elapsed_ns);
            &&& n.remaining_ns == t.remaining_ns - elapsed_ns
            &&& n.is_breaking
            &&& a == TimerAction::Idle
            &&& n.work_secs == work_secs
            &&& n.break_secs == break_secs
        }),
{
}

/// The slice in which an interruptible sleep advances, in nanoseconds (50 ms).
pub const SLEEP_SLICE_NS: u128 = 50_000_000;
/// The longest duration a `std::time::Duration` holds, in nanoseconds.
pub const MAX_DURATION_NS: u128 = 18_446_744_073_709_551_615_999_999_999;

/// The unpaused time slept after one more slice: a paused slice counts
/// nothing, an unpaused one counts a whole slice.
pub open spec fn sleep_step(slept: int, paused: bool) -> int {
    if paused { slept } else { slept + SLEEP_SLICE_NS }
}

/// The unpaused time slept after a run of slices (`true` for a paused one),
/// from the start.
pub open spec fn sleep_run(slices: Seq<bool>) -> int
    decreases slices.len(),
{
    if slices.len() == 0 {
        0
    } else {
        sleep_step(sleep_run(slices.drop_last()), slices.last())
    }
}

/// The number of unpaused slices in a run.
pub open spec fn unpaused_count(slices: Seq<bool>) -> nat
    decreases slices.len(),
{
    if slices.len() == 0 {
        0
    } else {
        unpaused_count(slices.drop_last()) + if slices.last() { 0nat } else { 1nat }
    }
}

/// An interruptible sleep counts only unpaused slices, and is done exactly
/// once the number of unpaused slices reaches the duration divided by the
/// slice, rounded up: after any run of slices it has slept the unpaused
/// slices' worth, and it is done exactly when there were at least
/// `ceil(target / 50 ms)` of them.
pub proof fn lemma_sleep_run(target_ns: nat, slices: Seq<bool>)
    ensures
        sleep_run(slices) == unpaused_count(slices) * SLEEP_SLICE_NS,
        (sleep_run(slices) >= target_ns) <==> (unpaused_count(slices) >= (target_ns + SLEEP_SLICE_NS
            - 1) / (SLEEP_SLICE_NS as int)),
    decreases slices.len(),
{
    if slices.len() > 0 {
        lemma_sleep_run(target_ns, slices.drop_last());
        assert(unpaused_count(slices) * SLEEP_SLICE_NS == unpaused_count(slices.drop_last())
            * SLEEP_SLICE_NS + if slices.last() { 0int } else { SLEEP_SLICE_NS as int }) by (nonlinear_arith)
            requires
                unpaused_count(slices) == unpaused_count(slices.drop_last()) + if slices.last() { 0nat } else { 1nat },
        ;
    }
    let k = unpaused_count(slices);
    assert((k * SLEEP_SLICE_NS >= target_ns) <==> (k >= (target_ns + SLEEP_SLICE_NS - 1) / (
    SLEEP_SLICE_NS as int))) by (nonlinear_arith);
}

/// A sleep that only counts the time spent while not paused. The caller sleeps
/// one slice at a time and records each slice, saying whether it was paused.
#[derive(Debug)]
pub struct InterruptibleSleep {
    /// The time to sleep, not counting paused slices, in nanoseconds.
    pub target_ns: u128,
    /// The unpaused time slept so far, in nanoseconds.
    pub slept_ns: u128,
}

impl InterruptibleSleep {
    /// A sleep of `target_ns` nanoseconds, not yet begun.
    pub fn new(target_ns: u128) -> (r: InterruptibleSleep)
        requires
            target_ns <= MAX_DURATION_NS,
        ensures
            r.target_ns == target_ns,
            r.slept_ns == 0,
    {
        InterruptibleSleep { target_ns, slept_ns: 0 }
    }

    /// Whether the whole duration was slept.
    pub fn is_done(&self) -> (r: bool)
        ensures
            r == (self.slept_ns >= self.target_ns),
    {
        self.slept_ns >= self.target_ns
    }

    /// Records a slice slept: it counts only when not paused.
    pub fn record_slice(&mut self, paused: bool)
        requires
            old(self).slept_ns < old(self).target_ns <= MAX_DURATION_NS,
        ensures
            final(self).target_ns == old(self).target_ns,
            final(self).slept_ns == sleep_step(old(self).slept_ns as int, paused),
    {
        if !paused {
            self.slept_ns = self.slept_ns + SLEEP_SLICE_NS;
        }
    }
}

} // verus!
