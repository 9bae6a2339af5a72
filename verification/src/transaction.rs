//! The discipline that every handler follows when it touches the store:
//! open a transaction, check what the request depends on, write, and commit;
//! on any failure roll back and answer with the failure.
//!
//! The handler does not talk to the store itself. It is a state machine: it
//! names the next action, the caller performs it and reports what the store
//! said, and the machine names the next action, until it names the verdict.

use vstd::prelude::*;

verus! {

/// When a write of a plan is performed.
#[derive(Clone, Copy, PartialEq, Eq, Debug, Structural)]
pub enum Guard {
    /// Whenever the plan reaches it.
    Always,
    /// Only if the latest read found its row.
    IfFound,
    /// Only if the latest read found no row (or there was no read at all).
    IfMissing,
}

impl Guard {
    /// Whether a write under this guard is performed after a read that found
    /// its row (`found`) or did not.
    pub open spec fn applies(self, found: bool) -> bool {
        match self {
            Guard::Always => true,
            Guard::IfFound => found,
            Guard::IfMissing => !found,
        }
    }

    /// Whether a write under this guard is performed.
    pub fn holds(self, found: bool) -> (applies: bool)
        ensures
            applies == self.applies(found),
    {
        match self {
            Guard::Always => true,
            Guard::IfFound => found,
            Guard::IfMissing => !found,
        }
    }
}

/// One step of a handler inside its transaction.
#[derive(Clone, Copy, PartialEq, Eq, Debug, Structural)]
pub enum Step {
    /// A decision that the request alone settles, such as the validity of a
    /// payload. The request is rejected where it did not pass.
    Check { passed: bool },
    /// A read of one row. `must_exist` says that the request cannot go on
    /// without the row, `must_succeed` that it cannot go on when the store
    /// fails the read.
    Read { must_exist: bool, must_succeed: bool },
    /// A write, or another effect that has to happen before the commit.
    Write { when: Guard },
}

/// What a handler intends to do for one request.
#[derive(Debug)]
pub struct Plan {
    /// Whether the request passed what is checked before any transaction is
    /// opened.
    pub admitted: bool,
    /// The steps inside the transaction, in order.
    pub steps: Vec<Step>,
}

/// What the store said to the latest action.
#[derive(Debug)]
pub enum Event {
    /// The transaction is open.
    Begun,
    /// No transaction could be opened.
    BeginFailed,
    /// The read found its row.
    Found,
    /// The read found no row.
    Missing,
    /// The store failed the read or the write.
    Failed(String),
    /// The store rejected the write for a constraint.
    Conflict(String),
    /// The write was not attempted: what the request asks for cannot be
    /// stored, as the row that was read shows.
    Declined(String),
    /// The write is staged.
    Done,
    /// The transaction is committed.
    Committed,
    /// The commit failed: nothing of the transaction is visible.
    CommitFailed(String),
    /// The transaction is rolled back.
    RolledBack,
}

/// How a request ended.
#[derive(Debug)]
pub enum Verdict {
    /// It did not pass what is checked before a transaction is opened.
    Refused,
    /// No transaction could be opened.
    SetupFailed,
    /// The check at `step` did not pass.
    Rejected { step: usize },
    /// The read at `step` found no row.
    Missing { step: usize },
    /// The store failed the read or write at `step`.
    Failed { step: usize, detail: String },
    /// The store rejected the write at `step` for a constraint.
    Conflict { step: usize, detail: String },
    /// The write at `step` was not attempted, for what the request asks for
    /// cannot be stored.
    Declined { step: usize, detail: String },
    /// The commit failed.
    CommitFailed { detail: String },
    /// Every step passed. `wrote` is the latest write that was performed; it
    /// is committed. Where nothing was written, nothing was committed.
    Done { wrote: Option<usize> },
    /// The caller reported something that does not answer the action.
    Misused,
}

/// Whether two verdicts differ at most in the detail that the store gave of
/// a failure.
pub open spec fn alike(a: Verdict, b: Verdict) -> bool {
    match (a, b) {
        (Verdict::Failed { step: s, .. }, Verdict::Failed { step: t, .. }) => s == t,
        (Verdict::Conflict { step: s, .. }, Verdict::Conflict { step: t, .. }) => s == t,
        (Verdict::Declined { step: s, .. }, Verdict::Declined { step: t, .. }) => s == t,
        (Verdict::CommitFailed { .. }, Verdict::CommitFailed { .. }) => true,
        _ => a == b,
    }
}

/// What the caller has to do next.
#[derive(Debug)]
pub enum Action {
    /// Open a transaction.
    Begin,
    /// Perform the read at this step.
    Read(usize),
    /// Perform the write at this step.
    Write(usize),
    /// Commit the transaction.
    Commit,
    /// Roll the transaction back.
    Rollback,
    /// Answer the request; nothing is left to do.
    Respond(Verdict),
}

/// What the machine is waiting for.
#[derive(Clone, Copy, PartialEq, Eq, Debug, Structural)]
pub enum Phase {
    Beginning,
    Reading,
    Writing,
    Committing,
    RollingBack,
    Finished,
}

/// The state of one request between two actions.
#[derive(Debug)]
pub struct State {
    pub phase: Phase,
    /// The step that is being performed.
    pub cursor: usize,
    /// Whether the latest read found its row.
    pub found: bool,
    /// The latest write that was performed.
    pub wrote: Option<usize>,
    /// The verdict that waits for the rollback to end.
    pub verdict: Option<Verdict>,
}

impl State {
    /// Whether the request holds a transaction that has yet to be closed. A
    /// caller that gives a request up, for a client that has gone away, rolls
    /// back exactly where this holds.
    pub open spec fn holds_transaction(self) -> bool {
        self.phase is Reading || self.phase is Writing || self.phase is Committing
            || self.phase is RollingBack
    }

    /// Whether the request holds a transaction that has yet to be closed.
    pub fn in_transaction(&self) -> (open: bool)
        ensures
            open == self.holds_transaction(),
    {
        match self.phase {
            Phase::Reading | Phase::Writing | Phase::Committing | Phase::RollingBack => true,
            Phase::Beginning | Phase::Finished => false,
        }
    }
}

/// The machine at rest, with the verdict given.
pub open spec fn finished(cursor: usize, found: bool, wrote: Option<usize>, verdict: Verdict) -> (State, Action) {
    (State { phase: Phase::Finished, cursor, found, wrote, verdict: None }, Action::Respond(verdict))
}

/// The machine closing the transaction, with the verdict to give afterwards.
pub open spec fn closing(cursor: usize, found: bool, wrote: Option<usize>, verdict: Verdict) -> (State, Action) {
    (State { phase: Phase::RollingBack, cursor, found, wrote, verdict: Some(verdict) }, Action::Rollback)
}

/// Goes on from the step `cursor` inside an open transaction: past the
/// checks that passed and the writes whose guard does not apply, to the next
/// read or write, to the commit where a write was performed, or to the
/// rollback that closes a transaction in which nothing was written.
pub open spec fn proceed(steps: Seq<Step>, cursor: usize, found: bool, wrote: Option<usize>) -> (State, Action)
    decreases steps.len() - cursor,
{
    if cursor >= steps.len() || cursor >= usize::MAX {
        match wrote {
            Some(_) => (
                State { phase: Phase::Committing, cursor, found, wrote, verdict: None },
                Action::Commit,
            ),
            None => closing(cursor, found, wrote, Verdict::Done { wrote: None }),
        }
    } else {
        match steps[cursor as int] {
            Step::Check { passed } => if passed {
                proceed(steps, (cursor + 1) as usize, found, wrote)
            } else {
                closing(cursor, found, wrote, Verdict::Rejected { step: cursor })
            },
            Step::Read { .. } => (
                State { phase: Phase::Reading, cursor, found, wrote, verdict: None },
                Action::Read(cursor),
            ),
            Step::Write { when } => if when.applies(found) {
                (State { phase: Phase::Writing, cursor, found, wrote, verdict: None }, Action::Write(cursor))
            } else {
                proceed(steps, (cursor + 1) as usize, found, wrote)
            },
        }
    }
}

/// The first action for a plan: the verdict at once where the request was
/// not admitted, the opening of a transaction otherwise.
pub open spec fn first(plan: Plan) -> (State, Action) {
    if plan.admitted {
        (
            State { phase: Phase::Beginning, cursor: 0, found: false, wrote: None, verdict: None },
            Action::Begin,
        )
    } else {
        finished(0, false, None, Verdict::Refused)
    }
}

/// The step after `cursor`.
pub open spec fn following(cursor: usize) -> usize {
    if cursor < usize::MAX {
        (cursor + 1) as usize
    } else {
        cursor
    }
}

/// The next action, from the state and from what the store said.
pub open spec fn next(plan: Plan, state: State, event: Event) -> (State, Action) {
    let steps = plan.steps@;
    let cursor = state.cursor;
    let found = state.found;
    let wrote = state.wrote;
    match state.phase {
        Phase::Beginning => match event {
            Event::Begun => proceed(steps, 0, false, None),
            Event::BeginFailed => finished(cursor, found, wrote, Verdict::SetupFailed),
            _ => closing(cursor, found, wrote, Verdict::Misused),
        },
        Phase::Reading => if cursor < steps.len() && steps[cursor as int] is Read {
            match event {
                Event::Found => proceed(steps, following(cursor), true, wrote),
                Event::Missing => if steps[cursor as int]->must_exist {
                    closing(cursor, found, wrote, Verdict::Missing { step: cursor })
                } else {
                    proceed(steps, following(cursor), false, wrote)
                },
                Event::Failed(detail) => if steps[cursor as int]->must_succeed {
                    closing(cursor, found, wrote, Verdict::Failed { step: cursor, detail })
                } else {
                    proceed(steps, following(cursor), false, wrote)
                },
                _ => closing(cursor, found, wrote, Verdict::Misused),
            }
        } else {
            closing(cursor, found, wrote, Verdict::Misused)
        },
        Phase::Writing => match event {
            Event::Done => proceed(steps, following(cursor), found, Some(cursor)),
            Event::Failed(detail) => closing(cursor, found, wrote, Verdict::Failed { step: cursor, detail }),
            Event::Conflict(detail) => closing(
                cursor,
                found,
                wrote,
                Verdict::Conflict { step: cursor, detail },
            ),
            Event::Declined(detail) => closing(
                cursor,
                found,
                wrote,
                Verdict::Declined { step: cursor, detail },
            ),
            _ => closing(cursor, found, wrote, Verdict::Misused),
        },
        Phase::Committing => match event {
            Event::Committed => finished(cursor, found, wrote, Verdict::Done { wrote }),
            Event::CommitFailed(detail) => finished(cursor, found, wrote, Verdict::CommitFailed { detail }),
            _ => closing(cursor, found, wrote, Verdict::Misused),
        },
        Phase::RollingBack => match state.verdict {
            Some(verdict) => finished(cursor, found, wrote, verdict),
            None => finished(cursor, found, wrote, Verdict::Misused),
        },
        Phase::Finished => finished(cursor, found, wrote, Verdict::Misused),
    }
}

fn finish(cursor: usize, found: bool, wrote: Option<usize>, verdict: Verdict) -> (r: (State, Action))
    ensures
        r == finished(cursor, found, wrote, verdict),
{
    (State { phase: Phase::Finished, cursor, found, wrote, verdict: None }, Action::Respond(verdict))
}

fn close(cursor: usize, found: bool, wrote: Option<usize>, verdict: Verdict) -> (r: (State, Action))
    ensures
        r == closing(cursor, found, wrote, verdict),
{
    (State { phase: Phase::RollingBack, cursor, found, wrote, verdict: Some(verdict) }, Action::Rollback)
}

fn go_on(steps: &Vec<Step>, from: usize, found: bool, wrote: Option<usize>) -> (r: (State, Action))
    ensures
        r == proceed(steps@, from, found, wrote),
{
    let mut cursor: usize = from;
    loop
        invariant
            proceed(steps@, cursor, found, wrote) == proceed(steps@, from, found, wrote),
        decreases steps.len() - cursor,
    {
        if cursor >= steps.len() || cursor >= usize::MAX {
            return match wrote {
                Some(_) => (
                    State { phase: Phase::Committing, cursor, found, wrote, verdict: None },
                    Action::Commit,
                ),
                None => close(cursor, found, wrote, Verdict::Done { wrote: None }),
            };
        }
        match steps[cursor] {
            Step::Check { passed } => {
                if !passed {
                    return close(cursor, found, wrote, Verdict::Rejected { step: cursor });
                }
            },
            Step::Read { .. } => {
                return (
                    State { phase: Phase::Reading, cursor, found, wrote, verdict: None },
                    Action::Read(cursor),
                );
            },
            Step::Write { when } => {
                if when.holds(found) {
                    return (
                        State { phase: Phase::Writing, cursor, found, wrote, verdict: None },
                        Action::Write(cursor),
                    );
                }
            },
        }
        cursor = cursor + 1;
    }
}

fn after_step(cursor: usize) -> (r: usize)
    ensures
        r == following(cursor),
{
    if cursor < usize::MAX {
        cursor + 1
    } else {
        cursor
    }
}

/// Names the first action for a plan.
pub fn start(plan: &Plan) -> (r: (State, Action))
    ensures
        r == first(*plan),
{
    if plan.admitted {
        (
            State { phase: Phase::Beginning, cursor: 0, found: false, wrote: None, verdict: None },
            Action::Begin,
        )
    } else {
        finish(0, false, None, Verdict::Refused)
    }
}

/// Names the next action, from the state and from what the store said to
/// the latest action.
pub fn advance(plan: &Plan, state: State, event: Event) -> (r: (State, Action))
    ensures
        r == next(*plan, state, event),
{
    let cursor: usize = state.cursor;
    let found: bool = state.found;
    let wrote: Option<usize> = state.wrote;
    match state.phase {
        Phase::Beginning => match event {
            Event::Begun => go_on(&plan.steps, 0, false, None),
            Event::BeginFailed => finish(cursor, found, wrote, Verdict::SetupFailed),
            _ => close(cursor, found, wrote, Verdict::Misused),
        },
        Phase::Reading => {
            if cursor >= plan.steps.len() {
                return close(cursor, found, wrote, Verdict::Misused);
            }
            match plan.steps[cursor] {
                Step::Read { must_exist, must_succeed } => match event {
                    Event::Found => go_on(&plan.steps, after_step(cursor), true, wrote),
                    Event::Missing => {
                        if must_exist {
                            close(cursor, found, wrote, Verdict::Missing { step: cursor })
                        } else {
                            go_on(&plan.steps, after_step(cursor), false, wrote)
                        }
                    },
                    Event::Failed(detail) => {
                        if must_succeed {
                            close(cursor, found, wrote, Verdict::Failed { step: cursor, detail })
                        } else {
                            go_on(&plan.steps, after_step(cursor), false, wrote)
                        }
                    },
                    _ => close(cursor, found, wrote, Verdict::Misused),
                },
                _ => close(cursor, found, wrote, Verdict::Misused),
            }
        },
        Phase::Writing => match event {
            Event::Done => go_on(&plan.steps, after_step(cursor), found, Some(cursor)),
            Event::Failed(detail) => close(cursor, found, wrote, Verdict::Failed { step: cursor, detail }),
            Event::Conflict(detail) => close(cursor, found, wrote, Verdict::Conflict { step: cursor, detail }),
            Event::Declined(detail) => close(cursor, found, wrote, Verdict::Declined { step: cursor, detail }),
            _ => close(cursor, found, wrote, Verdict::Misused),
        },
        Phase::Committing => match event {
            Event::Committed => finish(cursor, found, wrote, Verdict::Done { wrote }),
            Event::CommitFailed(detail) => finish(cursor, found, wrote, Verdict::CommitFailed { detail }),
            _ => close(cursor, found, wrote, Verdict::Misused),
        },
        Phase::RollingBack => match state.verdict {
            Some(verdict) => finish(cursor, found, wrote, verdict),
            None => finish(cursor, found, wrote, Verdict::Misused),
        },
        Phase::Finished => finish(cursor, found, wrote, Verdict::Misused),
    }
}

/// What the store holds of a request's transaction: a model of any store
/// in which a write is seen by others only once its transaction commits.
/// Writes are named by the step that performed them.
pub struct Ledger {
    /// Whether a transaction is open.
    pub open: bool,
    /// How many transactions were opened.
    pub begun: nat,
    /// How many transactions were committed.
    pub commits: nat,
    /// How many transactions were closed without a commit.
    pub rollbacks: nat,
    /// The writes staged in the open transaction.
    pub staged: Seq<usize>,
    /// Every write that was performed, in order.
    pub performed: Seq<usize>,
    /// The writes that everyone can see.
    pub visible: Seq<usize>,
}

impl Ledger {
    /// A store that shows `visible` and has no transaction open.
    pub open spec fn fresh(visible: Seq<usize>) -> Ledger {
        Ledger {
            open: false,
            begun: 0,
            commits: 0,
            rollbacks: 0,
            staged: Seq::empty(),
            performed: Seq::empty(),
            visible,
        }
    }

    /// The store after a transaction was closed without a commit.
    pub open spec fn discarded(self) -> Ledger {
        Ledger { open: false, rollbacks: self.rollbacks + 1, staged: Seq::empty(), ..self }
    }

    /// The store after it answered `event` to `action`.
    pub open spec fn react(self, action: Action, event: Event) -> Ledger {
        match (action, event) {
            (Action::Begin, Event::Begun) => Ledger {
                open: true,
                begun: self.begun + 1,
                staged: Seq::empty(),
                ..self
            },
            (Action::Write(step), Event::Done) => if self.open {
                Ledger { staged: self.staged.push(step), performed: self.performed.push(step), ..self }
            } else {
                self
            },
            (Action::Commit, Event::Committed) => if self.open {
                Ledger {
                    open: false,
                    commits: self.commits + 1,
                    visible: self.visible + self.staged,
                    staged: Seq::empty(),
                    ..self
                }
            } else {
                self
            },
            (Action::Commit, Event::CommitFailed(_)) => if self.open {
                self.discarded()
            } else {
                self
            },
            (Action::Rollback, _) => if self.open {
                self.discarded()
            } else {
                self
            },
            _ => self,
        }
    }
}

/// Whether `event` is something that a store says to `action`.
pub open spec fn answers(action: Action, event: Event) -> bool {
    match action {
        Action::Begin => event is Begun || event is BeginFailed,
        Action::Read(_) => event is Found || event is Missing || event is Failed,
        Action::Write(_) => event is Done || event is Failed || event is Conflict || event is Declined,
        Action::Commit => event is Committed || event is CommitFailed,
        Action::Rollback => event is RolledBack,
        Action::Respond(_) => false,
    }
}

/// Where a request and its store stand after the store has given the
/// answers `events`, one to each action, as far as the request went.
pub open spec fn run(plan: Plan, state: State, action: Action, ledger: Ledger, events: Seq<Event>) -> (
    State,
    Action,
    Ledger,
)
    decreases events.len(),
{
    if events.len() == 0 || action is Respond {
        (state, action, ledger)
    } else {
        let (state1, action1) = next(plan, state, events[0]);
        run(plan, state1, action1, ledger.react(action, events[0]), events.drop_first())
    }
}

/// Whether each of `events` answers the action that was pending when it came.
pub open spec fn faithful(plan: Plan, state: State, action: Action, events: Seq<Event>) -> bool
    decreases events.len(),
{
    if events.len() == 0 || action is Respond {
        true
    } else {
        let (state1, action1) = next(plan, state, events[0]);
        answers(action, events[0]) && faithful(plan, state1, action1, events.drop_first())
    }
}

/// Whether the writes were performed in the order of their steps, each step
/// at most once.
pub open spec fn in_order(performed: Seq<usize>) -> bool {
    forall|i: int, j: int| 0 <= i < j < performed.len() ==> performed[i] < performed[j]
}

/// What holds of the store while a request's transaction is open: it is the
/// only one, nothing of it is visible, something is staged exactly if the
/// request has written, and no step has written twice.
pub open spec fn inside(ledger: Ledger, wrote: Option<usize>, before: Seq<usize>) -> bool {
    &&& ledger.open
    &&& ledger.begun == 1
    &&& ledger.commits == 0
    &&& ledger.rollbacks == 0
    &&& ledger.visible == before
    &&& ledger.staged == ledger.performed
    &&& in_order(ledger.performed)
    &&& wrote is Some <==> ledger.staged.len() > 0
    &&& wrote matches Some(step) ==> ledger.staged.last() == step
}

/// Whether the latest write lies before the step `cursor`.
pub open spec fn behind(wrote: Option<usize>, cursor: usize) -> bool {
    wrote matches Some(step) ==> step < cursor
}

/// What holds of the store once a request has its verdict.
pub open spec fn settled(ledger: Ledger, verdict: Verdict, before: Seq<usize>) -> bool {
    &&& !ledger.open
    &&& ledger.staged.len() == 0
    &&& in_order(ledger.performed)
    &&& match verdict {
        Verdict::Refused | Verdict::SetupFailed => {
            &&& ledger.begun == 0
            &&& ledger.commits == 0
            &&& ledger.rollbacks == 0
            &&& ledger.visible == before
        },
        Verdict::Done { wrote: Some(step) } => {
            &&& ledger.begun == 1
            &&& ledger.commits == 1
            &&& ledger.rollbacks == 0
            &&& ledger.performed.len() > 0
            &&& ledger.performed.last() == step
            &&& ledger.visible == before + ledger.performed
        },
        Verdict::Misused => false,
        _ => {
            &&& ledger.begun == 1
            &&& ledger.commits == 0
            &&& ledger.rollbacks == 1
            &&& ledger.visible == before
        },
    }
}

/// What holds between a request, its pending action and the store, as long
/// as the store's answers are faithful.
pub open spec fn consistent(plan: Plan, state: State, action: Action, ledger: Ledger, before: Seq<usize>) -> bool {
    let steps = plan.steps@;
    match state.phase {
        Phase::Beginning => action is Begin && ledger == Ledger::fresh(before),
        Phase::Reading => {
            &&& action == Action::Read(state.cursor)
            &&& state.cursor < steps.len()
            &&& steps[state.cursor as int] is Read
            &&& inside(ledger, state.wrote, before)
            &&& behind(state.wrote, state.cursor)
        },
        Phase::Writing => {
            &&& action == Action::Write(state.cursor)
            &&& state.cursor < steps.len()
            &&& steps[state.cursor as int] is Write
            &&& inside(ledger, state.wrote, before)
            &&& behind(state.wrote, state.cursor)
        },
        Phase::Committing => {
            &&& action is Commit
            &&& state.wrote is Some
            &&& inside(ledger, state.wrote, before)
        },
        Phase::RollingBack => {
            &&& action is Rollback
            &&& inside(ledger, state.wrote, before)
            &&& state.verdict matches Some(verdict)
            &&& match verdict {
                Verdict::Rejected { .. }
                | Verdict::Missing { .. }
                | Verdict::Failed { .. }
                | Verdict::Conflict { .. }
                | Verdict::Declined { .. } => true,
                Verdict::Done { wrote } => wrote is None && state.wrote is None,
                _ => false,
            }
        },
        Phase::Finished => action matches Action::Respond(verdict) && settled(ledger, verdict, before),
    }
}

proof fn lemma_plan_fits(plan: Plan)
    ensures
        plan.steps@.len() <= usize::MAX,
{
    assert(plan.steps.len() == plan.steps@.len());
}

proof fn lemma_proceed_consistent(
    plan: Plan,
    cursor: usize,
    found: bool,
    wrote: Option<usize>,
    ledger: Ledger,
    before: Seq<usize>,
)
    requires
        inside(ledger, wrote, before),
        behind(wrote, cursor),
    ensures
        consistent(
            plan,
            proceed(plan.steps@, cursor, found, wrote).0,
            proceed(plan.steps@, cursor, found, wrote).1,
            ledger,
            before,
        ),
    decreases plan.steps@.len() - cursor,
{
    let steps = plan.steps@;
    if cursor >= steps.len() || cursor >= usize::MAX {
    } else {
        match steps[cursor as int] {
            Step::Check { passed } => {
                if passed {
                    lemma_proceed_consistent(plan, (cursor + 1) as usize, found, wrote, ledger, before);
                }
            },
            Step::Read { .. } => {},
            Step::Write { when } => {
                if !when.applies(found) {
                    lemma_proceed_consistent(plan, (cursor + 1) as usize, found, wrote, ledger, before);
                }
            },
        }
    }
}

proof fn lemma_next_consistent(
    plan: Plan,
    state: State,
    action: Action,
    ledger: Ledger,
    event: Event,
    before: Seq<usize>,
)
    requires
        consistent(plan, state, action, ledger, before),
        answers(action, event),
    ensures
        consistent(plan, next(plan, state, event).0, next(plan, state, event).1, ledger.react(action, event), before),
{
    let steps = plan.steps@;
    let after = ledger.react(action, event);
    lemma_plan_fits(plan);
    match state.phase {
        Phase::Beginning => {
            if event is Begun {
                assert(inside(after, None, before));
                lemma_proceed_consistent(plan, 0, false, None, after, before);
            }
        },
        Phase::Reading => {
            assert(after == ledger);
            lemma_proceed_consistent(plan, following(state.cursor), true, state.wrote, after, before);
            lemma_proceed_consistent(plan, following(state.cursor), false, state.wrote, after, before);
        },
        Phase::Writing => {
            if event is Done {
                assert forall|i: int, j: int| 0 <= i < j < after.performed.len() implies after.performed[i]
                    < after.performed[j] by {
                    if j == after.performed.len() - 1 {
                        assert(after.performed[j] == state.cursor);
                        if ledger.performed.len() > 0 {
                            assert(ledger.performed[i] <= ledger.performed.last());
                        }
                    } else {
                        assert(after.performed[i] == ledger.performed[i]);
                        assert(after.performed[j] == ledger.performed[j]);
                    }
                }
                assert(inside(after, Some(state.cursor), before));
                lemma_proceed_consistent(
                    plan,
                    following(state.cursor),
                    state.found,
                    Some(state.cursor),
                    after,
                    before,
                );
            }
        },
        Phase::Committing => {
            if event is Committed {
                assert(after.visible == before + after.performed);
            }
        },
        Phase::RollingBack => {},
        Phase::Finished => {},
    }
}

proof fn lemma_run_consistent(
    plan: Plan,
    state: State,
    action: Action,
    ledger: Ledger,
    events: Seq<Event>,
    before: Seq<usize>,
)
    requires
        consistent(plan, state, action, ledger, before),
        faithful(plan, state, action, events),
    ensures
        consistent(
            plan,
            run(plan, state, action, ledger, events).0,
            run(plan, state, action, ledger, events).1,
            run(plan, state, action, ledger, events).2,
            before,
        ),
    decreases events.len(),
{
    if events.len() == 0 || action is Respond {
    } else {
        let (state1, action1) = next(plan, state, events[0]);
        lemma_next_consistent(plan, state, action, ledger, events[0], before);
        lemma_run_consistent(plan, state1, action1, ledger.react(action, events[0]), events.drop_first(), before);
    }
}

/// Where a request stands after the answers `events`, from its first action
/// on, against a store that showed `before`.
pub open spec fn outcome(plan: Plan, before: Seq<usize>, events: Seq<Event>) -> (State, Action, Ledger) {
    run(plan, first(plan).0, first(plan).1, Ledger::fresh(before), events)
}

/// Whether `events` are faithful answers to a request from its first action on.
pub open spec fn conversation(plan: Plan, events: Seq<Event>) -> bool {
    faithful(plan, first(plan).0, first(plan).1, events)
}

/// The discipline holds at every point of every request, whatever the plan
/// and whatever the store answers.
pub proof fn lemma_discipline(plan: Plan, before: Seq<usize>, events: Seq<Event>)
    requires
        conversation(plan, events),
    ensures
        consistent(plan, outcome(plan, before, events).0, outcome(plan, before, events).1, outcome(
            plan,
            before,
            events,
        ).2, before),
{
    lemma_run_consistent(plan, first(plan).0, first(plan).1, Ledger::fresh(before), events, before);
}

/// Once a request has its verdict, no transaction is left open, and every
/// transaction that was opened was closed exactly once: by a commit or by a
/// rollback, never both. There is at most one.
pub proof fn lemma_closed_exactly_once(plan: Plan, before: Seq<usize>, events: Seq<Event>)
    requires
        conversation(plan, events),
        outcome(plan, before, events).1 is Respond,
    ensures
        !outcome(plan, before, events).2.open,
        outcome(plan, before, events).2.begun <= 1,
        outcome(plan, before, events).2.commits + outcome(plan, before, events).2.rollbacks == outcome(
            plan,
            before,
            events,
        ).2.begun,
{
    lemma_discipline(plan, before, events);
}

/// A request's writes become visible all together or not at all. They are
/// visible exactly where the verdict is `Done` with a write; after any other
/// verdict, and at every point before the verdict, the store shows what it
/// showed before the request.
pub proof fn lemma_all_or_nothing(plan: Plan, before: Seq<usize>, events: Seq<Event>)
    requires
        conversation(plan, events),
    ensures
        outcome(plan, before, events).1 matches Action::Respond(Verdict::Done { wrote: Some(step) })
            ==> outcome(plan, before, events).2.visible == before + outcome(plan, before, events).2.performed
            && outcome(plan, before, events).2.performed.len() > 0 && outcome(
            plan,
            before,
            events,
        ).2.performed.last() == step,
        !(outcome(plan, before, events).1 matches Action::Respond(Verdict::Done { wrote: Some(_) }))
            ==> outcome(plan, before, events).2.visible == before,
{
    lemma_discipline(plan, before, events);
}

/// Where the store fails or rejects a write, or a write is declined, or a
/// check or a read ends the request, the request is rolled back before it is
/// answered, and the store shows no change.
pub proof fn lemma_failed_write_changes_nothing(plan: Plan, before: Seq<usize>, events: Seq<Event>)
    requires
        conversation(plan, events),
        outcome(plan, before, events).1 matches Action::Respond(verdict) && (verdict is Failed
            || verdict is Conflict || verdict is Declined || verdict is CommitFailed || verdict is Missing
            || verdict is Rejected),
    ensures
        outcome(plan, before, events).2.visible == before,
        outcome(plan, before, events).2.commits == 0,
        outcome(plan, before, events).2.rollbacks == 1,
        !outcome(plan, before, events).2.open,
{
    lemma_discipline(plan, before, events);
}

/// At every point of a request, the state says whether the store holds a
/// transaction for it: a request that is given up where `holds_transaction`
/// is false leaves nothing open, and one that is given up where it is true
/// has exactly one transaction to roll back.
pub proof fn lemma_state_knows_its_transaction(plan: Plan, before: Seq<usize>, events: Seq<Event>)
    requires
        conversation(plan, events),
    ensures
        outcome(plan, before, events).0.holds_transaction() == outcome(plan, before, events).2.open,
        outcome(plan, before, events).2.open ==> outcome(plan, before, events).2.visible == before,
{
    lemma_discipline(plan, before, events);
}

/// A store that answers faithfully is never told that it was misused.
pub proof fn lemma_never_misused(plan: Plan, before: Seq<usize>, events: Seq<Event>)
    requires
        conversation(plan, events),
    ensures
        !(outcome(plan, before, events).1 matches Action::Respond(Verdict::Misused)),
{
    lemma_discipline(plan, before, events);
}

/// No step writes twice: whatever the store answers, the writes of a
/// request are performed in the order of their steps, each at most once.
/// Nothing is tried again.
pub proof fn lemma_nothing_written_twice(plan: Plan, before: Seq<usize>, events: Seq<Event>)
    requires
        conversation(plan, events),
    ensures
        in_order(outcome(plan, before, events).2.performed),
{
    lemma_discipline(plan, before, events);
    let (state, action, ledger) = outcome(plan, before, events);
    if state.phase is Beginning {
        assert(ledger.performed.len() == 0);
    }
}

/// How many answers a request may still need before it has its verdict.
pub open spec fn answers_left(plan: Plan, state: State) -> nat {
    match state.phase {
        Phase::Beginning => plan.steps@.len() + 3,
        Phase::Reading | Phase::Writing => if state.cursor < plan.steps@.len() {
            (plan.steps@.len() - state.cursor + 2) as nat
        } else {
            2
        },
        Phase::Committing => 2,
        Phase::RollingBack => 1,
        Phase::Finished => 0,
    }
}

proof fn lemma_proceed_answers_left(plan: Plan, cursor: usize, found: bool, wrote: Option<usize>)
    ensures
        answers_left(plan, proceed(plan.steps@, cursor, found, wrote).0) <= (if cursor < plan.steps@.len() {
            plan.steps@.len() - cursor + 2
        } else {
            2
        }),
    decreases plan.steps@.len() - cursor,
{
    let steps = plan.steps@;
    if cursor >= steps.len() || cursor >= usize::MAX {
    } else {
        match steps[cursor as int] {
            Step::Check { passed } => {
                if passed {
                    lemma_proceed_answers_left(plan, (cursor + 1) as usize, found, wrote);
                }
            },
            Step::Read { .. } => {},
            Step::Write { when } => {
                if !when.applies(found) {
                    lemma_proceed_answers_left(plan, (cursor + 1) as usize, found, wrote);
                }
            },
        }
    }
}

proof fn lemma_next_answers_left(plan: Plan, state: State, event: Event)
    requires
        !(state.phase is Finished),
        (state.phase is Reading || state.phase is Writing) ==> state.cursor < plan.steps@.len(),
    ensures
        answers_left(plan, next(plan, state, event).0) < answers_left(plan, state),
        (next(plan, state, event).0.phase is Reading || next(plan, state, event).0.phase is Writing)
            ==> next(plan, state, event).0.cursor < plan.steps@.len(),
{
    let cursor = state.cursor;
    lemma_plan_fits(plan);
    lemma_proceed_answers_left(plan, 0, false, None);
    lemma_proceed_answers_left(plan, following(cursor), true, state.wrote);
    lemma_proceed_answers_left(plan, following(cursor), false, state.wrote);
    lemma_proceed_answers_left(plan, following(cursor), state.found, Some(cursor));
    lemma_proceed_stays_in_plan(plan, 0, false, None);
    lemma_proceed_stays_in_plan(plan, following(cursor), true, state.wrote);
    lemma_proceed_stays_in_plan(plan, following(cursor), false, state.wrote);
    lemma_proceed_stays_in_plan(plan, following(cursor), state.found, Some(cursor));
}

proof fn lemma_proceed_stays_in_plan(plan: Plan, cursor: usize, found: bool, wrote: Option<usize>)
    ensures
        (proceed(plan.steps@, cursor, found, wrote).0.phase is Reading || proceed(
            plan.steps@,
            cursor,
            found,
            wrote,
        ).0.phase is Writing) ==> proceed(plan.steps@, cursor, found, wrote).0.cursor < plan.steps@.len(),
    decreases plan.steps@.len() - cursor,
{
    let steps = plan.steps@;
    if cursor >= steps.len() || cursor >= usize::MAX {
    } else {
        match steps[cursor as int] {
            Step::Check { passed } => {
                if passed {
                    lemma_proceed_stays_in_plan(plan, (cursor + 1) as usize, found, wrote);
                }
            },
            Step::Read { .. } => {},
            Step::Write { when } => {
                if !when.applies(found) {
                    lemma_proceed_stays_in_plan(plan, (cursor + 1) as usize, found, wrote);
                }
            },
        }
    }
}

proof fn lemma_run_answers_left(plan: Plan, state: State, action: Action, ledger: Ledger, events: Seq<Event>)
    requires
        action is Respond <==> state.phase is Finished,
        (state.phase is Reading || state.phase is Writing) ==> state.cursor < plan.steps@.len(),
        events.len() >= answers_left(plan, state),
    ensures
        run(plan, state, action, ledger, events).1 is Respond,
    decreases events.len(),
{
    if events.len() == 0 || action is Respond {
    } else {
        let (state1, action1) = next(plan, state, events[0]);
        lemma_next_answers_left(plan, state, events[0]);
        lemma_next_responds_when_finished(plan, state, events[0]);
        lemma_run_answers_left(plan, state1, action1, ledger.react(action, events[0]), events.drop_first());
    }
}

proof fn lemma_proceed_responds_when_finished(plan: Plan, cursor: usize, found: bool, wrote: Option<usize>)
    ensures
        proceed(plan.steps@, cursor, found, wrote).1 is Respond <==> proceed(
            plan.steps@,
            cursor,
            found,
            wrote,
        ).0.phase is Finished,
    decreases plan.steps@.len() - cursor,
{
    let steps = plan.steps@;
    if cursor >= steps.len() || cursor >= usize::MAX {
    } else {
        match steps[cursor as int] {
            Step::Check { passed } => {
                if passed {
                    lemma_proceed_responds_when_finished(plan, (cursor + 1) as usize, found, wrote);
                }
            },
            Step::Read { .. } => {},
            Step::Write { when } => {
                if !when.applies(found) {
                    lemma_proceed_responds_when_finished(plan, (cursor + 1) as usize, found, wrote);
                }
            },
        }
    }
}

proof fn lemma_next_responds_when_finished(plan: Plan, state: State, event: Event)
    ensures
        next(plan, state, event).1 is Respond <==> next(plan, state, event).0.phase is Finished,
{
    let cursor = state.cursor;
    lemma_proceed_responds_when_finished(plan, 0, false, None);
    lemma_proceed_responds_when_finished(plan, following(cursor), true, state.wrote);
    lemma_proceed_responds_when_finished(plan, following(cursor), false, state.wrote);
    lemma_proceed_responds_when_finished(plan, following(cursor), state.found, Some(cursor));
}

/// Every request has its verdict after at most one answer for each step of
/// its plan and three more, whatever the store answers and whether or not
/// its answers are faithful: nothing is waited for twice.
pub proof fn lemma_verdict_within(plan: Plan, before: Seq<usize>, events: Seq<Event>)
    requires
        events.len() >= plan.steps@.len() + 3,
    ensures
        outcome(plan, before, events).1 is Respond,
{
    lemma_run_answers_left(plan, first(plan).0, first(plan).1, Ledger::fresh(before), events);
}

/// Whether the step `k` of a plan is a write that is performed whenever it
/// is reached.
pub open spec fn writes_at(steps: Seq<Step>, k: int) -> bool {
    0 <= k < steps.len() && steps[k] == (Step::Write { when: Guard::Always })
}

/// Whether the steps `k` and `k + 1` of a plan are two writes of which one
/// is performed whatever the latest read found.
pub open spec fn writes_either_at(steps: Seq<Step>, k: int) -> bool {
    &&& 0 <= k
    &&& k + 1 < steps.len()
    &&& steps[k] == (Step::Write { when: Guard::IfFound })
    &&& steps[k + 1] == (Step::Write { when: Guard::IfMissing })
}

/// Whether a plan cannot be carried out without a write: it has a write
/// that is performed whenever it is reached, or two adjacent writes of which
/// one is.
pub open spec fn writes_surely(plan: Plan) -> bool {
    ||| exists|k: int| #[trigger] writes_at(plan.steps@, k)
    ||| exists|k: int| #[trigger] writes_either_at(plan.steps@, k)
}

/// Whether every write among the first `upto` steps that could not be
/// passed over has led to a write.
pub open spec fn written_upto(steps: Seq<Step>, upto: int, wrote: Option<usize>) -> bool {
    &&& forall|k: int| k < upto && #[trigger] writes_at(steps, k) ==> wrote is Some
    &&& forall|k: int| k + 1 < upto && #[trigger] writes_either_at(steps, k) ==> wrote is Some
}

/// Whether the write just before `cursor`, where it is one for a row that
/// was found, was performed.
pub open spec fn carried(steps: Seq<Step>, cursor: int, found: bool, wrote: Option<usize>) -> bool {
    1 <= cursor <= steps.len() && steps[cursor - 1] == (Step::Write { when: Guard::IfFound }) && found
        ==> wrote is Some
}

/// What holds of a request wherever it stands: no write that had to be
/// performed was passed over, and the verdict `Done` is given only past the
/// last step.
pub open spec fn thorough(plan: Plan, state: State, action: Action) -> bool {
    let steps = plan.steps@;
    match state.phase {
        Phase::Beginning => true,
        Phase::Reading | Phase::Writing => {
            &&& written_upto(steps, state.cursor as int, state.wrote)
            &&& carried(steps, state.cursor as int, state.found, state.wrote)
        },
        Phase::Committing => state.wrote is Some,
        Phase::RollingBack => state.verdict matches Some(Verdict::Done { wrote }) ==> written_upto(
            steps,
            steps.len() as int,
            wrote,
        ),
        Phase::Finished => action matches Action::Respond(Verdict::Done { wrote }) ==> written_upto(
            steps,
            steps.len() as int,
            wrote,
        ),
    }
}

proof fn lemma_proceed_thorough(plan: Plan, cursor: usize, found: bool, wrote: Option<usize>)
    requires
        written_upto(plan.steps@, cursor as int, wrote),
        carried(plan.steps@, cursor as int, found, wrote),
    ensures
        thorough(
            plan,
            proceed(plan.steps@, cursor, found, wrote).0,
            proceed(plan.steps@, cursor, found, wrote).1,
        ),
    decreases plan.steps@.len() - cursor,
{
    let steps = plan.steps@;
    lemma_plan_fits(plan);
    if cursor >= steps.len() || cursor >= usize::MAX {
        assert(written_upto(steps, steps.len() as int, wrote));
    } else {
        match steps[cursor as int] {
            Step::Check { passed } => {
                if passed {
                    assert(written_upto(steps, cursor + 1, wrote)) by {
                        assert(!writes_at(steps, cursor as int));
                        assert(!writes_either_at(steps, cursor - 1));
                    }
                    lemma_proceed_thorough(plan, (cursor + 1) as usize, found, wrote);
                }
            },
            Step::Read { .. } => {},
            Step::Write { when } => {
                if !when.applies(found) {
                    assert(written_upto(steps, cursor + 1, wrote)) by {
                        assert(!writes_at(steps, cursor as int));
                        if writes_either_at(steps, cursor - 1) {
                            assert(found);
                            assert(wrote is Some);
                        }
                    }
                    lemma_proceed_thorough(plan, (cursor + 1) as usize, found, wrote);
                }
            },
        }
    }
}

proof fn lemma_next_thorough(plan: Plan, state: State, action: Action, event: Event)
    requires
        thorough(plan, state, action),
        action is Respond <==> state.phase is Finished,
    ensures
        thorough(plan, next(plan, state, event).0, next(plan, state, event).1),
{
    let steps = plan.steps@;
    let cursor = state.cursor;
    lemma_plan_fits(plan);
    match state.phase {
        Phase::Beginning => {
            lemma_proceed_thorough(plan, 0, false, None);
        },
        Phase::Reading => {
            if cursor < steps.len() && steps[cursor as int] is Read {
                assert(!writes_at(steps, cursor as int));
                assert(!writes_either_at(steps, cursor - 1));
                lemma_proceed_thorough(plan, following(cursor), true, state.wrote);
                lemma_proceed_thorough(plan, following(cursor), false, state.wrote);
            }
        },
        Phase::Writing => {
            lemma_proceed_thorough(plan, following(cursor), state.found, Some(cursor));
        },
        Phase::Committing => {},
        Phase::RollingBack => {},
        Phase::Finished => {},
    }
}

proof fn lemma_run_thorough(plan: Plan, state: State, action: Action, ledger: Ledger, events: Seq<Event>)
    requires
        thorough(plan, state, action),
        action is Respond <==> state.phase is Finished,
    ensures
        thorough(
            plan,
            run(plan, state, action, ledger, events).0,
            run(plan, state, action, ledger, events).1,
        ),
        run(plan, state, action, ledger, events).1 is Respond <==> run(
            plan,
            state,
            action,
            ledger,
            events,
        ).0.phase is Finished,
    decreases events.len(),
{
    if events.len() == 0 || action is Respond {
    } else {
        let (state1, action1) = next(plan, state, events[0]);
        lemma_next_thorough(plan, state, action, events[0]);
        lemma_next_responds_when_finished(plan, state, events[0]);
        lemma_run_thorough(plan, state1, action1, ledger.react(action, events[0]), events.drop_first());
    }
}

/// A request whose plan cannot be carried out without a write is not done
/// before it has written, whatever the store answers.
pub proof fn lemma_done_has_written(plan: Plan, before: Seq<usize>, events: Seq<Event>)
    requires
        writes_surely(plan),
        outcome(plan, before, events).1 matches Action::Respond(Verdict::Done { .. }),
    ensures
        outcome(plan, before, events).1 matches Action::Respond(Verdict::Done { wrote }) && wrote is Some,
{
    lemma_run_thorough(plan, first(plan).0, first(plan).1, Ledger::fresh(before), events);
    if exists|k: int| #[trigger] writes_at(plan.steps@, k) {
        let k = choose|k: int| #[trigger] writes_at(plan.steps@, k);
        assert(writes_at(plan.steps@, k));
    } else {
        let k = choose|k: int| #[trigger] writes_either_at(plan.steps@, k);
        assert(writes_either_at(plan.steps@, k));
    }
}

/// For a plan that cannot be carried out without a write, the verdict
/// `Done` means that the store has committed: every write of the request is
/// visible, and the one transaction of the request was closed by its commit.
pub proof fn lemma_done_is_committed(plan: Plan, before: Seq<usize>, events: Seq<Event>)
    requires
        conversation(plan, events),
        writes_surely(plan),
        outcome(plan, before, events).1 matches Action::Respond(Verdict::Done { .. }),
    ensures
        outcome(plan, before, events).2.commits == 1,
        outcome(plan, before, events).2.rollbacks == 0,
        outcome(plan, before, events).2.performed.len() > 0,
        outcome(plan, before, events).2.visible == before + outcome(plan, before, events).2.performed,
{
    lemma_done_has_written(plan, before, events);
    lemma_discipline(plan, before, events);
}

} // verus!
