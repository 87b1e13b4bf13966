//! The decisions of one patch request: guard that the ship exists, then
//! build and execute the statement.
//!
//! The library makes no call to the store. The caller performs each action
//! and hands back what the store answered as the next event.

use vstd::prelude::*;
use vstd::string::StringExecFns;
use crate::builder::{build_update, update_plan, Statement, StatementView, UpdatePlan};
use crate::patch::{BindValue, BoundValue, FieldView, ShipUpdate};

verus! {

/// Where a patch request stands.
#[derive(Debug, Clone, Copy, PartialEq, Eq)]
pub enum FlowState {
    /// Nothing has been asked of the store yet.
    Start,
    /// The existence query is under way.
    Checking,
    /// The ship exists and the update statement is under way.
    Executing,
    /// The request has been answered.
    Done,
    /// The request has been turned down: no ship has the lookup key.
    Rejected,
}

/// What the existence query reported.
#[derive(Debug, Clone, Copy, PartialEq, Eq)]
pub enum Lookup {
    /// A ship has the lookup key.
    Exists,
    /// No ship has the lookup key.
    Absent,
    /// The store could not answer.
    Failed,
}

/// What the execution of the update statement reported.
#[derive(Debug, Clone, Copy, PartialEq, Eq)]
pub enum Execution {
    /// The statement ran and changed this many rows.
    Completed { rows_affected: u64 },
    /// The store could not run the statement.
    Failed,
}

/// What the caller reports to the flow.
#[derive(Debug, Clone, Copy, PartialEq, Eq)]
pub enum Event {
    /// The request has arrived.
    Begin,
    /// The existence query has been answered.
    Lookup(Lookup),
    /// The update statement has been answered.
    Executed(Execution),
}

/// How a patch request ended.
#[derive(Debug, Clone, Copy, PartialEq, Eq)]
pub enum Outcome {
    /// The statement ran. A ship that vanished after the guard saw it leaves
    /// zero rows changed, which is no failure.
    Updated { rows_affected: u64 },
    /// The patch supplied no column, so the store was not written to.
    NoFieldsUpdated,
    /// No ship has the lookup key.
    NotFound,
    /// The store failed, during the guard or during the update.
    StoreError,
}

/// What the caller has to do next.
#[derive(Debug, Clone, PartialEq)]
pub enum Action<'a> {
    /// Run the existence query and report a `Lookup`.
    CheckExists(Statement<'a>),
    /// Run the update statement and report an `Execution`.
    Execute(Statement<'a>),
    /// Answer the request.
    Respond(Outcome),
}

/// What an action is, in contracts.
pub ghost enum ActionView {
    CheckExists(StatementView),
    Execute(StatementView),
    Respond(Outcome),
}

impl<'a> View for Action<'a> {
    type V = ActionView;

    open spec fn view(&self) -> ActionView {
        match *self {
            Action::CheckExists(statement) => ActionView::CheckExists(statement@),
            Action::Execute(statement) => ActionView::Execute(statement@),
            Action::Respond(outcome) => ActionView::Respond(outcome),
        }
    }
}

/// One step of the flow: the state it leads to and what to do there.
#[derive(Debug, Clone, PartialEq)]
pub struct Transition<'a> {
    pub next: FlowState,
    pub action: Action<'a>,
}

/// What a transition is, in contracts.
pub ghost struct TransitionView {
    pub next: FlowState,
    pub action: ActionView,
}

impl<'a> View for Transition<'a> {
    type V = TransitionView;

    open spec fn view(&self) -> TransitionView {
        TransitionView { next: self.next, action: self.action@ }
    }
}

/// What a step returns, in contracts.
pub open spec fn transition_view<'a>(next: Option<Transition<'a>>) -> Option<TransitionView> {
    match next {
        Some(t) => Some(t@),
        None => None,
    }
}

/// The existence query for the ship named `key`.
pub open spec fn exists_query(key: Seq<char>) -> StatementView {
    StatementView {
        sql: "SELECT EXISTS(SELECT 1 FROM ships WHERE name = $1)"@,
        params: seq![BoundValue::Text(key)],
    }
}

/// What the flow decides after the guard found the ship: nothing to write
/// for a patch that supplies no column, else the update statement.
pub open spec fn after_exists(key: Seq<char>, patch: Seq<FieldView>) -> TransitionView {
    match update_plan(patch, key) {
        None => TransitionView {
            next: FlowState::Done,
            action: ActionView::Respond(Outcome::NoFieldsUpdated),
        },
        Some(statement) => TransitionView {
            next: FlowState::Executing,
            action: ActionView::Execute(statement),
        },
    }
}

/// The flow: which events each state accepts, and what follows.
pub open spec fn step_spec(
    state: FlowState,
    event: Event,
    key: Seq<char>,
    patch: Seq<FieldView>,
) -> Option<TransitionView> {
    match (state, event) {
        (FlowState::Start, Event::Begin) => Some(
            TransitionView {
                next: FlowState::Checking,
                action: ActionView::CheckExists(exists_query(key)),
            },
        ),
        (FlowState::Checking, Event::Lookup(Lookup::Exists)) => Some(after_exists(key, patch)),
        (FlowState::Checking, Event::Lookup(Lookup::Absent)) => Some(
            TransitionView {
                next: FlowState::Rejected,
                action: ActionView::Respond(Outcome::NotFound),
            },
        ),
        (FlowState::Checking, Event::Lookup(Lookup::Failed)) => Some(
            TransitionView {
                next: FlowState::Done,
                action: ActionView::Respond(Outcome::StoreError),
            },
        ),
        (FlowState::Executing, Event::Executed(Execution::Completed { rows_affected })) => Some(
            TransitionView {
                next: FlowState::Done,
                action: ActionView::Respond(Outcome::Updated { rows_affected }),
            },
        ),
        (FlowState::Executing, Event::Executed(Execution::Failed)) => Some(
            TransitionView {
                next: FlowState::Done,
                action: ActionView::Respond(Outcome::StoreError),
            },
        ),
        _ => None,
    }
}

/// The existence query for the ship named `key`.
pub fn build_exists_query<'a>(key: &'a str) -> (statement: Statement<'a>)
    ensures
        statement@ == exists_query(key@),
{
    let sql = String::from_str("SELECT EXISTS(SELECT 1 FROM ships WHERE name = $1)");
    let mut params: Vec<BindValue<'a>> = Vec::new();
    params.push(BindValue::Text(key));
    assert(crate::patch::bound_values(params@) =~= seq![BoundValue::Text(key@)]);
    Statement { sql, params }
}

/// Takes one step of the patch request for the ship named `key`.
///
/// Returns `None` where `state` does not accept `event`: the flow has ended,
/// or the event answers an action that was not asked for.
pub fn step<'a>(state: FlowState, event: Event, key: &'a str, patch: &'a ShipUpdate) -> (next:
    Option<Transition<'a>>)
    ensures
        transition_view(next) == step_spec(state, event, key@, patch@),
{
    match state {
        FlowState::Start => match event {
            Event::Begin => Some(
                Transition {
                    next: FlowState::Checking,
                    action: Action::CheckExists(build_exists_query(key)),
                },
            ),
            _ => None,
        },
        FlowState::Checking => match event {
            Event::Lookup(Lookup::Exists) => match build_update(key, patch) {
                UpdatePlan::NoOp => Some(
                    Transition {
                        next: FlowState::Done,
                        action: Action::Respond(Outcome::NoFieldsUpdated),
                    },
                ),
                UpdatePlan::Execute(statement) => Some(
                    Transition { next: FlowState::Executing, action: Action::Execute(statement) },
                ),
            },
            Event::Lookup(Lookup::Absent) => Some(
                Transition {
                    next: FlowState::Rejected,
                    action: Action::Respond(Outcome::NotFound),
                },
            ),
            Event::Lookup(Lookup::Failed) => Some(
                Transition { next: FlowState::Done, action: Action::Respond(Outcome::StoreError) },
            ),
            _ => None,
        },
        FlowState::Executing => match event {
            Event::Executed(Execution::Completed { rows_affected }) => Some(
                Transition {
                    next: FlowState::Done,
                    action: Action::Respond(Outcome::Updated { rows_affected }),
                },
            ),
            Event::Executed(Execution::Failed) => Some(
                Transition { next: FlowState::Done, action: Action::Respond(Outcome::StoreError) },
            ),
            _ => None,
        },
        FlowState::Done => None,
        FlowState::Rejected => None,
    }
}

/// The actions that the flow asks for, in order, when it starts in `state`
/// and is told `events` one after the other. It stops at the first event
/// that its state does not accept.
pub open spec fn run(state: FlowState, events: Seq<Event>, key: Seq<char>, patch: Seq<FieldView>) -> Seq<
    ActionView,
>
    decreases events.len(),
{
    if events.len() == 0 {
        Seq::empty()
    } else {
        match step_spec(state, events[0], key, patch) {
            None => Seq::empty(),
            Some(t) => seq![t.action] + run(t.next, events.drop_first(), key, patch),
        }
    }
}

/// Whether any of the actions hands a statement to the store to execute.
pub open spec fn writes_to_store(actions: Seq<ActionView>) -> bool {
    exists|i: int| 0 <= i < actions.len() && (#[trigger] actions[i]) is Execute
}

/// The guard turns an absent ship down at once, and the flow ends there: no
/// statement is built, and no event is accepted any more.
pub proof fn lemma_absent_is_rejected(key: Seq<char>, patch: Seq<FieldView>)
    ensures
        step_spec(FlowState::Checking, Event::Lookup(Lookup::Absent), key, patch) == Some(
            TransitionView {
                next: FlowState::Rejected,
                action: ActionView::Respond(Outcome::NotFound),
            },
        ),
        forall|event: Event| step_spec(FlowState::Rejected, event, key, patch) is None,
        forall|event: Event| step_spec(FlowState::Done, event, key, patch) is None,
{
}

/// A statement is handed out for execution at one point only: in answer to
/// a guard that found the ship, and then it is the statement of the patch.
pub proof fn lemma_execute_only_after_guard(
    state: FlowState,
    event: Event,
    key: Seq<char>,
    patch: Seq<FieldView>,
)
    requires
        step_spec(state, event, key, patch) is Some,
        step_spec(state, event, key, patch)->Some_0.action is Execute,
    ensures
        state == FlowState::Checking,
        event == Event::Lookup(Lookup::Exists),
        update_plan(patch, key) == Some(
            step_spec(state, event, key, patch)->Some_0.action->Execute_0,
        ),
        step_spec(state, event, key, patch)->Some_0.next == FlowState::Executing,
{
}

/// A request is answered at most once, and the answer is the last thing the
/// flow asks for: whatever is reported after it is not accepted.
pub proof fn lemma_answer_comes_last(
    state: FlowState,
    events: Seq<Event>,
    key: Seq<char>,
    patch: Seq<FieldView>,
)
    ensures
        run(state, events, key, patch).len() <= events.len(),
        forall|i: int|
            0 <= i < run(state, events, key, patch).len() && (#[trigger] run(
                state,
                events,
                key,
                patch,
            )[i]) is Respond ==> i == run(state, events, key, patch).len() - 1,
    decreases events.len(),
{
    if events.len() > 0 {
        match step_spec(state, events[0], key, patch) {
            None => {},
            Some(t) => {
                let rest = events.drop_first();
                lemma_answer_comes_last(t.next, rest, key, patch);
                let tail = run(t.next, rest, key, patch);
                let all = run(state, events, key, patch);
                if t.action is Respond {
                    assert(t.next == FlowState::Done || t.next == FlowState::Rejected);
                    if rest.len() > 0 {
                        assert(step_spec(t.next, rest[0], key, patch) is None);
                    }
                    assert(tail.len() == 0);
                }
                assert forall|i: int| 0 <= i < all.len() && (#[trigger] all[i]) is Respond implies i
                    == all.len() - 1 by {
                    if i > 0 {
                        assert(all[i] == tail[i - 1]);
                    }
                }
            },
        }
    }
}

/// Whatever the store answers, a request whose guard never reports that the
/// ship exists hands no statement out for execution.
pub proof fn lemma_no_write_without_ship(
    state: FlowState,
    events: Seq<Event>,
    key: Seq<char>,
    patch: Seq<FieldView>,
)
    requires
        forall|i: int| 0 <= i < events.len() ==> events[i] != Event::Lookup(Lookup::Exists),
    ensures
        !writes_to_store(run(state, events, key, patch)),
    decreases events.len(),
{
    if events.len() > 0 {
        match step_spec(state, events[0], key, patch) {
            None => {},
            Some(t) => {
                let rest = events.drop_first();
                assert forall|i: int| 0 <= i < rest.len() implies rest[i] != Event::Lookup(
                    Lookup::Exists,
                ) by {
                    assert(rest[i] == events[i + 1]);
                }
                lemma_no_write_without_ship(t.next, rest, key, patch);
                let tail = run(t.next, rest, key, patch);
                let all = run(state, events, key, patch);
                assert forall|i: int| 0 <= i < all.len() implies !((#[trigger] all[i]) is Execute) by {
                    if i > 0 {
                        assert(all[i] == tail[i - 1]);
                    }
                }
            },
        }
    }
}

/// Whatever the store answers, a request whose patch supplies no column
/// hands no statement out for execution.
pub proof fn lemma_empty_patch_never_writes(
    state: FlowState,
    events: Seq<Event>,
    key: Seq<char>,
    patch: Seq<FieldView>,
)
    requires
        forall|i: int| 0 <= i < patch.len() ==> (#[trigger] patch[i]).value is None,
    ensures
        !writes_to_store(run(state, events, key, patch)),
    decreases events.len(),
{
    crate::builder::lemma_noop_iff_nothing_supplied(patch, key);
    if events.len() > 0 {
        match step_spec(state, events[0], key, patch) {
            None => {},
            Some(t) => {
                let rest = events.drop_first();
                lemma_empty_patch_never_writes(t.next, rest, key, patch);
                let tail = run(t.next, rest, key, patch);
                let all = run(state, events, key, patch);
                assert forall|i: int| 0 <= i < all.len() implies !((#[trigger] all[i]) is Execute) by {
                    if i > 0 {
                        assert(all[i] == tail[i - 1]);
                    }
                }
            },
        }
    }
}

} // verus!
