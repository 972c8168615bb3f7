//! The reconciliation scheduler's decision logic.
//!
//! Each tick queries the store for one open task and one standby agent.
//! From the query's answer rows this module plans the tick: the selected
//! assignment, and the one ingest batch that moves the task to PROCESSING
//! and the agent to working — together, before any execution is launched.
//! The proofs at the end state the tick's two guarantees: the transition is
//! atomic in one batch, and a task moved to PROCESSING can never be
//! selected again by a later tick.

use vstd::prelude::*;
use crate::rows::{Row, RowModel, clean_opt_model, clean_val, row_get, row_get_model};
use crate::store::{store_apply, FactModel, Triple};
use crate::wire::{parse_rows, rows_of_json};

verus! {

pub open spec fn state_predicate() -> Seq<char> {
    "http://swarm.os/ontology/internalState"@
}

pub open spec fn status_predicate() -> Seq<char> {
    "http://swarm.os/ontology/status"@
}

pub open spec fn title_predicate() -> Seq<char> {
    "http://swarm.os/ontology/title"@
}

pub open spec fn task_class() -> Seq<char> {
    "http://swarm.os/ontology/Task"@
}

pub open spec fn processing_object() -> Seq<char> {
    "\"PROCESSING\""@
}

pub open spec fn done_object() -> Seq<char> {
    "\"DONE\""@
}

pub open spec fn failed_object() -> Seq<char> {
    "\"FAILED\""@
}

pub open spec fn standby_object() -> Seq<char> {
    "\"Standby\""@
}

/// The status object an agent holds while bound to a task of this title.
pub open spec fn working_object(title: Seq<char>) -> Seq<char> {
    "\"Working on: "@ + title + "\""@
}

/// A task object is open when it is neither processing nor terminal; only
/// open tasks are eligible for assignment.
pub open spec fn is_open_object(o: Seq<char>) -> bool {
    o != processing_object() && o != done_object() && o != failed_object()
}

/// The store holds `task` as an open task.
pub open spec fn task_open_in(
    store: Map<(Seq<char>, Seq<char>), Seq<char>>,
    task: Seq<char>,
) -> bool {
    store.contains_key((task, state_predicate())) && is_open_object(
        store[(task, state_predicate())],
    )
}

/// The store holds `agent` on standby.
pub open spec fn agent_standby_in(
    store: Map<(Seq<char>, Seq<char>), Seq<char>>,
    agent: Seq<char>,
) -> bool {
    store.contains_key((agent, status_predicate())) && store[(agent, status_predicate())]
        == standby_object()
}

/// One planned assignment: (task id, task title, agent id), each already
/// stripped of its wire wrapping.
pub type AssignmentModel = (Seq<char>, Seq<char>, Seq<char>);

/// The assignment a tick makes from the query's answer rows: the first
/// row's task, title and agent bindings, if all three are present.
pub open spec fn plan_model(rows: Seq<RowModel>) -> Option<AssignmentModel> {
    if rows.len() == 0 {
        None
    } else {
        match (
            row_get_model(rows[0], "task"@),
            row_get_model(rows[0], "title"@),
            row_get_model(rows[0], "agent"@),
        ) {
            (Some(t), Some(ti), Some(a)) => Some(
                (clean_opt_model(t), clean_opt_model(ti), clean_opt_model(a)),
            ),
            _ => None,
        }
    }
}

/// The one ingest batch of a tick: the task's move to PROCESSING and the
/// agent's move to working, in this order, in the same call.
pub open spec fn assignment_batch_model(am: AssignmentModel) -> Seq<FactModel> {
    seq![
        (am.0, state_predicate(), processing_object()),
        (am.2, status_predicate(), working_object(am.1)),
    ]
}

/// The answer rows are sound for a store when the row the tick would select
/// names an open task and a standby agent — what the store's query promises.
pub open spec fn sound_answer(
    store: Map<(Seq<char>, Seq<char>), Seq<char>>,
    rows: Seq<RowModel>,
) -> bool {
    match plan_model(rows) {
        Some(am) => task_open_in(store, am.0) && agent_standby_in(store, am.2),
        None => true,
    }
}

/// The assignment one scheduler tick selects.
pub struct Assignment {
    pub task_id: String,
    pub title: String,
    pub agent_id: String,
}

impl View for Assignment {
    type V = AssignmentModel;

    open spec fn view(&self) -> AssignmentModel {
        (self.task_id@, self.title@, self.agent_id@)
    }
}

/// Selects the tick's assignment from the query's answer rows: the first
/// row must bind task, title and agent; each value is taken cleaned.
pub fn plan_assignment(rows: &Vec<Row>) -> (r: Option<Assignment>)
    ensures
        r is Some <==> plan_model(rows.deep_view()) is Some,
        r is Some ==> r.unwrap()@ == plan_model(rows.deep_view()).unwrap(),
{
    if rows.len() == 0 {
        return None;
    }
    let row = &rows[0];
    proof {
        assert(rows.deep_view()[0] == rows[0].deep_view());
    }
    let t = row_get(row, "task");
    let ti = row_get(row, "title");
    let a = row_get(row, "agent");
    match (t, ti, a) {
        (Some(tv), Some(tiv), Some(av)) => {
            let task_id = clean_val(&tv);
            let title = clean_val(&tiv);
            let agent_id = clean_val(&av);
            Some(Assignment { task_id, title, agent_id })
        },
        _ => None,
    }
}

/// Builds the tick's single ingest batch for an assignment.
pub fn assignment_triples(a: &Assignment) -> (r: Vec<Triple>)
    ensures
        r@.map_values(|t: Triple| t@) == assignment_batch_model(a@),
{
    let mut out: Vec<Triple> = Vec::new();
    out.push(
        Triple::new(
            a.task_id.clone(),
            String::from_str("http://swarm.os/ontology/internalState"),
            String::from_str("\"PROCESSING\""),
        ),
    );
    let status = String::from_str("\"Working on: ").concat(a.title.as_str()).concat("\"");
    out.push(
        Triple::new(a.agent_id.clone(), String::from_str("http://swarm.os/ontology/status"), status),
    );
    proof {
        assert(out@.map_values(|t: Triple| t@) =~= assignment_batch_model(a@));
    }
    out
}

/// Plans one scheduler tick from the query answer's JSON text: the
/// assignment selected and the one batch to ingest before launching an
/// execution bound to the assignment's title. `None` when the answer is
/// malformed or names no (task, agent) pair — the tick then does nothing.
pub fn plan_tick(res_json: &str) -> (r: Option<(Assignment, Vec<Triple>)>)
    ensures
        match rows_of_json(res_json@) {
            Some(rows) => match plan_model(rows) {
                Some(am) => {
                    &&& r is Some
                    &&& r.unwrap().0@ == am
                    &&& r.unwrap().1@.map_values(|t: Triple| t@) == assignment_batch_model(am)
                },
                None => r is None,
            },
            None => r is None,
        },
{
    let rows = match parse_rows(res_json) {
        Some(rows) => rows,
        None => {
            return None;
        },
    };
    match plan_assignment(&rows) {
        Some(a) => {
            let batch = assignment_triples(&a);
            Some((a, batch))
        },
        None => None,
    }
}

/// Applying a tick's batch moves the task and the agent together: in the
/// store state reached by the one ingest call, the task is PROCESSING and
/// the agent's status is the working text — never PROCESSING beside a
/// still-standby agent, whatever state the store held before.
pub proof fn lemma_assignment_atomic(
    store: Map<(Seq<char>, Seq<char>), Seq<char>>,
    am: AssignmentModel,
)
    ensures
        store_apply(store, assignment_batch_model(am)).contains_key((am.0, state_predicate())),
        store_apply(store, assignment_batch_model(am))[(am.0, state_predicate())]
            == processing_object(),
        store_apply(store, assignment_batch_model(am)).contains_key((am.2, status_predicate())),
        store_apply(store, assignment_batch_model(am))[(am.2, status_predicate())]
            == working_object(am.1),
        store_apply(store, assignment_batch_model(am))[(am.2, status_predicate())]
            != standby_object(),
{
    let t1 = (am.0, state_predicate(), processing_object());
    let t2 = (am.2, status_predicate(), working_object(am.1));
    let batch = assignment_batch_model(am);
    assert(batch.last() == t2);
    assert(batch.drop_last() =~= seq![t1]);
    assert(store_apply(store, batch) == store_apply(store, batch.drop_last()).insert(
        (t2.0, t2.1),
        t2.2,
    ));
    assert(seq![t1].last() == t1);
    assert(seq![t1].drop_last() =~= Seq::<FactModel>::empty());
    assert(store_apply(store, seq![t1]) == store_apply(
        store,
        Seq::<FactModel>::empty(),
    ).insert((t1.0, t1.1), t1.2));
    assert(store_apply(store, Seq::<FactModel>::empty()) == store);
    assert(store_apply(store, batch) == store.insert(
        (am.0, state_predicate()),
        processing_object(),
    ).insert((am.2, status_predicate()), working_object(am.1)));
    reveal_strlit("http://swarm.os/ontology/internalState");
    reveal_strlit("http://swarm.os/ontology/status");
    assert(state_predicate().len() == 38);
    assert(status_predicate().len() == 31);
    assert(state_predicate() != status_predicate());
    assert((am.0, state_predicate()) != (am.2, status_predicate()));
    reveal_strlit("\"Working on: ");
    reveal_strlit("\"");
    reveal_strlit("\"Standby\"");
    assert(working_object(am.1).len() >= 14);
    assert(standby_object().len() == 9);
}

/// Exclusivity of assignment: once a tick's batch is applied, the task is
/// no longer open, so the sound answer of any later query can never select
/// that task again — two back-to-back ticks never assign the same task.
pub proof fn lemma_assignment_exclusive(
    store: Map<(Seq<char>, Seq<char>), Seq<char>>,
    am: AssignmentModel,
    rows2: Seq<RowModel>,
)
    requires
        sound_answer(store_apply(store, assignment_batch_model(am)), rows2),
    ensures
        !task_open_in(store_apply(store, assignment_batch_model(am)), am.0),
        plan_model(rows2) is Some ==> plan_model(rows2).unwrap().0 != am.0,
{
    lemma_assignment_atomic(store, am);
    let store2 = store_apply(store, assignment_batch_model(am));
    assert(!is_open_object(processing_object()));
    if plan_model(rows2) is Some {
        let bm = plan_model(rows2).unwrap();
        assert(task_open_in(store2, bm.0));
        if bm.0 == am.0 {
            assert(is_open_object(store2[(am.0, state_predicate())]));
            assert(false);
        }
    }
}

} // verus!
