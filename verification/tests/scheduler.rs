use swarmd::agency::{assignment_triples, plan_assignment, plan_tick, Assignment};
use swarmd::store::StoreModel;

fn binding(key: &str, value: &str) -> (String, Option<String>) {
    (key.to_string(), Some(value.to_string()))
}

#[test]
fn assigns_pending_task_to_standby_agent() {
    // Task T1 "Write spec" in REQUIREMENTS, agent A1 on standby.
    let mut store = StoreModel::empty();
    let seed = vec![
        swarmd::store::Triple::new(
            "http://swarm.os/trello/card/T1".to_string(),
            "http://swarm.os/ontology/internalState".to_string(),
            "\"REQUIREMENTS\"".to_string(),
        ),
        swarmd::store::Triple::new(
            "http://swarm.os/agent/A1".to_string(),
            "http://swarm.os/ontology/status".to_string(),
            "\"Standby\"".to_string(),
        ),
    ];
    store.ingest(&seed);

    let rows = vec![vec![
        binding("?task", "<http://swarm.os/trello/card/T1>"),
        binding("?title", "\"Write spec\""),
        binding("?agent", "<http://swarm.os/agent/A1>"),
    ]];
    let assignment = plan_assignment(&rows).expect("both task and agent exist");
    assert_eq!(assignment.task_id, "http://swarm.os/trello/card/T1");
    assert_eq!(assignment.title, "Write spec");
    assert_eq!(assignment.agent_id, "http://swarm.os/agent/A1");

    let batch = assignment_triples(&assignment);
    store.ingest(&batch);

    // One tick: task PROCESSING, agent Working, launch argument is the title.
    let state = store
        .value_of("http://swarm.os/trello/card/T1", "http://swarm.os/ontology/internalState")
        .unwrap();
    assert_eq!(state, "\"PROCESSING\"");
    let status = store
        .value_of("http://swarm.os/agent/A1", "http://swarm.os/ontology/status")
        .unwrap();
    assert_eq!(status, "\"Working on: Write spec\"");
    let launch_argument = assignment.title;
    assert_eq!(launch_argument, "Write spec");
}

#[test]
fn processing_and_working_written_in_one_batch() {
    let assignment = Assignment {
        task_id: "http://swarm.os/trello/card/T1".to_string(),
        title: "Write spec".to_string(),
        agent_id: "http://swarm.os/agent/A1".to_string(),
    };
    let batch = assignment_triples(&assignment);
    // Both transitions stand in the same ingest batch, task first.
    assert_eq!(batch.len(), 2);
    assert_eq!(batch[0].subject, "http://swarm.os/trello/card/T1");
    assert_eq!(batch[0].predicate, "http://swarm.os/ontology/internalState");
    assert_eq!(batch[0].object, "\"PROCESSING\"");
    assert_eq!(batch[1].subject, "http://swarm.os/agent/A1");
    assert_eq!(batch[1].predicate, "http://swarm.os/ontology/status");
    assert_eq!(batch[1].object, "\"Working on: Write spec\"");
}

#[test]
fn assigned_task_is_no_longer_open() {
    // Exclusivity across back-to-back ticks: after the first tick's batch
    // is applied, the task's state is PROCESSING, which a query for open
    // tasks can never return again.
    let mut store = StoreModel::empty();
    let assignment = Assignment {
        task_id: "http://swarm.os/trello/card/T1".to_string(),
        title: "Write spec".to_string(),
        agent_id: "http://swarm.os/agent/A1".to_string(),
    };
    let batch = assignment_triples(&assignment);
    store.ingest(&batch);
    let state = store
        .value_of("http://swarm.os/trello/card/T1", "http://swarm.os/ontology/internalState")
        .unwrap();
    assert_eq!(state, "\"PROCESSING\"");
    assert_ne!(state, "\"REQUIREMENTS\"");
}

#[test]
fn plan_tick_reads_query_answer_json() {
    let body = r#"[{"?task": "<http://swarm.os/trello/card/T1>",
                    "?title": "\"Write spec\"",
                    "?agent": "<http://swarm.os/agent/A1>"}]"#;
    let (assignment, batch) = plan_tick(body).expect("answer names a pair");
    assert_eq!(assignment.task_id, "http://swarm.os/trello/card/T1");
    assert_eq!(assignment.title, "Write spec");
    assert_eq!(batch.len(), 2);
    assert_eq!(batch[1].object, "\"Working on: Write spec\"");
}

#[test]
fn plan_tick_accepts_bare_key_form() {
    let body = r#"[{"task": "<t>", "title": "\"T\"", "agent": "<a>"}]"#;
    let (assignment, _) = plan_tick(body).expect("bare keys are tolerated");
    assert_eq!(assignment.task_id, "t");
    assert_eq!(assignment.title, "T");
    assert_eq!(assignment.agent_id, "a");
}

#[test]
fn plan_tick_without_candidates_does_nothing() {
    assert!(plan_tick("[]").is_none());
    assert!(plan_tick(r#"[{"?task": "<t>"}]"#).is_none());
    assert!(plan_tick("not json at all").is_none());
}
