use swarmd::discovery::{agent_triples, repo_triples};
use swarmd::projection::{project_board, project_status, project_tasks};
use swarmd::rows::{clean_val, row_get};

#[test]
fn status_projection_defaults_and_bindings() {
    assert_eq!(project_status(r#"[{"status": "HALTED"}]"#), "HALTED");
    assert_eq!(project_status(r#"[{"?status": "DEGRADED"}]"#), "DEGRADED");
    // The last row wins.
    assert_eq!(
        project_status(r#"[{"status": "HALTED"}, {"status": "OPERATIONAL"}]"#),
        "OPERATIONAL"
    );
    // A non-string binding reads as UNKNOWN.
    assert_eq!(project_status(r#"[{"status": 5}]"#), "UNKNOWN");
    // No rows, no binding, or a malformed answer: the default stands.
    assert_eq!(project_status("[]"), "OPERATIONAL");
    assert_eq!(project_status(r#"[{"other": "x"}]"#), "OPERATIONAL");
    assert_eq!(project_status("not json"), "OPERATIONAL");
}

#[test]
fn task_projection_cleans_and_falls_back() {
    let body = r#"[
        {"id": "<http://swarm.os/trello/card/write-the-spec>", "state": "\"TODO\""},
        {"id": "<t2>", "state": "\"DESIGN\"", "title": "\"Named task\""},
        {"state": "\"TODO\""}
    ]"#;
    let tasks = project_tasks(body);
    assert_eq!(tasks.len(), 2);
    assert_eq!(tasks[0].id, "http://swarm.os/trello/card/write-the-spec");
    assert_eq!(tasks[0].status, "TODO");
    // The fallback title is the identifier's tail, dashes read as spaces.
    assert_eq!(tasks[0].title, "write the spec");
    assert_eq!(tasks[1].id, "t2");
    assert_eq!(tasks[1].title, "Named task");
    assert_eq!(project_tasks("broken").len(), 0);
}

#[test]
fn board_projection_groups_and_dedups() {
    let body = r#"[
        {"repo": "<http://swarm.os/repository/alpha>", "repoName": "\"Alpha\"",
         "agent": "<http://swarm.os/agent/A1>", "agentName": "\"First\"",
         "agentClass": "\"Coder\"", "agentStatus": "\"Standby\""},
        {"repo": "<http://swarm.os/repository/alpha>", "repoName": "\"Alpha\"",
         "agent": "<http://swarm.os/agent/A2>", "agentName": "\"Second\"",
         "agentClass": "\"Analyst\"", "agentStatus": "\"Standby\""},
        {"repo": "<http://swarm.os/repository/alpha>", "repoName": "\"Alpha\"",
         "agent": "<http://swarm.os/agent/A1>", "agentName": "\"First\"",
         "agentClass": "\"Coder\"", "agentStatus": "\"Standby\""},
        {"repo": "<http://swarm.os/repository/beta>", "repoName": "\"Beta\""}
    ]"#;
    let (repos, agents) = project_board(body);
    assert_eq!(repos.len(), 2);
    assert_eq!(repos[0].id, "alpha");
    assert_eq!(repos[0].name, "Alpha");
    assert_eq!(repos[0].swarm, vec!["A1".to_string(), "A2".to_string()]);
    assert_eq!(repos[1].id, "beta");
    assert_eq!(repos[1].name, "Beta");
    assert_eq!(repos[1].swarm.len(), 0);

    assert_eq!(agents.len(), 2);
    assert_eq!(agents[0].id, "A1");
    assert_eq!(agents[0].name, "First");
    assert_eq!(agents[0].class_name, "Coder");
    assert_eq!(agents[0].current_action, "Standby");
    assert_eq!(agents[0].location, "Alpha");
    assert_eq!(agents[1].id, "A2");

    let (no_repos, no_agents) = project_board("broken");
    assert_eq!(no_repos.len(), 0);
    assert_eq!(no_agents.len(), 0);
}

#[test]
fn board_projection_fills_defaults() {
    let body = r#"[{"repo": "<r1>", "agent": "<a1>"}]"#;
    let (repos, agents) = project_board(body);
    assert_eq!(repos[0].name, "Unknown");
    assert_eq!(agents[0].name, "Agent");
    assert_eq!(agents[0].class_name, "Commoner");
    assert_eq!(agents[0].current_action, "Standby");
    assert_eq!(agents[0].location, "Unknown");
}

#[test]
fn row_values_are_cleaned_of_wire_wrapping() {
    assert_eq!(clean_val(&Some("\"Hello\"".to_string())), "Hello");
    assert_eq!(clean_val(&Some("<http://x/y>".to_string())), "http://x/y");
    assert_eq!(clean_val(&Some("plain".to_string())), "plain");
    assert_eq!(clean_val(&Some("\"\"".to_string())), "");
    assert_eq!(clean_val(&None), "");
}

#[test]
fn row_lookup_prefers_the_sigil_form() {
    let row = vec![
        ("task".to_string(), Some("bare".to_string())),
        ("?task".to_string(), Some("sigil".to_string())),
    ];
    assert_eq!(row_get(&row, "task"), Some(Some("sigil".to_string())));
    let bare_only = vec![("task".to_string(), Some("bare".to_string()))];
    assert_eq!(row_get(&bare_only, "task"), Some(Some("bare".to_string())));
    assert_eq!(row_get(&bare_only, "agent"), None);
}

#[test]
fn registration_batches_are_exact() {
    let repo = repo_triples("alpha", "The Alpha Repo");
    assert_eq!(repo.len(), 4);
    assert_eq!(repo[0].subject, "http://swarm.os/repository/alpha");
    assert_eq!(repo[0].object, "http://swarm.os/ontology/Repository");
    assert_eq!(repo[1].object, "\"The Alpha Repo\"");
    assert_eq!(repo[3].predicate, "http://swarm.os/ontology/status");
    assert_eq!(repo[3].object, "\"STABLE\"");

    let agent = agent_triples("A1", "First", "Coder", "alpha");
    assert_eq!(agent.len(), 6);
    assert_eq!(agent[0].subject, "http://swarm.os/agent/A1");
    assert_eq!(agent[0].object, "http://swarm.os/ontology/Agent");
    assert_eq!(agent[3].object, "\"Coder\"");
    assert_eq!(agent[4].object, "\"Standby\"");
    assert_eq!(agent[5].subject, "http://swarm.os/repository/alpha");
    assert_eq!(agent[5].predicate, "http://swarm.os/ontology/hasPopulation");
    assert_eq!(agent[5].object, "http://swarm.os/agent/A1");
}
