use swarmd::trello::{interesting_list, plan_card_ingests, select_interesting_lists, DedupSet};

#[test]
fn dedup_ingests_each_pair_once() {
    // The same (card id, list name) pair twice: exactly one ingest batch.
    let mut dedup = DedupSet::new();
    let first = dedup.process_card("c1", "Card One", "TODO");
    assert!(first.is_some());
    let second = dedup.process_card("c1", "Card One", "TODO");
    assert!(second.is_none());
}

#[test]
fn list_move_produces_second_ingest() {
    // A card moving from TODO to INBOX is ingested again under the new
    // list, with the new list name as its state.
    let mut dedup = DedupSet::new();
    let first = dedup.process_card("c1", "Card One", "TODO").unwrap();
    let second = dedup
        .process_card("c1", "Card One", "INBOX")
        .expect("new list, new key");
    assert_eq!(first[1].object, "\"TODO\"");
    assert_eq!(second[1].object, "\"INBOX\"");
    assert_ne!(first[1].object, second[1].object);
}

#[test]
fn card_batch_carries_state_and_title() {
    let mut dedup = DedupSet::new();
    let batch = dedup.process_card("c9", "Review design", "DESIGN").unwrap();
    assert_eq!(batch.len(), 3);
    assert_eq!(batch[0].subject, "http://swarm.os/trello/card/c9");
    assert_eq!(
        batch[0].predicate,
        "http://www.w3.org/1999/02/22-rdf-syntax-ns#type"
    );
    assert_eq!(batch[0].object, "http://swarm.os/ontology/Task");
    assert_eq!(batch[1].predicate, "http://swarm.os/ontology/internalState");
    assert_eq!(batch[1].object, "\"DESIGN\"");
    assert_eq!(batch[2].predicate, "http://swarm.os/ontology/title");
    assert_eq!(batch[2].object, "\"Review design\"");
}

#[test]
fn allow_list_is_exact() {
    assert!(interesting_list("REQUIREMENTS"));
    assert!(interesting_list("DESIGN"));
    assert!(interesting_list("TODO"));
    assert!(interesting_list("INBOX"));
    assert!(!interesting_list("DONE"));
    assert!(!interesting_list("todo"));
    assert!(!interesting_list(""));
}

#[test]
fn interesting_lists_selected_from_board_answer() {
    let body = r#"[{"id": "l1", "name": "TODO"},
                   {"id": "l2", "name": "Icebox"},
                   {"id": "l3", "name": "INBOX"}]"#;
    let lists = select_interesting_lists(body).expect("well-formed answer");
    assert_eq!(lists.len(), 2);
    assert_eq!(lists[0], ("l1".to_string(), "TODO".to_string()));
    assert_eq!(lists[1], ("l3".to_string(), "INBOX".to_string()));
    assert!(select_interesting_lists("{}").is_none());
}

#[test]
fn card_answer_walked_with_dedup() {
    let mut dedup = DedupSet::new();
    let body = r#"[{"id": "c1", "name": "One"},
                   {"id": "c2", "name": "Two"},
                   {"id": "c1", "name": "One"}]"#;
    let batches = plan_card_ingests(body, "TODO", &mut dedup).expect("well-formed answer");
    // The repeated card yields no second batch within the same poll.
    assert_eq!(batches.len(), 2);
    assert_eq!(batches[0][0].subject, "http://swarm.os/trello/card/c1");
    assert_eq!(batches[1][0].subject, "http://swarm.os/trello/card/c2");

    // The next poll of the same list ingests nothing new.
    let again = plan_card_ingests(body, "TODO", &mut dedup).unwrap();
    assert_eq!(again.len(), 0);

    // A malformed answer is no data this round and leaves the state alone.
    assert!(plan_card_ingests("oops", "TODO", &mut dedup).is_none());
}
