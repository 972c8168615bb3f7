use swarmd::config::flag_enabled;
use swarmd::telegram::{
    dispatch, ingest_updates, is_authorized, plan_status_change, render_change_reply,
    render_status_reply, Directive,
};

#[test]
fn unauthorized_chat_is_rejected_without_mutation() {
    // Chat 999 sends /resume while 123 is authorized: rejection reply,
    // no status change planned, nothing to ingest.
    let authorized = Some("123".to_string());
    match dispatch(999, "/resume", &authorized) {
        Directive::Reply(text) => assert_eq!(text, "⛔ Unauthorized."),
        _ => panic!("expected a rejection reply"),
    }
    match dispatch(999, "/stop_all", &authorized) {
        Directive::Reply(text) => assert_eq!(text, "⛔ Unauthorized."),
        _ => panic!("expected a rejection reply"),
    }
}

#[test]
fn authorized_stop_all_plans_one_halted_event() {
    let authorized = Some("123".to_string());
    let new_status = match dispatch(123, "/stop_all", &authorized) {
        Directive::SetStatus(s) => s,
        _ => panic!("expected a status change"),
    };
    assert_eq!(new_status, "HALTED");

    let change = plan_status_change(&new_status);
    // Exactly one StatusChangeEvent write, and the current-status fact
    // updated in the same batch, audit event first.
    assert_eq!(change.batch.len(), 5);
    let audit_writes: Vec<usize> = (0..change.batch.len())
        .filter(|&i| change.batch[i].predicate == "http://nist.gov/caisi/newStatus")
        .collect();
    assert_eq!(audit_writes, vec![1]);
    assert_eq!(change.batch[1].object, "\"HALTED\"");
    assert_eq!(change.batch[4].subject, "http://nist.gov/caisi/SystemControl");
    assert_eq!(
        change.batch[4].predicate,
        "http://nist.gov/caisi/operationalStatus"
    );
    assert_eq!(change.batch[4].object, "\"HALTED\"");
    // The audit event carries the freshly generated identifier.
    assert_eq!(change.event_uuid.len(), 36);
    let subject = format!("http://nist.gov/caisi/event/status/{}", change.event_uuid);
    assert_eq!(change.batch[0].subject, subject);
    assert_eq!(
        change.batch[0].object,
        "http://nist.gov/caisi/StatusChangeEvent"
    );
}

#[test]
fn resume_plans_operational() {
    let authorized = Some("123".to_string());
    match dispatch(123, "/resume", &authorized) {
        Directive::SetStatus(s) => assert_eq!(s, "OPERATIONAL"),
        _ => panic!("expected a status change"),
    }
    let change = plan_status_change("OPERATIONAL");
    assert_eq!(change.batch[1].object, "\"OPERATIONAL\"");
}

#[test]
fn unconfigured_chat_authorizes_everyone() {
    assert!(is_authorized(999, &None));
    match dispatch(999, "/stop_all", &None) {
        Directive::SetStatus(s) => assert_eq!(s, "HALTED"),
        _ => panic!("every chat is authorized when none is configured"),
    }
}

#[test]
fn chat_identifier_comparison_is_textual() {
    assert!(is_authorized(123, &Some("123".to_string())));
    assert!(!is_authorized(123, &Some("0123".to_string())));
    assert!(is_authorized(-5, &Some("-5".to_string())));
    assert!(!is_authorized(124, &Some("123".to_string())));
}

#[test]
fn plain_commands_and_greetings() {
    match dispatch(7, "/start", &None) {
        Directive::Reply(text) => assert_eq!(
            text,
            "🤖 *Swarm Orchestrator Online*\nI am monitoring Trello and Synapse."
        ),
        _ => panic!("expected the greeting reply"),
    }
    assert!(matches!(dispatch(7, "/status", &None), Directive::AskStatus));
    // Reading the status needs no authorization.
    assert!(matches!(
        dispatch(999, "/status", &Some("123".to_string())),
        Directive::AskStatus
    ));
    match dispatch(7, "Well HI there", &None) {
        Directive::Reply(text) => assert_eq!(
            text,
            "👋 Hello! I am the Swarm Orchestrator. Use /status to check on things."
        ),
        _ => panic!("expected the hello reply"),
    }
    match dispatch(7, "HOLA amigos", &None) {
        Directive::Reply(_) => {},
        _ => panic!("expected the hello reply"),
    }
    // The greeting check is a plain substring search: "nothing" carries
    // the greeting token too.
    assert!(matches!(dispatch(7, "nothing of note", &None), Directive::Reply(_)));
    assert!(matches!(dispatch(7, "/unknown_command", &None), Directive::Ignore));
    assert!(matches!(dispatch(7, "status report", &None), Directive::Ignore));
}

#[test]
fn status_and_change_replies() {
    assert_eq!(
        render_status_reply(&Some("OPERATIONAL".to_string())),
        "📊 *System Status*\nOPERATIONAL"
    );
    assert_eq!(
        render_status_reply(&None),
        "📊 *System Status*\nError querying Synapse"
    );
    assert_eq!(
        render_change_reply("HALTED", &None),
        "🛑 *SYSTEM HALTED* via Emergency Switch."
    );
    assert_eq!(
        render_change_reply("OPERATIONAL", &None),
        "✅ *SYSTEM RESUMED* to Operational status."
    );
    assert_eq!(
        render_change_reply("HALTED", &Some("boom".to_string())),
        "❌ Failed to halt: boom"
    );
    assert_eq!(
        render_change_reply("OPERATIONAL", &Some("boom".to_string())),
        "❌ Failed to resume: boom"
    );
}

#[test]
fn offset_advances_past_every_update() {
    let body = r#"{"ok": true, "result": [
        {"update_id": 7, "message": {"chat": {"id": 123}, "text": "/status"}},
        {"update_id": 5},
        {"update_id": 9, "message": {"chat": {"id": 999}, "text": "hi"}}
    ]}"#;
    let batch = ingest_updates(body, 6).expect("well-formed answer");
    assert_eq!(batch.new_offset, 9);
    assert_eq!(batch.messages.len(), 2);
    assert_eq!(batch.messages[0], (123, "/status".to_string()));
    assert_eq!(batch.messages[1], (999, "hi".to_string()));

    // No updates: the offset stays put.
    let empty = ingest_updates(r#"{"ok": true, "result": []}"#, 6).unwrap();
    assert_eq!(empty.new_offset, 6);
    assert_eq!(empty.messages.len(), 0);

    // A malformed answer, or one without a result array, is no data this
    // round.
    assert!(ingest_updates("garbage", 6).is_none());
    assert!(ingest_updates(r#"{"ok": true}"#, 6).is_none());
}

#[test]
fn boolean_flags_from_environment_text() {
    assert!(flag_enabled("true"));
    assert!(flag_enabled("TRUE"));
    assert!(flag_enabled("True"));
    assert!(flag_enabled("1"));
    assert!(!flag_enabled("false"));
    assert!(!flag_enabled("yes"));
    assert!(!flag_enabled(""));
}
