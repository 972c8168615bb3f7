//! The command ingester's decision logic.
//!
//! Inbound messages arrive from the messaging endpoint's update feed. This
//! module advances the polling offset past every update identifier seen,
//! dispatches each message by exact command text, enforces chat-based
//! authorization on the privileged commands, and plans the one ingest
//! batch of a privileged status change: an append-only audit event and the
//! updated current-status fact, in that order, in a single call.

use vstd::prelude::*;
use crate::store::{quote_str, quoted, rdf_type_predicate, FactModel, Triple};
use crate::text::{contains_lowered, dec_model, i64_to_dec, lower_model, occurs_in, str_eq};
use crate::wire::{parse_updates, updates_of_json};

verus! {

/// A chat is authorized when it equals the configured authorized chat;
/// with no chat configured, every chat counts as authorized.
pub open spec fn authorized_model(chat_id: i64, authorized: Option<Seq<char>>) -> bool {
    match authorized {
        None => true,
        Some(a) => a == dec_model(chat_id as int),
    }
}

/// Whether `chat_id` may use the privileged commands.
pub fn is_authorized(chat_id: i64, authorized: &Option<String>) -> (r: bool)
    ensures
        r == authorized_model(chat_id, authorized.deep_view()),
{
    match authorized {
        None => true,
        Some(a) => {
            let c = i64_to_dec(chat_id);
            a.eq(&c)
        },
    }
}

pub open spec fn start_reply_text() -> Seq<char> {
    "🤖 *Swarm Orchestrator Online*\nI am monitoring Trello and Synapse."@
}

pub open spec fn unauthorized_reply_text() -> Seq<char> {
    "⛔ Unauthorized."@
}

pub open spec fn hello_reply_text() -> Seq<char> {
    "👋 Hello! I am the Swarm Orchestrator. Use /status to check on things."@
}

pub open spec fn halted_text() -> Seq<char> {
    "HALTED"@
}

pub open spec fn operational_text() -> Seq<char> {
    "OPERATIONAL"@
}

/// What one inbound message asks the ingester to do.
pub enum DirectiveModel {
    /// Send this reply and change nothing.
    ReplyWith(Seq<char>),
    /// Query the operational status and reply with the answer.
    AskStatus,
    /// Write a status change to this new status, then report the outcome.
    SetStatus(Seq<char>),
    /// No recognised command and no greeting: do nothing.
    Ignore,
}

/// The executable form of a directive.
pub enum Directive {
    Reply(String),
    AskStatus,
    SetStatus(String),
    Ignore,
}

impl View for Directive {
    type V = DirectiveModel;

    open spec fn view(&self) -> DirectiveModel {
        match self {
            Directive::Reply(s) => DirectiveModel::ReplyWith(s@),
            Directive::AskStatus => DirectiveModel::AskStatus,
            Directive::SetStatus(s) => DirectiveModel::SetStatus(s@),
            Directive::Ignore => DirectiveModel::Ignore,
        }
    }
}

/// The dispatch table: exact command match first, privileged commands
/// gated on authorization, then a greeting search over the lowered text.
pub open spec fn dispatch_model(
    chat_id: i64,
    text: Seq<char>,
    authorized: Option<Seq<char>>,
) -> DirectiveModel {
    if text == "/start"@ {
        DirectiveModel::ReplyWith(start_reply_text())
    } else if text == "/status"@ {
        DirectiveModel::AskStatus
    } else if text == "/stop_all"@ {
        if authorized_model(chat_id, authorized) {
            DirectiveModel::SetStatus(halted_text())
        } else {
            DirectiveModel::ReplyWith(unauthorized_reply_text())
        }
    } else if text == "/resume"@ {
        if authorized_model(chat_id, authorized) {
            DirectiveModel::SetStatus(operational_text())
        } else {
            DirectiveModel::ReplyWith(unauthorized_reply_text())
        }
    } else if occurs_in(lower_model(text), "hi"@) || occurs_in(lower_model(text), "hola"@) {
        DirectiveModel::ReplyWith(hello_reply_text())
    } else {
        DirectiveModel::Ignore
    }
}

/// Dispatches one inbound message.
pub fn dispatch(chat_id: i64, text: &str, authorized: &Option<String>) -> (r: Directive)
    ensures
        r@ == dispatch_model(chat_id, text@, authorized.deep_view()),
{
    if str_eq(text, "/start") {
        Directive::Reply(String::from_str("🤖 *Swarm Orchestrator Online*\nI am monitoring Trello and Synapse."))
    } else if str_eq(text, "/status") {
        Directive::AskStatus
    } else if str_eq(text, "/stop_all") {
        if is_authorized(chat_id, authorized) {
            Directive::SetStatus(String::from_str("HALTED"))
        } else {
            Directive::Reply(String::from_str("⛔ Unauthorized."))
        }
    } else if str_eq(text, "/resume") {
        if is_authorized(chat_id, authorized) {
            Directive::SetStatus(String::from_str("OPERATIONAL"))
        } else {
            Directive::Reply(String::from_str("⛔ Unauthorized."))
        }
    } else if contains_lowered(text, "hi") || contains_lowered(text, "hola") {
        Directive::Reply(String::from_str("👋 Hello! I am the Swarm Orchestrator. Use /status to check on things."))
    } else {
        Directive::Ignore
    }
}

/// The reply to a `/status` command, built from the store's answer; a
/// failed query reads as the error text.
pub fn render_status_reply(result: &Option<String>) -> (r: String)
    ensures
        r@ == "📊 *System Status*\n"@ + match result.deep_view() {
            Some(s) => s,
            None => "Error querying Synapse"@,
        },
{
    let head = String::from_str("📊 *System Status*\n");
    match result {
        Some(s) => head.concat(s.as_str()),
        None => head.concat("Error querying Synapse"),
    }
}

/// The reply reporting a privileged status change's outcome.
pub fn render_change_reply(new_status: &str, error: &Option<String>) -> (r: String)
    ensures
        error is None && new_status@ == halted_text() ==> r@ == "🛑 *SYSTEM HALTED* via Emergency Switch."@,
        error is None && new_status@ != halted_text() ==> r@ == "✅ *SYSTEM RESUMED* to Operational status."@,
        error is Some && new_status@ == halted_text() ==> r@ == "❌ Failed to halt: "@
            + error.deep_view().unwrap(),
        error is Some && new_status@ != halted_text() ==> r@ == "❌ Failed to resume: "@
            + error.deep_view().unwrap(),
{
    let halting = str_eq(new_status, "HALTED");
    match error {
        None => {
            if halting {
                String::from_str("🛑 *SYSTEM HALTED* via Emergency Switch.")
            } else {
                String::from_str("✅ *SYSTEM RESUMED* to Operational status.")
            }
        },
        Some(e) => {
            if halting {
                String::from_str("❌ Failed to halt: ").concat(e.as_str())
            } else {
                String::from_str("❌ Failed to resume: ").concat(e.as_str())
            }
        },
    }
}

/// The subject naming one status-change audit event.
pub open spec fn event_subject(event_uuid: Seq<char>) -> Seq<char> {
    "http://nist.gov/caisi/event/status/"@ + event_uuid
}

/// The one ingest batch of a privileged status change: the audit event's
/// facts first, the updated current-status fact last.
pub open spec fn status_change_batch_model(
    status: Seq<char>,
    event_uuid: Seq<char>,
    timestamp: Seq<char>,
) -> Seq<FactModel> {
    seq![
        (event_subject(event_uuid), rdf_type_predicate(), "http://nist.gov/caisi/StatusChangeEvent"@),
        (event_subject(event_uuid), "http://nist.gov/caisi/newStatus"@, quoted(status)),
        (
            event_subject(event_uuid),
            "http://www.w3.org/ns/prov#generatedAtTime"@,
            quoted(timestamp),
        ),
        (
            "http://nist.gov/caisi/SystemControl"@,
            "http://nist.gov/caisi/hasStatusHistory"@,
            event_subject(event_uuid),
        ),
        (
            "http://nist.gov/caisi/SystemControl"@,
            "http://nist.gov/caisi/operationalStatus"@,
            quoted(status),
        ),
    ]
}

/// Relies on uuid::Uuid::new_v4 and its Display form: a fresh random
/// identifier rendered hyphenated, 36 characters long. The value itself is
/// random and carries no further promise.
#[verifier::external_body]
fn fresh_uuid_string() -> (r: String)
    ensures
        r@.len() == 36,
{
    uuid::Uuid::new_v4().to_string()
}

/// Relies on chrono::Utc::now and DateTime::to_rfc3339: the current wall
/// clock, of which nothing can be promised.
#[verifier::external_body]
fn current_timestamp_rfc3339() -> (r: String) {
    chrono::Utc::now().to_rfc3339()
}

/// A planned status change: the batch to hand to one ingest call, and the
/// event identifier and timestamp it embeds.
pub struct StatusChange {
    pub event_uuid: String,
    pub timestamp: String,
    pub batch: Vec<Triple>,
}

/// Plans a privileged status change. Whatever identifier and timestamp the
/// wrapped generators return, the batch is exactly the audit event's facts
/// followed by the current-status update.
pub fn plan_status_change(new_status: &str) -> (r: StatusChange)
    ensures
        r.batch@.map_values(|t: Triple| t@) == status_change_batch_model(
            new_status@,
            r.event_uuid@,
            r.timestamp@,
        ),
        r.event_uuid@.len() == 36,
{
    let event_uuid = fresh_uuid_string();
    let timestamp = current_timestamp_rfc3339();
    let event_id = String::from_str("http://nist.gov/caisi/event/status/").concat(
        event_uuid.as_str(),
    );
    let mut batch: Vec<Triple> = Vec::new();
    batch.push(
        Triple::new(
            event_id.clone(),
            String::from_str("http://www.w3.org/1999/02/22-rdf-syntax-ns#type"),
            String::from_str("http://nist.gov/caisi/StatusChangeEvent"),
        ),
    );
    batch.push(
        Triple::new(
            event_id.clone(),
            String::from_str("http://nist.gov/caisi/newStatus"),
            quote_str(new_status),
        ),
    );
    batch.push(
        Triple::new(
            event_id.clone(),
            String::from_str("http://www.w3.org/ns/prov#generatedAtTime"),
            quote_str(timestamp.as_str()),
        ),
    );
    batch.push(
        Triple::new(
            String::from_str("http://nist.gov/caisi/SystemControl"),
            String::from_str("http://nist.gov/caisi/hasStatusHistory"),
            event_id,
        ),
    );
    batch.push(
        Triple::new(
            String::from_str("http://nist.gov/caisi/SystemControl"),
            String::from_str("http://nist.gov/caisi/operationalStatus"),
            quote_str(new_status),
        ),
    );
    proof {
        assert(batch@.map_values(|t: Triple| t@) =~= status_change_batch_model(
            new_status@,
            event_uuid@,
            timestamp@,
        ));
    }
    StatusChange { event_uuid, timestamp, batch }
}

/// The authorization gate: an unauthorized chat can never produce a status
/// change, whatever text it sends; its privileged commands are answered
/// with the rejection reply alone.
pub proof fn lemma_authorization_gate(chat_id: i64, text: Seq<char>, authorized: Option<Seq<char>>)
    requires
        !authorized_model(chat_id, authorized),
    ensures
        !(dispatch_model(chat_id, text, authorized) is SetStatus),
        text == "/stop_all"@ || text == "/resume"@ ==> dispatch_model(chat_id, text, authorized)
            == DirectiveModel::ReplyWith(unauthorized_reply_text()),
{
    reveal_strlit("/start");
    reveal_strlit("/status");
    reveal_strlit("/stop_all");
    reveal_strlit("/resume");
    assert("/stop_all"@.len() == 9);
    assert("/start"@.len() == 6);
    assert("/status"@.len() == 7);
    assert("/resume"@.len() == 7);
    assert("/resume"@[1] == 'r');
    assert("/status"@[1] == 's');
}

/// For the authorized chat, `/stop_all` maps to a HALTED status change
/// and `/resume` to an OPERATIONAL one.
pub proof fn lemma_privileged_dispatch(chat_id: i64, authorized: Option<Seq<char>>)
    requires
        authorized_model(chat_id, authorized),
    ensures
        dispatch_model(chat_id, "/stop_all"@, authorized) == DirectiveModel::SetStatus(
            halted_text(),
        ),
        dispatch_model(chat_id, "/resume"@, authorized) == DirectiveModel::SetStatus(
            operational_text(),
        ),
{
    reveal_strlit("/start");
    reveal_strlit("/status");
    reveal_strlit("/stop_all");
    reveal_strlit("/resume");
    assert("/stop_all"@.len() == 9);
    assert("/start"@.len() == 6);
    assert("/status"@.len() == 7);
    assert("/resume"@.len() == 7);
    assert("/resume"@[1] == 'r');
    assert("/status"@[1] == 's');
}

/// A status-change batch writes exactly one audit event: one fact carries
/// the newStatus predicate, and the batch ends with the updated
/// current-status fact.
pub proof fn lemma_single_status_event(status: Seq<char>, event_uuid: Seq<char>, timestamp: Seq<char>)
    ensures
        status_change_batch_model(status, event_uuid, timestamp).len() == 5,
        forall|i: int|
            0 <= i < 5 ==> (((#[trigger] status_change_batch_model(status, event_uuid, timestamp)[i]).1
                == "http://nist.gov/caisi/newStatus"@) <==> i == 1),
        status_change_batch_model(status, event_uuid, timestamp)[1].2 == quoted(status),
        status_change_batch_model(status, event_uuid, timestamp)[4] == (
            "http://nist.gov/caisi/SystemControl"@,
            "http://nist.gov/caisi/operationalStatus"@,
            quoted(status),
        ),
{
    reveal_strlit("http://www.w3.org/1999/02/22-rdf-syntax-ns#type");
    reveal_strlit("http://nist.gov/caisi/newStatus");
    reveal_strlit("http://www.w3.org/ns/prov#generatedAtTime");
    reveal_strlit("http://nist.gov/caisi/hasStatusHistory");
    reveal_strlit("http://nist.gov/caisi/operationalStatus");
    assert("http://www.w3.org/1999/02/22-rdf-syntax-ns#type"@.len() == 47);
    assert("http://nist.gov/caisi/newStatus"@.len() == 31);
    assert("http://www.w3.org/ns/prov#generatedAtTime"@.len() == 41);
    assert("http://nist.gov/caisi/hasStatusHistory"@.len() == 38);
    assert("http://nist.gov/caisi/operationalStatus"@.len() == 39);
}

/// One update of the messaging feed: its identifier and, when it carries a
/// message, the message's chat and text.
pub type UpdateModel = (i64, Option<(i64, Seq<char>)>);

/// The offset after a poll: advanced past the highest update identifier
/// seen, even where handling a message fails.
pub open spec fn max_offset_model(last: i64, updates: Seq<UpdateModel>) -> int
    decreases updates.len(),
{
    if updates.len() == 0 {
        last as int
    } else {
        let prev = max_offset_model(last, updates.drop_last());
        if updates.last().0 > prev {
            updates.last().0 as int
        } else {
            prev
        }
    }
}

/// The messages a poll carries, in feed order.
pub open spec fn messages_model(updates: Seq<UpdateModel>) -> Seq<(i64, Seq<char>)>
    decreases updates.len(),
{
    if updates.len() == 0 {
        Seq::empty()
    } else {
        let rest = messages_model(updates.drop_last());
        match updates.last().1 {
            Some(m) => rest.push(m),
            None => rest,
        }
    }
}

/// One poll's outcome: the advanced offset and the messages to dispatch.
pub struct UpdateBatch {
    pub new_offset: i64,
    pub messages: Vec<(i64, String)>,
}

/// Reads one `getUpdates` answer: advances the offset past every update
/// identifier seen and collects the carried messages in feed order.
/// `None` reports a malformed answer, which the poll treats as no data.
pub fn ingest_updates(body: &str, last_update_id: i64) -> (r: Option<UpdateBatch>)
    ensures
        match updates_of_json(body@) {
            Some(us) => {
                &&& r is Some
                &&& r.unwrap().new_offset as int == max_offset_model(last_update_id, us)
                &&& r.unwrap().messages.deep_view() == messages_model(us)
            },
            None => r is None,
        },
{
    let us = match parse_updates(body) {
        Some(us) => us,
        None => {
            return None;
        },
    };
    let ghost u0 = us.deep_view();
    let mut new_offset = last_update_id;
    let mut messages: Vec<(i64, String)> = Vec::new();
    let mut i: usize = 0;
    while i < us.len()
        invariant
            0 <= i <= us.len(),
            u0 == us.deep_view(),
            u0.len() == us.len(),
            new_offset as int == max_offset_model(last_update_id, u0.take(i as int)),
            messages.deep_view() == messages_model(u0.take(i as int)),
        decreases us.len() - i,
    {
        let ghost pre = messages.deep_view();
        proof {
            assert(u0.take(i + 1).drop_last() =~= u0.take(i as int));
            assert(u0.take(i + 1).last() == u0[i as int]);
            assert(u0[i as int] == us@[i as int].deep_view());
        }
        let u = &us[i];
        if u.0 > new_offset {
            new_offset = u.0;
        }
        match &u.1 {
            Some(m) => {
                messages.push((m.0, m.1.clone()));
                proof {
                    assert(messages.deep_view() =~= pre.push((m.0, m.1@)));
                }
            },
            None => {},
        }
        i += 1;
    }
    proof {
        assert(u0.take(us.len() as int) =~= u0);
    }
    Some(UpdateBatch { new_offset, messages })
}

} // verus!
