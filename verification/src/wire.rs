//! Trusted readers for the JSON wire shapes the outside services answer
//! with: query-answer rows from the fact store, the update array of the
//! messaging endpoint, and the id/name items of the card board. Each reader
//! turns one JSON text into plain values; every decision taken on those
//! values lives in verified code elsewhere in this crate.

use vstd::prelude::*;

verus! {

/// The rows encoded by a fact-store query answer: a JSON array of objects,
/// each binding a variable name to a value (`None` marks a value that is
/// not a JSON string). `None` overall marks text that is no such array.
pub uninterp spec fn rows_of_json(s: Seq<char>) -> Option<
    Seq<Seq<(Seq<char>, Option<Seq<char>>)>>,
>;

/// The updates encoded by a messaging `getUpdates` answer: each update's
/// identifier and, when the update carries a message, the message's chat
/// identifier and text. `None` marks text without a `result` array.
pub uninterp spec fn updates_of_json(s: Seq<char>) -> Option<Seq<(i64, Option<(i64, Seq<char>)>)>>;

/// The (id, name) pairs encoded by a board answer listing lists or cards;
/// a missing or non-string field reads as empty. `None` marks text that is
/// no JSON array.
pub uninterp spec fn named_items_of_json(s: Seq<char>) -> Option<Seq<(Seq<char>, Seq<char>)>>;

/// Relies on serde_json::from_str: reads a JSON array of objects into rows
/// of (variable, value) bindings, keeping a non-string value as `None`.
#[verifier::external_body]
pub(crate) fn parse_rows(s: &str) -> (r: Option<Vec<Vec<(String, Option<String>)>>>)
    ensures
        r.deep_view() == rows_of_json(s@),
{
    let parsed: Vec<serde_json::Map<String, serde_json::Value>> = match serde_json::from_str(s) {
        Ok(v) => v,
        Err(_) => return None,
    };
    Some(parsed.into_iter().map(|row| row.into_iter().map(|(k, v)| match v {
        serde_json::Value::String(text) => (k, Some(text)),
        _ => (k, None),
    }).collect()).collect())
}

/// Relies on serde_json::from_str: reads the `result` array of a
/// `getUpdates` answer into (update id, optional (chat id, text)) pairs.
#[verifier::external_body]
pub(crate) fn parse_updates(s: &str) -> (r: Option<Vec<(i64, Option<(i64, String)>)>>)
    ensures
        r.deep_view() == updates_of_json(s@),
{
    let v: serde_json::Value = serde_json::from_str(s).ok()?;
    let arr = v.get("result")?.as_array()?;
    Some(arr.iter().map(|u| {
        let id = u.get("update_id").and_then(|x| x.as_i64()).unwrap_or(0);
        let msg = u.get("message").map(|m| (
            m.get("chat").and_then(|c| c.get("id")).and_then(|x| x.as_i64()).unwrap_or(0),
            m.get("text").and_then(|t| t.as_str()).unwrap_or("").to_string(),
        ));
        (id, msg)
    }).collect())
}

/// Relies on serde_json::from_str: reads a JSON array of objects into
/// (id, name) pairs, the shape shared by board lists and board cards.
#[verifier::external_body]
pub(crate) fn parse_named_items(s: &str) -> (r: Option<Vec<(String, String)>>)
    ensures
        r.deep_view() == named_items_of_json(s@),
{
    let v: Vec<serde_json::Value> = serde_json::from_str(s).ok()?;
    Some(v.iter().map(|item| (
        item.get("id").and_then(|x| x.as_str()).unwrap_or("").to_string(),
        item.get("name").and_then(|x| x.as_str()).unwrap_or("").to_string(),
    )).collect())
}

} // verus!
