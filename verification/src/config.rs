//! Configuration values the orchestrator runs with. Reading the
//! environment is I/O and stays outside this crate; the values arrive here
//! as plain strings and flags, and the one decision made over raw
//! environment text — reading a boolean flag — is verified.

use vstd::prelude::*;
use crate::text::{eq_lowered, lower_model, str_eq};

verus! {

/// The orchestrator's configuration. A missing messaging credential
/// disables the command ingester and notification router; missing board
/// credentials disable the task-source ingester.
#[derive(Debug, Clone)]
pub struct AppConfig {
    pub synapse_grpc_host: String,
    pub synapse_grpc_port: String,
    pub gateway_port: u16,
    pub telegram_bot_token: Option<String>,
    pub telegram_chat_id: Option<String>,
    pub trello_api_key: Option<String>,
    pub trello_token: Option<String>,
    pub trello_board_id: Option<String>,
    pub trello_mock_mode: bool,
}

/// A flag value counts as set when it reads `true` in any letter case, or
/// exactly `1`.
pub open spec fn flag_enabled_model(v: Seq<char>) -> bool {
    lower_model(v) == "true"@ || v == "1"@
}

/// Reads a boolean flag from raw environment text.
pub fn flag_enabled(v: &str) -> (r: bool)
    ensures
        r == flag_enabled_model(v@),
{
    eq_lowered(v, "true") || str_eq(v, "1")
}

} // verus!
