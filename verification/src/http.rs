//! The bot's own Discord client: its credentials.

use vstd::prelude::*;
use vstd::string::*;
use crate::models::tag::{read_snowflake, snowflake};

verus! {

/// The `Authorization` header of the bot's client: `Bot {token}`.
pub fn bot_authorization(token: &str) -> (h: String)
    ensures
        h@ == "Bot "@ + token@,
{
    let mut h = String::from_str("Bot ");
    h.append(token);
    h
}

/// The application id that the interaction client uses, read from the
/// environment value `CLIENT_ID`; `None` where it is not a Discord id.
pub fn application_id(client_id: &str) -> (id: Option<u64>)
    ensures
        id == snowflake(client_id@),
{
    read_snowflake(client_id)
}

} // verus!
