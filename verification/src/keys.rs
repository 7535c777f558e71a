//! The names under which the cache (Redis) holds the dashboard's data, and
//! how long cached answers live.

use vstd::prelude::*;
use vstd::string::*;
use crate::numeric::{decimal, push_decimal};

verus! {

/// The set of the guilds that the bot is in.
pub const BOT_GUILDS_SET: &'static str = "guild";

/// The set that `Guild::setup` consults for a guild's id.
pub const GUILD_OWNERSHIP_SET: &'static str = "guilds";

/// Seconds that a user's cached profile lives.
pub const USER_DATA_TTL: u64 = 3600;

/// Seconds that a user's cached guild list lives.
pub const USER_GUILDS_TTL: u64 = 360;

/// `user:{token}:guilds`: a user's cached guild list.
pub fn user_guilds_key(token: &str) -> (k: String)
    ensures
        k@ == "user:"@ + token@ + ":guilds"@,
{
    let mut k = String::from_str("user:");
    k.append(token);
    k.append(":guilds");
    k
}

/// `user:{token}:data`: a user's cached profile.
pub fn user_data_key(token: &str) -> (k: String)
    ensures
        k@ == "user:"@ + token@ + ":data"@,
{
    let mut k = String::from_str("user:");
    k.append(token);
    k.append(":data");
    k
}

/// `guild.{guild}`: a guild's cached description.
pub fn guild_key(guild_id: u64) -> (k: String)
    ensures
        k@ == "guild."@ + decimal(guild_id as nat),
{
    let mut k = String::from_str("guild.");
    push_decimal(&mut k, guild_id);
    k
}

/// `role.{guild}`: the set of a guild's role ids.
pub fn role_set_key(guild_id: u64) -> (k: String)
    ensures
        k@ == "role."@ + decimal(guild_id as nat),
{
    let mut k = String::from_str("role.");
    push_decimal(&mut k, guild_id);
    k
}

/// `role.{guild}.{role}`: one cached role.
pub fn role_key(guild_id: u64, role_id: &str) -> (k: String)
    ensures
        k@ == "role."@ + decimal(guild_id as nat) + "."@ + role_id@,
{
    let mut k = String::from_str("role.");
    push_decimal(&mut k, guild_id);
    k.append(".");
    k.append(role_id);
    k
}

/// `channelmap.guild.{guild}`: the set of a guild's channel ids.
pub fn channel_set_key(guild_id: u64) -> (k: String)
    ensures
        k@ == "channelmap.guild."@ + decimal(guild_id as nat),
{
    let mut k = String::from_str("channelmap.guild.");
    push_decimal(&mut k, guild_id);
    k
}

/// `channel.{channel}`: one cached channel.
pub fn channel_key(channel_id: &str) -> (k: String)
    ensures
        k@ == "channel."@ + channel_id@,
{
    let mut k = String::from_str("channel.");
    k.append(channel_id);
    k
}

/// `plugins:{guild}`: the set of a guild's enabled plugins.
pub fn plugins_key(guild_id: u64) -> (k: String)
    ensures
        k@ == "plugins:"@ + decimal(guild_id as nat),
{
    let mut k = String::from_str("plugins:");
    push_decimal(&mut k, guild_id);
    k
}

/// `tags:{guild}:{name}`: the data that a tag's script keeps.
pub fn tag_data_key(guild_id: u64, tag_name: &str) -> (k: String)
    ensures
        k@ == "tags:"@ + decimal(guild_id as nat) + ":"@ + tag_name@,
{
    let mut k = String::from_str("tags:");
    push_decimal(&mut k, guild_id);
    k.append(":");
    k.append(tag_name);
    k
}

/// `member.{guild}.{user}`: present when the user is a member of the guild.
pub fn member_key(guild_id: u64, user_id: &str) -> (k: String)
    ensures
        k@ == "member."@ + decimal(guild_id as nat) + "."@ + user_id@,
{
    let mut k = String::from_str("member.");
    push_decimal(&mut k, guild_id);
    k.append(".");
    k.append(user_id);
    k
}

} // verus!
