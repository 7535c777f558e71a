//! A guild's tags: listing, creating, editing and deleting them, each with
//! the Discord command that stands for the tag.

use vstd::prelude::*;
use vstd::string::*;
use crate::keys::tag_data_key;
use crate::models::tag::{
    command_changes_of, command_options_of, command_snowflake_of, lemma_checked_tag_guild_is_snowflake,
    lemma_recorded_command_reads_back, TagView,
    snowflake, tag_valid,
    CommandChanges, CommandRequest, CommandRequestView, Tag, TagUpdate,
};
use crate::numeric::{decimal, to_decimal};
use crate::reply::{Fetch, Status};
use crate::validation::{chat_input_name_accepted, command_options_accepted};

verus! {

/// The answer to a request for a guild's tags: the tags found, none where
/// reading them failed part way, and an error where the query failed.
pub fn get_tags<T>(found: Fetch<Vec<T>>) -> (r: Result<Vec<T>, Status>)
    ensures
        match found {
            Fetch::Found(v) => r == Ok::<Vec<T>, Status>(v),
            Fetch::Missing => r matches Ok(v) && v@.len() == 0,
            Fetch::Failed => r == Err::<Vec<T>, Status>(Status::InternalServerError),
        },
{
    match found {
        Fetch::Found(v) => Ok(v),
        Fetch::Missing => Ok(Vec::new()),
        Fetch::Failed => Err(Status::InternalServerError),
    }
}

/// How a request to create a tag goes on.
#[derive(Debug)]
pub enum CreateTag {
    /// Answer at once with this status.
    Answer(Status),
    /// Register this command with Discord, then store the tag.
    Register(CommandRequest),
    /// The tag passed the checks but has no description: its command cannot
    /// be registered and the request is not answered.
    Unregistrable,
}

/// The first step of creating a tag for the guild `guild_id`: a tag of
/// another guild, or one that is not valid, is a bad request; a tag whose
/// command Discord's rules refuse is an error; otherwise its command is
/// registered.
pub fn create_tag(tag: &Tag, guild_id: u64) -> (r: CreateTag)
    ensures
        tag@.guild_id != decimal(guild_id as nat) || !tag_valid(tag@) ==> r == CreateTag::Answer(
            Status::BadRequest,
        ),
        tag@.guild_id == decimal(guild_id as nat) && tag_valid(tag@) ==> {
            if tag@.description is None {
                r == CreateTag::Unregistrable
            } else if !(1 <= tag@.description->0.len() <= 100 && chat_input_name_accepted(tag@.name)
                && command_options_accepted(command_options_of(tag@.options))) {
                r == CreateTag::Answer(Status::InternalServerError)
            } else {
                r matches CreateTag::Register(req) && req@ == (CommandRequestView {
                    guild_id: guild_id,
                    name: tag@.name,
                    description: tag@.description->0,
                    options: command_options_of(tag@.options),
                })
            }
        },
{
    let expected = to_decimal(guild_id);
    if tag.guild_id != expected {
        return CreateTag::Answer(Status::BadRequest);
    }
    if !tag.validate() {
        return CreateTag::Answer(Status::BadRequest);
    }
    if tag.description.is_none() {
        return CreateTag::Unregistrable;
    }
    proof {
        lemma_checked_tag_guild_is_snowflake(tag@, guild_id);
    }
    match tag.command_request() {
        Ok(req) => CreateTag::Register(req),
        Err(_) => CreateTag::Answer(Status::InternalServerError),
    }
}

/// What became of a tag whose command was to be registered and which was
/// then to be stored.
#[derive(Debug, Clone, Copy, PartialEq, Eq, Structural)]
pub enum CreateOutcome {
    /// Discord refused the command.
    RegisterFailed,
    /// The store refused the tag.
    StoreFailed,
    /// The store took the tag but gave no id for it.
    StoredWithoutId,
    /// The tag is stored.
    Stored,
}

/// The answer once a tag's creation has run its course.
pub fn create_tag_answer(outcome: CreateOutcome) -> (s: Status)
    ensures
        s == if outcome == CreateOutcome::Stored {
            Status::Created
        } else {
            Status::InternalServerError
        },
{
    match outcome {
        CreateOutcome::Stored => Status::Created,
        _ => Status::InternalServerError,
    }
}

/// How a request to edit a tag goes on.
#[derive(Debug)]
pub enum UpdateTag {
    /// Answer at once with this status.
    Answer(Status),
    /// Edit the command `command` of guild `guild` (only where `changes` is
    /// not empty), then store the new tag.
    Edit { guild: u64, command: u64, changes: CommandChanges },
    /// The old tag has no guild or command id that is a Discord id, or the
    /// new tag drops the description: the request is not answered.
    Unusable,
}

/// The first step of editing the tag named `tag_name`: a request whose old
/// tag has another name is a bad request; otherwise the command is edited
/// with the changes from the old to the new tag.
pub fn update_tag(tag_name: &str, update: &TagUpdate) -> (r: UpdateTag)
    ensures
        tag_name@ != update.old@.name ==> r == UpdateTag::Answer(Status::BadRequest),
        tag_name@ == update.old@.name ==> {
            if snowflake(update.old@.guild_id) is None || command_snowflake_of(update.old@) is None
                || (update.new@.description != update.old@.description
                && update.new@.description is None) {
                r == UpdateTag::Unusable
            } else {
                r matches UpdateTag::Edit { guild, command, changes } && guild == snowflake(
                    update.old@.guild_id,
                )->0 && command == command_snowflake_of(update.old@)->0 && changes@
                    == command_changes_of(update.old@, update.new@)
            }
        },
{
    let wanted = String::from_str(tag_name);
    if update.old.name != wanted {
        return UpdateTag::Answer(Status::BadRequest);
    }
    let guild = match update.old.guild_snowflake() {
        Some(g) => g,
        None => {
            return UpdateTag::Unusable;
        },
    };
    let command = match update.old.command_snowflake() {
        Some(c) => c,
        None => {
            return UpdateTag::Unusable;
        },
    };
    if update.new.description.is_none() && update.old.description.is_some() {
        return UpdateTag::Unusable;
    }
    let changes = update.old.command_changes(&update.new);
    UpdateTag::Edit { guild, command, changes }
}

/// The answer once a tag's edit has run its course: accepted when the
/// command was edited and the tag stored, an error otherwise.
pub fn update_tag_answer(edited: bool, stored: bool) -> (s: Status)
    ensures
        s == if edited && stored {
            Status::Accepted
        } else {
            Status::InternalServerError
        },
{
    if edited && stored {
        Status::Accepted
    } else {
        Status::InternalServerError
    }
}

/// How a request to delete a tag goes on.
#[derive(Debug)]
pub enum DeleteTag {
    /// Answer at once with this status.
    Answer(Status),
    /// Delete the command `command` of guild `guild`.
    Unregister { guild: u64, command: u64 },
    /// The deleted tag has no guild or command id that is a Discord id: the
    /// request is not answered.
    Unusable,
}

/// The first step once the store was asked to remove the tag: no tag
/// removed (or a store failure) is an error; otherwise its command is
/// deleted.
pub fn delete_tag(removed: Option<&Tag>) -> (r: DeleteTag)
    ensures
        match removed {
            None => r == DeleteTag::Answer(Status::InternalServerError),
            Some(t) => if snowflake(t@.guild_id) is None || command_snowflake_of(t@) is None {
                r == DeleteTag::Unusable
            } else {
                r == DeleteTag::Unregister {
                    guild: snowflake(t@.guild_id)->0,
                    command: command_snowflake_of(t@)->0,
                }
            },
        },
{
    match removed {
        None => DeleteTag::Answer(Status::InternalServerError),
        Some(t) => match t.guild_snowflake() {
            Some(guild) => match t.command_snowflake() {
                Some(command) => DeleteTag::Unregister { guild, command },
                None => DeleteTag::Unusable,
            },
            None => DeleteTag::Unusable,
        },
    }
}

/// The answer once the command of a deleted tag was to be deleted: success
/// when Discord deleted it, an error otherwise.
pub fn delete_tag_answer(unregistered: bool) -> (s: Status)
    ensures
        s == if unregistered {
            Status::Success
        } else {
            Status::InternalServerError
        },
{
    if unregistered {
        Status::Success
    } else {
        Status::InternalServerError
    }
}

/// A tag created for the guild `guild_id` (it passed the checks of
/// `create_tag`) and stored with the id `command` of its registered command
/// is addressable afterwards: deleting or editing it reaches the command
/// `command` of the guild `guild_id`.
pub proof fn lemma_created_tag_is_addressable(t: TagView, guild_id: u64, command: u64)
    requires
        t.guild_id == decimal(guild_id as nat),
        tag_valid(t),
        command != 0,
    ensures
        ({
            let stored = TagView { command_id: Some(decimal(command as nat)), ..t };
            &&& snowflake(stored.guild_id) == Some(guild_id)
            &&& command_snowflake_of(stored) == Some(command)
        }),
{
    lemma_checked_tag_guild_is_snowflake(t, guild_id);
    lemma_recorded_command_reads_back(t, command);
}

/// The cache entry of a deleted tag's data, which is cleaned up.
pub fn deleted_tag_data_key(guild_id: u64, tag_name: &str) -> (k: String)
    ensures
        k@ == "tags:"@ + decimal(guild_id as nat) + ":"@ + tag_name@,
{
    tag_data_key(guild_id, tag_name)
}

} // verus!
