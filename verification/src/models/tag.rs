//! Tags: the custom slash commands that a guild defines, their options, the
//! rules a new tag must meet, and the Discord command that stands for it.

use vstd::prelude::*;
use vstd::string::*;
use crate::numeric::{decimal, lemma_parse_decimal, parse_u64, parse_u64_spec, to_decimal};
use crate::text::{byte_len, text_byte_len};
use crate::validation::{
    chat_input_name_accepted, chat_input_name_result, check_chat_input_name, check_command_description,
    check_command_options, command_description_result, command_options_accepted,
    command_options_result,
    matches_name_pattern, name_pattern_matches,
};

verus! {

/// One argument of a tag's command.
#[derive(Debug, Clone)]
pub struct TagOption {
    pub name: String,
    pub description: String,
    pub required: bool,
    /// The Discord option type number (3 is a string, 4 an integer, ...).
    pub ty: u8,
}

pub struct TagOptionView {
    pub name: Seq<char>,
    pub description: Seq<char>,
    pub required: bool,
    pub ty: u8,
}

impl View for TagOption {
    type V = TagOptionView;

    open spec fn view(&self) -> TagOptionView {
        TagOptionView {
            name: self.name@,
            description: self.description@,
            required: self.required,
            ty: self.ty,
        }
    }
}

/// The kinds of command option that Discord knows.
#[derive(Debug, Clone, Copy, PartialEq, Eq, Structural)]
pub enum OptionKind {
    String,
    Integer,
    Boolean,
    User,
    Channel,
    Role,
    Mentionable,
    Number,
    Attachment,
}

/// The kind that an option type number stands for; an unknown number is
/// taken as a string option.
pub open spec fn option_kind(ty: u8) -> OptionKind {
    if ty == 4 {
        OptionKind::Integer
    } else if ty == 5 {
        OptionKind::Boolean
    } else if ty == 6 {
        OptionKind::User
    } else if ty == 7 {
        OptionKind::Channel
    } else if ty == 8 {
        OptionKind::Role
    } else if ty == 9 {
        OptionKind::Mentionable
    } else if ty == 10 {
        OptionKind::Number
    } else if ty == 11 {
        OptionKind::Attachment
    } else {
        OptionKind::String
    }
}

/// The command option that Discord is sent for a tag option.
#[derive(Debug, Clone)]
pub struct CommandOptionData {
    pub kind: OptionKind,
    pub name: String,
    pub description: String,
    pub required: bool,
}

pub struct CommandOptionView {
    pub kind: OptionKind,
    pub name: Seq<char>,
    pub description: Seq<char>,
    pub required: bool,
}

impl View for CommandOptionData {
    type V = CommandOptionView;

    open spec fn view(&self) -> CommandOptionView {
        CommandOptionView {
            kind: self.kind,
            name: self.name@,
            description: self.description@,
            required: self.required,
        }
    }
}

/// The command option that stands for the tag option `o`.
pub open spec fn command_option_of(o: TagOptionView) -> CommandOptionView {
    CommandOptionView {
        kind: option_kind(o.ty),
        name: o.name,
        description: o.description,
        required: o.required,
    }
}

/// A tag option is valid when its name matches the name pattern, its
/// description is 1 to 100 bytes long and its type is 3 to 10.
pub open spec fn option_valid(o: TagOptionView) -> bool {
    &&& name_pattern_matches(o.name)
    &&& 1 <= byte_len(o.description) <= 100
    &&& 3 <= o.ty <= 10
}

impl TagOption {
    /// Whether the option may be part of a new tag.
    pub fn validate(&self) -> (r: bool)
        ensures
            r == option_valid(self@),
    {
        if !matches_name_pattern(self.name.as_str()) {
            return false;
        }
        let len = text_byte_len(&self.description);
        if len > 100 || len < 1 {
            return false;
        }
        if self.ty < 3 || self.ty > 10 {
            return false;
        }
        true
    }

    /// The kind of command option that the option's type number stands for.
    pub fn kind(&self) -> (k: OptionKind)
        ensures
            k == option_kind(self.ty),
    {
        match self.ty {
            4 => OptionKind::Integer,
            5 => OptionKind::Boolean,
            6 => OptionKind::User,
            7 => OptionKind::Channel,
            8 => OptionKind::Role,
            9 => OptionKind::Mentionable,
            10 => OptionKind::Number,
            11 => OptionKind::Attachment,
            _ => OptionKind::String,
        }
    }

    /// The command option that Discord is sent for this tag option.
    pub fn to_command_option(&self) -> (c: CommandOptionData)
        ensures
            c@ == command_option_of(self@),
            c.kind == option_kind(self.ty),
            self.ty == 10 ==> c.kind == OptionKind::Number,
    {
        CommandOptionData {
            kind: self.kind(),
            name: self.name.clone(),
            description: self.description.clone(),
            required: self.required,
        }
    }

    /// Whether two options agree in every field.
    pub fn same_as(&self, other: &TagOption) -> (r: bool)
        ensures
            r == (self@ == other@),
    {
        self.name == other.name && self.description == other.description && self.required
            == other.required && self.ty == other.ty
    }
}

/// The text of an optional string.
pub open spec fn opt_text(o: Option<String>) -> Option<Seq<char>> {
    match o {
        Some(s) => Some(s@),
        None => None,
    }
}

/// The views of a sequence of options.
pub open spec fn options_view(o: Seq<TagOption>) -> Seq<TagOptionView> {
    o.map_values(|x: TagOption| x@)
}

/// The command options that stand for a sequence of tag options.
pub open spec fn command_options_of(o: Seq<TagOptionView>) -> Seq<CommandOptionView> {
    o.map_values(|x: TagOptionView| command_option_of(x))
}

/// A tag: a guild's custom command, with the script that answers it.
#[derive(Debug, Clone)]
pub struct Tag {
    pub guild_id: String,
    pub author_id: String,
    /// The id of the Discord command, once one was registered.
    pub command_id: Option<String>,
    pub name: String,
    pub description: Option<String>,
    pub tagscript: String,
    pub options: Vec<TagOption>,
    pub uses: u32,
}

pub struct TagView {
    pub guild_id: Seq<char>,
    pub author_id: Seq<char>,
    pub command_id: Option<Seq<char>>,
    pub name: Seq<char>,
    pub description: Option<Seq<char>>,
    pub tagscript: Seq<char>,
    pub options: Seq<TagOptionView>,
    pub uses: u32,
}

impl View for Tag {
    type V = TagView;

    open spec fn view(&self) -> TagView {
        TagView {
            guild_id: self.guild_id@,
            author_id: self.author_id@,
            command_id: opt_text(self.command_id),
            name: self.name@,
            description: opt_text(self.description),
            tagscript: self.tagscript@,
            options: options_view(self.options@),
            uses: self.uses,
        }
    }
}

/// A Discord id: a decimal `u64` that is not zero.
pub open spec fn snowflake(s: Seq<char>) -> Option<u64> {
    match parse_u64_spec(s) {
        Some(v) => if v != 0 {
            Some(v)
        } else {
            None
        },
        None => None,
    }
}

/// The id of the tag's registered command, where it has one that reads as
/// a Discord id.
pub open spec fn command_snowflake_of(t: TagView) -> Option<u64> {
    match t.command_id {
        Some(c) => snowflake(c),
        None => None,
    }
}

/// A new tag is valid when: its guild and author ids are at least 8 bytes
/// long and read as `u64`; it has no command yet; its name matches the name
/// pattern; its description, if any, is 1 to 100 bytes long; its script is
/// 1 to 10 000 bytes long; it has at most 10 options and each is valid.
pub open spec fn tag_valid(t: TagView) -> bool {
    &&& byte_len(t.guild_id) >= 8
    &&& parse_u64_spec(t.guild_id) is Some
    &&& byte_len(t.author_id) >= 8
    &&& parse_u64_spec(t.author_id) is Some
    &&& t.command_id is None
    &&& name_pattern_matches(t.name)
    &&& (t.description matches Some(d) ==> 1 <= byte_len(d) <= 100)
    &&& 1 <= byte_len(t.tagscript) <= 10_000
    &&& t.options.len() <= 10
    &&& forall|i: int| 0 <= i < t.options.len() ==> option_valid(#[trigger] t.options[i])
}

/// Reads `s` as a Discord id.
pub fn read_snowflake(s: &str) -> (r: Option<u64>)
    ensures
        r == snowflake(s@),
{
    match parse_u64(s) {
        Some(v) => if v != 0 {
            Some(v)
        } else {
            None
        },
        None => None,
    }
}

/// What Discord's checks answer for the command of a tag with a
/// description: the description is checked first, then the name, then the
/// options; the first error found is the answer.
pub open spec fn command_request_check(t: TagView) -> Result<(), twilight_validate::command::CommandValidationError> {
    let description = match t.description {
        Some(d) => d,
        None => Seq::empty(),
    };
    match command_description_result(description) {
        Err(e) => Err(e),
        Ok(_) => match chat_input_name_result(t.name) {
            Err(e) => Err(e),
            Ok(_) => command_options_result(command_options_of(t.options)),
        },
    }
}

/// What is sent to Discord to register the command of a tag.
#[derive(Debug, Clone)]
pub struct CommandRequest {
    pub guild_id: u64,
    pub name: String,
    pub description: String,
    pub options: Vec<CommandOptionData>,
}

pub struct CommandRequestView {
    pub guild_id: u64,
    pub name: Seq<char>,
    pub description: Seq<char>,
    pub options: Seq<CommandOptionView>,
}

impl View for CommandRequest {
    type V = CommandRequestView;

    open spec fn view(&self) -> CommandRequestView {
        CommandRequestView {
            guild_id: self.guild_id,
            name: self.name@,
            description: self.description@,
            options: self.options@.map_values(|o: CommandOptionData| o@),
        }
    }
}

/// The fields of a registered command that an edit of the tag changes;
/// `None` where the field stays as it is.
#[derive(Debug, Clone)]
pub struct CommandChanges {
    pub name: Option<String>,
    pub description: Option<String>,
    pub options: Option<Vec<CommandOptionData>>,
}

pub struct CommandChangesView {
    pub name: Option<Seq<char>>,
    pub description: Option<Seq<char>>,
    pub options: Option<Seq<CommandOptionView>>,
}

impl View for CommandChanges {
    type V = CommandChangesView;

    open spec fn view(&self) -> CommandChangesView {
        CommandChangesView {
            name: opt_text(self.name),
            description: opt_text(self.description),
            options: match self.options {
                Some(o) => Some(o@.map_values(|x: CommandOptionData| x@)),
                None => None,
            },
        }
    }
}

/// The changes that bring the command of `old` to that of `new`: each field
/// where the two tags differ, with the value of `new`.
pub open spec fn command_changes_of(old: TagView, new: TagView) -> CommandChangesView {
    CommandChangesView {
        name: if new.name != old.name {
            Some(new.name)
        } else {
            None
        },
        description: if new.description != old.description {
            Some(new.description->0)
        } else {
            None
        },
        options: if new.options != old.options {
            Some(command_options_of(new.options))
        } else {
            None
        },
    }
}

impl CommandChanges {
    /// Whether nothing changes, so that no request is owed.
    pub fn is_empty(&self) -> (r: bool)
        ensures
            r == (self@.name is None && self@.description is None && self@.options is None),
    {
        self.name.is_none() && self.description.is_none() && self.options.is_none()
    }
}

/// Whether two optional texts are equal.
fn same_opt_text(a: &Option<String>, b: &Option<String>) -> (r: bool)
    ensures
        r == (opt_text(*a) == opt_text(*b)),
{
    match a {
        Some(x) => match b {
            Some(y) => *x == *y,
            None => false,
        },
        None => b.is_none(),
    }
}

/// Whether two lists of options agree option by option.
pub fn same_options(a: &Vec<TagOption>, b: &Vec<TagOption>) -> (r: bool)
    ensures
        r == (options_view(a@) == options_view(b@)),
{
    if a.len() != b.len() {
        assert(options_view(a@).len() != options_view(b@).len());
        return false;
    }
    let mut i: usize = 0;
    while i < a.len()
        invariant
            i <= a.len() == b.len(),
            forall|k: int| 0 <= k < i ==> a@[k]@ == b@[k]@,
        decreases a.len() - i,
    {
        if !a[i].same_as(&b[i]) {
            assert(options_view(a@)[i as int] != options_view(b@)[i as int]);
            return false;
        }
        i = i + 1;
    }
    assert(options_view(a@) =~= options_view(b@));
    true
}

/// The command options for a list of tag options.
pub fn command_options(options: &Vec<TagOption>) -> (r: Vec<CommandOptionData>)
    ensures
        r@.map_values(|x: CommandOptionData| x@) == command_options_of(options_view(options@)),
{
    let mut out: Vec<CommandOptionData> = Vec::new();
    let mut i: usize = 0;
    while i < options.len()
        invariant
            i <= options.len(),
            out@.len() == i,
            forall|k: int| 0 <= k < i ==> #[trigger] out@[k]@ == command_option_of(options@[k]@),
        decreases options.len() - i,
    {
        out.push(options[i].to_command_option());
        i = i + 1;
    }
    assert(out@.map_values(|x: CommandOptionData| x@) =~= command_options_of(
        options_view(options@),
    ));
    out
}

/// The registered command of a tag as Discord holds it.
pub struct CommandView {
    pub name: Seq<char>,
    pub description: Option<Seq<char>>,
    pub options: Seq<CommandOptionView>,
}

/// The command that stands for a tag.
pub open spec fn command_of(t: TagView) -> CommandView {
    CommandView {
        name: t.name,
        description: t.description,
        options: command_options_of(t.options),
    }
}

/// The command after an edit request with changes `c`.
pub open spec fn apply_changes(cmd: CommandView, c: CommandChangesView) -> CommandView {
    CommandView {
        name: match c.name {
            Some(n) => n,
            None => cmd.name,
        },
        description: match c.description {
            Some(d) => Some(d),
            None => cmd.description,
        },
        options: match c.options {
            Some(o) => o,
            None => cmd.options,
        },
    }
}

/// Once a command id is recorded on a tag, the tag gives that id back as
/// the id of its command (Discord ids are never zero).
pub proof fn lemma_recorded_command_reads_back(t: TagView, id: u64)
    requires
        id != 0,
    ensures
        command_snowflake_of(TagView { command_id: Some(decimal(id as nat)), ..t }) == Some(id),
{
    lemma_parse_decimal(id);
}

/// An edit asks for no change exactly when the old and the new tag agree in
/// name, description and options.
pub proof fn lemma_no_changes_iff_same_command(old: TagView, new: TagView)
    ensures
        ({
            let c = command_changes_of(old, new);
            c.name is None && c.description is None && c.options is None
        }) <==> (new.name == old.name && new.description == old.description && new.options
            == old.options),
{
}

/// Applying the changes of an edit to the command of the old tag gives the
/// command of the new tag.
pub proof fn lemma_changes_reach_new_command(old: TagView, new: TagView)
    requires
        new.description != old.description ==> new.description is Some,
    ensures
        apply_changes(command_of(old), command_changes_of(old, new)) == command_of(new),
{
}

/// A valid tag whose guild id is the decimal text of `guild_id` belongs to a
/// guild whose id reads back as that Discord id: a valid id is at least 8
/// bytes long, so it is not the text of zero.
pub proof fn lemma_checked_tag_guild_is_snowflake(t: TagView, guild_id: u64)
    requires
        t.guild_id == decimal(guild_id as nat),
        tag_valid(t),
    ensures
        snowflake(t.guild_id) == Some(guild_id),
{
    lemma_parse_decimal(guild_id);
    if guild_id == 0 {
        let z = decimal(0);
        assert(z =~= seq!['0']);
        vstd::utf8::is_ascii_chars_encode_utf8(z);
        assert(byte_len(z) == 1);
    }
}

/// A valid tag meets every rule for a new tag: both ids are decimal numbers
/// of at least 8 bytes, no command is registered yet, the name matches the
/// name pattern, a description has 1 to 100 bytes, the script 1 to 10,000
/// bytes, and there are at most 10 options, each of them (the first as well
/// as the others) with a name that matches the pattern, a description of 1
/// to 100 bytes and a type from 3 to 10. A tag that breaks any of them is
/// not valid.
pub proof fn lemma_valid_tag_meets_every_rule(t: TagView)
    ensures
        tag_valid(t) ==> byte_len(t.guild_id) >= 8 && byte_len(t.author_id) >= 8,
        tag_valid(t) ==> parse_u64_spec(t.guild_id) is Some && parse_u64_spec(t.author_id) is Some,
        tag_valid(t) ==> t.command_id is None && name_pattern_matches(t.name),
        tag_valid(t) ==> (t.description matches Some(d) ==> 1 <= byte_len(d) <= 100),
        tag_valid(t) ==> 1 <= byte_len(t.tagscript) <= 10_000 && t.options.len() <= 10,
        tag_valid(t) ==> forall|i: int| 0 <= i < t.options.len() ==> {
            &&& name_pattern_matches(#[trigger] t.options[i].name)
            &&& 1 <= byte_len(t.options[i].description) <= 100
            &&& 3 <= t.options[i].ty <= 10
        },
{
}

/// A tag that meets every rule for a new tag is valid: no rule beyond them
/// is asked of it.
pub proof fn lemma_tag_meeting_every_rule_is_valid(t: TagView)
    requires
        byte_len(t.guild_id) >= 8 && byte_len(t.author_id) >= 8,
        parse_u64_spec(t.guild_id) is Some && parse_u64_spec(t.author_id) is Some,
        t.command_id is None && name_pattern_matches(t.name),
        t.description matches Some(d) ==> 1 <= byte_len(d) <= 100,
        1 <= byte_len(t.tagscript) <= 10_000 && t.options.len() <= 10,
        forall|i: int| 0 <= i < t.options.len() ==> {
            &&& name_pattern_matches(#[trigger] t.options[i].name)
            &&& 1 <= byte_len(t.options[i].description) <= 100
            &&& 3 <= t.options[i].ty <= 10
        },
    ensures
        tag_valid(t),
{
    assert forall|i: int| 0 <= i < t.options.len() implies option_valid(#[trigger] t.options[i]) by {
        assert(name_pattern_matches(t.options[i].name));
    }
}

/// A tag with an author id shorter than 8 bytes is never valid, whatever
/// else it holds.
pub proof fn lemma_short_author_id_is_invalid(t: TagView)
    requires
        byte_len(t.author_id) < 8,
    ensures
        !tag_valid(t),
{
}

/// One option that breaks an option rule (its name does not match the
/// pattern, its description is empty or longer than 100 bytes, or its type
/// is outside 3 to 10) makes the whole tag invalid, wherever it stands.
pub proof fn lemma_bad_option_makes_tag_invalid(t: TagView, i: int)
    requires
        0 <= i < t.options.len(),
        !name_pattern_matches(t.options[i].name) || byte_len(t.options[i].description) < 1
            || byte_len(t.options[i].description) > 100 || t.options[i].ty < 3 || t.options[i].ty > 10,
    ensures
        !tag_valid(t),
{
    if tag_valid(t) {
        assert(option_valid(t.options[i]));
    }
}

/// The command option sent for a tag option keeps its name, description and
/// whether it is required, and has the kind that Discord numbers with the
/// option's type: 3 a string, 4 an integer, 5 a boolean, 6 a user, 7 a
/// channel, 8 a role, 9 a mentionable, 10 a number, 11 an attachment; any
/// other number is sent as a string. Two type numbers from 3 to 11 that
/// differ give different kinds.
pub proof fn lemma_command_option_kind(o: TagOptionView, p: TagOptionView)
    ensures
        command_option_of(o).name == o.name,
        command_option_of(o).description == o.description,
        command_option_of(o).required == o.required,
        o.ty == 3 ==> command_option_of(o).kind == OptionKind::String,
        o.ty == 4 ==> command_option_of(o).kind == OptionKind::Integer,
        o.ty == 5 ==> command_option_of(o).kind == OptionKind::Boolean,
        o.ty == 6 ==> command_option_of(o).kind == OptionKind::User,
        o.ty == 7 ==> command_option_of(o).kind == OptionKind::Channel,
        o.ty == 8 ==> command_option_of(o).kind == OptionKind::Role,
        o.ty == 9 ==> command_option_of(o).kind == OptionKind::Mentionable,
        o.ty == 10 ==> command_option_of(o).kind == OptionKind::Number,
        o.ty == 11 ==> command_option_of(o).kind == OptionKind::Attachment,
        (o.ty < 3 || o.ty > 11) ==> command_option_of(o).kind == OptionKind::String,
        3 <= o.ty <= 11 && 3 <= p.ty <= 11 && o.ty != p.ty ==> command_option_of(o).kind
            != command_option_of(p).kind,
{
}

impl Tag {
    /// Whether the tag may be created: see `tag_valid`.
    pub fn validate(&self) -> (r: bool)
        ensures
            r == tag_valid(self@),
            r ==> byte_len(self@.author_id) >= 8 && byte_len(self@.guild_id) >= 8,
            r ==> forall|i: int| 0 <= i < self@.options.len() ==> {
                &&& name_pattern_matches(#[trigger] self@.options[i].name)
                &&& 1 <= byte_len(self@.options[i].description) <= 100
                &&& 3 <= self@.options[i].ty <= 10
            },
    {
        if text_byte_len(&self.guild_id) < 8 || parse_u64(self.guild_id.as_str()).is_none()
            || text_byte_len(&self.author_id) < 8 || parse_u64(self.author_id.as_str()).is_none()
            || self.command_id.is_some() {
            return false;
        }
        if !matches_name_pattern(self.name.as_str()) {
            return false;
        }
        match &self.description {
            Some(description) => {
                let len = text_byte_len(description);
                if len > 100 || len < 1 {
                    return false;
                }
            },
            None => {},
        }
        let script_len = text_byte_len(&self.tagscript);
        if script_len < 1 || script_len > 10_000 {
            return false;
        }
        if self.options.len() > 10 {
            return false;
        }
        let mut i: usize = 0;
        while i < self.options.len()
            invariant
                i <= self.options.len(),
                forall|k: int| 0 <= k < i ==> option_valid(#[trigger] self.options@[k]@),
            decreases self.options.len() - i,
        {
            if !self.options[i].validate() {
                assert(!option_valid(options_view(self.options@)[i as int]));
                return false;
            }
            i = i + 1;
        }
        assert forall|k: int| 0 <= k < self@.options.len() implies option_valid(
            #[trigger] self@.options[k],
        ) by {
            assert(self@.options[k] == self.options@[k]@);
        }
        true
    }

    /// The id of the guild that the tag belongs to, as a Discord id.
    pub fn guild_snowflake(&self) -> (r: Option<u64>)
        ensures
            r == snowflake(self@.guild_id),
    {
        read_snowflake(self.guild_id.as_str())
    }

    /// The id of the tag's registered command, as a Discord id.
    pub fn command_snowflake(&self) -> (r: Option<u64>)
        ensures
            r == command_snowflake_of(self@),
    {
        match &self.command_id {
            Some(c) => read_snowflake(c.as_str()),
            None => None,
        }
    }

    /// Records the id of the command that was registered for the tag.
    pub fn record_command(&mut self, id: u64)
        ensures
            final(self)@ == (TagView { command_id: Some(decimal(id as nat)), ..old(self)@ }),
    {
        self.command_id = Some(to_decimal(id));
    }

    /// The request that registers the tag's command: the guild, the name,
    /// the description and the options. It fails as Discord's rules for
    /// command descriptions (checked first), names and then options do, with
    /// the error that the first failing check gives (`command_request_check`).
    pub fn command_request(&self) -> (r: Result<
        CommandRequest,
        twilight_validate::command::CommandValidationError,
    >)
        requires
            snowflake(self@.guild_id) is Some,
            self@.description is Some,
        ensures
            r is Ok <==> (1 <= self@.description->0.len() <= 100 && chat_input_name_accepted(
                self@.name,
            ) && command_options_accepted(command_options_of(self@.options))),
            r matches Err(e) ==> (command_request_check(self@) matches Err(f) && f == e),
            r is Ok ==> r->Ok_0@ == (CommandRequestView {
                guild_id: snowflake(self@.guild_id)->0,
                name: self@.name,
                description: self@.description->0,
                options: command_options_of(self@.options),
            }),
    {
        let guild_id = match self.guild_snowflake() {
            Some(g) => g,
            None => 0,
        };
        let description = match &self.description {
            Some(d) => d.clone(),
            None => String::new(),
        };
        match check_command_description(description.as_str()) {
            Ok(()) => {},
            Err(e) => {
                return Err(e);
            },
        }
        match check_chat_input_name(self.name.as_str()) {
            Ok(()) => {},
            Err(e) => {
                return Err(e);
            },
        }
        let options = command_options(&self.options);
        match check_command_options(&options) {
            Ok(()) => {},
            Err(e) => {
                return Err(e);
            },
        }
        Ok(CommandRequest { guild_id, name: self.name.clone(), description, options })
    }

    /// The changes that bring the command of this tag to that of `new`.
    pub fn command_changes(&self, new: &Tag) -> (c: CommandChanges)
        requires
            new@.description != self@.description ==> new@.description is Some,
        ensures
            c@ == command_changes_of(self@, new@),
    {
        let name = if new.name != self.name {
            Some(new.name.clone())
        } else {
            None
        };
        let description = if !same_opt_text(&new.description, &self.description) {
            match &new.description {
                Some(d) => Some(d.clone()),
                None => None,
            }
        } else {
            None
        };
        let options = if !same_options(&new.options, &self.options) {
            Some(command_options(&new.options))
        } else {
            None
        };
        CommandChanges { name, description, options }
    }
}

/// A request to edit a tag: the tag as it is and as it shall be.
#[derive(Debug, Clone)]
pub struct TagUpdate {
    pub new: Tag,
    pub old: Tag,
}

} // verus!
