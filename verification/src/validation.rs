//! The two outside rules that names and descriptions meet: the name pattern
//! of the tag models (a regular expression) and Discord's rules for slash
//! commands (as `twilight_validate` checks them).

use vstd::prelude::*;
use vstd::utf8::*;
use crate::models::tag::{CommandOptionData, CommandOptionView, OptionKind};
use crate::text::{is_ascii_digit, is_ascii_letter, is_ascii_lower};
use twilight_model::application::command::{CommandOption, CommandOptionType};

verus! {

/// The pattern that the names of tags and of their options must match:
/// 1 to 32 characters, each a `-`, a `_`, a Unicode letter or number, or a
/// character of the Devanagari or Thai script.
pub const NAME_PATTERN: &'static str = "^[-_\\p{L}\\p{N}\\p{sc=Deva}\\p{sc=Thai}]{1,32}$";

/// Whether the regular expression `pattern` matches `haystack`.
pub uninterp spec fn regex_is_match(pattern: Seq<char>, haystack: Seq<char>) -> bool;

/// The ASCII characters that the name pattern's class admits: `-`, `_`,
/// ASCII letters and ASCII digits (the only ASCII members of `\p{L}` and
/// `\p{N}`; no ASCII character is of the Devanagari or Thai script).
pub open spec fn ascii_name_char(c: char) -> bool {
    c == '-' || c == '_' || is_ascii_letter(c) || is_ascii_digit(c)
}

#[verifier::external_type_specification]
#[verifier::external_body]
pub struct ExRegexError(regex::Error);

/// Compiles `pattern` with `regex::Regex::new` and calls
/// `regex::Regex::is_match` on `haystack`. The result of a match is named.
/// Of the name pattern the contract states that it compiles, that a match
/// is 1 to 32 characters long (`{1,32}` counts characters), and, on ASCII
/// text, the whole meaning of the pattern. Which non-ASCII characters the
/// Unicode classes admit is left to the name.
#[verifier::external_body]
pub(crate) fn regex_matches(pattern: &str, haystack: &str) -> (r: Result<bool, regex::Error>)
    ensures
        r is Ok ==> r->Ok_0 == regex_is_match(pattern@, haystack@),
        pattern@ == NAME_PATTERN@ ==> r is Ok,
        pattern@ == NAME_PATTERN@ && r is Ok && r->Ok_0 ==> 1 <= haystack@.len() <= 32,
        pattern@ == NAME_PATTERN@ && is_ascii_chars(haystack@) ==> (r is Ok && r->Ok_0 <==> (1
            <= haystack@.len() <= 32 && forall|i: int|
            0 <= i < haystack@.len() ==> ascii_name_char(#[trigger] haystack@[i]))),
{
    regex::Regex::new(pattern).map(|re| re.is_match(haystack))
}

/// Whether the name pattern matches the whole of `name`.
pub open spec fn name_pattern_matches(name: Seq<char>) -> bool {
    regex_is_match(NAME_PATTERN@, name)
}

/// Whether `name` matches the name pattern.
pub fn matches_name_pattern(name: &str) -> (r: bool)
    ensures
        r == name_pattern_matches(name@),
        r ==> 1 <= name@.len() <= 32,
        is_ascii_chars(name@) ==> (r <==> (1 <= name@.len() <= 32 && forall|i: int|
            0 <= i < name@.len() ==> ascii_name_char(#[trigger] name@[i]))),
{
    match regex_matches(NAME_PATTERN, name) {
        Ok(m) => m,
        Err(_) => false,
    }
}

#[verifier::external_type_specification]
#[verifier::external_body]
pub struct ExCommandValidationError(twilight_validate::command::CommandValidationError);

/// What `twilight_validate::command::chat_input_name` answers for `name`:
/// nothing, or the error that it finds.
pub uninterp spec fn chat_input_name_result(name: Seq<char>) -> Result<(), twilight_validate::command::CommandValidationError>;

/// Whether Discord accepts `name` as the name of a chat input command.
pub open spec fn chat_input_name_accepted(name: Seq<char>) -> bool {
    chat_input_name_result(name) is Ok
}

/// The ASCII characters that a chat input command name may hold: lowercase
/// letters, digits, `-` and `_`.
pub open spec fn ascii_command_char(c: char) -> bool {
    c == '-' || c == '_' || is_ascii_lower(c) || is_ascii_digit(c)
}

/// Calls `twilight_validate::command::chat_input_name`. It accepts 1 to 32
/// characters, each alphanumeric, `-` or `_`, and each its own lowercase.
/// The result, the error included, is named; the contract states the
/// length bound and the whole rule on ASCII text. Which non-ASCII characters
/// count as alphanumeric and lowercase is left to the name, and so is which
/// error comes back.
#[verifier::external_body]
pub(crate) fn check_chat_input_name(name: &str) -> (r: Result<(), twilight_validate::command::CommandValidationError>)
    ensures
        r == chat_input_name_result(name@),
        r is Ok ==> 1 <= name@.len() <= 32,
        is_ascii_chars(name@) ==> (r is Ok <==> (1 <= name@.len() <= 32 && forall|i: int|
            0 <= i < name@.len() ==> ascii_command_char(#[trigger] name@[i]))),
{
    twilight_validate::command::chat_input_name(name)
}

/// What `twilight_validate::command::description` answers for
/// `description`: nothing, or the error that it finds.
pub uninterp spec fn command_description_result(description: Seq<char>) -> Result<(), twilight_validate::command::CommandValidationError>;

/// Calls `twilight_validate::command::description`, which accepts a
/// description of 1 to 100 characters. The result is named, so that the
/// error it gives is known by that name; when it is one is stated.
#[verifier::external_body]
pub(crate) fn check_command_description(description: &str) -> (r: Result<(), twilight_validate::command::CommandValidationError>)
    ensures
        r == command_description_result(description@),
        r is Ok <==> 1 <= description@.len() <= 100,
{
    twilight_validate::command::description(description)
}

/// The most options that a command may have.
pub const OPTIONS_LIMIT: usize = 25;

/// The views of a sequence of command options.
pub open spec fn option_views(o: Seq<CommandOptionData>) -> Seq<CommandOptionView> {
    o.map_values(|x: CommandOptionData| x@)
}

/// No two of the options share a name.
pub open spec fn option_names_unique(o: Seq<CommandOptionView>) -> bool {
    forall|i: int, j: int| 0 <= i < j < o.len() ==> #[trigger] o[i].name != #[trigger] o[j].name
}

/// No required option comes after an optional one.
pub open spec fn required_options_first(o: Seq<CommandOptionView>) -> bool {
    forall|i: int, j: int| 0 <= i < j < o.len() ==> (#[trigger] o[j].required ==> #[trigger] o[i].required)
}

/// The rules that Discord sets for a list of command options that have
/// neither choices nor nested options: at most 25 of them, unique names,
/// required options first, each description 1 to 100 characters, each name
/// 1 to 32 characters, and an ASCII name made of lowercase letters, digits,
/// `-` and `_`.
pub open spec fn command_options_rules(o: Seq<CommandOptionView>) -> bool {
    &&& o.len() <= OPTIONS_LIMIT
    &&& option_names_unique(o)
    &&& required_options_first(o)
    &&& forall|i: int| 0 <= i < o.len() ==> 1 <= #[trigger] o[i].description.len() <= 100
    &&& forall|i: int| 0 <= i < o.len() ==> 1 <= #[trigger] o[i].name.len() <= 32
    &&& forall|i: int, k: int|
        0 <= i < o.len() && is_ascii_chars(o[i].name) && 0 <= k < o[i].name.len()
            ==> ascii_command_char(#[trigger] o[i].name[k])
}

/// What `twilight_validate::command::options` answers for `options`:
/// nothing, or the error that it finds.
pub uninterp spec fn command_options_result(options: Seq<CommandOptionView>) -> Result<(), twilight_validate::command::CommandValidationError>;

/// Whether Discord accepts `options` as the options of a command.
pub open spec fn command_options_accepted(options: Seq<CommandOptionView>) -> bool {
    command_options_result(options) is Ok
}

/// Turns each option into twilight's `CommandOption` (no choices, no nested
/// options, `required` set) and calls `twilight_validate::command::options`
/// on the list. That function checks the count (at most 25), that the names
/// are unique, that no required option follows an optional one, and then
/// each option: a description of 1 to 100 characters and a name of 1 to 32
/// characters, each alphanumeric, `-` or `_`, and its own lowercase. The
/// result, the error included, is named; the contract states every rule,
/// and on ASCII names the whole of them. Which non-ASCII characters count as
/// alphanumeric and lowercase is left to the name, and so is which error
/// comes back.
#[verifier::external_body]
pub(crate) fn check_command_options(options: &Vec<CommandOptionData>) -> (r: Result<(), twilight_validate::command::CommandValidationError>)
    ensures
        r == command_options_result(option_views(options@)),
        r is Ok ==> command_options_rules(option_views(options@)),
        (forall|i: int| 0 <= i < options@.len() ==> is_ascii_chars(#[trigger] options@[i]@.name))
            ==> (r is Ok <==> command_options_rules(option_views(options@))),
{
    let list: Vec<CommandOption> = options.iter().map(|o| CommandOption {
        autocomplete: None, channel_types: None, choices: None, description_localizations: None,
        max_length: None, max_value: None, min_length: None, min_value: None,
        name_localizations: None, options: None, required: Some(o.required),
        name: o.name.clone(), description: o.description.clone(),
        kind: match o.kind {
            OptionKind::String => CommandOptionType::String, OptionKind::Integer => CommandOptionType::Integer,
            OptionKind::Boolean => CommandOptionType::Boolean, OptionKind::User => CommandOptionType::User,
            OptionKind::Channel => CommandOptionType::Channel, OptionKind::Role => CommandOptionType::Role,
            OptionKind::Mentionable => CommandOptionType::Mentionable, OptionKind::Number => CommandOptionType::Number,
            OptionKind::Attachment => CommandOptionType::Attachment,
        },
    }).collect();
    twilight_validate::command::options(&list)
}

} // verus!
