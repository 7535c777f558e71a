use twilight_validate::command::{chat_input_name, description};
use squid_dashboard::models::tag::{
    command_options, same_options, CommandOptionData, OptionKind, Tag, TagOption, TagUpdate,
};

fn option(name: &str, description: &str, ty: u8) -> TagOption {
    TagOption { name: name.to_string(), description: description.to_string(), required: false, ty }
}

fn tag(name: &str) -> Tag {
    Tag {
        guild_id: "123456789012345678".to_string(),
        author_id: "876543210987654321".to_string(),
        command_id: None,
        name: name.to_string(),
        description: Some("says hello".to_string()),
        tagscript: "Hello {user}!".to_string(),
        options: vec![],
        uses: 0,
    }
}

#[test]
fn valid_tag_passes() {
    assert!(tag("hello").validate());
    let mut t = tag("hello");
    t.description = None;
    assert!(t.validate());
    t.options = vec![option("who", "whom to greet", 6); 10];
    assert!(t.validate());
}

#[test]
fn ids_must_be_long_numbers() {
    let mut t = tag("hello");
    t.guild_id = "1234567".to_string();
    assert!(!t.validate());
    t.guild_id = "12345678".to_string();
    assert!(t.validate());
    t.guild_id = "1234567x".to_string();
    assert!(!t.validate());
    let mut t = tag("hello");
    t.author_id = "99999999999999999999".to_string();
    assert!(!t.validate());
    t.author_id = "+1234567".to_string();
    assert!(t.validate());
}

#[test]
fn registered_tag_is_not_new() {
    let mut t = tag("hello");
    t.command_id = Some("1".to_string());
    assert!(!t.validate());
}

#[test]
fn name_must_match_pattern() {
    assert!(!tag("hello world").validate());
    assert!(!tag("").validate());
    assert!(!tag(&"a".repeat(33)).validate());
    assert!(tag("Grüße").validate());
}

#[test]
fn description_length_in_bytes() {
    let mut t = tag("hello");
    t.description = Some(String::new());
    assert!(!t.validate());
    t.description = Some("d".repeat(100));
    assert!(t.validate());
    t.description = Some("d".repeat(101));
    assert!(!t.validate());
    // 50 two-byte characters are 100 bytes; 51 are 102.
    t.description = Some("é".repeat(50));
    assert!(t.validate());
    t.description = Some("é".repeat(51));
    assert!(!t.validate());
}

#[test]
fn script_length_in_bytes() {
    let mut t = tag("hello");
    t.tagscript = String::new();
    assert!(!t.validate());
    t.tagscript = "s".repeat(10_000);
    assert!(t.validate());
    t.tagscript = "s".repeat(10_001);
    assert!(!t.validate());
}

#[test]
fn at_most_ten_valid_options() {
    let mut t = tag("hello");
    t.options = vec![option("who", "whom to greet", 3); 11];
    assert!(!t.validate());
    t.options = vec![option("who", "whom to greet", 3), option("bad name", "x", 3)];
    assert!(!t.validate());
}

#[test]
fn option_type_out_of_range_fails() {
    assert!(!option("arg", "an argument", 2).validate());
    assert!(!option("arg", "an argument", 11).validate());
    assert!(option("arg", "an argument", 3).validate());
    assert!(option("arg", "an argument", 10).validate());
}

#[test]
fn option_description_length() {
    assert!(!option("arg", "", 3).validate());
    assert!(option("arg", &"d".repeat(100), 3).validate());
    assert!(!option("arg", &"d".repeat(101), 3).validate());
    assert!(!option("a b", "desc", 3).validate());
}

#[test]
fn option_kinds() {
    let kinds = [
        (3, OptionKind::String),
        (4, OptionKind::Integer),
        (5, OptionKind::Boolean),
        (6, OptionKind::User),
        (7, OptionKind::Channel),
        (8, OptionKind::Role),
        (9, OptionKind::Mentionable),
        (10, OptionKind::Number),
        (11, OptionKind::Attachment),
        (0, OptionKind::String),
        (12, OptionKind::String),
        (255, OptionKind::String),
    ];
    for (ty, kind) in kinds {
        assert_eq!(option("a", "b", ty).kind(), kind);
    }
    let c: CommandOptionData = TagOption { name: "n".into(), description: "d".into(), required: true, ty: 7 }
        .to_command_option();
    assert_eq!(c.kind, OptionKind::Channel);
    assert_eq!(c.name, "n");
    assert_eq!(c.description, "d");
    assert!(c.required);
}

#[test]
fn command_options_keep_order() {
    let opts = vec![option("a", "first", 4), option("b", "second", 5)];
    let c = command_options(&opts);
    assert_eq!(c.len(), 2);
    assert_eq!(c[0].name, "a");
    assert_eq!(c[0].kind, OptionKind::Integer);
    assert_eq!(c[1].name, "b");
    assert_eq!(c[1].kind, OptionKind::Boolean);
}

#[test]
fn snowflakes() {
    let mut t = tag("hello");
    assert_eq!(t.guild_snowflake(), Some(123456789012345678));
    t.guild_id = "0".to_string();
    assert_eq!(t.guild_snowflake(), None);
    t.guild_id = "abc".to_string();
    assert_eq!(t.guild_snowflake(), None);
    assert_eq!(t.command_snowflake(), None);
    t.command_id = Some("0".to_string());
    assert_eq!(t.command_snowflake(), None);
}

#[test]
fn recorded_command_reads_back() {
    let mut t = tag("hello");
    t.record_command(1029384756102938475);
    assert_eq!(t.command_id.as_deref(), Some("1029384756102938475"));
    assert_eq!(t.command_snowflake(), Some(1029384756102938475));
    assert_eq!(t.name, "hello");
}

#[test]
fn command_request_for_valid_tag() {
    let mut t = tag("hello");
    t.options = vec![option("who", "whom", 6)];
    let req = t.command_request().expect("accepted");
    assert_eq!(req.guild_id, 123456789012345678);
    assert_eq!(req.name, "hello");
    assert_eq!(req.description, "says hello");
    assert_eq!(req.options.len(), 1);
    assert_eq!(req.options[0].kind, OptionKind::User);
}

#[test]
fn command_request_follows_discord_rules() {
    // Discord wants lowercase names, though the tag pattern allows capitals.
    assert!(tag("Hello").command_request().is_err());
    let mut t = tag("hello");
    t.description = Some("é".repeat(100));
    assert!(t.command_request().is_ok());
    t.description = Some("é".repeat(101));
    assert!(t.command_request().is_err());
    t.description = Some(String::new());
    assert!(t.command_request().is_err());
}

fn required(name: &str) -> TagOption {
    TagOption { required: true, ..option(name, "needed", 3) }
}

#[test]
fn command_request_follows_discord_option_rules() {
    let mut t = tag("hello");
    t.options = vec![required("a"), required("b"), option("c", "maybe", 4)];
    let req = t.command_request().expect("required options come first");
    assert_eq!(req.options.len(), 3);
    assert!(req.options[0].required && !req.options[2].required);

    t.options = vec![option("c", "maybe", 4), required("a")];
    assert!(t.command_request().is_err(), "a required option after an optional one");

    t.options = vec![option("who", "one", 3), option("who", "two", 4)];
    assert!(t.command_request().is_err(), "two options with one name");

    t.options = (0..26).map(|i| option(&format!("o{}", i), "an option", 3)).collect();
    assert!(t.command_request().is_err(), "26 options");
    t.options.pop();
    assert!(t.command_request().is_ok(), "25 options");

    t.options = vec![option("Who", "whom", 6)];
    assert!(t.command_request().is_err(), "an option name with a capital");
    t.options = vec![option("who", "", 6)];
    assert!(t.command_request().is_err(), "an empty option description");
    t.options = vec![option("who", &"d".repeat(101), 6)];
    assert!(t.command_request().is_err(), "an option description of 101 characters");
    t.options = vec![option(&"w".repeat(33), "whom", 6)];
    assert!(t.command_request().is_err(), "an option name of 33 characters");
    t.options = vec![option(&"w".repeat(32), &"d".repeat(100), 6)];
    assert!(t.command_request().is_ok(), "longest option name and description");
}

#[test]
fn no_changes_for_same_command() {
    let old = tag("hello");
    let mut new = old.clone();
    new.tagscript = "Bye".to_string();
    new.uses = 40;
    assert!(old.command_changes(&new).is_empty());
}

#[test]
fn changes_name_description_options() {
    let old = tag("hello");
    let mut new = tag("hi");
    new.description = Some("says hi".to_string());
    new.options = vec![option("who", "whom", 6)];
    let c = old.command_changes(&new);
    assert!(!c.is_empty());
    assert_eq!(c.name.as_deref(), Some("hi"));
    assert_eq!(c.description.as_deref(), Some("says hi"));
    let opts = c.options.expect("options changed");
    assert_eq!(opts.len(), 1);
    assert_eq!(opts[0].name, "who");
    let mut only_required = old.clone();
    only_required.options = vec![option("who", "whom", 6)];
    let mut flipped = only_required.clone();
    flipped.options[0].required = true;
    let c = only_required.command_changes(&flipped);
    assert!(c.name.is_none() && c.description.is_none() && c.options.is_some());
}

#[test]
fn same_options_compares_every_field() {
    let a = vec![option("a", "b", 3)];
    assert!(same_options(&a, &a.clone()));
    assert!(!same_options(&a, &vec![option("a", "b", 4)]));
    assert!(!same_options(&a, &vec![option("a", "c", 3)]));
    assert!(!same_options(&a, &vec![]));
}

#[test]
fn tag_update_holds_both() {
    let u = TagUpdate { new: tag("b"), old: tag("a") };
    assert_eq!(u.old.name, "a");
    assert_eq!(u.new.name, "b");
}

#[test]
fn changes_bring_old_command_to_new() {
    let mut old = tag("hello");
    old.options = vec![option("who", "whom", 6)];
    let mut new = tag("hi");
    new.description = Some("greets".to_string());
    new.options = vec![option("who", "whom", 6), option("times", "how often", 4)];
    let c = old.command_changes(&new);
    let name = c.name.clone().unwrap_or(old.name.clone());
    let description = c.description.clone().or(old.description.clone());
    let options: Vec<(String, OptionKind)> = c
        .options
        .clone()
        .unwrap_or_else(|| command_options(&old.options))
        .into_iter()
        .map(|o| (o.name, o.kind))
        .collect();
    assert_eq!(name, new.name);
    assert_eq!(description, new.description);
    let want: Vec<(String, OptionKind)> =
        command_options(&new.options).into_iter().map(|o| (o.name, o.kind)).collect();
    assert_eq!(options, want);
}

#[test]
fn command_request_gives_the_validators_error() {
    let err = tag("Hello").command_request().unwrap_err();
    assert_eq!(format!("{:?}", err), format!("{:?}", chat_input_name("Hello").unwrap_err()));

    let mut t = tag("Hello");
    t.description = Some(String::new());
    let err = t.command_request().unwrap_err();
    assert_eq!(format!("{:?}", err), format!("{:?}", description("").unwrap_err()), "description first");

    let mut t = tag("hello");
    t.options = vec![option("who", "one", 3), option("who", "two", 4)];
    let err = t.command_request().unwrap_err();
    assert!(format!("{:?}", err).contains("OptionNameNotUnique"), "{:?}", err);
}
