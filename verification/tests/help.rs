use command_attr::behaviour::{parse_behaviour, produce_strike_text, HelpBehaviour};
use command_attr::error::{Error, Role, Shape};
use command_attr::help::{help, HelpOptions};
use command_attr::validate::{validate_declaration, validate_return_type, FunctionDecl};
use command_attr::value::{Annotation, Atom, Value};

fn ann(name: &str, value: Value) -> Annotation {
    Annotation { name: name.to_string(), value }
}

fn text(s: &str) -> Value {
    Value::Scalar(Atom::Str(s.to_string()))
}

fn help_handler() -> FunctionDecl {
    FunctionDecl {
        name: "my_help".to_string(),
        params: vec![
            "&mutContext".to_string(),
            "&Message".to_string(),
            "Args".to_string(),
            "&'staticHelpOptions".to_string(),
            "&[&'staticCommandGroup]".to_string(),
            "HashSet<UserId>".to_string(),
        ],
        return_type: "CommandResult".to_string(),
        cfgs: vec![],
    }
}

const OPENING: &str = "~~`Strikethrough commands`~~ are unavailable because they";

#[test]
fn behaviours_by_name() {
    assert_eq!(parse_behaviour("strike"), Ok(HelpBehaviour::Strike));
    assert_eq!(parse_behaviour("hide"), Ok(HelpBehaviour::Hide));
    assert_eq!(parse_behaviour("nothing"), Ok(HelpBehaviour::Nothing));
    assert_eq!(parse_behaviour("Strike"), Err(Error::UnknownBehavior("Strike".to_string())));
    assert_eq!(parse_behaviour(""), Err(Error::UnknownBehavior("".to_string())));
}

#[test]
fn strike_text_for_permissions_alone() {
    let t = produce_strike_text(
        HelpBehaviour::Strike,
        HelpBehaviour::Nothing,
        HelpBehaviour::Nothing,
        "guild messages",
    );
    assert_eq!(t, Some(format!("{} require permissions.", OPENING)));
}

#[test]
fn strike_text_for_all_three() {
    let t = produce_strike_text(
        HelpBehaviour::Strike,
        HelpBehaviour::Strike,
        HelpBehaviour::Strike,
        "guild messages",
    );
    assert_eq!(
        t,
        Some(format!(
            "{} require permissions, require a specific role, or are limited to guild messages.",
            OPENING
        ))
    );
}

#[test]
fn strike_text_for_role_and_channel() {
    let t = produce_strike_text(
        HelpBehaviour::Hide,
        HelpBehaviour::Strike,
        HelpBehaviour::Strike,
        "direct messages",
    );
    assert_eq!(
        t,
        Some(format!("{} require a specific role, or are limited to direct messages.", OPENING))
    );
}

#[test]
fn strike_text_for_channel_alone() {
    let t = produce_strike_text(
        HelpBehaviour::Nothing,
        HelpBehaviour::Hide,
        HelpBehaviour::Strike,
        "direct messages",
    );
    assert_eq!(t, Some(format!("{} are limited to direct messages.", OPENING)));
}

#[test]
fn strike_text_for_role_alone() {
    let t = produce_strike_text(
        HelpBehaviour::Nothing,
        HelpBehaviour::Strike,
        HelpBehaviour::Hide,
        "direct messages",
    );
    assert_eq!(t, Some(format!("{} require a specific role.", OPENING)));
}

#[test]
fn no_strike_no_text() {
    let t = produce_strike_text(
        HelpBehaviour::Hide,
        HelpBehaviour::Nothing,
        HelpBehaviour::Hide,
        "guild messages",
    );
    assert_eq!(t, None);
}

#[test]
fn defaults_of_a_help_listing() {
    let o = HelpOptions::new();
    assert_eq!(o.suggestion_text, "Did you mean `{}`?");
    assert_eq!(o.no_help_available_text, "**Error**: No help available.");
    assert_eq!(o.usage_label, "Usage");
    assert_eq!(o.group_prefix, "Prefix");
    assert_eq!(o.strikethrough_commands_tip_in_dm, Some(String::new()));
    assert_eq!(o.strikethrough_commands_tip_in_guild, Some(String::new()));
    assert_eq!(o.lacking_role, HelpBehaviour::Strike);
    assert_eq!(o.lacking_permissions, HelpBehaviour::Strike);
    assert_eq!(o.lacking_ownership, HelpBehaviour::Hide);
    assert_eq!(o.wrong_channel, HelpBehaviour::Strike);
    assert_eq!(o.embed_error_colour, "DARK_RED");
    assert_eq!(o.embed_success_colour, "ROSEWATER");
    assert_eq!(o.max_levenshtein_distance, 0);
}

#[test]
fn help_with_defaults_writes_both_tips() {
    let rec = help(&help_handler(), &vec![]).unwrap();
    assert_eq!(
        rec.options.strikethrough_commands_tip_in_dm,
        Some(format!(
            "{} require permissions, require a specific role, or are limited to direct messages.",
            OPENING
        ))
    );
    assert_eq!(
        rec.options.strikethrough_commands_tip_in_guild,
        Some(format!(
            "{} require permissions, require a specific role, or are limited to guild messages.",
            OPENING
        ))
    );
    assert_eq!(rec.options_symbol, "MY_HELP_HELP_OPTIONS");
    assert_eq!(rec.command_symbol, "MY_HELP_HELP_COMMAND");
    assert_eq!(rec.function, "my_help");
}

#[test]
fn help_keeps_a_given_tip() {
    let anns = vec![
        ann("strikethrough_commands_tip_in_dm", text("ask an admin")),
        ann("lacking_permissions", text("strike")),
        ann("lacking_role", text("nothing")),
        ann("wrong_channel", text("nothing")),
        ann("strikethrough_commands_tip_in_guild", Value::Flag),
    ];
    let rec = help(&help_handler(), &anns).unwrap();
    assert_eq!(rec.options.strikethrough_commands_tip_in_dm, Some("ask an admin".to_string()));
    assert_eq!(
        rec.options.strikethrough_commands_tip_in_guild,
        Some(format!("{} require permissions.", OPENING))
    );
    assert_eq!(rec.options.lacking_role, HelpBehaviour::Nothing);
}

#[test]
fn help_without_strikes_unsets_the_tips() {
    let anns = vec![
        ann("lacking_permissions", text("hide")),
        ann("lacking_role", text("hide")),
        ann("wrong_channel", text("nothing")),
    ];
    let rec = help(&help_handler(), &anns).unwrap();
    assert_eq!(rec.options.strikethrough_commands_tip_in_dm, None);
    assert_eq!(rec.options.strikethrough_commands_tip_in_guild, None);
}

#[test]
fn help_options_by_name() {
    let mut o = HelpOptions::new();
    let anns = vec![
        ann("suggestion_text", text("Maybe `{}`?")),
        ann("usage_label", Value::List(vec![Atom::Str("How".to_string())])),
        ann("embed_error_colour", Value::List(vec![Atom::Ident("RED".to_string())])),
        ann("max_levenshtein_distance", Value::List(vec![Atom::Int(3)])),
        ann("lacking_ownership", text("strike")),
    ];
    assert_eq!(o.apply_all(&anns), Ok(()));
    assert_eq!(o.suggestion_text, "Maybe `{}`?");
    assert_eq!(o.usage_label, "How");
    assert_eq!(o.embed_error_colour, "RED");
    assert_eq!(o.max_levenshtein_distance, 3);
    assert_eq!(o.lacking_ownership, HelpBehaviour::Strike);
    assert_eq!(o.usage_sample_label, "Sample usage");
}

#[test]
fn help_unknown_behaviour() {
    let mut o = HelpOptions::new();
    assert_eq!(
        o.apply("lacking_role", &text("blink")),
        Err(Error::UnknownBehavior("blink".to_string()))
    );
    assert_eq!(
        o.apply("lacking_role", &Value::Flag),
        Err(Error::ShapeMismatch("lacking_role".to_string(), Shape::Text))
    );
    assert_eq!(o, HelpOptions::new());
}

#[test]
fn help_unknown_option_is_named() {
    let mut o = HelpOptions::new();
    assert_eq!(o.apply("aliases", &Value::Flag), Err(Error::UnknownOption("aliases".to_string())));
    assert_eq!(
        help(&help_handler(), &vec![ann("min_args", Value::Flag)]),
        Err(Error::UnknownOption("min_args".to_string()))
    );
}

#[test]
fn help_shapes_are_checked() {
    let mut o = HelpOptions::new();
    assert_eq!(
        o.apply("embed_success_colour", &text("BLUE")),
        Err(Error::ShapeMismatch("embed_success_colour".to_string(), Shape::Ident))
    );
    assert_eq!(
        o.apply("max_levenshtein_distance", &text("3")),
        Err(Error::ShapeMismatch("max_levenshtein_distance".to_string(), Shape::Number))
    );
    assert_eq!(
        o.apply("usage_label", &Value::Flag),
        Err(Error::ShapeMismatch("usage_label".to_string(), Shape::Text))
    );
}

#[test]
fn help_with_wrong_return_type() {
    let mut fun = help_handler();
    fun.return_type = "()".to_string();
    assert_eq!(help(&fun, &vec![]), Err(Error::ReturnTypeMismatch));
    assert_eq!(validate_return_type(&fun), Err(Error::ReturnTypeMismatch));
    assert_eq!(validate_declaration(&fun, true), Ok(()));
}

#[test]
fn help_with_command_parameters() {
    let mut fun = help_handler();
    fun.params.truncate(3);
    assert_eq!(help(&fun, &vec![]), Err(Error::SignatureMismatch(Role::Help)));
    assert_eq!(validate_declaration(&fun, false), Ok(()));
    assert_eq!(
        validate_declaration(&help_handler(), false),
        Err(Error::SignatureMismatch(Role::Command))
    );
}

#[test]
fn messages_of_the_errors() {
    assert_eq!(Error::UnknownOption("colour".to_string()).message(), "invalid attribute: \"colour\"");
    assert_eq!(
        Error::ShapeMismatch("usage".to_string(), Shape::Text).message(),
        "invalid value for attribute \"usage\": expected a string"
    );
    assert_eq!(
        Error::ShapeMismatch("only_in".to_string(), Shape::Context).message(),
        "invalid value for attribute \"only_in\": expected one of \"guilds\" and \"dms\""
    );
    assert_eq!(Error::UnknownPermission("FLY".to_string()).message(), "invalid permission");
    assert_eq!(
        Error::UnknownBehavior("a\"b".to_string()).message(),
        "invalid help behaviour: \"a\\\"b\""
    );
    assert_eq!(
        Error::SignatureMismatch(Role::Command).message(),
        "expected a function with the parameters (&mut Context, &Message, Args)"
    );
    assert_eq!(
        Error::SignatureMismatch(Role::Help).message(),
        "expected a function with the parameters (&mut Context, &Message, Args, &'static HelpOptions, &[&'static CommandGroup], HashSet<UserId>)"
    );
    assert_eq!(Error::ReturnTypeMismatch.message(), "expected CommandResult as the return type");
    assert_eq!(
        Error::DuplicateOrMissingReference("base".to_string()).message(),
        "undefined or already defined: \"base\""
    );
}

#[test]
fn subjects_of_the_errors() {
    assert_eq!(Error::UnknownOption("colour".to_string()).subject(), Some("colour".to_string()));
    assert_eq!(Error::UnknownPermission("FLY".to_string()).subject(), Some("FLY".to_string()));
    assert_eq!(Error::ReturnTypeMismatch.subject(), None);
    assert_eq!(Error::SignatureMismatch(Role::Help).subject(), None);
}
