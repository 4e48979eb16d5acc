use command_attr::command::{command, Options};
use command_attr::context::OnlyIn;
use command_attr::error::{Error, Role, Shape};
use command_attr::validate::FunctionDecl;
use command_attr::value::{Annotation, Atom, Value};

fn ann(name: &str, value: Value) -> Annotation {
    Annotation { name: name.to_string(), value }
}

fn text(s: &str) -> Value {
    Value::Scalar(Atom::Str(s.to_string()))
}

fn idents(names: &[&str]) -> Value {
    Value::List(names.iter().map(|n| Atom::Ident(n.to_string())).collect())
}

fn texts(names: &[&str]) -> Value {
    Value::List(names.iter().map(|n| Atom::Str(n.to_string())).collect())
}

fn number(n: u64) -> Value {
    Value::List(vec![Atom::Int(n)])
}

fn handler(name: &str) -> FunctionDecl {
    FunctionDecl {
        name: name.to_string(),
        params: vec!["&mutContext".to_string(), "&Message".to_string(), "Args".to_string()],
        return_type: "CommandResult".to_string(),
        cfgs: vec![],
    }
}

#[test]
fn defaults_of_a_command() {
    let o = Options::new();
    assert!(o.checks.is_empty());
    assert_eq!(o.bucket, None);
    assert!(o.aliases.is_empty());
    assert_eq!(o.description, None);
    assert_eq!(o.min_args, None);
    assert_eq!(o.max_args, None);
    assert_eq!(o.required_permissions, 0);
    assert!(o.help_available);
    assert_eq!(o.only_in, OnlyIn::Anywhere);
    assert!(!o.owners_only);
    assert!(o.owner_privilege);
    assert!(o.sub.is_empty());
}

#[test]
fn unknown_command_option_is_named() {
    let mut o = Options::new();
    let before = o.clone();
    let r = o.apply("colour", &Value::Flag);
    assert_eq!(r, Err(Error::UnknownOption("colour".to_string())));
    assert_eq!(o, before);
}

#[test]
fn unknown_option_stops_the_list() {
    let mut o = Options::new();
    let anns = vec![
        ann("description", text("says hello")),
        ann("descriptoin", text("typo")),
        ann("usage", text("never read")),
    ];
    assert_eq!(o.apply_all(&anns), Err(Error::UnknownOption("descriptoin".to_string())));
}

#[test]
fn num_args_sets_both_bounds() {
    let mut a = Options::new();
    assert_eq!(a.apply("num_args", &number(5)), Ok(()));
    let mut b = Options::new();
    assert_eq!(b.apply("min_args", &number(5)), Ok(()));
    assert_eq!(b.apply("max_args", &number(5)), Ok(()));
    assert_eq!(a, b);
    assert_eq!(a.min_args, Some(5));
    assert_eq!(a.max_args, Some(5));
}

#[test]
fn num_args_wants_a_number() {
    let mut o = Options::new();
    assert_eq!(
        o.apply("num_args", &text("five")),
        Err(Error::ShapeMismatch("num_args".to_string(), Shape::Number))
    );
    assert_eq!(o, Options::new());
}

#[test]
fn required_permissions_in_either_order() {
    let mut a = Options::new();
    let mut b = Options::new();
    assert_eq!(a.apply("required_permissions", &idents(&["KICK_MEMBERS", "BAN_MEMBERS"])), Ok(()));
    assert_eq!(b.apply("required_permissions", &idents(&["BAN_MEMBERS", "KICK_MEMBERS"])), Ok(()));
    assert_eq!(a.required_permissions, 6);
    assert_eq!(a.required_permissions, b.required_permissions);
}

#[test]
fn required_permissions_unknown_name() {
    let mut o = Options::new();
    assert_eq!(
        o.apply("required_permissions", &idents(&["KICK_MEMBERS", "FLY"])),
        Err(Error::UnknownPermission("FLY".to_string()))
    );
    assert_eq!(
        o.apply("required_permissions", &idents(&["FLY", "KICK_MEMBERS"])),
        Err(Error::UnknownPermission("FLY".to_string()))
    );
    assert_eq!(
        o.apply("required_permissions", &texts(&["KICK_MEMBERS"])),
        Err(Error::ShapeMismatch("required_permissions".to_string(), Shape::IdentList))
    );
    assert_eq!(o.required_permissions, 0);
}

#[test]
fn checks_are_kept_as_named() {
    let mut o = Options::new();
    assert_eq!(o.apply("checks", &idents(&["admin", "Owner"])), Ok(()));
    assert_eq!(o.checks, vec!["admin".to_string(), "Owner".to_string()]);
}

#[test]
fn text_options_of_a_command() {
    let mut o = Options::new();
    let anns = vec![
        ann("bucket", text("slow")),
        ann("description", Value::List(vec![Atom::Str("says hello".to_string())])),
        ann("usage", text("<name>")),
        ann("example", text("world")),
        ann("aliases", texts(&["hi", "hey"])),
        ann("allowed_roles", texts(&["mods"])),
        ann("sub", idents(&["loud"])),
    ];
    assert_eq!(o.apply_all(&anns), Ok(()));
    assert_eq!(o.bucket, Some("slow".to_string()));
    assert_eq!(o.description, Some("says hello".to_string()));
    assert_eq!(o.usage, Some("<name>".to_string()));
    assert_eq!(o.example, Some("world".to_string()));
    assert_eq!(o.aliases, vec!["hi".to_string(), "hey".to_string()]);
    assert_eq!(o.allowed_roles, vec!["mods".to_string()]);
    assert_eq!(o.sub, vec!["loud".to_string()]);
}

#[test]
fn a_later_option_overwrites() {
    let mut o = Options::new();
    let anns = vec![ann("usage", text("one")), ann("usage", text("two"))];
    assert_eq!(o.apply_all(&anns), Ok(()));
    assert_eq!(o.usage, Some("two".to_string()));
}

#[test]
fn flags_of_a_command() {
    let mut o = Options::new();
    assert_eq!(o.apply("owners_only", &Value::Flag), Ok(()));
    assert!(o.owners_only);
    assert_eq!(o.apply("help_available", &Value::List(vec![Atom::Bool(false)])), Ok(()));
    assert!(!o.help_available);
    assert_eq!(o.apply("owner_privilege", &Value::Scalar(Atom::Bool(false))), Ok(()));
    assert!(!o.owner_privilege);
    assert_eq!(
        o.apply("owners_only", &text("yes")),
        Err(Error::ShapeMismatch("owners_only".to_string(), Shape::Flag))
    );
}

#[test]
fn only_in_of_a_command() {
    let mut o = Options::new();
    assert_eq!(o.apply("only_in", &text("guilds")), Ok(()));
    assert_eq!(o.only_in, OnlyIn::Guild);
    assert_eq!(o.apply("only_in", &text("dms")), Ok(()));
    assert_eq!(o.only_in, OnlyIn::Dm);
    assert_eq!(
        o.apply("only_in", &text("space")),
        Err(Error::ShapeMismatch("only_in".to_string(), Shape::Context))
    );
    assert_eq!(
        o.apply("only_in", &Value::Flag),
        Err(Error::ShapeMismatch("only_in".to_string(), Shape::Text))
    );
    assert_eq!(o.only_in, OnlyIn::Dm);
}

#[test]
fn list_shapes_are_checked() {
    let mut o = Options::new();
    assert_eq!(
        o.apply("aliases", &idents(&["hi"])),
        Err(Error::ShapeMismatch("aliases".to_string(), Shape::TextList))
    );
    assert_eq!(
        o.apply("checks", &Value::List(vec![Atom::Ident("a".to_string()), Atom::Int(1)])),
        Err(Error::ShapeMismatch("checks".to_string(), Shape::IdentList))
    );
    assert_eq!(
        o.apply("description", &texts(&["a", "b"])),
        Err(Error::ShapeMismatch("description".to_string(), Shape::Text))
    );
    assert_eq!(o.apply("aliases", &Value::Flag), Ok(()));
    assert!(o.aliases.is_empty());
}

#[test]
fn command_with_a_digit_in_front() {
    let rec = command(Some("42wins"), &handler("wins"), &vec![ann("aliases", texts(&["w"]))]).unwrap();
    assert_eq!(rec.names, vec!["42wins".to_string(), "w".to_string()]);
    assert_eq!(rec.command_symbol, "_42WINS_COMMAND");
    assert_eq!(rec.options_symbol, "_42WINS_COMMAND_OPTIONS");
    assert_eq!(rec.function, "wins");
}

#[test]
fn command_named_after_its_function() {
    let mut fun = handler("wins");
    fun.cfgs = vec!["#[cfg(feature = \"games\")]".to_string()];
    let rec = command(None, &fun, &vec![ann("sub", idents(&["more", "less"]))]).unwrap();
    assert_eq!(rec.names, vec!["wins".to_string()]);
    assert_eq!(rec.command_symbol, "WINS_COMMAND");
    assert_eq!(rec.options_symbol, "WINS_COMMAND_OPTIONS");
    assert_eq!(rec.sub_symbols, vec!["MORE_COMMAND".to_string(), "LESS_COMMAND".to_string()]);
    assert_eq!(rec.cfgs, fun.cfgs);
    assert_eq!(rec.options.sub, vec!["more".to_string(), "less".to_string()]);
}

#[test]
fn command_with_wrong_parameters() {
    let mut fun = handler("wins");
    fun.params.pop();
    assert_eq!(command(None, &fun, &vec![]), Err(Error::SignatureMismatch(Role::Command)));
    let mut fun = handler("wins");
    fun.params[1] = "&mutMessage".to_string();
    assert_eq!(command(None, &fun, &vec![]), Err(Error::SignatureMismatch(Role::Command)));
}

#[test]
fn command_with_wrong_return_type() {
    let mut fun = handler("wins");
    fun.return_type = "bool".to_string();
    assert_eq!(command(None, &fun, &vec![]), Err(Error::ReturnTypeMismatch));
    fun.params.clear();
    assert_eq!(command(None, &fun, &vec![]), Err(Error::SignatureMismatch(Role::Command)));
}

#[test]
fn option_error_comes_before_the_checks() {
    let mut fun = handler("wins");
    fun.return_type = "bool".to_string();
    assert_eq!(
        command(None, &fun, &vec![ann("nope", Value::Flag)]),
        Err(Error::UnknownOption("nope".to_string()))
    );
}
