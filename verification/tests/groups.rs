use command_attr::context::OnlyIn;
use command_attr::error::{Error, Shape};
use command_attr::group::{group, group_options, GroupOptions, Registry};
use command_attr::literal::{read_group, Field, Node};
use command_attr::names::{sanitize_name, symbol, RecordKind};
use command_attr::permissions::{permission, resolve_permissions};
use command_attr::value::{Annotation, Atom, Value};

fn ann(name: &str, value: Value) -> Annotation {
    Annotation { name: name.to_string(), value }
}

fn text(s: &str) -> Value {
    Value::Scalar(Atom::Str(s.to_string()))
}

fn texts(names: &[&str]) -> Value {
    Value::List(names.iter().map(|n| Atom::Str(n.to_string())).collect())
}

fn names(l: &[&str]) -> Vec<String> {
    l.iter().map(|n| n.to_string()).collect()
}

fn idents(l: &[&str]) -> Value {
    Value::List(l.iter().map(|n| Atom::Ident(n.to_string())).collect())
}

fn field(key: &str, value: Value) -> Field {
    Field { key: key.to_string(), node: Node::Value(value) }
}

fn literal(
    name: &str,
    inherit: Option<&str>,
    mut options: Vec<Annotation>,
    commands: &[&str],
    sub: &[&str],
) -> Vec<Field> {
    if let Some(base) = inherit {
        options.push(ann("inherit", Value::Scalar(Atom::Ident(base.to_string()))));
    }
    vec![
        field("name", text(name)),
        Field { key: "options".to_string(), node: Node::Block(options) },
        field("commands", idents(commands)),
        field("sub", idents(sub)),
    ]
}

fn decl(name: &str, inherit: Option<&str>, options: Vec<Annotation>) -> Vec<Field> {
    literal(name, inherit, options, &[], &[])
}

#[test]
fn sanitizer_on_a_digit() {
    assert_eq!(sanitize_name("42wins"), "_42wins");
    assert_eq!(sanitize_name("wins"), "wins");
    assert_eq!(sanitize_name(""), "");
    assert_eq!(sanitize_name("_9"), "_9");
    assert_eq!(sanitize_name("0"), "_0");
    assert_eq!(sanitize_name("9"), "_9");
    assert_eq!(sanitize_name("/x"), "/x");
    assert_eq!(sanitize_name(":x"), ":x");
}

#[test]
fn symbols_are_upper_case() {
    assert_eq!(symbol("foo", RecordKind::Command), "FOO_COMMAND");
    assert_eq!(symbol("foo", RecordKind::CommandOptions), "FOO_COMMAND_OPTIONS");
    assert_eq!(symbol("Foo_bar", RecordKind::Group), "FOO_BAR_GROUP");
    assert_eq!(symbol("foo", RecordKind::GroupOptions), "FOO_GROUP_OPTIONS");
    assert_eq!(symbol("h", RecordKind::Help), "H_HELP_COMMAND");
    assert_eq!(symbol("h", RecordKind::HelpOptions), "H_HELP_OPTIONS");
}

#[test]
fn permissions_by_name() {
    assert_eq!(permission("CREATE_INVITE"), Some(1));
    assert_eq!(permission("ADMINISTRATOR"), Some(8));
    assert_eq!(permission("READ_MESSAGES"), Some(0x400));
    assert_eq!(permission("MANAGE_EMOJIS"), Some(0x4000_0000));
    assert_eq!(permission("PRESET_VOICE"), Some(0x03f0_0000));
    assert_eq!(permission("administrator"), None);
    assert_eq!(permission(""), None);
}

#[test]
fn permissions_are_joined() {
    assert_eq!(resolve_permissions(&names(&[])), Ok(0));
    assert_eq!(resolve_permissions(&names(&["SPEAK"])), Ok(0x0020_0000));
    assert_eq!(resolve_permissions(&names(&["SPEAK", "CONNECT"])), Ok(0x0030_0000));
    assert_eq!(resolve_permissions(&names(&["CONNECT", "SPEAK"])), Ok(0x0030_0000));
    assert_eq!(resolve_permissions(&names(&["CONNECT", "SPEAK", "CONNECT"])), Ok(0x0030_0000));
    assert_eq!(resolve_permissions(&names(&["PRESET_VOICE", "SPEAK"])), Ok(0x03f0_0000));
}

#[test]
fn unknown_permission_at_any_place() {
    let e = Err(Error::UnknownPermission("WALK".to_string()));
    assert_eq!(resolve_permissions(&names(&["WALK", "SPEAK", "CONNECT"])), e);
    assert_eq!(resolve_permissions(&names(&["SPEAK", "WALK", "CONNECT"])), e);
    assert_eq!(resolve_permissions(&names(&["SPEAK", "CONNECT", "WALK"])), e);
    assert_eq!(
        resolve_permissions(&names(&["SPEAK", "RUN", "WALK"])),
        Err(Error::UnknownPermission("RUN".to_string()))
    );
}

#[test]
fn defaults_of_a_group() {
    let o = GroupOptions::new();
    assert!(o.prefixes.is_empty());
    assert_eq!(o.only_in, OnlyIn::Anywhere);
    assert!(!o.owners_only);
    assert!(o.owner_privilege);
    assert!(o.help_available);
    assert!(o.allowed_roles.is_empty());
    assert_eq!(o.required_permissions, 0);
    assert!(o.checks.is_empty());
    assert_eq!(o.default_command, None);
    assert_eq!(o.description, None);
}

#[test]
fn group_inherits_only_in() {
    let mut reg = Registry::new();
    let base = group_options(&mut reg, "base", &vec![ann("only_in", text("guilds"))]).unwrap();
    assert_eq!(base.options.only_in, OnlyIn::Guild);
    assert_eq!(base.symbol, "BASE_GROUP_OPTIONS");
    let derived = group(
        &mut reg,
        &decl("derived", Some("base"), vec![ann("prefixes", texts(&["d"]))]),
    )
    .unwrap();
    assert_eq!(derived.options.only_in, OnlyIn::Guild);
    assert_eq!(derived.options.prefixes, names(&["d"]));
}

#[test]
fn group_overrides_only_in() {
    let mut reg = Registry::new();
    group_options(&mut reg, "base", &vec![ann("only_in", text("guilds"))]).unwrap();
    let derived =
        group(&mut reg, &decl("derived", Some("base"), vec![ann("only_in", text("dms"))])).unwrap();
    assert_eq!(derived.options.only_in, OnlyIn::Dm);
    assert_eq!(reg.find("base").unwrap().only_in, OnlyIn::Guild);
}

#[test]
fn inherited_list_is_replaced() {
    let mut reg = Registry::new();
    let base = vec![
        ann("allowed_roles", texts(&["mods", "admins"])),
        ann("description", text("the base")),
        ann("owners_only", Value::Flag),
    ];
    group_options(&mut reg, "base", &base).unwrap();
    let derived = group(
        &mut reg,
        &decl("derived", Some("base"), vec![ann("allowed_roles", texts(&["guests"]))]),
    )
    .unwrap();
    assert_eq!(derived.options.allowed_roles, names(&["guests"]));
    assert_eq!(derived.options.description, Some("the base".to_string()));
    assert!(derived.options.owners_only);
}

#[test]
fn group_inherits_from_a_group() {
    let mut reg = Registry::new();
    group(&mut reg, &decl("first", None, vec![ann("prefix", text("f"))])).unwrap();
    let second = group(&mut reg, &decl("second", Some("first"), vec![])).unwrap();
    assert_eq!(second.options.prefixes, names(&["f"]));
    assert_eq!(second.options, reg.find("first").unwrap());
}

#[test]
fn group_inherits_from_nothing_known() {
    let mut reg = Registry::new();
    let r = group(&mut reg, &decl("derived", Some("later"), vec![]));
    assert_eq!(r, Err(Error::DuplicateOrMissingReference("later".to_string())));
    assert!(reg.entries.is_empty());
    group_options(&mut reg, "later", &vec![]).unwrap();
    assert!(group(&mut reg, &decl("derived", Some("later"), vec![])).is_ok());
}

#[test]
fn group_name_is_taken() {
    let mut reg = Registry::new();
    group_options(&mut reg, "base", &vec![]).unwrap();
    assert_eq!(
        group_options(&mut reg, "base", &vec![]),
        Err(Error::DuplicateOrMissingReference("base".to_string()))
    );
    assert_eq!(
        group(&mut reg, &decl("base", None, vec![])),
        Err(Error::DuplicateOrMissingReference("base".to_string()))
    );
    assert_eq!(reg.entries.len(), 1);
}

#[test]
fn group_lists_commands_and_sub_groups() {
    let mut reg = Registry::new();
    group(&mut reg, &decl("baz", None, vec![ann("prefixes", texts(&["baz"]))])).unwrap();
    let d = literal("foo", None, vec![ann("prefixes", texts(&["foo"]))], &["bar", "qux"], &["baz"]);
    let rec = group(&mut reg, &d).unwrap();
    assert_eq!(rec.name, "foo");
    assert_eq!(rec.group_symbol, "FOO_GROUP");
    assert_eq!(rec.options_symbol, "FOO_GROUP_OPTIONS");
    assert_eq!(rec.command_symbols, names(&["BAR_COMMAND", "QUX_COMMAND"]));
    assert_eq!(rec.sub_symbols, names(&["BAZ_GROUP"]));
    assert_eq!(reg.entries.len(), 2);
}

#[test]
fn group_lists_an_unknown_sub_group() {
    let mut reg = Registry::new();
    let d = literal("foo", None, vec![], &[], &["baz"]);
    assert_eq!(group(&mut reg, &d), Err(Error::DuplicateOrMissingReference("baz".to_string())));
    assert!(reg.entries.is_empty());
}

#[test]
fn group_options_by_name() {
    let mut o = GroupOptions::new();
    let anns = vec![
        ann("prefix", text("p")),
        ann("required_permissions", Value::List(vec![Atom::Ident("BAN_MEMBERS".to_string())])),
        ann("checks", Value::List(vec![Atom::Ident("admin".to_string())])),
        ann("default_command", Value::Scalar(Atom::Ident("ping".to_string()))),
        ann("description", text("a group")),
        ann("help_available", Value::Scalar(Atom::Bool(false))),
        ann("owner_privilege", Value::Scalar(Atom::Bool(false))),
    ];
    assert_eq!(o.apply_all(&anns), Ok(()));
    assert_eq!(o.prefixes, names(&["p"]));
    assert_eq!(o.required_permissions, 4);
    assert_eq!(o.checks, names(&["admin"]));
    assert_eq!(o.default_command, Some("ping".to_string()));
    assert_eq!(o.description, Some("a group".to_string()));
    assert!(!o.help_available);
    assert!(!o.owner_privilege);
}

#[test]
fn group_unknown_option_is_named() {
    let mut reg = Registry::new();
    assert_eq!(
        group(&mut reg, &decl("foo", None, vec![ann("usage", text("no"))])),
        Err(Error::UnknownOption("usage".to_string()))
    );
    let mut o = GroupOptions::new();
    assert_eq!(
        o.apply("default_command", &text("ping")),
        Err(Error::ShapeMismatch("default_command".to_string(), Shape::Ident))
    );
}

#[test]
fn inherit_may_stand_anywhere() {
    let mut reg = Registry::new();
    group_options(&mut reg, "base", &vec![ann("only_in", text("guilds")), ann("prefix", text("b"))])
        .unwrap();
    let first = vec![
        ann("inherit", Value::Scalar(Atom::Ident("base".to_string()))),
        ann("prefix", text("d")),
    ];
    let last = vec![
        ann("prefix", text("d")),
        ann("inherit", Value::Scalar(Atom::Ident("base".to_string()))),
    ];
    let a = group_options(&mut reg, "a", &first).unwrap();
    let b = group_options(&mut reg, "b", &last).unwrap();
    assert_eq!(a.options, b.options);
    assert_eq!(a.options.only_in, OnlyIn::Guild);
    assert_eq!(a.options.prefixes, names(&["d"]));
}

#[test]
fn inherit_wants_an_identifier() {
    let mut reg = Registry::new();
    assert_eq!(
        group_options(&mut reg, "a", &vec![ann("inherit", text("base"))]),
        Err(Error::ShapeMismatch("inherit".to_string(), Shape::Ident))
    );
    assert_eq!(
        reg.resolve(&vec![ann("inherit", Value::Scalar(Atom::Ident("base".to_string())))]),
        Err(Error::DuplicateOrMissingReference("base".to_string()))
    );
}

#[test]
fn literal_is_read() {
    let block = vec![ann("prefixes", texts(&["foo"]))];
    let l = vec![
        field("commands", idents(&["bar"])),
        Field { key: "options".to_string(), node: Node::Block(block) },
        field("name", text("old")),
        field("name", text("foo")),
    ];
    let head = read_group(&l).unwrap();
    assert_eq!(head.name, "foo");
    assert_eq!(head.options_at, Some(1));
    assert_eq!(head.commands, names(&["bar"]));
    assert!(head.sub.is_empty());
}

#[test]
fn literal_without_a_name() {
    let l = vec![field("commands", idents(&["bar"]))];
    assert_eq!(read_group(&l), Err(Error::ShapeMismatch("name".to_string(), Shape::Text)));
    let mut reg = Registry::new();
    assert_eq!(group(&mut reg, &l), Err(Error::ShapeMismatch("name".to_string(), Shape::Text)));
}

#[test]
fn literal_with_wrong_entries() {
    assert_eq!(
        read_group(&vec![field("title", text("foo"))]),
        Err(Error::UnknownOption("title".to_string()))
    );
    assert_eq!(
        read_group(&vec![field("name", idents(&["foo"]))]),
        Err(Error::ShapeMismatch("name".to_string(), Shape::Text))
    );
    assert_eq!(
        read_group(&vec![field("name", text("foo")), field("options", text("none"))]),
        Err(Error::ShapeMismatch("options".to_string(), Shape::Block))
    );
    assert_eq!(
        read_group(&vec![field("name", text("foo")), field("commands", texts(&["bar"]))]),
        Err(Error::ShapeMismatch("commands".to_string(), Shape::IdentList))
    );
    assert_eq!(
        read_group(&vec![Field { key: "sub".to_string(), node: Node::Block(vec![]) }]),
        Err(Error::ShapeMismatch("sub".to_string(), Shape::IdentList))
    );
}
