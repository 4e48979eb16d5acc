use command_attr::error::{Error, Shape};
use command_attr::group::{inherit_in, GroupOptions, Registry};
use command_attr::names::{symbols, RecordKind};
use command_attr::text::{copy_texts, prepend_text, same_text, starts_with_digit};
use command_attr::value::{Annotation, Atom, Value};

fn strings(l: &[&str]) -> Vec<String> {
    l.iter().map(|n| n.to_string()).collect()
}

#[test]
fn flag_from_a_value() {
    assert_eq!(Value::Flag.to_flag("f"), Ok(true));
    assert_eq!(Value::Scalar(Atom::Bool(false)).to_flag("f"), Ok(false));
    assert_eq!(Value::List(vec![Atom::Bool(true)]).to_flag("f"), Ok(true));
    assert_eq!(
        Value::List(vec![]).to_flag("f"),
        Err(Error::ShapeMismatch("f".to_string(), Shape::Flag))
    );
    assert_eq!(
        Value::List(vec![Atom::Bool(true), Atom::Bool(true)]).to_flag("f"),
        Err(Error::ShapeMismatch("f".to_string(), Shape::Flag))
    );
    assert_eq!(
        Value::Scalar(Atom::Int(1)).to_flag("f"),
        Err(Error::ShapeMismatch("f".to_string(), Shape::Flag))
    );
}

#[test]
fn text_from_a_value() {
    assert_eq!(Value::Scalar(Atom::Str("a".to_string())).to_text("t"), Ok("a".to_string()));
    assert_eq!(Value::List(vec![Atom::Str("a".to_string())]).to_text("t"), Ok("a".to_string()));
    assert_eq!(Value::Flag.to_text("t"), Err(Error::ShapeMismatch("t".to_string(), Shape::Text)));
    assert_eq!(
        Value::Scalar(Atom::Ident("a".to_string())).to_text("t"),
        Err(Error::ShapeMismatch("t".to_string(), Shape::Text))
    );
}

#[test]
fn number_from_a_value() {
    assert_eq!(Value::Scalar(Atom::Int(7)).to_number("n"), Ok(7));
    assert_eq!(Value::List(vec![Atom::Int(0)]).to_number("n"), Ok(0));
    assert_eq!(
        Value::Scalar(Atom::Str("7".to_string())).to_number("n"),
        Err(Error::ShapeMismatch("n".to_string(), Shape::Number))
    );
    assert_eq!(
        Value::List(vec![Atom::Int(1), Atom::Int(2)]).to_number("n"),
        Err(Error::ShapeMismatch("n".to_string(), Shape::Number))
    );
}

#[test]
fn identifier_from_a_value() {
    assert_eq!(Value::Scalar(Atom::Ident("a".to_string())).to_ident("i"), Ok("a".to_string()));
    assert_eq!(
        Value::Scalar(Atom::Str("a".to_string())).to_ident("i"),
        Err(Error::ShapeMismatch("i".to_string(), Shape::Ident))
    );
}

#[test]
fn lists_from_a_value() {
    let ids = Value::List(vec![Atom::Ident("a".to_string()), Atom::Ident("b".to_string())]);
    assert_eq!(ids.to_ident_list("l"), Ok(strings(&["a", "b"])));
    assert_eq!(ids.to_text_list("l"), Err(Error::ShapeMismatch("l".to_string(), Shape::TextList)));
    let strs = Value::List(vec![Atom::Str("a".to_string()), Atom::Str("b".to_string())]);
    assert_eq!(strs.to_text_list("l"), Ok(strings(&["a", "b"])));
    assert_eq!(strs.to_ident_list("l"), Err(Error::ShapeMismatch("l".to_string(), Shape::IdentList)));
    assert_eq!(Value::Flag.to_ident_list("l"), Ok(vec![]));
    assert_eq!(Value::Flag.to_text_list("l"), Ok(vec![]));
    assert_eq!(Value::Scalar(Atom::Ident("a".to_string())).to_ident_list("l"), Ok(strings(&["a"])));
    assert_eq!(Value::Scalar(Atom::Str("a".to_string())).to_text_list("l"), Ok(strings(&["a"])));
    assert_eq!(Value::List(vec![Atom::Int(1)]).only(), Some(&Atom::Int(1)));
    assert_eq!(Value::List(vec![]).only(), None);
}

#[test]
fn texts_are_copied_and_compared() {
    assert!(same_text("abc", "abc"));
    assert!(!same_text("abc", "abd"));
    assert!(!same_text("abc", "ab"));
    assert_eq!(copy_texts(&strings(&["a", "b"])), strings(&["a", "b"]));
    assert_eq!(prepend_text("x", &strings(&["a", "b"])), strings(&["x", "a", "b"]));
    assert_eq!(prepend_text("x", &vec![]), strings(&["x"]));
    assert!(starts_with_digit("5a"));
    assert!(!starts_with_digit("a5"));
    assert!(!starts_with_digit(""));
}

#[test]
fn symbols_of_a_list() {
    assert_eq!(
        symbols(&strings(&["a", "b_c"]), RecordKind::Command),
        strings(&["A_COMMAND", "B_C_COMMAND"])
    );
    assert_eq!(symbols(&vec![], RecordKind::Group), Vec::<String>::new());
}

#[test]
fn last_inherit_is_found() {
    let ann = |n: &str| Annotation { name: n.to_string(), value: Value::Flag };
    assert_eq!(inherit_in(&vec![]), None);
    assert_eq!(inherit_in(&vec![ann("prefix")]), None);
    assert_eq!(inherit_in(&vec![ann("inherit"), ann("prefix")]), Some(0));
    assert_eq!(inherit_in(&vec![ann("inherit"), ann("prefix"), ann("inherit")]), Some(2));
}

#[test]
fn registry_finds_the_first_of_a_name() {
    let mut reg = Registry::new();
    assert_eq!(reg.find("a"), None);
    let mut o = GroupOptions::new();
    o.owners_only = true;
    assert_eq!(reg.declare("a", &vec![], &vec![]), Ok(GroupOptions::new()));
    assert_eq!(reg.find("a"), Some(GroupOptions::new()));
    assert_eq!(reg.check_all(&strings(&["a", "a"])), Ok(()));
    assert_eq!(
        reg.check_all(&strings(&["a", "b", "c"])),
        Err(Error::DuplicateOrMissingReference("b".to_string()))
    );
    assert_eq!(o.copy(), o);
}
