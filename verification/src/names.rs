use vstd::prelude::*;
use vstd::string::StringExecFns;
use crate::text::{copy_text, is_digit, starts_with_digit, texts};

verus! {

/// The kinds of record that a declaration gives rise to.
#[derive(Clone, Copy, Debug, PartialEq, Eq, Structural)]
pub enum RecordKind {
    Command,
    CommandOptions,
    Help,
    HelpOptions,
    Group,
    GroupOptions,
}

/// The upper-case form of a text, as the standard library computes it.
pub uninterp spec fn uppercased(s: Seq<char>) -> Seq<char>;

/// Calls `str::to_uppercase`. The result is a function of the characters of `s`
/// alone; the contract gives it the name `uppercased` and claims nothing more.
#[verifier::external_body]
fn upper(s: &str) -> (r: String)
    ensures
        r@ == uppercased(s@),
{
    s.to_uppercase()
}

/// A name made fit for a symbol: one that starts with a decimal digit gets an
/// underscore in front, any other stays as it is.
pub open spec fn sanitized(name: Seq<char>) -> Seq<char> {
    if name.len() > 0 && is_digit(name[0]) {
        "_"@ + name
    } else {
        name
    }
}

/// The suffix of the symbols of one kind of record.
pub open spec fn suffix_of(kind: RecordKind) -> Seq<char> {
    match kind {
        RecordKind::Command => "COMMAND"@,
        RecordKind::CommandOptions => "COMMAND_OPTIONS"@,
        RecordKind::Help => "HELP_COMMAND"@,
        RecordKind::HelpOptions => "HELP_OPTIONS"@,
        RecordKind::Group => "GROUP"@,
        RecordKind::GroupOptions => "GROUP_OPTIONS"@,
    }
}

/// The symbol of the record of kind `kind` for the name `name`: the name in upper
/// case, an underscore, and the kind's suffix.
pub open spec fn symbol_of(name: Seq<char>, kind: RecordKind) -> Seq<char> {
    uppercased(name) + "_"@ + suffix_of(kind)
}

/// The symbols of the records of kind `kind` for a list of names, in order.
pub open spec fn symbols_of(names: Seq<Seq<char>>, kind: RecordKind) -> Seq<Seq<char>> {
    names.map_values(|n: Seq<char>| symbol_of(n, kind))
}

/// Makes a name fit for a symbol.
pub fn sanitize_name(name: &str) -> (r: String)
    ensures
        r@ == sanitized(name@),
{
    if starts_with_digit(name) {
        let mut out = copy_text("_");
        out.append(name);
        out
    } else {
        copy_text(name)
    }
}

/// The suffix of the symbols of one kind of record.
pub fn suffix(kind: RecordKind) -> (r: &'static str)
    ensures
        r@ == suffix_of(kind),
{
    match kind {
        RecordKind::Command => "COMMAND",
        RecordKind::CommandOptions => "COMMAND_OPTIONS",
        RecordKind::Help => "HELP_COMMAND",
        RecordKind::HelpOptions => "HELP_OPTIONS",
        RecordKind::Group => "GROUP",
        RecordKind::GroupOptions => "GROUP_OPTIONS",
    }
}

/// The symbol under which the record of kind `kind` for `name` is emitted.
pub fn symbol(name: &str, kind: RecordKind) -> (r: String)
    ensures
        r@ == symbol_of(name@, kind),
{
    let mut out = upper(name);
    out.append("_");
    out.append(suffix(kind));
    out
}

/// The symbols derived from a list of names, in order.
pub fn symbols(names: &Vec<String>, kind: RecordKind) -> (r: Vec<String>)
    ensures
        texts(r@) == symbols_of(texts(names@), kind),
{
    let mut out: Vec<String> = Vec::new();
    let mut i: usize = 0;
    while i < names.len()
        invariant
            i <= names.len(),
            out@.len() == i,
            forall|j: int| 0 <= j < i ==> (#[trigger] out@[j])@ == symbol_of(names@[j]@, kind),
        decreases names.len() - i,
    {
        out.push(symbol(names[i].as_str(), kind));
        i += 1;
    }
    assert(texts(out@) =~= symbols_of(texts(names@), kind));
    out
}

} // verus!
