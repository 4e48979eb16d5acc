use vstd::prelude::*;
use crate::error::{Error, ErrorView, Shape};
use crate::text::{copy_text, same_text, texts};
use crate::value::{ident_list_of, mismatch, text_of, Annotation, Value};

verus! {

/// What stands behind a key of a group literal: a value, or a block of options.
#[derive(Clone, Debug, PartialEq, Eq)]
pub enum Node {
    Value(Value),
    Block(Vec<Annotation>),
}

/// One `key: node` entry of a group literal.
#[derive(Clone, Debug, PartialEq, Eq)]
pub struct Field {
    pub key: String,
    pub node: Node,
}

/// What a group literal says, while it is read: the name is there once a `name`
/// entry was read.
pub struct Draft {
    pub name: Option<Seq<char>>,
    pub options: Seq<Annotation>,
    pub commands: Seq<Seq<char>>,
    pub sub: Seq<Seq<char>>,
}

/// What a group literal says.
pub struct GroupDeclView {
    pub name: Seq<char>,
    pub options: Seq<Annotation>,
    pub commands: Seq<Seq<char>>,
    pub sub: Seq<Seq<char>>,
}

/// A group literal as it was read. The block of options stays where it is, in
/// the entry at `options_at` of the literal.
#[derive(Clone, Debug, PartialEq, Eq)]
pub struct GroupHead {
    /// The group's name.
    pub name: String,
    /// The place of the `options` entry in the literal, if it has one.
    pub options_at: Option<usize>,
    /// The functions of the group's commands.
    pub commands: Vec<String>,
    /// The names of its sub-groups.
    pub sub: Vec<String>,
}

/// The draft of a literal with no entry.
pub open spec fn empty_draft() -> Draft {
    Draft { name: None, options: Seq::empty(), commands: Seq::empty(), sub: Seq::empty() }
}

/// The draft after one more entry: `name` takes a string, `options` a block,
/// `commands` and `sub` identifiers; another key is unknown. A key that comes
/// again replaces what it gave before.
pub open spec fn field_read(d: Draft, f: Field) -> Result<Draft, ErrorView> {
    if f.key@ == "name"@ {
        match f.node {
            Node::Value(v) => match text_of(v@) {
                Some(t) => Ok(Draft { name: Some(t), ..d }),
                None => Err(ErrorView::ShapeMismatch(f.key@, Shape::Text)),
            },
            Node::Block(_) => Err(ErrorView::ShapeMismatch(f.key@, Shape::Text)),
        }
    } else if f.key@ == "options"@ {
        match f.node {
            Node::Block(a) => Ok(Draft { options: a@, ..d }),
            Node::Value(_) => Err(ErrorView::ShapeMismatch(f.key@, Shape::Block)),
        }
    } else if f.key@ == "commands"@ {
        match f.node {
            Node::Value(v) => match ident_list_of(v@) {
                Some(l) => Ok(Draft { commands: l, ..d }),
                None => Err(ErrorView::ShapeMismatch(f.key@, Shape::IdentList)),
            },
            Node::Block(_) => Err(ErrorView::ShapeMismatch(f.key@, Shape::IdentList)),
        }
    } else if f.key@ == "sub"@ {
        match f.node {
            Node::Value(v) => match ident_list_of(v@) {
                Some(l) => Ok(Draft { sub: l, ..d }),
                None => Err(ErrorView::ShapeMismatch(f.key@, Shape::IdentList)),
            },
            Node::Block(_) => Err(ErrorView::ShapeMismatch(f.key@, Shape::IdentList)),
        }
    } else {
        Err(ErrorView::UnknownOption(f.key@))
    }
}

/// The draft after the entries are read in their order, or the first error.
pub open spec fn fields_read(fields: Seq<Field>) -> Result<Draft, ErrorView>
    decreases fields.len(),
{
    if fields.len() == 0 {
        Ok(empty_draft())
    } else {
        match fields_read(fields.drop_last()) {
            Err(e) => Err(e),
            Ok(d) => field_read(d, fields.last()),
        }
    }
}

/// What a group literal says: what its entries give, the name among it.
pub open spec fn group_read(fields: Seq<Field>) -> Result<GroupDeclView, ErrorView> {
    match fields_read(fields) {
        Err(e) => Err(e),
        Ok(d) => match d.name {
            None => Err(ErrorView::ShapeMismatch("name"@, Shape::Text)),
            Some(n) => Ok(
                GroupDeclView { name: n, options: d.options, commands: d.commands, sub: d.sub },
            ),
        },
    }
}

/// The block of options at a place of the literal; empty where there is none.
pub open spec fn block_at(fields: Seq<Field>, at: Option<usize>) -> Seq<Annotation> {
    match at {
        Some(i) => if i < fields.len() {
            match fields[i as int].node {
                Node::Block(a) => a@,
                Node::Value(_) => Seq::empty(),
            }
        } else {
            Seq::empty()
        },
        None => Seq::empty(),
    }
}

/// The block of options at a place of the literal, or `none` where there is none.
pub fn options_at<'a>(fields: &'a Vec<Field>, at: Option<usize>, none: &'a Vec<Annotation>) -> (r:
    &'a Vec<Annotation>)
    requires
        none@.len() == 0,
    ensures
        r@ == block_at(fields@, at),
{
    match at {
        Some(i) => if i < fields.len() {
            match &fields[i].node {
                Node::Block(a) => a,
                Node::Value(_) => {
                    assert(none@ =~= Seq::empty());
                    none
                },
            }
        } else {
            assert(none@ =~= Seq::empty());
            none
        },
        None => {
            assert(none@ =~= Seq::empty());
            none
        },
    }
}

/// Once an entry is rejected, the entries after it change nothing.
pub proof fn lemma_read_error_stays(a: Seq<Field>, b: Seq<Field>)
    requires
        fields_read(a) is Err,
    ensures
        fields_read(a + b) == fields_read(a),
    decreases b.len(),
{
    if b.len() == 0 {
        assert(a + b =~= a);
    } else {
        lemma_read_error_stays(a, b.drop_last());
        assert((a + b).drop_last() =~= a + b.drop_last());
    }
}

/// Reads a group literal.
pub fn read_group(fields: &Vec<Field>) -> (r: Result<GroupHead, Error>)
    ensures
        match r {
            Ok(h) => group_read(fields@) == Ok::<GroupDeclView, ErrorView>(
                GroupDeclView {
                    name: h.name@,
                    options: block_at(fields@, h.options_at),
                    commands: texts(h.commands@),
                    sub: texts(h.sub@),
                },
            ),
            Err(e) => group_read(fields@) == Err::<GroupDeclView, ErrorView>(e@),
        },
{
    let mut name: Option<String> = None;
    let mut options_at: Option<usize> = None;
    let mut commands: Vec<String> = Vec::new();
    let mut sub: Vec<String> = Vec::new();
    let mut i: usize = 0;
    assert(texts(commands@) =~= Seq::empty());
    assert(texts(sub@) =~= Seq::empty());
    while i < fields.len()
        invariant
            i <= fields.len(),
            fields_read(fields@.take(i as int)) == Ok::<Draft, ErrorView>(
                Draft {
                    name: crate::text::opt_text(name),
                    options: block_at(fields@, options_at),
                    commands: texts(commands@),
                    sub: texts(sub@),
                },
            ),
        decreases fields.len() - i,
    {
        proof {
            assert(fields@.take(i + 1).drop_last() =~= fields@.take(i as int));
            assert(fields@.take(i + 1).last() == fields@[i as int]);
            assert(fields@.take(i + 1) + fields@.skip(i + 1) =~= fields@);
            if fields_read(fields@.take(i + 1)) is Err {
                lemma_read_error_stays(fields@.take(i + 1), fields@.skip(i + 1));
            }
        }
        let key = fields[i].key.as_str();
        if same_text(key, "name") {
            match &fields[i].node {
                Node::Value(v) => match v.to_text(key) {
                    Ok(t) => {
                        name = Some(t);
                    },
                    Err(e) => {
                        return Err(e);
                    },
                },
                Node::Block(_) => {
                    return Err(mismatch(key, Shape::Text));
                },
            }
        } else if same_text(key, "options") {
            match &fields[i].node {
                Node::Block(_) => {
                    options_at = Some(i);
                },
                Node::Value(_) => {
                    return Err(mismatch(key, Shape::Block));
                },
            }
        } else if same_text(key, "commands") {
            match &fields[i].node {
                Node::Value(v) => match v.to_ident_list(key) {
                    Ok(l) => {
                        commands = l;
                    },
                    Err(e) => {
                        return Err(e);
                    },
                },
                Node::Block(_) => {
                    return Err(mismatch(key, Shape::IdentList));
                },
            }
        } else if same_text(key, "sub") {
            match &fields[i].node {
                Node::Value(v) => match v.to_ident_list(key) {
                    Ok(l) => {
                        sub = l;
                    },
                    Err(e) => {
                        return Err(e);
                    },
                },
                Node::Block(_) => {
                    return Err(mismatch(key, Shape::IdentList));
                },
            }
        } else {
            return Err(Error::UnknownOption(copy_text(key)));
        }
        i += 1;
    }
    assert(fields@.take(i as int) =~= fields@);
    match name {
        Some(n) => Ok(GroupHead { name: n, options_at, commands, sub }),
        None => Err(mismatch("name", Shape::Text)),
    }
}

} // verus!
