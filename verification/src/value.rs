use vstd::prelude::*;
use crate::error::{Error, ErrorView, Shape};
use crate::text::{copy_text, texts};

verus! {

/// One literal or identifier of an annotation's payload.
#[derive(Clone, Debug, PartialEq, Eq)]
pub enum Atom {
    Str(String),
    Ident(String),
    Int(u64),
    Bool(bool),
}

/// The mathematical value of an [`Atom`].
pub enum AtomView {
    Str(Seq<char>),
    Ident(Seq<char>),
    Int(u64),
    Bool(bool),
}

impl View for Atom {
    type V = AtomView;

    open spec fn view(&self) -> AtomView {
        match *self {
            Atom::Str(s) => AtomView::Str(s@),
            Atom::Ident(s) => AtomView::Ident(s@),
            Atom::Int(n) => AtomView::Int(n),
            Atom::Bool(b) => AtomView::Bool(b),
        }
    }
}

/// What an annotation carries: nothing (`#[name]`), one atom (`#[name = atom]`),
/// or a list of atoms (`#[name(atom, atom)]`).
#[derive(Clone, Debug, PartialEq, Eq)]
pub enum Value {
    Flag,
    Scalar(Atom),
    List(Vec<Atom>),
}

/// The mathematical value of a [`Value`].
pub enum ValueView {
    Flag,
    Scalar(AtomView),
    List(Seq<AtomView>),
}

impl View for Value {
    type V = ValueView;

    open spec fn view(&self) -> ValueView {
        match *self {
            Value::Flag => ValueView::Flag,
            Value::Scalar(a) => ValueView::Scalar(a@),
            Value::List(l) => ValueView::List(l@.map_values(|a: Atom| a@)),
        }
    }
}

/// One annotation: an option's name and its value.
#[derive(Clone, Debug, PartialEq, Eq)]
pub struct Annotation {
    pub name: String,
    pub value: Value,
}

/// The atoms of a value, in order; a flag has none.
pub open spec fn items(v: ValueView) -> Seq<AtomView> {
    match v {
        ValueView::Flag => Seq::empty(),
        ValueView::Scalar(a) => seq![a],
        ValueView::List(l) => l,
    }
}

/// The one atom of a value that holds exactly one.
pub open spec fn single(v: ValueView) -> Option<AtomView> {
    if items(v).len() == 1 {
        Some(items(v)[0])
    } else {
        None
    }
}

/// A flag: set by its presence alone, or by one boolean literal.
pub open spec fn flag_of(v: ValueView) -> Option<bool> {
    match v {
        ValueView::Flag => Some(true),
        _ => match single(v) {
            Some(AtomView::Bool(b)) => Some(b),
            _ => None,
        },
    }
}

/// A text: one string literal.
pub open spec fn text_of(v: ValueView) -> Option<Seq<char>> {
    match single(v) {
        Some(AtomView::Str(s)) => Some(s),
        _ => None,
    }
}

/// A count: one integer literal.
pub open spec fn number_of(v: ValueView) -> Option<u64> {
    match single(v) {
        Some(AtomView::Int(n)) => Some(n),
        _ => None,
    }
}

/// One identifier.
pub open spec fn ident_of(v: ValueView) -> Option<Seq<char>> {
    match single(v) {
        Some(AtomView::Ident(s)) => Some(s),
        _ => None,
    }
}

/// The name that an identifier atom holds (arbitrary for other atoms).
pub open spec fn ident_name(a: AtomView) -> Seq<char> {
    a->Ident_0
}

/// The text that a string atom holds (arbitrary for other atoms).
pub open spec fn str_text(a: AtomView) -> Seq<char> {
    a->Str_0
}

/// A list of identifiers: every atom is an identifier.
pub open spec fn ident_list_of(v: ValueView) -> Option<Seq<Seq<char>>> {
    if forall|i: int| 0 <= i < items(v).len() ==> #[trigger] items(v)[i] is Ident {
        Some(items(v).map_values(|a: AtomView| ident_name(a)))
    } else {
        None
    }
}

/// A list of texts: every atom is a string literal.
pub open spec fn text_list_of(v: ValueView) -> Option<Seq<Seq<char>>> {
    if forall|i: int| 0 <= i < items(v).len() ==> #[trigger] items(v)[i] is Str {
        Some(items(v).map_values(|a: AtomView| str_text(a)))
    } else {
        None
    }
}

/// The identifiers of two lists in a row are those of the first and then those of
/// the second, and there are none where either holds another atom.
pub proof fn lemma_ident_list_concat(a: Seq<AtomView>, b: Seq<AtomView>)
    ensures
        ident_list_of(ValueView::List(a + b)) == match ident_list_of(ValueView::List(a)) {
            None => None::<Seq<Seq<char>>>,
            Some(x) => match ident_list_of(ValueView::List(b)) {
                None => None,
                Some(y) => Some(x + y),
            },
        },
{
    let va = ValueView::List(a);
    let vb = ValueView::List(b);
    let vab = ValueView::List(a + b);
    if ident_list_of(va) is None {
        let i = choose|i: int| 0 <= i < items(va).len() && !(#[trigger] items(va)[i] is Ident);
        assert(items(vab)[i] == a[i]);
    } else if ident_list_of(vb) is None {
        let i = choose|i: int| 0 <= i < items(vb).len() && !(#[trigger] items(vb)[i] is Ident);
        assert(items(vab)[a.len() + i] == b[i]);
    } else {
        assert forall|i: int| 0 <= i < items(vab).len() implies #[trigger] items(vab)[i] is Ident by {
            if i < a.len() {
                assert(items(va)[i] is Ident);
            } else {
                assert(items(vb)[i - a.len()] is Ident);
            }
        }
        assert(ident_list_of(vab)->Some_0 =~= ident_list_of(va)->Some_0 + ident_list_of(
            vb,
        )->Some_0);
    }
}

/// The error for a value of the wrong shape.
pub fn mismatch(option: &str, shape: Shape) -> (e: Error)
    ensures
        e@ == ErrorView::ShapeMismatch(option@, shape),
{
    Error::ShapeMismatch(copy_text(option), shape)
}

impl Value {
    /// The only atom of the value, if it holds exactly one.
    pub fn only(&self) -> (r: Option<&Atom>)
        ensures
            match r {
                Some(a) => single(self@) == Some(a@),
                None => single(self@) is None,
            },
    {
        match self {
            Value::Flag => None,
            Value::Scalar(a) => Some(a),
            Value::List(l) => if l.len() == 1 {
                Some(&l[0])
            } else {
                None
            },
        }
    }

    /// Reads the value as a flag of the option `option`.
    pub fn to_flag(&self, option: &str) -> (r: Result<bool, Error>)
        ensures
            match r {
                Ok(b) => flag_of(self@) == Some(b),
                Err(e) => flag_of(self@) is None && e@ == ErrorView::ShapeMismatch(
                    option@,
                    Shape::Flag,
                ),
            },
    {
        match self {
            Value::Flag => Ok(true),
            _ => match self.only() {
                Some(Atom::Bool(b)) => Ok(*b),
                _ => Err(mismatch(option, Shape::Flag)),
            },
        }
    }

    /// Reads the value as the text of the option `option`.
    pub fn to_text(&self, option: &str) -> (r: Result<String, Error>)
        ensures
            match r {
                Ok(s) => text_of(self@) == Some(s@),
                Err(e) => text_of(self@) is None && e@ == ErrorView::ShapeMismatch(
                    option@,
                    Shape::Text,
                ),
            },
    {
        match self.only() {
            Some(Atom::Str(s)) => Ok(copy_text(s.as_str())),
            _ => Err(mismatch(option, Shape::Text)),
        }
    }

    /// Reads the value as the count of the option `option`.
    pub fn to_number(&self, option: &str) -> (r: Result<u64, Error>)
        ensures
            match r {
                Ok(n) => number_of(self@) == Some(n),
                Err(e) => number_of(self@) is None && e@ == ErrorView::ShapeMismatch(
                    option@,
                    Shape::Number,
                ),
            },
    {
        match self.only() {
            Some(Atom::Int(n)) => Ok(*n),
            _ => Err(mismatch(option, Shape::Number)),
        }
    }

    /// Reads the value as the identifier of the option `option`.
    pub fn to_ident(&self, option: &str) -> (r: Result<String, Error>)
        ensures
            match r {
                Ok(s) => ident_of(self@) == Some(s@),
                Err(e) => ident_of(self@) is None && e@ == ErrorView::ShapeMismatch(
                    option@,
                    Shape::Ident,
                ),
            },
    {
        match self.only() {
            Some(Atom::Ident(s)) => Ok(copy_text(s.as_str())),
            _ => Err(mismatch(option, Shape::Ident)),
        }
    }

    /// Reads the value as the identifier list of the option `option`.
    pub fn to_ident_list(&self, option: &str) -> (r: Result<Vec<String>, Error>)
        ensures
            match r {
                Ok(l) => ident_list_of(self@) == Some(texts(l@)),
                Err(e) => ident_list_of(self@) is None && e@ == ErrorView::ShapeMismatch(
                    option@,
                    Shape::IdentList,
                ),
            },
    {
        let mut out: Vec<String> = Vec::new();
        match self {
            Value::Flag => {
                assert(texts(out@) =~= items(self@).map_values(|a: AtomView| ident_name(a)));
                Ok(out)
            },
            Value::Scalar(a) => match a {
                Atom::Ident(s) => {
                    out.push(copy_text(s.as_str()));
                    assert(texts(out@) =~= items(self@).map_values(|a: AtomView| ident_name(a)));
                    Ok(out)
                },
                _ => {
                    assert(!(items(self@)[0] is Ident));
                    Err(mismatch(option, Shape::IdentList))
                },
            },
            Value::List(l) => {
                let mut i: usize = 0;
                while i < l.len()
                    invariant
                        i <= l.len(),
                        out@.len() == i,
                        self@ == ValueView::List(l@.map_values(|a: Atom| a@)),
                        forall|j: int| 0 <= j < i ==> #[trigger] items(self@)[j] is Ident,
                        forall|j: int|
                            0 <= j < i ==> (#[trigger] out@[j])@ == ident_name(items(self@)[j]),
                    decreases l.len() - i,
                {
                    match &l[i] {
                        Atom::Ident(s) => {
                            out.push(copy_text(s.as_str()));
                        },
                        _ => {
                            assert(!(items(self@)[i as int] is Ident));
                            return Err(mismatch(option, Shape::IdentList));
                        },
                    }
                    i += 1;
                }
                assert(texts(out@) =~= items(self@).map_values(|a: AtomView| ident_name(a)));
                Ok(out)
            },
        }
    }

    /// Reads the value as the text list of the option `option`.
    pub fn to_text_list(&self, option: &str) -> (r: Result<Vec<String>, Error>)
        ensures
            match r {
                Ok(l) => text_list_of(self@) == Some(texts(l@)),
                Err(e) => text_list_of(self@) is None && e@ == ErrorView::ShapeMismatch(
                    option@,
                    Shape::TextList,
                ),
            },
    {
        let mut out: Vec<String> = Vec::new();
        match self {
            Value::Flag => {
                assert(texts(out@) =~= items(self@).map_values(|a: AtomView| str_text(a)));
                Ok(out)
            },
            Value::Scalar(a) => match a {
                Atom::Str(s) => {
                    out.push(copy_text(s.as_str()));
                    assert(texts(out@) =~= items(self@).map_values(|a: AtomView| str_text(a)));
                    Ok(out)
                },
                _ => {
                    assert(!(items(self@)[0] is Str));
                    Err(mismatch(option, Shape::TextList))
                },
            },
            Value::List(l) => {
                let mut i: usize = 0;
                while i < l.len()
                    invariant
                        i <= l.len(),
                        out@.len() == i,
                        self@ == ValueView::List(l@.map_values(|a: Atom| a@)),
                        forall|j: int| 0 <= j < i ==> #[trigger] items(self@)[j] is Str,
                        forall|j: int|
                            0 <= j < i ==> (#[trigger] out@[j])@ == str_text(items(self@)[j]),
                    decreases l.len() - i,
                {
                    match &l[i] {
                        Atom::Str(s) => {
                            out.push(copy_text(s.as_str()));
                        },
                        _ => {
                            assert(!(items(self@)[i as int] is Str));
                            return Err(mismatch(option, Shape::TextList));
                        },
                    }
                    i += 1;
                }
                assert(texts(out@) =~= items(self@).map_values(|a: AtomView| str_text(a)));
                Ok(out)
            },
        }
    }
}

} // verus!
