use vstd::prelude::*;
use vstd::string::StringExecFns;
use crate::text::{copy_text, quote_text, quoted};

verus! {

/// The shape that an option expects of its value.
#[derive(Clone, Copy, Debug, PartialEq, Eq, Structural)]
pub enum Shape {
    /// No payload, or one boolean literal.
    Flag,
    /// One string literal.
    Text,
    /// One integer literal.
    Number,
    /// One identifier.
    Ident,
    /// Identifiers only.
    IdentList,
    /// String literals only.
    TextList,
    /// One of the strings `guilds` and `dms`.
    Context,
    /// A block of options between braces.
    Block,
}

/// What an annotated function is for.
#[derive(Clone, Copy, Debug, PartialEq, Eq, Structural)]
pub enum Role {
    /// It runs a command.
    Command,
    /// It writes the help listing.
    Help,
}

/// Why a declaration was rejected. Each error ends the work on its declaration.
#[derive(Clone, Debug, PartialEq, Eq)]
pub enum Error {
    /// The option's name is not in the schema.
    UnknownOption(String),
    /// The option's value has not the shape that the option expects.
    ShapeMismatch(String, Shape),
    /// The identifier names no permission.
    UnknownPermission(String),
    /// The text is none of `strike`, `hide` and `nothing`.
    UnknownBehavior(String),
    /// The function's parameters are not those of its role.
    SignatureMismatch(Role),
    /// The function does not return a command result.
    ReturnTypeMismatch,
    /// The name is not in the registry, or is taken there already.
    DuplicateOrMissingReference(String),
}

/// The mathematical value of an [`Error`].
pub enum ErrorView {
    UnknownOption(Seq<char>),
    ShapeMismatch(Seq<char>, Shape),
    UnknownPermission(Seq<char>),
    UnknownBehavior(Seq<char>),
    SignatureMismatch(Role),
    ReturnTypeMismatch,
    DuplicateOrMissingReference(Seq<char>),
}

impl View for Error {
    type V = ErrorView;

    open spec fn view(&self) -> ErrorView {
        match *self {
            Error::UnknownOption(n) => ErrorView::UnknownOption(n@),
            Error::ShapeMismatch(n, s) => ErrorView::ShapeMismatch(n@, s),
            Error::UnknownPermission(n) => ErrorView::UnknownPermission(n@),
            Error::UnknownBehavior(n) => ErrorView::UnknownBehavior(n@),
            Error::SignatureMismatch(r) => ErrorView::SignatureMismatch(r),
            Error::ReturnTypeMismatch => ErrorView::ReturnTypeMismatch,
            Error::DuplicateOrMissingReference(n) => ErrorView::DuplicateOrMissingReference(n@),
        }
    }
}

/// How a shape is called in a message.
pub open spec fn shape_text(shape: Shape) -> Seq<char> {
    match shape {
        Shape::Flag => "nothing or a boolean"@,
        Shape::Text => "a string"@,
        Shape::Number => "an integer"@,
        Shape::Ident => "an identifier"@,
        Shape::IdentList => "a list of identifiers"@,
        Shape::TextList => "a list of strings"@,
        Shape::Context => "one of \"guilds\" and \"dms\""@,
        Shape::Block => "a block of options"@,
    }
}

/// The parameters that a role asks for, as a message names them.
pub open spec fn role_text(role: Role) -> Seq<char> {
    match role {
        Role::Command => "(&mut Context, &Message, Args)"@,
        Role::Help =>
            "(&mut Context, &Message, Args, &'static HelpOptions, &[&'static CommandGroup], HashSet<UserId>)"@,
    }
}

/// The message of an error.
pub open spec fn message_of(e: ErrorView) -> Seq<char> {
    match e {
        ErrorView::UnknownOption(n) => "invalid attribute: "@ + quoted(n),
        ErrorView::ShapeMismatch(n, s) => "invalid value for attribute "@ + quoted(n)
            + ": expected "@ + shape_text(s),
        ErrorView::UnknownPermission(_) => "invalid permission"@,
        ErrorView::UnknownBehavior(t) => "invalid help behaviour: "@ + quoted(t),
        ErrorView::SignatureMismatch(r) => "expected a function with the parameters "@ + role_text(
            r,
        ),
        ErrorView::ReturnTypeMismatch => "expected CommandResult as the return type"@,
        ErrorView::DuplicateOrMissingReference(n) => "undefined or already defined: "@ + quoted(n),
    }
}

impl Shape {
    /// How the shape is called in a message.
    pub fn describe(&self) -> (r: &'static str)
        ensures
            r@ == shape_text(*self),
    {
        match self {
            Shape::Flag => "nothing or a boolean",
            Shape::Text => "a string",
            Shape::Number => "an integer",
            Shape::Ident => "an identifier",
            Shape::IdentList => "a list of identifiers",
            Shape::TextList => "a list of strings",
            Shape::Context => "one of \"guilds\" and \"dms\"",
            Shape::Block => "a block of options",
        }
    }
}

impl Role {
    /// The parameters that the role asks for.
    pub fn describe(&self) -> (r: &'static str)
        ensures
            r@ == role_text(*self),
    {
        match self {
            Role::Command => "(&mut Context, &Message, Args)",
            Role::Help =>
                "(&mut Context, &Message, Args, &'static HelpOptions, &[&'static CommandGroup], HashSet<UserId>)",
        }
    }
}

impl Error {
    /// The message to report the error with.
    pub fn message(&self) -> (r: String)
        ensures
            r@ == message_of(self@),
    {
        match self {
            Error::UnknownOption(n) => {
                let mut m = copy_text("invalid attribute: ");
                m.append(quote_text(n.as_str()).as_str());
                m
            },
            Error::ShapeMismatch(n, s) => {
                let mut m = copy_text("invalid value for attribute ");
                m.append(quote_text(n.as_str()).as_str());
                m.append(": expected ");
                m.append(s.describe());
                m
            },
            Error::UnknownPermission(_) => copy_text("invalid permission"),
            Error::UnknownBehavior(t) => {
                let mut m = copy_text("invalid help behaviour: ");
                m.append(quote_text(t.as_str()).as_str());
                m
            },
            Error::SignatureMismatch(r) => {
                let mut m = copy_text("expected a function with the parameters ");
                m.append(r.describe());
                m
            },
            Error::ReturnTypeMismatch => copy_text("expected CommandResult as the return type"),
            Error::DuplicateOrMissingReference(n) => {
                let mut m = copy_text("undefined or already defined: ");
                m.append(quote_text(n.as_str()).as_str());
                m
            },
        }
    }

    /// The name that the error points at: the option, the permission, the text
    /// or the reference that was rejected; none for an error about the function.
    pub fn subject(&self) -> (r: Option<String>)
        ensures
            crate::text::opt_text(r) == subject_of(self@),
    {
        match self {
            Error::UnknownOption(n) => Some(copy_text(n.as_str())),
            Error::ShapeMismatch(n, _) => Some(copy_text(n.as_str())),
            Error::UnknownPermission(n) => Some(copy_text(n.as_str())),
            Error::UnknownBehavior(n) => Some(copy_text(n.as_str())),
            Error::SignatureMismatch(_) => None,
            Error::ReturnTypeMismatch => None,
            Error::DuplicateOrMissingReference(n) => Some(copy_text(n.as_str())),
        }
    }
}

/// The name that an error points at.
pub open spec fn subject_of(e: ErrorView) -> Option<Seq<char>> {
    match e {
        ErrorView::UnknownOption(n) => Some(n),
        ErrorView::ShapeMismatch(n, _) => Some(n),
        ErrorView::UnknownPermission(n) => Some(n),
        ErrorView::UnknownBehavior(n) => Some(n),
        ErrorView::SignatureMismatch(_) => None,
        ErrorView::ReturnTypeMismatch => None,
        ErrorView::DuplicateOrMissingReference(n) => Some(n),
    }
}

} // verus!
