use vstd::prelude::*;
use crate::error::{Error, ErrorView, Role};
use crate::text::{same_text, texts};

verus! {

/// An annotated function, as far as the rules read it. A type is held as its
/// text with the white space taken out: `&mut Context` is `&mutContext`.
#[derive(Clone, Debug, PartialEq, Eq)]
pub struct FunctionDecl {
    /// The function's identifier.
    pub name: String,
    /// The types of its parameters, in order.
    pub params: Vec<String>,
    /// Its return type.
    pub return_type: String,
    /// Its conditional-compilation markers, which every emitted record repeats.
    pub cfgs: Vec<String>,
}

/// The mathematical value of a [`FunctionDecl`].
pub struct FunctionDeclView {
    pub name: Seq<char>,
    pub params: Seq<Seq<char>>,
    pub return_type: Seq<char>,
    pub cfgs: Seq<Seq<char>>,
}

impl View for FunctionDecl {
    type V = FunctionDeclView;

    open spec fn view(&self) -> FunctionDeclView {
        FunctionDeclView {
            name: self.name@,
            params: texts(self.params@),
            return_type: self.return_type@,
            cfgs: texts(self.cfgs@),
        }
    }
}

/// The parameters of a command handler: the context, the message, the arguments.
pub open spec fn command_signature(params: Seq<Seq<char>>) -> bool {
    &&& params.len() == 3
    &&& params[0] == "&mutContext"@
    &&& params[1] == "&Message"@
    &&& params[2] == "Args"@
}

/// The parameters of a help handler: those of a command handler, then the help
/// options, the groups and the owners.
pub open spec fn help_signature(params: Seq<Seq<char>>) -> bool {
    &&& params.len() == 6
    &&& params[0] == "&mutContext"@
    &&& params[1] == "&Message"@
    &&& params[2] == "Args"@
    &&& params[3] == "&'staticHelpOptions"@
    &&& params[4] == "&[&'staticCommandGroup]"@
    &&& params[5] == "HashSet<UserId>"@
}

/// Whether the parameters are those of the role.
pub open spec fn signature_ok(params: Seq<Seq<char>>, is_help: bool) -> bool {
    if is_help {
        help_signature(params)
    } else {
        command_signature(params)
    }
}

/// The role of a function.
pub open spec fn role_of(is_help: bool) -> Role {
    if is_help {
        Role::Help
    } else {
        Role::Command
    }
}

/// Whether the return type is the result of a command.
pub open spec fn return_ok(return_type: Seq<char>) -> bool {
    return_type == "CommandResult"@
}

/// What the two checks say of a function: the signature is checked first.
pub open spec fn validated(fun: FunctionDeclView, is_help: bool) -> Result<(), ErrorView> {
    if !signature_ok(fun.params, is_help) {
        Err(ErrorView::SignatureMismatch(role_of(is_help)))
    } else if !return_ok(fun.return_type) {
        Err(ErrorView::ReturnTypeMismatch)
    } else {
        Ok(())
    }
}

/// Whether the parameter at `i` is of the type `expected`.
fn param_is(params: &Vec<String>, i: usize, expected: &str) -> (r: bool)
    requires
        i < params@.len(),
    ensures
        r == (texts(params@)[i as int] == expected@),
{
    same_text(params[i].as_str(), expected)
}

/// Checks the parameters of a function against those of its role.
pub fn validate_declaration(fun: &FunctionDecl, is_help: bool) -> (r: Result<(), Error>)
    ensures
        r is Ok <==> signature_ok(fun@.params, is_help),
        r is Err ==> r->Err_0@ == ErrorView::SignatureMismatch(role_of(is_help)),
{
    let p = &fun.params;
    let ok = if is_help {
        p.len() == 6 && param_is(p, 0, "&mutContext") && param_is(p, 1, "&Message") && param_is(
            p,
            2,
            "Args",
        ) && param_is(p, 3, "&'staticHelpOptions") && param_is(p, 4, "&[&'staticCommandGroup]")
            && param_is(p, 5, "HashSet<UserId>")
    } else {
        p.len() == 3 && param_is(p, 0, "&mutContext") && param_is(p, 1, "&Message") && param_is(
            p,
            2,
            "Args",
        )
    };
    if ok {
        Ok(())
    } else {
        Err(Error::SignatureMismatch(if is_help {
            Role::Help
        } else {
            Role::Command
        }))
    }
}

/// Checks the return type of a function.
pub fn validate_return_type(fun: &FunctionDecl) -> (r: Result<(), Error>)
    ensures
        r is Ok <==> return_ok(fun@.return_type),
        r is Err ==> r->Err_0@ == ErrorView::ReturnTypeMismatch,
{
    if same_text(fun.return_type.as_str(), "CommandResult") {
        Ok(())
    } else {
        Err(Error::ReturnTypeMismatch)
    }
}

/// Runs both checks and gives the first failure.
pub fn validate(fun: &FunctionDecl, is_help: bool) -> (r: Result<(), Error>)
    ensures
        match r {
            Ok(_) => validated(fun@, is_help) is Ok,
            Err(e) => validated(fun@, is_help) == Err::<(), ErrorView>(e@),
        },
{
    match validate_declaration(fun, is_help) {
        Err(e) => Err(e),
        Ok(_) => validate_return_type(fun),
    }
}

/// A function of the wrong return type is rejected: for its signature if that is
/// wrong too, else for its return type.
pub proof fn lemma_wrong_return_type(fun: FunctionDeclView, is_help: bool)
    requires
        !return_ok(fun.return_type),
    ensures
        validated(fun, is_help) is Err,
        signature_ok(fun.params, is_help) ==> validated(fun, is_help) == Err::<(), ErrorView>(
            ErrorView::ReturnTypeMismatch,
        ),
{
}

} // verus!
