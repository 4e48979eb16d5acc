use vstd::prelude::*;
use crate::context::{context_of, parse_context, OnlyIn};
use crate::error::{Error, ErrorView, Shape};
use crate::permissions::{lemma_order_independent, resolve_permissions, resolved};
use crate::text::{copy_opt_text, copy_text, copy_texts, opt_text, same_text, texts};
use crate::names::{sanitize_name, sanitized, symbol, symbol_of, symbols, symbols_of, RecordKind};
use crate::text::prepend_text;
use crate::validate::{validate, validated, FunctionDecl, FunctionDeclView};
use crate::value::{
    flag_of, ident_list_of, lemma_ident_list_concat, mismatch, number_of, text_list_of, text_of,
    Annotation, AtomView, Value, ValueView,
};

verus! {

/// The options of a command.
#[derive(Clone, Debug, PartialEq, Eq)]
pub struct Options {
    /// The checks to pass before the command runs, as they were named.
    pub checks: Vec<String>,
    /// The rate-limiting bucket.
    pub bucket: Option<String>,
    /// Other names of the command.
    pub aliases: Vec<String>,
    /// What the command does.
    pub description: Option<String>,
    /// How the command is used.
    pub usage: Option<String>,
    /// An example of its use.
    pub example: Option<String>,
    /// The least number of arguments.
    pub min_args: Option<u64>,
    /// The greatest number of arguments.
    pub max_args: Option<u64>,
    /// The roles whose members may run the command.
    pub allowed_roles: Vec<String>,
    /// The permissions that a user needs, as one bitfield.
    pub required_permissions: u64,
    /// Whether the help listing shows the command.
    pub help_available: bool,
    /// Where the command may run.
    pub only_in: OnlyIn,
    /// Whether only owners may run the command.
    pub owners_only: bool,
    /// Whether owners pass the restrictions.
    pub owner_privilege: bool,
    /// The sub-commands, as they were named.
    pub sub: Vec<String>,
}

/// The mathematical value of [`Options`].
pub struct OptionsView {
    pub checks: Seq<Seq<char>>,
    pub bucket: Option<Seq<char>>,
    pub aliases: Seq<Seq<char>>,
    pub description: Option<Seq<char>>,
    pub usage: Option<Seq<char>>,
    pub example: Option<Seq<char>>,
    pub min_args: Option<u64>,
    pub max_args: Option<u64>,
    pub allowed_roles: Seq<Seq<char>>,
    pub required_permissions: u64,
    pub help_available: bool,
    pub only_in: OnlyIn,
    pub owners_only: bool,
    pub owner_privilege: bool,
    pub sub: Seq<Seq<char>>,
}

impl View for Options {
    type V = OptionsView;

    open spec fn view(&self) -> OptionsView {
        OptionsView {
            checks: texts(self.checks@),
            bucket: opt_text(self.bucket),
            aliases: texts(self.aliases@),
            description: opt_text(self.description),
            usage: opt_text(self.usage),
            example: opt_text(self.example),
            min_args: self.min_args,
            max_args: self.max_args,
            allowed_roles: texts(self.allowed_roles@),
            required_permissions: self.required_permissions,
            help_available: self.help_available,
            only_in: self.only_in,
            owners_only: self.owners_only,
            owner_privilege: self.owner_privilege,
            sub: texts(self.sub@),
        }
    }
}

/// The command options before any option is applied.
pub open spec fn command_defaults() -> OptionsView {
    OptionsView {
        checks: Seq::empty(),
        bucket: None,
        aliases: Seq::empty(),
        description: None,
        usage: None,
        example: None,
        min_args: None,
        max_args: None,
        allowed_roles: Seq::empty(),
        required_permissions: 0,
        help_available: true,
        only_in: OnlyIn::Anywhere,
        owners_only: false,
        owner_privilege: true,
        sub: Seq::empty(),
    }
}

/// Whether `name` is the name of a command option.
pub open spec fn is_command_option(name: Seq<char>) -> bool {
    name == "required_permissions"@
    || name == "num_args"@
    || name == "min_args"@
    || name == "max_args"@
    || name == "checks"@
    || name == "bucket"@
    || name == "description"@
    || name == "usage"@
    || name == "example"@
    || name == "aliases"@
    || name == "allowed_roles"@
    || name == "help_available"@
    || name == "only_in"@
    || name == "owners_only"@
    || name == "owner_privilege"@
    || name == "sub"@
}

/// The command options after the option `name` with the value `v` is applied
/// to `o`, or the error that rejects the option.
pub open spec fn command_applied(o: OptionsView, name: Seq<char>, v: ValueView) -> Result<
    OptionsView,
    ErrorView,
> {
    if name == "required_permissions"@ {
        match ident_list_of(v) {
            None => Err(ErrorView::ShapeMismatch(name, Shape::IdentList)),
            Some(l) => match resolved(l) {
                Ok(x) => Ok(OptionsView { required_permissions: x, ..o }),
                Err(e) => Err(e),
            },
        }
    } else if name == "num_args"@ {
        match number_of(v) {
            Some(x) => Ok(OptionsView { min_args: Some(x), max_args: Some(x), ..o }),
            None => Err(ErrorView::ShapeMismatch(name, Shape::Number)),
        }
    } else if name == "min_args"@ {
        match number_of(v) {
            Some(x) => Ok(OptionsView { min_args: Some(x), ..o }),
            None => Err(ErrorView::ShapeMismatch(name, Shape::Number)),
        }
    } else if name == "max_args"@ {
        match number_of(v) {
            Some(x) => Ok(OptionsView { max_args: Some(x), ..o }),
            None => Err(ErrorView::ShapeMismatch(name, Shape::Number)),
        }
    } else if name == "checks"@ {
        match ident_list_of(v) {
            Some(x) => Ok(OptionsView { checks: x, ..o }),
            None => Err(ErrorView::ShapeMismatch(name, Shape::IdentList)),
        }
    } else if name == "bucket"@ {
        match text_of(v) {
            Some(x) => Ok(OptionsView { bucket: Some(x), ..o }),
            None => Err(ErrorView::ShapeMismatch(name, Shape::Text)),
        }
    } else if name == "description"@ {
        match text_of(v) {
            Some(x) => Ok(OptionsView { description: Some(x), ..o }),
            None => Err(ErrorView::ShapeMismatch(name, Shape::Text)),
        }
    } else if name == "usage"@ {
        match text_of(v) {
            Some(x) => Ok(OptionsView { usage: Some(x), ..o }),
            None => Err(ErrorView::ShapeMismatch(name, Shape::Text)),
        }
    } else if name == "example"@ {
        match text_of(v) {
            Some(x) => Ok(OptionsView { example: Some(x), ..o }),
            None => Err(ErrorView::ShapeMismatch(name, Shape::Text)),
        }
    } else if name == "aliases"@ {
        match text_list_of(v) {
            Some(x) => Ok(OptionsView { aliases: x, ..o }),
            None => Err(ErrorView::ShapeMismatch(name, Shape::TextList)),
        }
    } else if name == "allowed_roles"@ {
        match text_list_of(v) {
            Some(x) => Ok(OptionsView { allowed_roles: x, ..o }),
            None => Err(ErrorView::ShapeMismatch(name, Shape::TextList)),
        }
    } else if name == "help_available"@ {
        match flag_of(v) {
            Some(x) => Ok(OptionsView { help_available: x, ..o }),
            None => Err(ErrorView::ShapeMismatch(name, Shape::Flag)),
        }
    } else if name == "only_in"@ {
        match text_of(v) {
            None => Err(ErrorView::ShapeMismatch(name, Shape::Text)),
            Some(t) => match context_of(t) {
                Some(x) => Ok(OptionsView { only_in: x, ..o }),
                None => Err(ErrorView::ShapeMismatch(name, Shape::Context)),
            },
        }
    } else if name == "owners_only"@ {
        match flag_of(v) {
            Some(x) => Ok(OptionsView { owners_only: x, ..o }),
            None => Err(ErrorView::ShapeMismatch(name, Shape::Flag)),
        }
    } else if name == "owner_privilege"@ {
        match flag_of(v) {
            Some(x) => Ok(OptionsView { owner_privilege: x, ..o }),
            None => Err(ErrorView::ShapeMismatch(name, Shape::Flag)),
        }
    } else if name == "sub"@ {
        match ident_list_of(v) {
            Some(x) => Ok(OptionsView { sub: x, ..o }),
            None => Err(ErrorView::ShapeMismatch(name, Shape::IdentList)),
        }
    } else {
        Err(ErrorView::UnknownOption(name))
    }
}

/// The command options after each annotation of `anns` is applied in turn,
/// starting from `o`, or the first error.
pub open spec fn command_applied_all(o: OptionsView, anns: Seq<Annotation>) -> Result<OptionsView, ErrorView>
    decreases anns.len(),
{
    if anns.len() == 0 {
        Ok(o)
    } else {
        match command_applied_all(o, anns.drop_last()) {
            Err(e) => Err(e),
            Ok(p) => command_applied(p, anns.last().name@, anns.last().value@),
        }
    }
}

impl Options {
    /// The record before any option is applied.
    pub fn new() -> (r: Options)
        ensures
            r@ == command_defaults(),
    {
        let r = Options {
            checks: Vec::new(),
            bucket: None,
            aliases: Vec::new(),
            description: None,
            usage: None,
            example: None,
            min_args: None,
            max_args: None,
            allowed_roles: Vec::new(),
            required_permissions: 0,
            help_available: true,
            only_in: OnlyIn::Anywhere,
            owners_only: false,
            owner_privilege: true,
            sub: Vec::new(),
        };
        assert(texts(r.checks@) =~= Seq::empty());
        assert(texts(r.aliases@) =~= Seq::empty());
        assert(texts(r.allowed_roles@) =~= Seq::empty());
        assert(texts(r.sub@) =~= Seq::empty());
        r
    }

    /// A copy of the record.
    pub fn copy(&self) -> (r: Options)
        ensures
            r@ == self@,
    {
        Options {
            checks: copy_texts(&self.checks),
            bucket: copy_opt_text(&self.bucket),
            aliases: copy_texts(&self.aliases),
            description: copy_opt_text(&self.description),
            usage: copy_opt_text(&self.usage),
            example: copy_opt_text(&self.example),
            min_args: self.min_args,
            max_args: self.max_args,
            allowed_roles: copy_texts(&self.allowed_roles),
            required_permissions: self.required_permissions,
            help_available: self.help_available,
            only_in: self.only_in,
            owners_only: self.owners_only,
            owner_privilege: self.owner_privilege,
            sub: copy_texts(&self.sub),
        }
    }

    /// Applies one option. An option that is rejected leaves the record as it was.
    pub fn apply(&mut self, name: &str, value: &Value) -> (r: Result<(), Error>)
        ensures
            match r {
                Ok(_) => command_applied(old(self)@, name@, value@) == Ok::<OptionsView, ErrorView>(
                    final(self)@,
                ),
                Err(e) => {
                    &&& command_applied(old(self)@, name@, value@) == Err::<OptionsView, ErrorView>(
                        e@,
                    )
                    &&& final(self)@ == old(self)@
                },
            },
    {
        if same_text(name, "required_permissions") {
            match value.to_ident_list(name) {
                Err(e) => Err(e),
                Ok(l) => match resolve_permissions(&l) {
                    Ok(x) => {
                        self.required_permissions = x;
                        Ok(())
                    },
                    Err(e) => Err(e),
                },
            }
        } else if same_text(name, "num_args") {
            match value.to_number(name) {
                Ok(x) => {
                    self.min_args = Some(x);
                    self.max_args = Some(x);
                    Ok(())
                },
                Err(e) => Err(e),
            }
        } else if same_text(name, "min_args") {
            match value.to_number(name) {
                Ok(x) => {
                    self.min_args = Some(x);
                    Ok(())
                },
                Err(e) => Err(e),
            }
        } else if same_text(name, "max_args") {
            match value.to_number(name) {
                Ok(x) => {
                    self.max_args = Some(x);
                    Ok(())
                },
                Err(e) => Err(e),
            }
        } else if same_text(name, "checks") {
            match value.to_ident_list(name) {
                Ok(x) => {
                    self.checks = x;
                    Ok(())
                },
                Err(e) => Err(e),
            }
        } else if same_text(name, "bucket") {
            match value.to_text(name) {
                Ok(x) => {
                    self.bucket = Some(x);
                    Ok(())
                },
                Err(e) => Err(e),
            }
        } else if same_text(name, "description") {
            match value.to_text(name) {
                Ok(x) => {
                    self.description = Some(x);
                    Ok(())
                },
                Err(e) => Err(e),
            }
        } else if same_text(name, "usage") {
            match value.to_text(name) {
                Ok(x) => {
                    self.usage = Some(x);
                    Ok(())
                },
                Err(e) => Err(e),
            }
        } else if same_text(name, "example") {
            match value.to_text(name) {
                Ok(x) => {
                    self.example = Some(x);
                    Ok(())
                },
                Err(e) => Err(e),
            }
        } else if same_text(name, "aliases") {
            match value.to_text_list(name) {
                Ok(x) => {
                    self.aliases = x;
                    Ok(())
                },
                Err(e) => Err(e),
            }
        } else if same_text(name, "allowed_roles") {
            match value.to_text_list(name) {
                Ok(x) => {
                    self.allowed_roles = x;
                    Ok(())
                },
                Err(e) => Err(e),
            }
        } else if same_text(name, "help_available") {
            match value.to_flag(name) {
                Ok(x) => {
                    self.help_available = x;
                    Ok(())
                },
                Err(e) => Err(e),
            }
        } else if same_text(name, "only_in") {
            match value.to_text(name) {
                Err(e) => Err(e),
                Ok(t) => match parse_context(t.as_str()) {
                    Some(x) => {
                        self.only_in = x;
                        Ok(())
                    },
                    None => Err(mismatch(name, Shape::Context)),
                },
            }
        } else if same_text(name, "owners_only") {
            match value.to_flag(name) {
                Ok(x) => {
                    self.owners_only = x;
                    Ok(())
                },
                Err(e) => Err(e),
            }
        } else if same_text(name, "owner_privilege") {
            match value.to_flag(name) {
                Ok(x) => {
                    self.owner_privilege = x;
                    Ok(())
                },
                Err(e) => Err(e),
            }
        } else if same_text(name, "sub") {
            match value.to_ident_list(name) {
                Ok(x) => {
                    self.sub = x;
                    Ok(())
                },
                Err(e) => Err(e),
            }
        } else {
            Err(Error::UnknownOption(copy_text(name)))
        }
    }

    /// Applies the annotations in their order and stops at the first that is rejected.
    pub fn apply_all(&mut self, anns: &Vec<Annotation>) -> (r: Result<(), Error>)
        ensures
            match r {
                Ok(_) => command_applied_all(old(self)@, anns@) == Ok::<OptionsView, ErrorView>(
                    final(self)@,
                ),
                Err(e) => command_applied_all(old(self)@, anns@) == Err::<OptionsView, ErrorView>(
                    e@,
                ),
            },
    {
        let ghost start = self@;
        let mut i: usize = 0;
        while i < anns.len()
            invariant
                i <= anns.len(),
                start == old(self)@,
                command_applied_all(start, anns@.take(i as int)) == Ok::<OptionsView, ErrorView>(
                    self@,
                ),
            decreases anns.len() - i,
        {
            proof {
                assert(anns@.take(i + 1).drop_last() =~= anns@.take(i as int));
                assert(anns@.take(i + 1).last() == anns@[i as int]);
            }
            match self.apply(anns[i].name.as_str(), &anns[i].value) {
                Ok(_) => {},
                Err(e) => {
                    proof {
                        assert(anns@.take(i + 1) + anns@.skip(i + 1) =~= anns@);
                        lemma_command_error_stays(start, anns@.take(i + 1), anns@.skip(i + 1));
                    }
                    return Err(e);
                },
            }
            i += 1;
        }
        assert(anns@.take(i as int) =~= anns@);
        Ok(())
    }
}

/// Once an annotation is rejected, the annotations after it change nothing.
pub proof fn lemma_command_error_stays(o: OptionsView, a: Seq<Annotation>, b: Seq<Annotation>)
    requires
        command_applied_all(o, a) is Err,
    ensures
        command_applied_all(o, a + b) == command_applied_all(o, a),
    decreases b.len(),
{
    if b.len() == 0 {
        assert(a + b =~= a);
    } else {
        lemma_command_error_stays(o, a, b.drop_last());
        assert((a + b).drop_last() =~= a + b.drop_last());
    }
}

/// A name outside the schema is rejected as an unknown option, under that very name,
/// whatever its value and whatever was applied before.
pub proof fn lemma_command_unknown_option(o: OptionsView, name: Seq<char>, v: ValueView)
    requires
        !is_command_option(name),
    ensures
        command_applied(o, name, v) == Err::<OptionsView, ErrorView>(
            ErrorView::UnknownOption(name),
        ),
{
}

/// A list of annotations whose last name is outside the schema, and whose other
/// annotations are accepted, is rejected for that name.
pub proof fn lemma_command_unknown_option_in_list(o: OptionsView, anns: Seq<Annotation>)
    requires
        anns.len() > 0,
        command_applied_all(o, anns.drop_last()) is Ok,
        !is_command_option(anns.last().name@),
    ensures
        command_applied_all(o, anns) == Err::<OptionsView, ErrorView>(
            ErrorView::UnknownOption(anns.last().name@),
        ),
{
}

/// `num_args` with a count does what `min_args` and then `max_args` do with the
/// same count, from any record.
pub proof fn lemma_num_args_is_min_and_max(o: OptionsView, v: ValueView)
    ensures
        command_applied(o, "num_args"@, v) == match command_applied(o, "min_args"@, v) {
            Ok(p) => command_applied(p, "max_args"@, v),
            Err(_) => Err::<OptionsView, ErrorView>(
                ErrorView::ShapeMismatch("num_args"@, Shape::Number),
            ),
        },
{
    reveal_strlit("num_args");
    reveal_strlit("min_args");
    reveal_strlit("max_args");
    reveal_strlit("required_permissions");
    assert("required_permissions"@.len() == 20);
    assert("num_args"@.len() == 8 && "min_args"@.len() == 8 && "max_args"@.len() == 8);
    assert("min_args"@ != "num_args"@) by {
        assert("min_args"@[0] != "num_args"@[0]);
    }
    assert("max_args"@ != "num_args"@) by {
        assert("max_args"@[0] != "num_args"@[0]);
    }
    assert("max_args"@ != "min_args"@) by {
        assert("max_args"@[1] != "min_args"@[1]);
    }
}

/// `required_permissions` gives one bitfield for two lists of names in either
/// order, and is accepted in one order if and only if it is in the other.
pub proof fn lemma_required_permissions_order(o: OptionsView, a: Seq<AtomView>, b: Seq<AtomView>)
    ensures
        command_applied(o, "required_permissions"@, ValueView::List(a + b)) is Ok
            <==> command_applied(o, "required_permissions"@, ValueView::List(b + a)) is Ok,
        command_applied(o, "required_permissions"@, ValueView::List(a + b)) is Ok
            ==> command_applied(o, "required_permissions"@, ValueView::List(a + b))
            == command_applied(o, "required_permissions"@, ValueView::List(b + a)),
{
    lemma_ident_list_concat(a, b);
    lemma_ident_list_concat(b, a);
    if let Some(x) = ident_list_of(ValueView::List(a)) {
        if let Some(y) = ident_list_of(ValueView::List(b)) {
            lemma_order_independent(x, y);
        }
    }
}

/// What a command declaration emits: the options record and the record that pairs
/// it with the function.
#[derive(Clone, Debug, PartialEq, Eq)]
pub struct CommandRecord {
    /// The symbol of the options record.
    pub options_symbol: String,
    /// The symbol of the command record.
    pub command_symbol: String,
    /// The command's name as it was given, then its aliases.
    pub names: Vec<String>,
    /// The options.
    pub options: Options,
    /// The symbols of the command records of the sub-commands.
    pub sub_symbols: Vec<String>,
    /// The function that the command runs.
    pub function: String,
    /// The function's conditional-compilation markers, for both records.
    pub cfgs: Vec<String>,
}

/// The mathematical value of a [`CommandRecord`].
pub struct CommandRecordView {
    pub options_symbol: Seq<char>,
    pub command_symbol: Seq<char>,
    pub names: Seq<Seq<char>>,
    pub options: OptionsView,
    pub sub_symbols: Seq<Seq<char>>,
    pub function: Seq<char>,
    pub cfgs: Seq<Seq<char>>,
}

impl View for CommandRecord {
    type V = CommandRecordView;

    open spec fn view(&self) -> CommandRecordView {
        CommandRecordView {
            options_symbol: self.options_symbol@,
            command_symbol: self.command_symbol@,
            names: texts(self.names@),
            options: self.options@,
            sub_symbols: texts(self.sub_symbols@),
            function: self.function@,
            cfgs: texts(self.cfgs@),
        }
    }
}

/// The name of a command: the one given with the declaration, else the function's.
pub open spec fn command_name(explicit: Option<Seq<char>>, fun: FunctionDeclView) -> Seq<char> {
    match explicit {
        Some(n) => n,
        None => fun.name,
    }
}

/// The records of the command `name` with the options `o`. The symbols come from
/// the sanitized name; the list of names starts with the name as it was given.
pub open spec fn command_record(
    name: Seq<char>,
    fun: FunctionDeclView,
    o: OptionsView,
) -> CommandRecordView {
    CommandRecordView {
        options_symbol: symbol_of(sanitized(name), RecordKind::CommandOptions),
        command_symbol: symbol_of(sanitized(name), RecordKind::Command),
        names: seq![name] + o.aliases,
        options: o,
        sub_symbols: symbols_of(o.sub, RecordKind::Command),
        function: fun.name,
        cfgs: fun.cfgs,
    }
}

/// What a command declaration comes to: the error of the first annotation that is
/// rejected, else that of the function's checks, else the records.
pub open spec fn command_outcome(
    explicit: Option<Seq<char>>,
    fun: FunctionDeclView,
    anns: Seq<Annotation>,
) -> Result<CommandRecordView, ErrorView> {
    match command_applied_all(command_defaults(), anns) {
        Err(e) => Err(e),
        Ok(o) => match validated(fun, false) {
            Err(e) => Err(e),
            Ok(_) => Ok(command_record(command_name(explicit, fun), fun, o)),
        },
    }
}

/// Compiles a command declaration: reads the annotations into the options, checks
/// the function, and derives the records. Nothing is emitted on an error.
pub fn command(explicit_name: Option<&str>, fun: &FunctionDecl, annotations: &Vec<Annotation>) -> (r:
    Result<CommandRecord, Error>)
    ensures
        match r {
            Ok(rec) => command_outcome(
                match explicit_name {
                    Some(n) => Some(n@),
                    None => None,
                },
                fun@,
                annotations@,
            ) == Ok::<CommandRecordView, ErrorView>(rec@),
            Err(e) => command_outcome(
                match explicit_name {
                    Some(n) => Some(n@),
                    None => None,
                },
                fun@,
                annotations@,
            ) == Err::<CommandRecordView, ErrorView>(e@),
        },
{
    let mut options = Options::new();
    match options.apply_all(annotations) {
        Err(e) => {
            return Err(e);
        },
        Ok(_) => {},
    }
    match validate(fun, false) {
        Err(e) => {
            return Err(e);
        },
        Ok(_) => {},
    }
    let name: &str = match explicit_name {
        Some(n) => n,
        None => fun.name.as_str(),
    };
    let clean = sanitize_name(name);
    let names = prepend_text(name, &options.aliases);
    let sub_symbols = symbols(&options.sub, RecordKind::Command);
    Ok(
        CommandRecord {
            options_symbol: symbol(clean.as_str(), RecordKind::CommandOptions),
            command_symbol: symbol(clean.as_str(), RecordKind::Command),
            names,
            options,
            sub_symbols,
            function: copy_text(fun.name.as_str()),
            cfgs: copy_texts(&fun.cfgs),
        },
    )
}

/// A name that starts with a digit is changed only in the symbols: the list of
/// names still starts with the name as it was given.
pub proof fn lemma_names_keep_given_name(
    explicit: Option<Seq<char>>,
    fun: FunctionDeclView,
    anns: Seq<Annotation>,
)
    requires
        command_outcome(explicit, fun, anns) is Ok,
    ensures
        command_outcome(explicit, fun, anns)->Ok_0.names[0] == command_name(explicit, fun),
        command_outcome(explicit, fun, anns)->Ok_0.command_symbol == symbol_of(
            sanitized(command_name(explicit, fun)),
            RecordKind::Command,
        ),
{
}

} // verus!
