use vstd::prelude::*;
use crate::context::{context_of, parse_context, OnlyIn};
use crate::error::{Error, ErrorView, Shape};
use crate::permissions::{resolve_permissions, resolved};
use crate::text::{copy_opt_text, copy_text, copy_texts, opt_text, same_text, texts};
use crate::literal::{group_read, options_at, read_group, Field};
use crate::names::{symbol, symbol_of, symbols, symbols_of, RecordKind};
use crate::value::{
    flag_of, ident_list_of, ident_of, mismatch, text_list_of, text_of, Annotation, Value,
    ValueView,
};

verus! {

/// The options of a group.
#[derive(Clone, Debug, PartialEq, Eq)]
pub struct GroupOptions {
    /// The prefixes of the group.
    pub prefixes: Vec<String>,
    /// Where the commands of the group may run.
    pub only_in: OnlyIn,
    /// Whether only owners may run the commands.
    pub owners_only: bool,
    /// Whether owners pass the restrictions.
    pub owner_privilege: bool,
    /// Whether the help listing shows the group.
    pub help_available: bool,
    /// The roles whose members may run the commands.
    pub allowed_roles: Vec<String>,
    /// The permissions that a user needs, as one bitfield.
    pub required_permissions: u64,
    /// The checks to pass before a command runs, as they were named.
    pub checks: Vec<String>,
    /// The command that runs where none is named.
    pub default_command: Option<String>,
    /// What the group is for.
    pub description: Option<String>,
}

/// The mathematical value of [`GroupOptions`].
pub struct GroupOptionsView {
    pub prefixes: Seq<Seq<char>>,
    pub only_in: OnlyIn,
    pub owners_only: bool,
    pub owner_privilege: bool,
    pub help_available: bool,
    pub allowed_roles: Seq<Seq<char>>,
    pub required_permissions: u64,
    pub checks: Seq<Seq<char>>,
    pub default_command: Option<Seq<char>>,
    pub description: Option<Seq<char>>,
}

impl View for GroupOptions {
    type V = GroupOptionsView;

    open spec fn view(&self) -> GroupOptionsView {
        GroupOptionsView {
            prefixes: texts(self.prefixes@),
            only_in: self.only_in,
            owners_only: self.owners_only,
            owner_privilege: self.owner_privilege,
            help_available: self.help_available,
            allowed_roles: texts(self.allowed_roles@),
            required_permissions: self.required_permissions,
            checks: texts(self.checks@),
            default_command: opt_text(self.default_command),
            description: opt_text(self.description),
        }
    }
}

/// The group options before any option is applied.
pub open spec fn group_defaults() -> GroupOptionsView {
    GroupOptionsView {
        prefixes: Seq::empty(),
        only_in: OnlyIn::Anywhere,
        owners_only: false,
        owner_privilege: true,
        help_available: true,
        allowed_roles: Seq::empty(),
        required_permissions: 0,
        checks: Seq::empty(),
        default_command: None,
        description: None,
    }
}

/// Whether `name` is the name of a group option.
pub open spec fn is_group_option(name: Seq<char>) -> bool {
    name == "only_in"@
    || name == "prefixes"@
    || name == "prefix"@
    || name == "owners_only"@
    || name == "owner_privilege"@
    || name == "help_available"@
    || name == "allowed_roles"@
    || name == "required_permissions"@
    || name == "checks"@
    || name == "default_command"@
    || name == "description"@
    || name == "inherit"@
}

/// The group options after the option `name` with the value `v` is applied
/// to `o`, or the error that rejects the option.
pub open spec fn group_applied(o: GroupOptionsView, name: Seq<char>, v: ValueView) -> Result<
    GroupOptionsView,
    ErrorView,
> {
    if name == "only_in"@ {
        match text_of(v) {
            None => Err(ErrorView::ShapeMismatch(name, Shape::Text)),
            Some(t) => match context_of(t) {
                Some(x) => Ok(GroupOptionsView { only_in: x, ..o }),
                None => Err(ErrorView::ShapeMismatch(name, Shape::Context)),
            },
        }
    } else if name == "prefixes"@ {
        match text_list_of(v) {
            Some(x) => Ok(GroupOptionsView { prefixes: x, ..o }),
            None => Err(ErrorView::ShapeMismatch(name, Shape::TextList)),
        }
    } else if name == "prefix"@ {
        match text_of(v) {
            Some(x) => Ok(GroupOptionsView { prefixes: seq![x], ..o }),
            None => Err(ErrorView::ShapeMismatch(name, Shape::Text)),
        }
    } else if name == "owners_only"@ {
        match flag_of(v) {
            Some(x) => Ok(GroupOptionsView { owners_only: x, ..o }),
            None => Err(ErrorView::ShapeMismatch(name, Shape::Flag)),
        }
    } else if name == "owner_privilege"@ {
        match flag_of(v) {
            Some(x) => Ok(GroupOptionsView { owner_privilege: x, ..o }),
            None => Err(ErrorView::ShapeMismatch(name, Shape::Flag)),
        }
    } else if name == "help_available"@ {
        match flag_of(v) {
            Some(x) => Ok(GroupOptionsView { help_available: x, ..o }),
            None => Err(ErrorView::ShapeMismatch(name, Shape::Flag)),
        }
    } else if name == "allowed_roles"@ {
        match text_list_of(v) {
            Some(x) => Ok(GroupOptionsView { allowed_roles: x, ..o }),
            None => Err(ErrorView::ShapeMismatch(name, Shape::TextList)),
        }
    } else if name == "required_permissions"@ {
        match ident_list_of(v) {
            None => Err(ErrorView::ShapeMismatch(name, Shape::IdentList)),
            Some(l) => match resolved(l) {
                Ok(x) => Ok(GroupOptionsView { required_permissions: x, ..o }),
                Err(e) => Err(e),
            },
        }
    } else if name == "checks"@ {
        match ident_list_of(v) {
            Some(x) => Ok(GroupOptionsView { checks: x, ..o }),
            None => Err(ErrorView::ShapeMismatch(name, Shape::IdentList)),
        }
    } else if name == "default_command"@ {
        match ident_of(v) {
            Some(x) => Ok(GroupOptionsView { default_command: Some(x), ..o }),
            None => Err(ErrorView::ShapeMismatch(name, Shape::Ident)),
        }
    } else if name == "description"@ {
        match text_of(v) {
            Some(x) => Ok(GroupOptionsView { description: Some(x), ..o }),
            None => Err(ErrorView::ShapeMismatch(name, Shape::Text)),
        }
    } else if name == "inherit"@ {
        Ok(o)
    } else {
        Err(ErrorView::UnknownOption(name))
    }
}

/// The group options after each annotation of `anns` is applied in turn,
/// starting from `o`, or the first error.
pub open spec fn group_applied_all(o: GroupOptionsView, anns: Seq<Annotation>) -> Result<GroupOptionsView, ErrorView>
    decreases anns.len(),
{
    if anns.len() == 0 {
        Ok(o)
    } else {
        match group_applied_all(o, anns.drop_last()) {
            Err(e) => Err(e),
            Ok(p) => group_applied(p, anns.last().name@, anns.last().value@),
        }
    }
}

impl GroupOptions {
    /// The record before any option is applied.
    pub fn new() -> (r: GroupOptions)
        ensures
            r@ == group_defaults(),
    {
        let r = GroupOptions {
            prefixes: Vec::new(),
            only_in: OnlyIn::Anywhere,
            owners_only: false,
            owner_privilege: true,
            help_available: true,
            allowed_roles: Vec::new(),
            required_permissions: 0,
            checks: Vec::new(),
            default_command: None,
            description: None,
        };
        assert(texts(r.prefixes@) =~= Seq::empty());
        assert(texts(r.allowed_roles@) =~= Seq::empty());
        assert(texts(r.checks@) =~= Seq::empty());
        r
    }

    /// A copy of the record.
    pub fn copy(&self) -> (r: GroupOptions)
        ensures
            r@ == self@,
    {
        GroupOptions {
            prefixes: copy_texts(&self.prefixes),
            only_in: self.only_in,
            owners_only: self.owners_only,
            owner_privilege: self.owner_privilege,
            help_available: self.help_available,
            allowed_roles: copy_texts(&self.allowed_roles),
            required_permissions: self.required_permissions,
            checks: copy_texts(&self.checks),
            default_command: copy_opt_text(&self.default_command),
            description: copy_opt_text(&self.description),
        }
    }

    /// Applies one option. An option that is rejected leaves the record as it was.
    pub fn apply(&mut self, name: &str, value: &Value) -> (r: Result<(), Error>)
        ensures
            match r {
                Ok(_) => group_applied(old(self)@, name@, value@) == Ok::<GroupOptionsView, ErrorView>(
                    final(self)@,
                ),
                Err(e) => {
                    &&& group_applied(old(self)@, name@, value@) == Err::<GroupOptionsView, ErrorView>(
                        e@,
                    )
                    &&& final(self)@ == old(self)@
                },
            },
    {
        if same_text(name, "only_in") {
            match value.to_text(name) {
                Err(e) => Err(e),
                Ok(t) => match parse_context(t.as_str()) {
                    Some(x) => {
                        self.only_in = x;
                        Ok(())
                    },
                    None => Err(mismatch(name, Shape::Context)),
                },
            }
        } else if same_text(name, "prefixes") {
            match value.to_text_list(name) {
                Ok(x) => {
                    self.prefixes = x;
                    Ok(())
                },
                Err(e) => Err(e),
            }
        } else if same_text(name, "prefix") {
            match value.to_text(name) {
                Ok(x) => {
                    let ghost t = x@;
                    let mut l: Vec<String> = Vec::new();
                    l.push(x);
                    assert(texts(l@) =~= seq![t]);
                    self.prefixes = l;
                    Ok(())
                },
                Err(e) => Err(e),
            }
        } else if same_text(name, "owners_only") {
            match value.to_flag(name) {
                Ok(x) => {
                    self.owners_only = x;
                    Ok(())
                },
                Err(e) => Err(e),
            }
        } else if same_text(name, "owner_privilege") {
            match value.to_flag(name) {
                Ok(x) => {
                    self.owner_privilege = x;
                    Ok(())
                },
                Err(e) => Err(e),
            }
        } else if same_text(name, "help_available") {
            match value.to_flag(name) {
                Ok(x) => {
                    self.help_available = x;
                    Ok(())
                },
                Err(e) => Err(e),
            }
        } else if same_text(name, "allowed_roles") {
            match value.to_text_list(name) {
                Ok(x) => {
                    self.allowed_roles = x;
                    Ok(())
                },
                Err(e) => Err(e),
            }
        } else if same_text(name, "required_permissions") {
            match value.to_ident_list(name) {
                Err(e) => Err(e),
                Ok(l) => match resolve_permissions(&l) {
                    Ok(x) => {
                        self.required_permissions = x;
                        Ok(())
                    },
                    Err(e) => Err(e),
                },
            }
        } else if same_text(name, "checks") {
            match value.to_ident_list(name) {
                Ok(x) => {
                    self.checks = x;
                    Ok(())
                },
                Err(e) => Err(e),
            }
        } else if same_text(name, "default_command") {
            match value.to_ident(name) {
                Ok(x) => {
                    self.default_command = Some(x);
                    Ok(())
                },
                Err(e) => Err(e),
            }
        } else if same_text(name, "description") {
            match value.to_text(name) {
                Ok(x) => {
                    self.description = Some(x);
                    Ok(())
                },
                Err(e) => Err(e),
            }
        } else if same_text(name, "inherit") {
            Ok(())
        } else {
            Err(Error::UnknownOption(copy_text(name)))
        }
    }

    /// Applies the annotations in their order and stops at the first that is rejected.
    pub fn apply_all(&mut self, anns: &Vec<Annotation>) -> (r: Result<(), Error>)
        ensures
            match r {
                Ok(_) => group_applied_all(old(self)@, anns@) == Ok::<GroupOptionsView, ErrorView>(
                    final(self)@,
                ),
                Err(e) => group_applied_all(old(self)@, anns@) == Err::<GroupOptionsView, ErrorView>(
                    e@,
                ),
            },
    {
        let ghost start = self@;
        let mut i: usize = 0;
        while i < anns.len()
            invariant
                i <= anns.len(),
                start == old(self)@,
                group_applied_all(start, anns@.take(i as int)) == Ok::<GroupOptionsView, ErrorView>(
                    self@,
                ),
            decreases anns.len() - i,
        {
            proof {
                assert(anns@.take(i + 1).drop_last() =~= anns@.take(i as int));
                assert(anns@.take(i + 1).last() == anns@[i as int]);
            }
            match self.apply(anns[i].name.as_str(), &anns[i].value) {
                Ok(_) => {},
                Err(e) => {
                    proof {
                        assert(anns@.take(i + 1) + anns@.skip(i + 1) =~= anns@);
                        lemma_group_error_stays(start, anns@.take(i + 1), anns@.skip(i + 1));
                    }
                    return Err(e);
                },
            }
            i += 1;
        }
        assert(anns@.take(i as int) =~= anns@);
        Ok(())
    }
}

/// Once an annotation is rejected, the annotations after it change nothing.
pub proof fn lemma_group_error_stays(o: GroupOptionsView, a: Seq<Annotation>, b: Seq<Annotation>)
    requires
        group_applied_all(o, a) is Err,
    ensures
        group_applied_all(o, a + b) == group_applied_all(o, a),
    decreases b.len(),
{
    if b.len() == 0 {
        assert(a + b =~= a);
    } else {
        lemma_group_error_stays(o, a, b.drop_last());
        assert((a + b).drop_last() =~= a + b.drop_last());
    }
}

/// A name outside the schema is rejected as an unknown option, under that very name,
/// whatever its value and whatever was applied before.
pub proof fn lemma_group_unknown_option(o: GroupOptionsView, name: Seq<char>, v: ValueView)
    requires
        !is_group_option(name),
    ensures
        group_applied(o, name, v) == Err::<GroupOptionsView, ErrorView>(
            ErrorView::UnknownOption(name),
        ),
{
}

/// A list of annotations whose last name is outside the schema, and whose other
/// annotations are accepted, is rejected for that name.
pub proof fn lemma_group_unknown_option_in_list(o: GroupOptionsView, anns: Seq<Annotation>)
    requires
        anns.len() > 0,
        group_applied_all(o, anns.drop_last()) is Ok,
        !is_group_option(anns.last().name@),
    ensures
        group_applied_all(o, anns) == Err::<GroupOptionsView, ErrorView>(
            ErrorView::UnknownOption(anns.last().name@),
        ),
{
}

/// An option of any other name leaves `only_in` as it was.
pub proof fn lemma_only_in_kept(o: GroupOptionsView, name: Seq<char>, v: ValueView)
    requires
        name != "only_in"@,
        group_applied(o, name, v) is Ok,
    ensures
        group_applied(o, name, v)->Ok_0.only_in == o.only_in,
{
}

/// Annotations of which none is named `only_in` leave `only_in` as it was.
pub proof fn lemma_only_in_kept_by_all(o: GroupOptionsView, anns: Seq<Annotation>)
    requires
        forall|i: int| 0 <= i < anns.len() ==> (#[trigger] anns[i]).name@ != "only_in"@,
        group_applied_all(o, anns) is Ok,
    ensures
        group_applied_all(o, anns)->Ok_0.only_in == o.only_in,
    decreases anns.len(),
{
    if anns.len() > 0 {
        let front = anns.drop_last();
        assert(forall|i: int| 0 <= i < front.len() ==> front[i] == anns[i]);
        lemma_only_in_kept_by_all(o, front);
        assert(anns.last() == anns[anns.len() - 1]);
        lemma_only_in_kept(group_applied_all(o, front)->Ok_0, anns.last().name@, anns.last().value@);
    }
}

/// An accepted `only_in` decides the restriction, whatever the record held before.
pub proof fn lemma_only_in_set(o: GroupOptionsView, v: ValueView)
    requires
        group_applied(o, "only_in"@, v) is Ok,
    ensures
        text_of(v) is Some,
        context_of(text_of(v)->Some_0) == Some(group_applied(o, "only_in"@, v)->Ok_0.only_in),
{
}

/// One resolved options record, under the name by which others inherit from it.
#[derive(Clone, Debug, PartialEq, Eq)]
pub struct Entry {
    pub name: String,
    pub options: GroupOptions,
}

/// The options records resolved so far, in the order of their declarations.
#[derive(Clone, Debug, PartialEq, Eq)]
pub struct Registry {
    pub entries: Vec<Entry>,
}

/// No two entries have one name.
pub open spec fn distinct_names(entries: Seq<Entry>) -> bool {
    forall|i: int, j: int|
        0 <= i < j < entries.len() ==> (#[trigger] entries[i]).name@ != (#[trigger] entries[j]).name@
}

/// A name is found if and only if an entry has it.
pub proof fn lemma_found_iff_present(entries: Seq<Entry>, name: Seq<char>)
    ensures
        found(entries, name) is None <==> forall|i: int|
            0 <= i < entries.len() ==> (#[trigger] entries[i]).name@ != name,
    decreases entries.len(),
{
    if entries.len() > 0 {
        let rest = entries.drop_first();
        lemma_found_iff_present(rest, name);
        assert(forall|i: int| 0 <= i < rest.len() ==> rest[i] == entries[i + 1]);
        if found(entries, name) is None {
            assert forall|i: int| 0 <= i < entries.len() implies (#[trigger] entries[i]).name@
                != name by {
                if i > 0 {
                    assert(rest[i - 1] == entries[i]);
                }
            }
        } else if entries[0].name@ != name {
            let i = choose|i: int| 0 <= i < rest.len() && (#[trigger] rest[i]).name@ == name;
            assert(entries[i + 1].name@ == name);
        }
    }
}

/// The options registered under `name`: those of the first entry of that name.
pub open spec fn found(entries: Seq<Entry>, name: Seq<char>) -> Option<GroupOptionsView>
    decreases entries.len(),
{
    if entries.len() == 0 {
        None
    } else if entries[0].name@ == name {
        Some(entries[0].options@)
    } else {
        found(entries.drop_first(), name)
    }
}

/// The value of the last `inherit` among the annotations, if there is one.
pub open spec fn inherit_of(anns: Seq<Annotation>) -> Option<ValueView>
    decreases anns.len(),
{
    if anns.len() == 0 {
        None
    } else if anns.last().name@ == "inherit"@ {
        Some(anns.last().value@)
    } else {
        inherit_of(anns.drop_last())
    }
}

/// The options that a declaration starts from: the defaults, or the record that
/// its `inherit` names, which must be registered.
pub open spec fn base_of(entries: Seq<Entry>, anns: Seq<Annotation>) -> Result<
    GroupOptionsView,
    ErrorView,
> {
    match inherit_of(anns) {
        None => Ok(group_defaults()),
        Some(v) => match ident_of(v) {
            None => Err(ErrorView::ShapeMismatch("inherit"@, Shape::Ident)),
            Some(n) => match found(entries, n) {
                Some(o) => Ok(o),
                None => Err(ErrorView::DuplicateOrMissingReference(n)),
            },
        },
    }
}

/// The options of a declaration: its annotations applied on top of its base,
/// wherever among them `inherit` stands. An option that is given replaces what
/// was inherited, a list as a whole.
pub open spec fn group_resolved(entries: Seq<Entry>, anns: Seq<Annotation>) -> Result<
    GroupOptionsView,
    ErrorView,
> {
    match base_of(entries, anns) {
        Err(e) => Err(e),
        Ok(b) => group_applied_all(b, anns),
    }
}

/// The first of `names`, in order, that is not registered, as an error.
pub open spec fn all_found(entries: Seq<Entry>, names: Seq<Seq<char>>) -> Result<(), ErrorView>
    decreases names.len(),
{
    if names.len() == 0 {
        Ok(())
    } else {
        match all_found(entries, names.drop_last()) {
            Err(e) => Err(e),
            Ok(_) => if found(entries, names.last()) is Some {
                Ok(())
            } else {
                Err(ErrorView::DuplicateOrMissingReference(names.last()))
            },
        }
    }
}

/// What is resolved for the record `name`: its options, unless resolving fails, a
/// listed sub-group is not registered, or the name is taken.
pub open spec fn declared(
    entries: Seq<Entry>,
    name: Seq<char>,
    anns: Seq<Annotation>,
    sub: Seq<Seq<char>>,
) -> Result<GroupOptionsView, ErrorView> {
    match group_resolved(entries, anns) {
        Err(e) => Err(e),
        Ok(o) => match all_found(entries, sub) {
            Err(e) => Err(e),
            Ok(_) => if found(entries, name) is Some {
                Err(ErrorView::DuplicateOrMissingReference(name))
            } else {
                Ok(o)
            },
        },
    }
}

/// The place of the last `inherit` among the annotations.
pub fn inherit_in(anns: &Vec<Annotation>) -> (r: Option<usize>)
    ensures
        match r {
            Some(i) => i < anns@.len() && inherit_of(anns@) == Some(anns@[i as int].value@),
            None => inherit_of(anns@) is None,
        },
{
    let mut i: usize = anns.len();
    assert(anns@.take(i as int) =~= anns@);
    while i > 0
        invariant
            i <= anns.len(),
            inherit_of(anns@) == inherit_of(anns@.take(i as int)),
        decreases i,
    {
        proof {
            assert(anns@.take(i as int).drop_last() =~= anns@.take(i - 1));
            assert(anns@.take(i as int).last() == anns@[i - 1]);
        }
        if same_text(anns[i - 1].name.as_str(), "inherit") {
            return Some(i - 1);
        }
        i -= 1;
    }
    None
}

/// A failed lookup stays failed over a longer list only if the rest fails too.
pub proof fn lemma_found_push(entries: Seq<Entry>, e: Entry, name: Seq<char>)
    ensures
        found(entries.push(e), name) == match found(entries, name) {
            Some(o) => Some(o),
            None => if e.name@ == name {
                Some(e.options@)
            } else {
                None
            },
        },
    decreases entries.len(),
{
    if entries.len() == 0 {
        assert(entries.push(e).drop_first() =~= entries);
    } else {
        lemma_found_push(entries.drop_first(), e, name);
        assert(entries.push(e).drop_first() =~= entries.drop_first().push(e));
    }
}

impl Registry {
    /// Whether the registry is in order: no name is registered twice.
    pub open spec fn wf(&self) -> bool {
        distinct_names(self.entries@)
    }

    /// A registry with no record in it.
    pub fn new() -> (r: Registry)
        ensures
            r.entries@.len() == 0,
            r.wf(),
    {
        Registry { entries: Vec::new() }
    }

    /// A copy of the options registered under `name`.
    pub fn find(&self, name: &str) -> (r: Option<GroupOptions>)
        ensures
            match r {
                Some(o) => found(self.entries@, name@) == Some(o@),
                None => found(self.entries@, name@) is None,
            },
    {
        let mut i: usize = 0;
        assert(self.entries@.skip(0) =~= self.entries@);
        while i < self.entries.len()
            invariant
                i <= self.entries.len(),
                found(self.entries@, name@) == found(self.entries@.skip(i as int), name@),
            decreases self.entries.len() - i,
        {
            proof {
                assert(self.entries@.skip(i as int).drop_first() =~= self.entries@.skip(i + 1));
            }
            if same_text(self.entries[i].name.as_str(), name) {
                return Some(self.entries[i].options.copy());
            }
            i += 1;
        }
        None
    }

    /// The options of a declaration with the annotations `anns`.
    pub fn resolve(&self, anns: &Vec<Annotation>) -> (r: Result<GroupOptions, Error>)
        ensures
            match r {
                Ok(o) => group_resolved(self.entries@, anns@) == Ok::<GroupOptionsView, ErrorView>(
                    o@,
                ),
                Err(e) => group_resolved(self.entries@, anns@) == Err::<
                    GroupOptionsView,
                    ErrorView,
                >(e@),
            },
    {
        let mut options = match inherit_in(anns) {
            None => GroupOptions::new(),
            Some(i) => match anns[i].value.to_ident("inherit") {
                Err(e) => {
                    return Err(e);
                },
                Ok(n) => match self.find(n.as_str()) {
                    Some(o) => o,
                    None => {
                        return Err(Error::DuplicateOrMissingReference(n));
                    },
                },
            },
        };
        match options.apply_all(anns) {
            Ok(_) => Ok(options),
            Err(e) => Err(e),
        }
    }

    /// Checks that each of `names` is registered.
    pub fn check_all(&self, names: &Vec<String>) -> (r: Result<(), Error>)
        ensures
            match r {
                Ok(_) => all_found(self.entries@, texts(names@)) is Ok,
                Err(e) => all_found(self.entries@, texts(names@)) == Err::<(), ErrorView>(e@),
            },
    {
        let ghost all = texts(names@);
        let mut i: usize = 0;
        while i < names.len()
            invariant
                i <= names.len(),
                all == texts(names@),
                all_found(self.entries@, all.take(i as int)) is Ok,
            decreases names.len() - i,
        {
            proof {
                assert(all.take(i + 1).drop_last() =~= all.take(i as int));
                assert(all.take(i + 1).last() == names@[i as int]@);
            }
            if self.find(names[i].as_str()).is_none() {
                proof {
                    assert(all.take(i + 1) + all.skip(i + 1) =~= all);
                    lemma_missing_stays(self.entries@, all.take(i + 1), all.skip(i + 1));
                }
                return Err(Error::DuplicateOrMissingReference(copy_text(names[i].as_str())));
            }
            i += 1;
        }
        assert(all.take(i as int) =~= all);
        Ok(())
    }

    /// Resolves the options of the record `name`, checks the sub-groups that it
    /// lists, and registers the options under `name`. On an error the registry
    /// stays as it was.
    pub fn declare(
        &mut self,
        name: &str,
        anns: &Vec<Annotation>,
        sub: &Vec<String>,
    ) -> (r: Result<GroupOptions, Error>)
        ensures
            match r {
                Ok(o) => {
                    &&& declared(old(self).entries@, name@, anns@, texts(sub@))
                        == Ok::<GroupOptionsView, ErrorView>(o@)
                    &&& final(self).entries@.len() == old(self).entries@.len() + 1
                    &&& final(self).entries@.drop_last() == old(self).entries@
                    &&& final(self).entries@.last().name@ == name@
                    &&& final(self).entries@.last().options@ == o@
                    &&& found(final(self).entries@, name@) == Some(o@)
                },
                Err(e) => {
                    &&& declared(old(self).entries@, name@, anns@, texts(sub@))
                        == Err::<GroupOptionsView, ErrorView>(e@)
                    &&& final(self).entries@ == old(self).entries@
                },
            },
            old(self).wf() ==> final(self).wf(),
    {
        let options = match self.resolve(anns) {
            Ok(o) => o,
            Err(e) => {
                return Err(e);
            },
        };
        match self.check_all(sub) {
            Ok(_) => {},
            Err(e) => {
                return Err(e);
            },
        }
        if self.find(name).is_some() {
            return Err(Error::DuplicateOrMissingReference(copy_text(name)));
        }
        let entry = Entry { name: copy_text(name), options: options.copy() };
        proof {
            lemma_found_push(self.entries@, entry, name@);
            lemma_found_iff_present(self.entries@, name@);
            assert(self.entries@.push(entry).drop_last() =~= self.entries@);
        }
        self.entries.push(entry);
        Ok(options)
    }
}

/// Once a name is missing, the names after it change nothing.
pub proof fn lemma_missing_stays(entries: Seq<Entry>, a: Seq<Seq<char>>, b: Seq<Seq<char>>)
    requires
        all_found(entries, a) is Err,
    ensures
        all_found(entries, a + b) == all_found(entries, a),
    decreases b.len(),
{
    if b.len() == 0 {
        assert(a + b =~= a);
    } else {
        lemma_missing_stays(entries, a, b.drop_last());
        assert((a + b).drop_last() =~= a + b.drop_last());
    }
}

/// What a standalone options declaration emits.
#[derive(Clone, Debug, PartialEq, Eq)]
pub struct GroupOptionsRecord {
    /// The symbol of the options record.
    pub symbol: String,
    /// The options.
    pub options: GroupOptions,
}

/// What a group declaration emits.
#[derive(Clone, Debug, PartialEq, Eq)]
pub struct GroupRecord {
    /// The symbol of the group record.
    pub group_symbol: String,
    /// The symbol of the options record.
    pub options_symbol: String,
    /// The group's name.
    pub name: String,
    /// The options.
    pub options: GroupOptions,
    /// The symbols of the command records of the group's commands.
    pub command_symbols: Vec<String>,
    /// The symbols of the group records of the sub-groups.
    pub sub_symbols: Vec<String>,
}

/// Compiles a standalone options declaration and registers it under its name.
/// Nothing is emitted or registered on an error.
pub fn group_options(registry: &mut Registry, name: &str, annotations: &Vec<Annotation>) -> (r:
    Result<GroupOptionsRecord, Error>)
    ensures
        match r {
            Ok(rec) => {
                &&& declared(old(registry).entries@, name@, annotations@, Seq::empty()) == Ok::<
                    GroupOptionsView,
                    ErrorView,
                >(rec.options@)
                &&& rec.symbol@ == symbol_of(name@, RecordKind::GroupOptions)
                &&& final(registry).entries@.drop_last() == old(registry).entries@
                &&& found(final(registry).entries@, name@) == Some(rec.options@)
            },
            Err(e) => {
                &&& declared(old(registry).entries@, name@, annotations@, Seq::empty()) == Err::<
                    GroupOptionsView,
                    ErrorView,
                >(e@)
                &&& final(registry).entries@ == old(registry).entries@
            },
        },
        old(registry).wf() ==> final(registry).wf(),
{
    let none: Vec<String> = Vec::new();
    assert(texts(none@) =~= Seq::empty());
    match registry.declare(name, annotations, &none) {
        Err(e) => Err(e),
        Ok(options) => Ok(
            GroupOptionsRecord { symbol: symbol(name, RecordKind::GroupOptions), options },
        ),
    }
}

/// What a group literal comes to: the error of reading it, else that of
/// resolving and registering its options, else the options.
pub open spec fn group_outcome(entries: Seq<Entry>, literal: Seq<Field>) -> Result<
    GroupOptionsView,
    ErrorView,
> {
    match group_read(literal) {
        Err(e) => Err(e),
        Ok(d) => declared(entries, d.name, d.options, d.sub),
    }
}

/// Compiles a group literal and registers its options under its name.
/// Nothing is emitted or registered on an error.
pub fn group(registry: &mut Registry, literal: &Vec<Field>) -> (r: Result<GroupRecord, Error>)
    ensures
        match r {
            Ok(rec) => {
                &&& group_outcome(old(registry).entries@, literal@) == Ok::<
                    GroupOptionsView,
                    ErrorView,
                >(rec.options@)
                &&& rec.name@ == group_read(literal@)->Ok_0.name
                &&& rec.group_symbol@ == symbol_of(rec.name@, RecordKind::Group)
                &&& rec.options_symbol@ == symbol_of(rec.name@, RecordKind::GroupOptions)
                &&& texts(rec.command_symbols@) == symbols_of(
                    group_read(literal@)->Ok_0.commands,
                    RecordKind::Command,
                )
                &&& texts(rec.sub_symbols@) == symbols_of(
                    group_read(literal@)->Ok_0.sub,
                    RecordKind::Group,
                )
                &&& final(registry).entries@.drop_last() == old(registry).entries@
                &&& found(final(registry).entries@, rec.name@) == Some(rec.options@)
            },
            Err(e) => {
                &&& group_outcome(old(registry).entries@, literal@) == Err::<
                    GroupOptionsView,
                    ErrorView,
                >(e@)
                &&& final(registry).entries@ == old(registry).entries@
            },
        },
        old(registry).wf() ==> final(registry).wf(),
{
    let head = match read_group(literal) {
        Ok(h) => h,
        Err(e) => {
            return Err(e);
        },
    };
    let none: Vec<Annotation> = Vec::new();
    let block = options_at(literal, head.options_at, &none);
    let name = head.name.as_str();
    match registry.declare(name, block, &head.sub) {
        Err(e) => Err(e),
        Ok(options) => Ok(
            GroupRecord {
                group_symbol: symbol(name, RecordKind::Group),
                options_symbol: symbol(name, RecordKind::GroupOptions),
                name: copy_text(name),
                options,
                command_symbols: symbols(&head.commands, RecordKind::Command),
                sub_symbols: symbols(&head.sub, RecordKind::Group),
            },
        ),
    }
}

/// A group that inherits and does not name `only_in` has the restriction of the
/// record that it inherits from.
pub proof fn lemma_inherited_only_in(entries: Seq<Entry>, anns: Seq<Annotation>)
    requires
        forall|i: int| 0 <= i < anns.len() ==> (#[trigger] anns[i]).name@ != "only_in"@,
        inherit_of(anns) is Some,
        group_resolved(entries, anns) is Ok,
    ensures
        ident_of(inherit_of(anns)->Some_0) is Some,
        found(entries, ident_of(inherit_of(anns)->Some_0)->Some_0) is Some,
        group_resolved(entries, anns)->Ok_0.only_in == found(
            entries,
            ident_of(inherit_of(anns)->Some_0)->Some_0,
        )->Some_0.only_in,
{
    lemma_only_in_kept_by_all(base_of(entries, anns)->Ok_0, anns);
}

/// A group that names `only_in` last has the restriction that it names, whatever
/// it inherits.
pub proof fn lemma_local_only_in_wins(entries: Seq<Entry>, anns: Seq<Annotation>)
    requires
        anns.len() > 0,
        anns.last().name@ == "only_in"@,
        group_resolved(entries, anns) is Ok,
    ensures
        text_of(anns.last().value@) is Some,
        context_of(text_of(anns.last().value@)->Some_0) == Some(
            group_resolved(entries, anns)->Ok_0.only_in,
        ),
{
    let b = base_of(entries, anns)->Ok_0;
    lemma_only_in_set(group_applied_all(b, anns.drop_last())->Ok_0, anns.last().value@);
}

} // verus!
