use vstd::prelude::*;
use vstd::string::StrSliceExecFns;
use crate::behaviour::{
    behaviour_of, parse_behaviour, produce_strike_text, strike_text, HelpBehaviour,
};
use crate::error::{Error, ErrorView, Shape};
use crate::names::{symbol, symbol_of, RecordKind};
use crate::text::{copy_opt_text, copy_text, copy_texts, opt_text, same_text, texts};
use crate::validate::{
    return_ok, signature_ok, validate, validated, FunctionDecl, FunctionDeclView,
};
use crate::value::{ident_of, number_of, text_of, Annotation, Value, ValueView};

verus! {

/// The options of a help listing.
#[derive(Clone, Debug, PartialEq, Eq)]
pub struct HelpOptions {
    /// Suggests a command of a similar name.
    pub suggestion_text: String,
    /// Says that a command has no help.
    pub no_help_available_text: String,
    /// The label of a usage.
    pub usage_label: String,
    /// The label of a sample usage.
    pub usage_sample_label: String,
    /// The label of the commands in no group.
    pub ungrouped_label: String,
    /// The label of a group.
    pub grouped_label: String,
    /// The label of the aliases.
    pub aliases_label: String,
    /// The label of a description.
    pub description_label: String,
    /// Says that a command runs in guilds only.
    pub guild_only_text: String,
    /// The label of the checks.
    pub checks_label: String,
    /// Says that a command runs in direct messages only.
    pub dm_only_text: String,
    /// Says that a command runs in both.
    pub dm_and_guild_text: String,
    /// The label of where a command runs.
    pub available_text: String,
    /// Says that a command was not found.
    pub command_not_found_text: String,
    /// Says how to ask for one command.
    pub individual_command_tip: String,
    /// The label of a group prefix.
    pub group_prefix: String,
    /// Explains struck commands in direct messages; empty asks for the generated sentence.
    pub strikethrough_commands_tip_in_dm: Option<String>,
    /// Explains struck commands in guilds; empty asks for the generated sentence.
    pub strikethrough_commands_tip_in_guild: Option<String>,
    /// How to show a command whose role the reader lacks.
    pub lacking_role: HelpBehaviour,
    /// How to show a command whose permissions the reader lacks.
    pub lacking_permissions: HelpBehaviour,
    /// How to show a command for owners to another reader.
    pub lacking_ownership: HelpBehaviour,
    /// How to show a command that does not run in this channel.
    pub wrong_channel: HelpBehaviour,
    /// The name of the colour of an error.
    pub embed_error_colour: String,
    /// The name of the colour of a listing.
    pub embed_success_colour: String,
    /// How far a name may be from a command to be suggested.
    pub max_levenshtein_distance: u64,
}

/// The mathematical value of [`HelpOptions`].
pub struct HelpOptionsView {
    pub suggestion_text: Seq<char>,
    pub no_help_available_text: Seq<char>,
    pub usage_label: Seq<char>,
    pub usage_sample_label: Seq<char>,
    pub ungrouped_label: Seq<char>,
    pub grouped_label: Seq<char>,
    pub aliases_label: Seq<char>,
    pub description_label: Seq<char>,
    pub guild_only_text: Seq<char>,
    pub checks_label: Seq<char>,
    pub dm_only_text: Seq<char>,
    pub dm_and_guild_text: Seq<char>,
    pub available_text: Seq<char>,
    pub command_not_found_text: Seq<char>,
    pub individual_command_tip: Seq<char>,
    pub group_prefix: Seq<char>,
    pub strikethrough_commands_tip_in_dm: Option<Seq<char>>,
    pub strikethrough_commands_tip_in_guild: Option<Seq<char>>,
    pub lacking_role: HelpBehaviour,
    pub lacking_permissions: HelpBehaviour,
    pub lacking_ownership: HelpBehaviour,
    pub wrong_channel: HelpBehaviour,
    pub embed_error_colour: Seq<char>,
    pub embed_success_colour: Seq<char>,
    pub max_levenshtein_distance: u64,
}

impl View for HelpOptions {
    type V = HelpOptionsView;

    open spec fn view(&self) -> HelpOptionsView {
        HelpOptionsView {
            suggestion_text: self.suggestion_text@,
            no_help_available_text: self.no_help_available_text@,
            usage_label: self.usage_label@,
            usage_sample_label: self.usage_sample_label@,
            ungrouped_label: self.ungrouped_label@,
            grouped_label: self.grouped_label@,
            aliases_label: self.aliases_label@,
            description_label: self.description_label@,
            guild_only_text: self.guild_only_text@,
            checks_label: self.checks_label@,
            dm_only_text: self.dm_only_text@,
            dm_and_guild_text: self.dm_and_guild_text@,
            available_text: self.available_text@,
            command_not_found_text: self.command_not_found_text@,
            individual_command_tip: self.individual_command_tip@,
            group_prefix: self.group_prefix@,
            strikethrough_commands_tip_in_dm: opt_text(self.strikethrough_commands_tip_in_dm),
            strikethrough_commands_tip_in_guild: opt_text(self.strikethrough_commands_tip_in_guild),
            lacking_role: self.lacking_role,
            lacking_permissions: self.lacking_permissions,
            lacking_ownership: self.lacking_ownership,
            wrong_channel: self.wrong_channel,
            embed_error_colour: self.embed_error_colour@,
            embed_success_colour: self.embed_success_colour@,
            max_levenshtein_distance: self.max_levenshtein_distance,
        }
    }
}

/// The help options before any option is applied.
pub open spec fn help_defaults() -> HelpOptionsView {
    HelpOptionsView {
        suggestion_text: "Did you mean `{}`?"@,
        no_help_available_text: "**Error**: No help available."@,
        usage_label: "Usage"@,
        usage_sample_label: "Sample usage"@,
        ungrouped_label: "Ungrouped"@,
        grouped_label: "Group"@,
        aliases_label: "Aliases"@,
        description_label: "Description"@,
        guild_only_text: "Only in guilds"@,
        checks_label: "Checks"@,
        dm_only_text: "Only in DM"@,
        dm_and_guild_text: "In DM and guilds"@,
        available_text: "Available"@,
        command_not_found_text: "**Error**: Command `{}` not found."@,
        individual_command_tip: "To get help with an individual command, pass its name as an argument to this command."@,
        group_prefix: "Prefix"@,
        strikethrough_commands_tip_in_dm: Some(Seq::empty()),
        strikethrough_commands_tip_in_guild: Some(Seq::empty()),
        lacking_role: HelpBehaviour::Strike,
        lacking_permissions: HelpBehaviour::Strike,
        lacking_ownership: HelpBehaviour::Hide,
        wrong_channel: HelpBehaviour::Strike,
        embed_error_colour: "DARK_RED"@,
        embed_success_colour: "ROSEWATER"@,
        max_levenshtein_distance: 0,
    }
}

/// Whether `name` is the name of a help option.
pub open spec fn is_help_option(name: Seq<char>) -> bool {
    name == "lacking_role"@
    || name == "lacking_permissions"@
    || name == "lacking_ownership"@
    || name == "wrong_channel"@
    || name == "suggestion_text"@
    || name == "no_help_available_text"@
    || name == "usage_label"@
    || name == "usage_sample_label"@
    || name == "ungrouped_label"@
    || name == "grouped_label"@
    || name == "aliases_label"@
    || name == "description_label"@
    || name == "guild_only_text"@
    || name == "checks_label"@
    || name == "dm_only_text"@
    || name == "dm_and_guild_text"@
    || name == "available_text"@
    || name == "command_not_found_text"@
    || name == "individual_command_tip"@
    || name == "group_prefix"@
    || name == "strikethrough_commands_tip_in_dm"@
    || name == "strikethrough_commands_tip_in_guild"@
    || name == "embed_error_colour"@
    || name == "embed_success_colour"@
    || name == "max_levenshtein_distance"@
}

/// The help options after the option `name` with the value `v` is applied
/// to `o`, or the error that rejects the option.
pub open spec fn help_applied(o: HelpOptionsView, name: Seq<char>, v: ValueView) -> Result<
    HelpOptionsView,
    ErrorView,
> {
    if name == "lacking_role"@ {
        match text_of(v) {
            None => Err(ErrorView::ShapeMismatch(name, Shape::Text)),
            Some(t) => match behaviour_of(t) {
                Some(x) => Ok(HelpOptionsView { lacking_role: x, ..o }),
                None => Err(ErrorView::UnknownBehavior(t)),
            },
        }
    } else if name == "lacking_permissions"@ {
        match text_of(v) {
            None => Err(ErrorView::ShapeMismatch(name, Shape::Text)),
            Some(t) => match behaviour_of(t) {
                Some(x) => Ok(HelpOptionsView { lacking_permissions: x, ..o }),
                None => Err(ErrorView::UnknownBehavior(t)),
            },
        }
    } else if name == "lacking_ownership"@ {
        match text_of(v) {
            None => Err(ErrorView::ShapeMismatch(name, Shape::Text)),
            Some(t) => match behaviour_of(t) {
                Some(x) => Ok(HelpOptionsView { lacking_ownership: x, ..o }),
                None => Err(ErrorView::UnknownBehavior(t)),
            },
        }
    } else if name == "wrong_channel"@ {
        match text_of(v) {
            None => Err(ErrorView::ShapeMismatch(name, Shape::Text)),
            Some(t) => match behaviour_of(t) {
                Some(x) => Ok(HelpOptionsView { wrong_channel: x, ..o }),
                None => Err(ErrorView::UnknownBehavior(t)),
            },
        }
    } else if name == "suggestion_text"@ {
        match text_of(v) {
            Some(x) => Ok(HelpOptionsView { suggestion_text: x, ..o }),
            None => Err(ErrorView::ShapeMismatch(name, Shape::Text)),
        }
    } else if name == "no_help_available_text"@ {
        match text_of(v) {
            Some(x) => Ok(HelpOptionsView { no_help_available_text: x, ..o }),
            None => Err(ErrorView::ShapeMismatch(name, Shape::Text)),
        }
    } else if name == "usage_label"@ {
        match text_of(v) {
            Some(x) => Ok(HelpOptionsView { usage_label: x, ..o }),
            None => Err(ErrorView::ShapeMismatch(name, Shape::Text)),
        }
    } else if name == "usage_sample_label"@ {
        match text_of(v) {
            Some(x) => Ok(HelpOptionsView { usage_sample_label: x, ..o }),
            None => Err(ErrorView::ShapeMismatch(name, Shape::Text)),
        }
    } else if name == "ungrouped_label"@ {
        match text_of(v) {
            Some(x) => Ok(HelpOptionsView { ungrouped_label: x, ..o }),
            None => Err(ErrorView::ShapeMismatch(name, Shape::Text)),
        }
    } else if name == "grouped_label"@ {
        match text_of(v) {
            Some(x) => Ok(HelpOptionsView { grouped_label: x, ..o }),
            None => Err(ErrorView::ShapeMismatch(name, Shape::Text)),
        }
    } else if name == "aliases_label"@ {
        match text_of(v) {
            Some(x) => Ok(HelpOptionsView { aliases_label: x, ..o }),
            None => Err(ErrorView::ShapeMismatch(name, Shape::Text)),
        }
    } else if name == "description_label"@ {
        match text_of(v) {
            Some(x) => Ok(HelpOptionsView { description_label: x, ..o }),
            None => Err(ErrorView::ShapeMismatch(name, Shape::Text)),
        }
    } else if name == "guild_only_text"@ {
        match text_of(v) {
            Some(x) => Ok(HelpOptionsView { guild_only_text: x, ..o }),
            None => Err(ErrorView::ShapeMismatch(name, Shape::Text)),
        }
    } else if name == "checks_label"@ {
        match text_of(v) {
            Some(x) => Ok(HelpOptionsView { checks_label: x, ..o }),
            None => Err(ErrorView::ShapeMismatch(name, Shape::Text)),
        }
    } else if name == "dm_only_text"@ {
        match text_of(v) {
            Some(x) => Ok(HelpOptionsView { dm_only_text: x, ..o }),
            None => Err(ErrorView::ShapeMismatch(name, Shape::Text)),
        }
    } else if name == "dm_and_guild_text"@ {
        match text_of(v) {
            Some(x) => Ok(HelpOptionsView { dm_and_guild_text: x, ..o }),
            None => Err(ErrorView::ShapeMismatch(name, Shape::Text)),
        }
    } else if name == "available_text"@ {
        match text_of(v) {
            Some(x) => Ok(HelpOptionsView { available_text: x, ..o }),
            None => Err(ErrorView::ShapeMismatch(name, Shape::Text)),
        }
    } else if name == "command_not_found_text"@ {
        match text_of(v) {
            Some(x) => Ok(HelpOptionsView { command_not_found_text: x, ..o }),
            None => Err(ErrorView::ShapeMismatch(name, Shape::Text)),
        }
    } else if name == "individual_command_tip"@ {
        match text_of(v) {
            Some(x) => Ok(HelpOptionsView { individual_command_tip: x, ..o }),
            None => Err(ErrorView::ShapeMismatch(name, Shape::Text)),
        }
    } else if name == "group_prefix"@ {
        match text_of(v) {
            Some(x) => Ok(HelpOptionsView { group_prefix: x, ..o }),
            None => Err(ErrorView::ShapeMismatch(name, Shape::Text)),
        }
    } else if name == "strikethrough_commands_tip_in_dm"@ {
        match v {
            ValueView::Flag => Ok(HelpOptionsView { strikethrough_commands_tip_in_dm: Some(Seq::empty()), ..o }),
            _ => match text_of(v) {
                Some(x) => Ok(HelpOptionsView { strikethrough_commands_tip_in_dm: Some(x), ..o }),
                None => Err(ErrorView::ShapeMismatch(name, Shape::Text)),
            },
        }
    } else if name == "strikethrough_commands_tip_in_guild"@ {
        match v {
            ValueView::Flag => Ok(HelpOptionsView { strikethrough_commands_tip_in_guild: Some(Seq::empty()), ..o }),
            _ => match text_of(v) {
                Some(x) => Ok(HelpOptionsView { strikethrough_commands_tip_in_guild: Some(x), ..o }),
                None => Err(ErrorView::ShapeMismatch(name, Shape::Text)),
            },
        }
    } else if name == "embed_error_colour"@ {
        match ident_of(v) {
            Some(x) => Ok(HelpOptionsView { embed_error_colour: x, ..o }),
            None => Err(ErrorView::ShapeMismatch(name, Shape::Ident)),
        }
    } else if name == "embed_success_colour"@ {
        match ident_of(v) {
            Some(x) => Ok(HelpOptionsView { embed_success_colour: x, ..o }),
            None => Err(ErrorView::ShapeMismatch(name, Shape::Ident)),
        }
    } else if name == "max_levenshtein_distance"@ {
        match number_of(v) {
            Some(x) => Ok(HelpOptionsView { max_levenshtein_distance: x, ..o }),
            None => Err(ErrorView::ShapeMismatch(name, Shape::Number)),
        }
    } else {
        Err(ErrorView::UnknownOption(name))
    }
}

/// The help options after each annotation of `anns` is applied in turn,
/// starting from `o`, or the first error.
pub open spec fn help_applied_all(o: HelpOptionsView, anns: Seq<Annotation>) -> Result<HelpOptionsView, ErrorView>
    decreases anns.len(),
{
    if anns.len() == 0 {
        Ok(o)
    } else {
        match help_applied_all(o, anns.drop_last()) {
            Err(e) => Err(e),
            Ok(p) => help_applied(p, anns.last().name@, anns.last().value@),
        }
    }
}

impl HelpOptions {
    /// The record before any option is applied.
    pub fn new() -> (r: HelpOptions)
        ensures
            r@ == help_defaults(),
    {
        let r = HelpOptions {
            suggestion_text: copy_text("Did you mean `{}`?"),
            no_help_available_text: copy_text("**Error**: No help available."),
            usage_label: copy_text("Usage"),
            usage_sample_label: copy_text("Sample usage"),
            ungrouped_label: copy_text("Ungrouped"),
            grouped_label: copy_text("Group"),
            aliases_label: copy_text("Aliases"),
            description_label: copy_text("Description"),
            guild_only_text: copy_text("Only in guilds"),
            checks_label: copy_text("Checks"),
            dm_only_text: copy_text("Only in DM"),
            dm_and_guild_text: copy_text("In DM and guilds"),
            available_text: copy_text("Available"),
            command_not_found_text: copy_text("**Error**: Command `{}` not found."),
            individual_command_tip: copy_text("To get help with an individual command, pass its name as an argument to this command."),
            group_prefix: copy_text("Prefix"),
            strikethrough_commands_tip_in_dm: Some(String::new()),
            strikethrough_commands_tip_in_guild: Some(String::new()),
            lacking_role: HelpBehaviour::Strike,
            lacking_permissions: HelpBehaviour::Strike,
            lacking_ownership: HelpBehaviour::Hide,
            wrong_channel: HelpBehaviour::Strike,
            embed_error_colour: copy_text("DARK_RED"),
            embed_success_colour: copy_text("ROSEWATER"),
            max_levenshtein_distance: 0,
        };
        r
    }

    /// A copy of the record.
    pub fn copy(&self) -> (r: HelpOptions)
        ensures
            r@ == self@,
    {
        HelpOptions {
            suggestion_text: copy_text(self.suggestion_text.as_str()),
            no_help_available_text: copy_text(self.no_help_available_text.as_str()),
            usage_label: copy_text(self.usage_label.as_str()),
            usage_sample_label: copy_text(self.usage_sample_label.as_str()),
            ungrouped_label: copy_text(self.ungrouped_label.as_str()),
            grouped_label: copy_text(self.grouped_label.as_str()),
            aliases_label: copy_text(self.aliases_label.as_str()),
            description_label: copy_text(self.description_label.as_str()),
            guild_only_text: copy_text(self.guild_only_text.as_str()),
            checks_label: copy_text(self.checks_label.as_str()),
            dm_only_text: copy_text(self.dm_only_text.as_str()),
            dm_and_guild_text: copy_text(self.dm_and_guild_text.as_str()),
            available_text: copy_text(self.available_text.as_str()),
            command_not_found_text: copy_text(self.command_not_found_text.as_str()),
            individual_command_tip: copy_text(self.individual_command_tip.as_str()),
            group_prefix: copy_text(self.group_prefix.as_str()),
            strikethrough_commands_tip_in_dm: copy_opt_text(&self.strikethrough_commands_tip_in_dm),
            strikethrough_commands_tip_in_guild: copy_opt_text(&self.strikethrough_commands_tip_in_guild),
            lacking_role: self.lacking_role,
            lacking_permissions: self.lacking_permissions,
            lacking_ownership: self.lacking_ownership,
            wrong_channel: self.wrong_channel,
            embed_error_colour: copy_text(self.embed_error_colour.as_str()),
            embed_success_colour: copy_text(self.embed_success_colour.as_str()),
            max_levenshtein_distance: self.max_levenshtein_distance,
        }
    }

    /// Applies one option. An option that is rejected leaves the record as it was.
    pub fn apply(&mut self, name: &str, value: &Value) -> (r: Result<(), Error>)
        ensures
            match r {
                Ok(_) => help_applied(old(self)@, name@, value@) == Ok::<HelpOptionsView, ErrorView>(
                    final(self)@,
                ),
                Err(e) => {
                    &&& help_applied(old(self)@, name@, value@) == Err::<HelpOptionsView, ErrorView>(
                        e@,
                    )
                    &&& final(self)@ == old(self)@
                },
            },
    {
        if same_text(name, "lacking_role") {
            match value.to_text(name) {
                Err(e) => Err(e),
                Ok(t) => match parse_behaviour(t.as_str()) {
                    Ok(x) => {
                        self.lacking_role = x;
                        Ok(())
                    },
                    Err(e) => Err(e),
                },
            }
        } else if same_text(name, "lacking_permissions") {
            match value.to_text(name) {
                Err(e) => Err(e),
                Ok(t) => match parse_behaviour(t.as_str()) {
                    Ok(x) => {
                        self.lacking_permissions = x;
                        Ok(())
                    },
                    Err(e) => Err(e),
                },
            }
        } else if same_text(name, "lacking_ownership") {
            match value.to_text(name) {
                Err(e) => Err(e),
                Ok(t) => match parse_behaviour(t.as_str()) {
                    Ok(x) => {
                        self.lacking_ownership = x;
                        Ok(())
                    },
                    Err(e) => Err(e),
                },
            }
        } else if same_text(name, "wrong_channel") {
            match value.to_text(name) {
                Err(e) => Err(e),
                Ok(t) => match parse_behaviour(t.as_str()) {
                    Ok(x) => {
                        self.wrong_channel = x;
                        Ok(())
                    },
                    Err(e) => Err(e),
                },
            }
        } else if same_text(name, "suggestion_text") {
            match value.to_text(name) {
                Ok(x) => {
                    self.suggestion_text = x;
                    Ok(())
                },
                Err(e) => Err(e),
            }
        } else if same_text(name, "no_help_available_text") {
            match value.to_text(name) {
                Ok(x) => {
                    self.no_help_available_text = x;
                    Ok(())
                },
                Err(e) => Err(e),
            }
        } else if same_text(name, "usage_label") {
            match value.to_text(name) {
                Ok(x) => {
                    self.usage_label = x;
                    Ok(())
                },
                Err(e) => Err(e),
            }
        } else if same_text(name, "usage_sample_label") {
            match value.to_text(name) {
                Ok(x) => {
                    self.usage_sample_label = x;
                    Ok(())
                },
                Err(e) => Err(e),
            }
        } else if same_text(name, "ungrouped_label") {
            match value.to_text(name) {
                Ok(x) => {
                    self.ungrouped_label = x;
                    Ok(())
                },
                Err(e) => Err(e),
            }
        } else if same_text(name, "grouped_label") {
            match value.to_text(name) {
                Ok(x) => {
                    self.grouped_label = x;
                    Ok(())
                },
                Err(e) => Err(e),
            }
        } else if same_text(name, "aliases_label") {
            match value.to_text(name) {
                Ok(x) => {
                    self.aliases_label = x;
                    Ok(())
                },
                Err(e) => Err(e),
            }
        } else if same_text(name, "description_label") {
            match value.to_text(name) {
                Ok(x) => {
                    self.description_label = x;
                    Ok(())
                },
                Err(e) => Err(e),
            }
        } else if same_text(name, "guild_only_text") {
            match value.to_text(name) {
                Ok(x) => {
                    self.guild_only_text = x;
                    Ok(())
                },
                Err(e) => Err(e),
            }
        } else if same_text(name, "checks_label") {
            match value.to_text(name) {
                Ok(x) => {
                    self.checks_label = x;
                    Ok(())
                },
                Err(e) => Err(e),
            }
        } else if same_text(name, "dm_only_text") {
            match value.to_text(name) {
                Ok(x) => {
                    self.dm_only_text = x;
                    Ok(())
                },
                Err(e) => Err(e),
            }
        } else if same_text(name, "dm_and_guild_text") {
            match value.to_text(name) {
                Ok(x) => {
                    self.dm_and_guild_text = x;
                    Ok(())
                },
                Err(e) => Err(e),
            }
        } else if same_text(name, "available_text") {
            match value.to_text(name) {
                Ok(x) => {
                    self.available_text = x;
                    Ok(())
                },
                Err(e) => Err(e),
            }
        } else if same_text(name, "command_not_found_text") {
            match value.to_text(name) {
                Ok(x) => {
                    self.command_not_found_text = x;
                    Ok(())
                },
                Err(e) => Err(e),
            }
        } else if same_text(name, "individual_command_tip") {
            match value.to_text(name) {
                Ok(x) => {
                    self.individual_command_tip = x;
                    Ok(())
                },
                Err(e) => Err(e),
            }
        } else if same_text(name, "group_prefix") {
            match value.to_text(name) {
                Ok(x) => {
                    self.group_prefix = x;
                    Ok(())
                },
                Err(e) => Err(e),
            }
        } else if same_text(name, "strikethrough_commands_tip_in_dm") {
            match value {
                Value::Flag => {
                    self.strikethrough_commands_tip_in_dm = Some(String::new());
                    Ok(())
                },
                _ => match value.to_text(name) {
                    Ok(x) => {
                        self.strikethrough_commands_tip_in_dm = Some(x);
                        Ok(())
                    },
                    Err(e) => Err(e),
                },
            }
        } else if same_text(name, "strikethrough_commands_tip_in_guild") {
            match value {
                Value::Flag => {
                    self.strikethrough_commands_tip_in_guild = Some(String::new());
                    Ok(())
                },
                _ => match value.to_text(name) {
                    Ok(x) => {
                        self.strikethrough_commands_tip_in_guild = Some(x);
                        Ok(())
                    },
                    Err(e) => Err(e),
                },
            }
        } else if same_text(name, "embed_error_colour") {
            match value.to_ident(name) {
                Ok(x) => {
                    self.embed_error_colour = x;
                    Ok(())
                },
                Err(e) => Err(e),
            }
        } else if same_text(name, "embed_success_colour") {
            match value.to_ident(name) {
                Ok(x) => {
                    self.embed_success_colour = x;
                    Ok(())
                },
                Err(e) => Err(e),
            }
        } else if same_text(name, "max_levenshtein_distance") {
            match value.to_number(name) {
                Ok(x) => {
                    self.max_levenshtein_distance = x;
                    Ok(())
                },
                Err(e) => Err(e),
            }
        } else {
            Err(Error::UnknownOption(copy_text(name)))
        }
    }

    /// Applies the annotations in their order and stops at the first that is rejected.
    pub fn apply_all(&mut self, anns: &Vec<Annotation>) -> (r: Result<(), Error>)
        ensures
            match r {
                Ok(_) => help_applied_all(old(self)@, anns@) == Ok::<HelpOptionsView, ErrorView>(
                    final(self)@,
                ),
                Err(e) => help_applied_all(old(self)@, anns@) == Err::<HelpOptionsView, ErrorView>(
                    e@,
                ),
            },
    {
        let ghost start = self@;
        let mut i: usize = 0;
        while i < anns.len()
            invariant
                i <= anns.len(),
                start == old(self)@,
                help_applied_all(start, anns@.take(i as int)) == Ok::<HelpOptionsView, ErrorView>(
                    self@,
                ),
            decreases anns.len() - i,
        {
            proof {
                assert(anns@.take(i + 1).drop_last() =~= anns@.take(i as int));
                assert(anns@.take(i + 1).last() == anns@[i as int]);
            }
            match self.apply(anns[i].name.as_str(), &anns[i].value) {
                Ok(_) => {},
                Err(e) => {
                    proof {
                        assert(anns@.take(i + 1) + anns@.skip(i + 1) =~= anns@);
                        lemma_help_error_stays(start, anns@.take(i + 1), anns@.skip(i + 1));
                    }
                    return Err(e);
                },
            }
            i += 1;
        }
        assert(anns@.take(i as int) =~= anns@);
        Ok(())
    }
}

/// Once an annotation is rejected, the annotations after it change nothing.
pub proof fn lemma_help_error_stays(o: HelpOptionsView, a: Seq<Annotation>, b: Seq<Annotation>)
    requires
        help_applied_all(o, a) is Err,
    ensures
        help_applied_all(o, a + b) == help_applied_all(o, a),
    decreases b.len(),
{
    if b.len() == 0 {
        assert(a + b =~= a);
    } else {
        lemma_help_error_stays(o, a, b.drop_last());
        assert((a + b).drop_last() =~= a + b.drop_last());
    }
}

/// A name outside the schema is rejected as an unknown option, under that very name,
/// whatever its value and whatever was applied before.
pub proof fn lemma_help_unknown_option(o: HelpOptionsView, name: Seq<char>, v: ValueView)
    requires
        !is_help_option(name),
    ensures
        help_applied(o, name, v) == Err::<HelpOptionsView, ErrorView>(
            ErrorView::UnknownOption(name),
        ),
{
}

/// A list of annotations whose last name is outside the schema, and whose other
/// annotations are accepted, is rejected for that name.
pub proof fn lemma_help_unknown_option_in_list(o: HelpOptionsView, anns: Seq<Annotation>)
    requires
        anns.len() > 0,
        help_applied_all(o, anns.drop_last()) is Ok,
        !is_help_option(anns.last().name@),
    ensures
        help_applied_all(o, anns) == Err::<HelpOptionsView, ErrorView>(
            ErrorView::UnknownOption(anns.last().name@),
        ),
{
}

/// A tip as it is emitted: an empty tip becomes the generated sentence for
/// `context`, or none where no facet strikes; any other tip stays.
pub open spec fn finished_tip(
    o: HelpOptionsView,
    tip: Option<Seq<char>>,
    context: Seq<char>,
) -> Option<Seq<char>> {
    match tip {
        Some(t) => if t.len() == 0 {
            strike_text(o.lacking_permissions, o.lacking_role, o.wrong_channel, context)
        } else {
            tip
        },
        None => None,
    }
}

/// The help options as they are emitted: both tips finished, the rest as it was.
pub open spec fn help_finished(o: HelpOptionsView) -> HelpOptionsView {
    HelpOptionsView {
        strikethrough_commands_tip_in_dm: finished_tip(
            o,
            o.strikethrough_commands_tip_in_dm,
            "direct messages"@,
        ),
        strikethrough_commands_tip_in_guild: finished_tip(
            o,
            o.strikethrough_commands_tip_in_guild,
            "guild messages"@,
        ),
        ..o
    }
}

/// Whether a tip asks for the generated sentence.
pub fn asks_for_text(tip: &Option<String>) -> (r: bool)
    ensures
        r == (opt_text(*tip) is Some && opt_text(*tip)->Some_0.len() == 0),
{
    match tip {
        Some(t) => t.as_str().unicode_len() == 0,
        None => false,
    }
}

impl HelpOptions {
    /// Replaces each tip that asks for it by the generated sentence.
    pub fn finish(&mut self)
        ensures
            final(self)@ == help_finished(old(self)@),
    {
        if asks_for_text(&self.strikethrough_commands_tip_in_dm) {
            self.strikethrough_commands_tip_in_dm =
            produce_strike_text(
                self.lacking_permissions,
                self.lacking_role,
                self.wrong_channel,
                "direct messages",
            );
        }
        if asks_for_text(&self.strikethrough_commands_tip_in_guild) {
            self.strikethrough_commands_tip_in_guild =
            produce_strike_text(
                self.lacking_permissions,
                self.lacking_role,
                self.wrong_channel,
                "guild messages",
            );
        }
    }
}

/// Where no facet strikes, a tip that asks for the generated sentence is left unset.
pub proof fn lemma_no_strike_no_text(o: HelpOptionsView, context: Seq<char>)
    requires
        o.lacking_permissions != HelpBehaviour::Strike,
        o.lacking_role != HelpBehaviour::Strike,
        o.wrong_channel != HelpBehaviour::Strike,
    ensures
        finished_tip(o, Some(Seq::empty()), context) is None,
{
}

/// What a help declaration emits: the options record and the record that pairs it
/// with the function.
#[derive(Clone, Debug, PartialEq, Eq)]
pub struct HelpRecord {
    /// The symbol of the options record.
    pub options_symbol: String,
    /// The symbol of the help record.
    pub command_symbol: String,
    /// The options, with both tips finished.
    pub options: HelpOptions,
    /// The function that writes the listing.
    pub function: String,
    /// The function's conditional-compilation markers, for both records.
    pub cfgs: Vec<String>,
}

/// The mathematical value of a [`HelpRecord`].
pub struct HelpRecordView {
    pub options_symbol: Seq<char>,
    pub command_symbol: Seq<char>,
    pub options: HelpOptionsView,
    pub function: Seq<char>,
    pub cfgs: Seq<Seq<char>>,
}

impl View for HelpRecord {
    type V = HelpRecordView;

    open spec fn view(&self) -> HelpRecordView {
        HelpRecordView {
            options_symbol: self.options_symbol@,
            command_symbol: self.command_symbol@,
            options: self.options@,
            function: self.function@,
            cfgs: texts(self.cfgs@),
        }
    }
}

/// What a help declaration comes to: the error of the first annotation that is
/// rejected, else that of the function's checks, else the records, named after
/// the function, with the finished options.
pub open spec fn help_outcome(fun: FunctionDeclView, anns: Seq<Annotation>) -> Result<
    HelpRecordView,
    ErrorView,
> {
    match help_applied_all(help_defaults(), anns) {
        Err(e) => Err(e),
        Ok(o) => match validated(fun, true) {
            Err(e) => Err(e),
            Ok(_) => Ok(
                HelpRecordView {
                    options_symbol: symbol_of(fun.name, RecordKind::HelpOptions),
                    command_symbol: symbol_of(fun.name, RecordKind::Help),
                    options: help_finished(o),
                    function: fun.name,
                    cfgs: fun.cfgs,
                },
            ),
        },
    }
}

/// Compiles a help declaration: reads the annotations into the options, writes
/// the tips that were asked for, checks the function, and derives the records.
/// Nothing is emitted on an error.
pub fn help(fun: &FunctionDecl, annotations: &Vec<Annotation>) -> (r: Result<HelpRecord, Error>)
    ensures
        match r {
            Ok(rec) => help_outcome(fun@, annotations@) == Ok::<HelpRecordView, ErrorView>(rec@),
            Err(e) => help_outcome(fun@, annotations@) == Err::<HelpRecordView, ErrorView>(e@),
        },
{
    let mut options = HelpOptions::new();
    match options.apply_all(annotations) {
        Err(e) => {
            return Err(e);
        },
        Ok(_) => {},
    }
    options.finish();
    match validate(fun, true) {
        Err(e) => {
            return Err(e);
        },
        Ok(_) => {},
    }
    Ok(
        HelpRecord {
            options_symbol: symbol(fun.name.as_str(), RecordKind::HelpOptions),
            command_symbol: symbol(fun.name.as_str(), RecordKind::Help),
            options,
            function: copy_text(fun.name.as_str()),
            cfgs: copy_texts(&fun.cfgs),
        },
    )
}

/// A help function of the wrong return type gives no record; where its
/// annotations and its parameters are in order, the error is that of the return
/// type.
pub proof fn lemma_help_wrong_return_type(fun: FunctionDeclView, anns: Seq<Annotation>)
    requires
        !return_ok(fun.return_type),
    ensures
        help_outcome(fun, anns) is Err,
        help_applied_all(help_defaults(), anns) is Ok && signature_ok(fun.params, true)
            ==> help_outcome(fun, anns) == Err::<HelpRecordView, ErrorView>(
            ErrorView::ReturnTypeMismatch,
        ),
{
}

} // verus!
