use vstd::prelude::*;
use vstd::string::StringExecFns;
use crate::error::{Error, ErrorView};
use crate::text::{copy_text, same_text};

verus! {

/// How the help listing shows a command that the reader cannot use.
#[derive(Clone, Copy, Debug, PartialEq, Eq, Structural)]
pub enum HelpBehaviour {
    /// Struck through.
    Strike,
    /// Left out.
    Hide,
    /// Shown as any other.
    Nothing,
}

/// The behaviour that a text names, if it names one.
pub open spec fn behaviour_of(s: Seq<char>) -> Option<HelpBehaviour> {
    if s == "strike"@ {
        Some(HelpBehaviour::Strike)
    } else if s == "hide"@ {
        Some(HelpBehaviour::Hide)
    } else if s == "nothing"@ {
        Some(HelpBehaviour::Nothing)
    } else {
        None
    }
}

/// Reads a behaviour from its name.
pub fn parse_behaviour(s: &str) -> (r: Result<HelpBehaviour, Error>)
    ensures
        match r {
            Ok(b) => behaviour_of(s@) == Some(b),
            Err(e) => behaviour_of(s@) is None && e@ == ErrorView::UnknownBehavior(s@),
        },
{
    if same_text(s, "strike") {
        Ok(HelpBehaviour::Strike)
    } else if same_text(s, "hide") {
        Ok(HelpBehaviour::Hide)
    } else if same_text(s, "nothing") {
        Ok(HelpBehaviour::Nothing)
    } else {
        Err(Error::UnknownBehavior(copy_text(s)))
    }
}

/// The clause on permissions: present when commands are struck for want of them.
pub open spec fn permissions_clause(lacking_permissions: HelpBehaviour) -> Seq<char> {
    if lacking_permissions == HelpBehaviour::Strike {
        " require permissions"@
    } else {
        Seq::empty()
    }
}

/// The clause on roles, after a comma where the clause on permissions stands before it.
pub open spec fn role_clause(
    lacking_permissions: HelpBehaviour,
    lacking_role: HelpBehaviour,
) -> Seq<char> {
    if lacking_role != HelpBehaviour::Strike {
        Seq::empty()
    } else if lacking_permissions == HelpBehaviour::Strike {
        ", require a specific role"@
    } else {
        " require a specific role"@
    }
}

/// The clause on channels, which closes the list: after a comma and `or` where
/// another clause stands before it.
pub open spec fn channel_clause(
    lacking_permissions: HelpBehaviour,
    lacking_role: HelpBehaviour,
    wrong_channel: HelpBehaviour,
    context: Seq<char>,
) -> Seq<char> {
    if wrong_channel != HelpBehaviour::Strike {
        Seq::empty()
    } else if lacking_permissions == HelpBehaviour::Strike || lacking_role
        == HelpBehaviour::Strike {
        ", or are limited to "@ + context
    } else {
        " are limited to "@ + context
    }
}

/// The sentence that explains struck commands in the context `context`
/// (`direct messages` or `guild messages`): the opening, a clause for each of the
/// three facets that strikes, in the order permissions, role, channel, and a full
/// stop. There is none where no facet strikes.
pub open spec fn strike_text(
    lacking_permissions: HelpBehaviour,
    lacking_role: HelpBehaviour,
    wrong_channel: HelpBehaviour,
    context: Seq<char>,
) -> Option<Seq<char>> {
    if lacking_permissions != HelpBehaviour::Strike && lacking_role != HelpBehaviour::Strike
        && wrong_channel != HelpBehaviour::Strike {
        None
    } else {
        Some(
            "~~`Strikethrough commands`~~ are unavailable because they"@ + permissions_clause(
                lacking_permissions,
            ) + role_clause(lacking_permissions, lacking_role) + channel_clause(
                lacking_permissions,
                lacking_role,
                wrong_channel,
                context,
            ) + "."@,
        )
    }
}

/// Writes the sentence that explains struck commands.
pub fn produce_strike_text(
    lacking_permissions: HelpBehaviour,
    lacking_role: HelpBehaviour,
    wrong_channel: HelpBehaviour,
    context: &str,
) -> (r: Option<String>)
    ensures
        match r {
            Some(s) => strike_text(lacking_permissions, lacking_role, wrong_channel, context@)
                == Some(s@),
            None => strike_text(lacking_permissions, lacking_role, wrong_channel, context@)
                is None,
        },
{
    let mut text = copy_text("~~`Strikethrough commands`~~ are unavailable because they");
    let ghost opening = text@;
    let mut any = false;
    if lacking_permissions == HelpBehaviour::Strike {
        any = true;
        text.append(" require permissions");
    }
    assert(text@ =~= opening + permissions_clause(lacking_permissions));
    let ghost first = text@;
    if lacking_role == HelpBehaviour::Strike {
        if any {
            text.append(", require a specific role");
        } else {
            text.append(" require a specific role");
        }
        any = true;
    }
    assert(text@ =~= first + role_clause(lacking_permissions, lacking_role));
    let ghost second = text@;
    if wrong_channel == HelpBehaviour::Strike {
        if any {
            text.append(", or are limited to ");
        } else {
            text.append(" are limited to ");
        }
        text.append(context);
        any = true;
    }
    assert(text@ =~= second + channel_clause(
        lacking_permissions,
        lacking_role,
        wrong_channel,
        context@,
    ));
    text.append(".");
    if any {
        Some(text)
    } else {
        None
    }
}

} // verus!
