use vstd::prelude::*;
use crate::text::same_text;

verus! {

/// Where a command may run.
#[derive(Clone, Copy, Debug, PartialEq, Eq, Structural)]
pub enum OnlyIn {
    /// In direct messages only.
    Dm,
    /// In guilds only.
    Guild,
    /// Anywhere.
    Anywhere,
}

/// The restriction that a text names: `guilds` or `dms`.
pub open spec fn context_of(s: Seq<char>) -> Option<OnlyIn> {
    if s == "guilds"@ {
        Some(OnlyIn::Guild)
    } else if s == "dms"@ {
        Some(OnlyIn::Dm)
    } else {
        None
    }
}

/// Reads a restriction from its name.
pub fn parse_context(s: &str) -> (r: Option<OnlyIn>)
    ensures
        r == context_of(s@),
{
    if same_text(s, "guilds") {
        Some(OnlyIn::Guild)
    } else if same_text(s, "dms") {
        Some(OnlyIn::Dm)
    } else {
        None
    }
}

} // verus!
