//! The command alphabet shared between process invocations and the running
//! instance: three valid actions and an explicit invalid sentinel, with the
//! wire spelling each one travels under.

use vstd::prelude::*;
use crate::strings::str_eq;

verus! {

/// A requested action. `Invalid` is the explicit invalid/unrecognized
/// sentinel: it is never a valid request, and the router reports it as a
/// parse failure instead of treating it as a no-op.
#[derive(Debug, PartialEq, Eq, Structural, Clone, Copy)]
pub enum ActionTypes {
    Invalid,
    Show,
    Hide,
    Toggle,
}

impl ActionTypes {
    /// The wire spelling of each command.
    pub open spec fn spec_str(self) -> Seq<char> {
        match self {
            ActionTypes::Invalid => "NONE"@,
            ActionTypes::Show => "SHOW"@,
            ActionTypes::Hide => "HIDE"@,
            ActionTypes::Toggle => "TOGGLE"@,
        }
    }

    /// How a wire payload decodes: anything but the three action spellings
    /// is the invalid sentinel.
    pub open spec fn spec_parse(s: Seq<char>) -> ActionTypes {
        if s == "SHOW"@ {
            ActionTypes::Show
        } else if s == "HIDE"@ {
            ActionTypes::Hide
        } else if s == "TOGGLE"@ {
            ActionTypes::Toggle
        } else {
            ActionTypes::Invalid
        }
    }

    pub fn as_str(&self) -> (r: &'static str)
        ensures
            r@ == self.spec_str(),
    {
        match self {
            ActionTypes::Invalid => "NONE",
            ActionTypes::Show => "SHOW",
            ActionTypes::Hide => "HIDE",
            ActionTypes::Toggle => "TOGGLE",
        }
    }

    pub fn parse(value: &str) -> (r: Self)
        ensures
            r == Self::spec_parse(value@),
    {
        if str_eq(value, "SHOW") {
            ActionTypes::Show
        } else if str_eq(value, "HIDE") {
            ActionTypes::Hide
        } else if str_eq(value, "TOGGLE") {
            ActionTypes::Toggle
        } else {
            ActionTypes::Invalid
        }
    }
}

/// Decoding a command's own wire spelling gives the command back, for every
/// command including the invalid sentinel.
pub proof fn lemma_parse_as_str_roundtrip(a: ActionTypes)
    ensures
        ActionTypes::spec_parse(a.spec_str()) == a,
{
    reveal_strlit("NONE");
    reveal_strlit("SHOW");
    reveal_strlit("HIDE");
    reveal_strlit("TOGGLE");
    assert("NONE"@[0] == 'N' && "SHOW"@[0] == 'S' && "HIDE"@[0] == 'H');
    assert("NONE"@.len() == 4 && "TOGGLE"@.len() == 6);
}

} // verus!
