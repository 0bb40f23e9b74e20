//! The reply of the advice command.

use vstd::prelude::*;
use vstd::string::*;

verus! {

/// What `!help` says of the advice command.
pub open spec fn help_text() -> Seq<char> {
    "!advice: Some of mooney's sage advice"@
}

/// The reply to `!advice`, given what the store answered: the advice as
/// it came.
pub fn get_advice(advice: Option<String>) -> (r: Option<String>)
    ensures
        r == advice,
{
    advice
}

/// The help line of `!advice`.
pub fn help() -> (r: String)
    ensures
        r@ == help_text(),
{
    String::from_str("!advice: Some of mooney's sage advice")
}

} // verus!
