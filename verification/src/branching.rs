//! The conditional branch: a compound boolean admission rule.

use vstd::prelude::*;
use vstd::string::StringExecFns;

verus! {

/// The admission rule: an age of at least 18 always passes; an age of
/// at least 16 passes only with authorization. Conjunction binds
/// tighter than disjunction, so the authorization requirement applies
/// only to the 16-to-17 path.
pub open spec fn spec_entry_allowed(age: u8, authorized: bool) -> bool {
    age >= 18 || (age >= 16 && authorized)
}

/// Evaluates the admission rule for an age and an authorization flag.
pub fn entry_allowed(age: u8, authorized: bool) -> (allowed: bool)
    ensures
        allowed == spec_entry_allowed(age, authorized),
{
    age >= 18 || age >= 16 && authorized
}

/// The message printed for each outcome of the admission rule.
pub open spec fn spec_entry_message(allowed: bool) -> Seq<char> {
    if allowed {
        "You are an adult."@
    } else {
        "You are happy."@
    }
}

/// Chooses the message for an age and an authorization flag: the adult
/// message exactly when the admission rule passes, the fallback
/// otherwise.
pub fn entry_message(age: u8, authorized: bool) -> (message: String)
    ensures
        message@ == spec_entry_message(spec_entry_allowed(age, authorized)),
{
    if entry_allowed(age, authorized) {
        String::from_str("You are an adult.")
    } else {
        String::from_str("You are happy.")
    }
}

} // verus!
