//! The ownership and borrowing showcase: a heap-allocated, growable
//! string mutated in place through a temporary exclusive borrow.

use vstd::prelude::*;
use vstd::string::StringExecFns;

verus! {

/// Appends the fixed suffix to a borrowed string. The caller lends
/// exclusive access; ownership never transfers, and on return the
/// caller's own binding holds exactly its old content followed by the
/// suffix.
pub fn borrowing(string: &mut String)
    ensures
        final(string)@ == old(string)@ + " is a Rustacean."@,
{
    string.append(" is a Rustacean.");
}

/// Builds the owned starting string, lends it to [`borrowing`], and
/// returns it: the same buffer, not a copy, now reflecting the
/// appended content.
pub fn ownership() -> (a_string: String)
    ensures
        a_string@ == "Vinicius is a Rustacean."@,
{
    let mut a_string = String::from_str("Vinicius");
    borrowing(&mut a_string);
    proof {
        reveal_strlit("Vinicius");
        reveal_strlit(" is a Rustacean.");
        reveal_strlit("Vinicius is a Rustacean.");
        assert(a_string@ =~= "Vinicius is a Rustacean."@);
    }
    a_string
}

} // verus!
