//! The session check: whether the live desktop-session name is on the
//! configured allow-list. The wildcard entry `any` admits every
//! session.
use vstd::prelude::*;
use crate::text::str_eq;

verus! {

/// The allow-list admits `current` when some entry equals it or is
/// the wildcard `any`.
pub open spec fn spec_session_allowed(targets: Seq<Seq<char>>, current: Seq<char>) -> bool {
    exists|i: int|
        0 <= i < targets.len() && (#[trigger] targets[i] == current || targets[i] == "any"@)
}

/// Check the live session name against the allow-list.
pub fn session_allowed(targets: &Vec<String>, current: &str) -> (r: bool)
    ensures
        r == spec_session_allowed(targets.deep_view(), current@),
{
    let n = targets.len();
    let mut i: usize = 0;
    while i < n
        invariant
            n == targets@.len(),
            i <= n,
            forall|j: int|
                0 <= j < i ==> !(#[trigger] targets.deep_view()[j] == current@
                    || targets.deep_view()[j] == "any"@),
        decreases n - i,
    {
        let entry = &targets[i];
        if str_eq(entry.as_str(), current) || str_eq(entry.as_str(), "any") {
            proof {
                assert(targets.deep_view()[i as int] == entry@);
            }
            return true;
        }
        proof {
            assert(targets.deep_view()[i as int] == entry@);
        }
        i = i + 1;
    }
    false
}

} // verus!
