//! Well-formedness of local-chain identities.
//!
//! The orchestrator accepts an address as a well-formed local identity when it
//! is between 1 and 90 characters long and consists only of lowercase ASCII
//! letters and digits, the shape of the local chain's account identifiers.

use vstd::prelude::*;
use vstd::string::*;

verus! {

/// A character that may occur in a local-chain identity.
pub open spec fn addr_char(c: char) -> bool {
    (97 <= c as u32 && c as u32 <= 122) || (48 <= c as u32 && c as u32 <= 57)
}

/// A well-formed local-chain identity.
pub open spec fn valid_addr(s: Seq<char>) -> bool {
    &&& 1 <= s.len() <= 90
    &&& forall|i: int| 0 <= i < s.len() ==> addr_char(#[trigger] s[i])
}

/// Decides whether `s` is a well-formed local-chain identity.
pub fn check_addr(s: &String) -> (b: bool)
    ensures
        b == valid_addr(s@),
{
    let n = s.as_str().unicode_len();
    if n < 1 || n > 90 {
        return false;
    }
    let mut i: usize = 0;
    while i < n
        invariant
            i <= n,
            n == s@.len(),
            1 <= n <= 90,
            forall|j: int| 0 <= j < i ==> addr_char(#[trigger] s@[j]),
        decreases n - i,
    {
        let c = s.as_str().get_char(i);
        let v = c as u32;
        if !((97 <= v && v <= 122) || (48 <= v && v <= 57)) {
            assert(!addr_char(s@[i as int]));
            return false;
        }
        i += 1;
    }
    true
}

} // verus!
