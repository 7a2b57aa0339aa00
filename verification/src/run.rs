use crate::decimal::{push_decimal, spec_decimal};
use vstd::prelude::*;

verus! {

/// Where one puzzle input is downloaded from.
pub open spec fn spec_input_url(y: nat, d: nat) -> Seq<char> {
    "https://adventofcode.com/"@ + spec_decimal(y) + "/day/"@ + spec_decimal(d) + "/input"@
}

/// The download URL for the input of one release slot.
pub fn input_url(year: u32, day: u32) -> (r: String)
    ensures
        r@ == spec_input_url(year as nat, day as nat),
{
    let mut s = String::from_str("https://adventofcode.com/");
    push_decimal(&mut s, year as u64);
    s.append("/day/");
    push_decimal(&mut s, day as u64);
    s.append("/input");
    proof {
        assert(s@ =~= spec_input_url(year as nat, day as nat));
    }
    s
}

/// Whether the characters start with the cookie name and equals sign.
pub open spec fn has_session_prefix(s: Seq<char>) -> bool {
    s.len() >= 8 && s.subrange(0, 8) == "session="@
}

/// A token normalised for use as a cookie: left alone when it already
/// starts with "session=", prefixed with it otherwise.
pub open spec fn spec_prefix_session_token(t: Seq<char>) -> Seq<char> {
    if has_session_prefix(t) {
        t
    } else {
        "session="@ + t
    }
}

/// Makes a stored token start with the "session=" cookie prefix,
/// adding it when missing.
pub fn prefix_session_token(token: String) -> (r: String)
    ensures
        r@ == spec_prefix_session_token(token@),
{
    proof {
        reveal_strlit("session=");
    }
    let prefix = "session=";
    let n = token.as_str().unicode_len();
    if n >= 8 {
        let mut i: usize = 0;
        let mut all_match = true;
        while i < 8
            invariant
                i <= 8,
                n == token@.len(),
                n >= 8,
                prefix@ == "session="@,
                prefix@.len() == 8,
                all_match <==> (forall|j: int| 0 <= j < i ==> token@[j] == prefix@[j]),
            decreases 8 - i,
        {
            if token.as_str().get_char(i) != prefix.get_char(i) {
                all_match = false;
            }
            i += 1;
        }
        if all_match {
            proof {
                assert(token@.subrange(0, 8) =~= "session="@);
            }
            return token;
        }
    }
    proof {
        if has_session_prefix(token@) {
            let j = choose|j: int|
                0 <= j < 8 && token@[j] != "session="@[j];
            assert(token@.subrange(0, 8)[j] == token@[j]);
        }
    }
    let mut s = String::from_str("session=");
    s.append(token.as_str());
    s
}

} // verus!
