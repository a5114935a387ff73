pub mod builder;
pub mod codec;
pub mod console;
pub mod error;
pub mod registry;
pub mod session;
pub mod text;

use vstd::prelude::*;

verus! {

/// A newline-terminated form of `s`: `s` itself when it already ends in a
/// newline, otherwise `s` with one newline appended.
pub open spec fn spec_ensure_newline(s: Seq<char>) -> Seq<char> {
    if s.len() > 0 && s[s.len() - 1] == '\n' {
        s
    } else {
        s.push('\n')
    }
}

/// Appends a trailing newline to `s` unless it already ends with one.
pub fn ensure_newline(s: String) -> (r: String)
    ensures
        r@ == spec_ensure_newline(s@),
{
    proof {
        reveal_strlit("\n");
    }
    let n = s.as_str().unicode_len();
    if n > 0 && s.as_str().get_char(n - 1) == '\n' {
        s
    } else {
        let r = s.concat("\n");
        proof {
            assert(r@ =~= spec_ensure_newline(s@));
        }
        r
    }
}

} // verus!
