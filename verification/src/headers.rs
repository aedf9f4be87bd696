//! A plain model of an HTTP header list, and the rule deciding which
//! strings can stand as a header value on the wire.
//!
//! Header names are kept in their normalized lower-case form, as the HTTP
//! layer stores them; a lookup returns the first header of the given name.

use vstd::prelude::*;
use crate::text::str_eq;

verus! {

/// One HTTP header: a normalized (lower-case) name and its value.
pub struct Header {
    pub name: String,
    pub value: String,
}

/// The value of the first header named `name`, if any.
pub open spec fn spec_find_header(hs: Seq<Header>, name: Seq<char>) -> Option<Seq<char>>
    decreases hs.len(),
{
    if hs.len() == 0 {
        None
    } else if hs[0].name@ == name {
        Some(hs[0].value@)
    } else {
        spec_find_header(hs.subrange(1, hs.len() as int), name)
    }
}

/// Whether `c` may appear in a header value: horizontal tab, or any
/// character other than the control characters below space and delete.
pub open spec fn spec_valid_header_char(c: char) -> bool {
    c == '\t' || (c as u32 >= 32 && c as u32 != 127)
}

/// Whether the whole string is acceptable as a header value.
pub open spec fn spec_valid_header_value(s: Seq<char>) -> bool {
    forall|i: int| 0 <= i < s.len() ==> spec_valid_header_char(s[i])
}

/// Relies on `http::HeaderValue::from_str`: it accepts a string exactly
/// when every byte of its UTF-8 encoding is a horizontal tab or is at
/// least 32 and not 127. At the character level that is
/// `spec_valid_header_char`: characters up to 127 occupy one identical
/// byte, and every byte of a multi-byte character is at least 0x80.
#[verifier::external_body]
pub(crate) fn check_header_value(s: &str) -> (ok: bool)
    ensures
        ok == spec_valid_header_value(s@),
{
    http::HeaderValue::from_str(s).is_ok()
}

/// The value of the first header named `name`, cloned out of the list.
pub fn find_header(hs: &Vec<Header>, name: &str) -> (r: Option<String>)
    ensures
        match r {
            Some(v) => spec_find_header(hs@, name@) == Some(v@),
            None => spec_find_header(hs@, name@) is None,
        },
{
    let n = hs.len();
    let mut i: usize = 0;
    proof {
        assert(hs@.subrange(0, n as int) =~= hs@);
    }
    while i < n
        invariant
            n == hs@.len(),
            i <= n,
            spec_find_header(hs@.subrange(i as int, n as int), name@) == spec_find_header(
                hs@,
                name@,
            ),
        decreases n - i,
    {
        proof {
            assert(hs@.subrange(i as int, n as int)[0] == hs@[i as int]);
        }
        if str_eq(hs[i].name.as_str(), name) {
            return Some(hs[i].value.clone());
        }
        proof {
            assert(hs@.subrange(i as int, n as int).subrange(
                1,
                hs@.subrange(i as int, n as int).len() as int,
            ) =~= hs@.subrange(i + 1, n as int));
        }
        i += 1;
    }
    proof {
        assert(hs@.subrange(n as int, n as int).len() == 0);
    }
    None
}

} // verus!
