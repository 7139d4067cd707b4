//! Name handling: snake-casing of signal names and tests on raw C type
//! strings.

use vstd::prelude::*;
use vstd::string::StrSliceExecFns;
use vstd::string::StringExecFns;

verus! {

/// Relies on String::push: appends the given character to the end of the
/// string.
pub assume_specification[ String::push ](s: &mut String, ch: char)
    ensures
        final(s)@ == old(s)@.push(ch),
;

/// Character-wise equality of two strings.
pub fn str_eq(a: &str, b: &str) -> (r: bool)
    ensures
        r == (a@ == b@),
{
    let a_len = a.unicode_len();
    let b_len = b.unicode_len();
    if a_len != b_len {
        return false;
    }
    let mut i: usize = 0;
    while i < a_len
        invariant
            a_len == a@.len(),
            b_len == b@.len(),
            a_len == b_len,
            i <= a_len,
            forall|j: int| 0 <= j < i ==> a@[j] == b@[j],
        decreases a_len - i,
    {
        if a.get_char(i) != b.get_char(i) {
            return false;
        }
        i += 1;
    }
    proof {
        assert(a@ =~= b@);
    }
    true
}

/// The snake-case form of a signal name: every `-` becomes `_`.
pub open spec fn snake_of(s: Seq<char>) -> Seq<char> {
    s.map_values(|c: char| if c == '-' { '_' } else { c })
}

/// Turns an introspected signal name such as `value-changed` into a
/// target-language identifier such as `value_changed`.
pub fn signal_to_snake(s: &str) -> (r: String)
    ensures
        r@ == snake_of(s@),
{
    let len = s.unicode_len();
    let mut out = String::new();
    let mut i: usize = 0;
    while i < len
        invariant
            len == s@.len(),
            i <= len,
            out@ == snake_of(s@.take(i as int)),
        decreases len - i,
    {
        let c = s.get_char(i);
        if c == '-' {
            out.push('_');
        } else {
            out.push(c);
        }
        proof {
            assert(snake_of(s@.take(i + 1 as int)) =~= snake_of(s@.take(i as int)).push(
                if s@[i as int] == '-' {
                    '_'
                } else {
                    s@[i as int]
                },
            ));
        }
        i += 1;
    }
    proof {
        assert(s@.take(len as int) =~= s@);
    }
    out
}

/// Whether a raw C type string names no usable type: it is empty or `void`.
pub open spec fn spec_is_empty_c_type(s: Seq<char>) -> bool {
    s.len() == 0 || s == "void"@
}

/// Tests the raw C type string carried by a parameter, as the ingestion
/// layer recorded it.
pub fn is_empty_c_type(s: &str) -> (r: bool)
    ensures
        r == spec_is_empty_c_type(s@),
{
    if s.is_empty() {
        return true;
    }
    str_eq(s, "void")
}

} // verus!
