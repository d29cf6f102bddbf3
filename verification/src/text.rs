//! Comparison of strings by their characters.

use vstd::prelude::*;
use vstd::std_specs::iter::IteratorSpec;
use vstd::string::StringSliceAdditionalSpecFns;
use vstd::utf8::encode_utf8_decode_utf8;

verus! {

/// Whether two strings hold the same characters.
pub fn equal(a: &str, b: &str) -> (e: bool)
    ensures
        e == (a@ == b@),
{
    let x = a.as_bytes();
    let y = b.as_bytes();
    proof {
        // A string is what its bytes decode to.
        encode_utf8_decode_utf8(a@);
        encode_utf8_decode_utf8(b@);
    }
    if x.len() != y.len() {
        return false;
    }
    let mut i: usize = 0;
    while i < x.len()
        invariant
            i <= x@.len() == y@.len(),
            x@ == a.spec_bytes(),
            y@ == b.spec_bytes(),
            forall|j: int| 0 <= j < i ==> x@[j] == y@[j],
        decreases x@.len() - i,
    {
        if x[i] != y[i] {
            assert(a.spec_bytes()[i as int] != b.spec_bytes()[i as int]);
            return false;
        }
        i += 1;
    }
    assert(x@ =~= y@);
    true
}

/// Whether `text` begins with the characters of `prefix`.
pub fn starts_with(text: &str, prefix: &str) -> (b: bool)
    ensures
        b == prefix@.is_prefix_of(text@),
{
    broadcast use vstd::string::group_string_axioms;

    let mut rest = text.chars();
    let mut want = prefix.chars();
    let ghost mut seen: int = 0;
    loop
        invariant
            0 <= seen <= text@.len(),
            seen <= prefix@.len(),
            rest.obeys_prophetic_iter_laws(),
            want.obeys_prophetic_iter_laws(),
            rest.remaining() == text@.subrange(seen, text@.len() as int),
            want.remaining() == prefix@.subrange(seen, prefix@.len() as int),
            text@.subrange(0, seen) == prefix@.subrange(0, seen),
        decreases prefix@.len() - seen,
    {
        match want.next() {
            None => {
                assert(prefix@ =~= prefix@.subrange(0, seen));
                return true;
            },
            Some(expected) => match rest.next() {
                None => {
                    return false;
                },
                Some(found) => {
                    assert(expected == prefix@[seen]);
                    assert(found == text@[seen]);
                    if found != expected {
                        assert(!prefix@.is_prefix_of(text@)) by {
                            if prefix@.is_prefix_of(text@) {
                                assert(text@.subrange(0, prefix@.len() as int)[seen]
                                    == text@[seen]);
                            }
                        }
                        return false;
                    }
                    proof {
                        assert(text@.subrange(0, seen + 1) =~= text@.subrange(0, seen).push(
                            found,
                        ));
                        assert(prefix@.subrange(0, seen + 1) =~= prefix@.subrange(0, seen).push(
                            expected,
                        ));
                        seen = seen + 1;
                    }
                },
            },
        }
    }
}

} // verus!
