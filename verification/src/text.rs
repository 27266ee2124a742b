//! Texts: prefixes and occurrences, counted in characters.

use vstd::prelude::*;

verus! {

/// Whether `text` begins with `prefix`.
pub open spec fn starts_with(text: Seq<char>, prefix: Seq<char>) -> bool {
    prefix.len() <= text.len() && text.subrange(0, prefix.len() as int) == prefix
}

/// Decides whether `text` begins with `prefix`.
pub fn has_prefix(text: &str, prefix: &str) -> (found: bool)
    ensures
        found == starts_with(text@, prefix@),
{
    let text_len: usize = text.unicode_len();
    let prefix_len: usize = prefix.unicode_len();
    if prefix_len > text_len {
        return false;
    }
    let mut i: usize = 0;
    while i < prefix_len
        invariant
            i <= prefix_len <= text_len,
            prefix_len == prefix@.len(),
            text_len == text@.len(),
            forall|j: int| 0 <= j < i ==> text@[j] == prefix@[j],
        decreases prefix_len - i,
    {
        if text.get_char(i) != prefix.get_char(i) {
            proof {
                assert(text@.subrange(0, prefix@.len() as int)[i as int] == text@[i as int]);
            }
            return false;
        }
        i += 1;
    }
    proof {
        assert(text@.subrange(0, prefix@.len() as int) =~= prefix@);
    }
    true
}

/// Whether `needle` occurs in `text` at position `at`.
pub open spec fn occurs_at(text: Seq<char>, needle: Seq<char>, at: int) -> bool {
    0 <= at && at + needle.len() <= text.len() && text.subrange(at, at + needle.len()) == needle
}

/// Whether `needle` occurs somewhere in `text`.
pub open spec fn occurs_in(text: Seq<char>, needle: Seq<char>) -> bool {
    exists|at: int| occurs_at(text, needle, at)
}

/// Decides whether `needle` occurs somewhere in `text`.
pub fn contains_text(text: &str, needle: &str) -> (found: bool)
    ensures
        found == occurs_in(text@, needle@),
{
    let text_len: usize = text.unicode_len();
    let needle_len: usize = needle.unicode_len();
    if needle_len > text_len {
        proof {
            assert forall|at: int| !occurs_at(text@, needle@, at) by {}
        }
        return false;
    }
    let last: usize = text_len - needle_len;
    let mut at: usize = 0;
    loop
        invariant
            at <= last,
            last == text_len - needle_len,
            text_len == text@.len(),
            needle_len == needle@.len(),
            needle_len <= text_len,
            forall|j: int| 0 <= j < at ==> !occurs_at(text@, needle@, j),
        decreases last - at,
    {
        let rest = text.substring_char(at, text_len);
        let here = has_prefix(rest, needle);
        proof {
            assert(rest@.subrange(0, needle@.len() as int) =~= text@.subrange(
                at as int,
                at + needle@.len(),
            ));
        }
        if here {
            proof {
                assert(occurs_at(text@, needle@, at as int));
            }
            return true;
        }
        if at == last {
            proof {
                assert forall|j: int| !occurs_at(text@, needle@, j) by {}
            }
            return false;
        }
        at += 1;
    }
}

} // verus!
