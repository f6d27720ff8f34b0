//! Small helpers on text: strings are compared and described through their
//! sequences of characters.

use vstd::prelude::*;
use vstd::string::*;
use vstd::utf8::encode_utf8_decode_utf8;

verus! {

/// Whether `needle` occurs in `text` as a contiguous run of characters.
pub open spec fn occurs_in(needle: Seq<char>, text: Seq<char>) -> bool {
    exists|at: int|
        0 <= at <= text.len() - needle.len() && #[trigger] text.subrange(
            at,
            at + needle.len(),
        ) == needle
}

/// Whether the text holds no line break.
pub open spec fn single_line(text: Seq<char>) -> bool {
    !text.contains('\n')
}

/// A text occurs in every text that it opens.
pub proof fn lemma_prefix_occurs(prefix: Seq<char>, text: Seq<char>)
    requires
        prefix.is_prefix_of(text),
    ensures
        occurs_in(prefix, text),
{
    assert(text.subrange(0, 0 + prefix.len() as int) == prefix);
}

/// What occurs in a text still occurs in it when something is put in front.
pub proof fn lemma_occurs_after(needle: Seq<char>, head: Seq<char>, text: Seq<char>)
    requires
        occurs_in(needle, text),
    ensures
        occurs_in(needle, head + text),
{
    let at = choose|at: int|
        0 <= at <= text.len() - needle.len() && #[trigger] text.subrange(at, at + needle.len())
            == needle;
    let shifted: int = head.len() + at;
    assert((head + text).subrange(shifted, shifted + needle.len()) =~= text.subrange(
        at,
        at + needle.len(),
    ));
}

/// Whether two strings hold the same characters. They do when they are the
/// same bytes: the characters of a string can be read back from its bytes.
pub fn same_text(a: &str, b: &str) -> (same: bool)
    ensures
        same == (a@ == b@),
{
    let left = a.as_bytes();
    let right = b.as_bytes();
    proof {
        encode_utf8_decode_utf8(a@);
        encode_utf8_decode_utf8(b@);
    }
    let n: usize = left.len();
    if right.len() != n {
        return false;
    }
    let mut i: usize = 0;
    while i < n
        invariant
            left@ == a.spec_bytes(),
            right@ == b.spec_bytes(),
            n == left@.len(),
            n == right@.len(),
            i <= n,
            forall|k: int| 0 <= k < i ==> left@[k] == right@[k],
        decreases n - i,
    {
        if left[i] != right[i] {
            return false;
        }
        i += 1;
    }
    assert(left@ =~= right@);
    true
}

} // verus!
