use vstd::prelude::*;
use vstd::string::StrSliceExecFns;

verus! {

/// `needle` occurs in `haystack` at position `start`.
pub open spec fn occurs_at(haystack: Seq<char>, needle: Seq<char>, start: int) -> bool {
    0 <= start && start + needle.len() <= haystack.len()
        && haystack.subrange(start, start + needle.len()) == needle
}

/// `needle` occurs somewhere in `haystack`.
pub open spec fn contains_text(haystack: Seq<char>, needle: Seq<char>) -> bool {
    exists|start: int| #[trigger] occurs_at(haystack, needle, start)
}

fn occurs_at_exec(haystack: &str, haystack_len: usize, needle: &str, needle_len: usize, start: usize) -> (found: bool)
    requires
        haystack_len == haystack@.len(),
        needle_len == needle@.len(),
        start + needle_len <= haystack_len,
    ensures
        found == occurs_at(haystack@, needle@, start as int),
{
    let mut offset: usize = 0;
    while offset < needle_len
        invariant
            haystack_len == haystack@.len(),
            needle_len == needle@.len(),
            start + needle_len <= haystack_len,
            offset <= needle_len,
            forall|k: int| 0 <= k < offset ==> haystack@[start + k] == needle@[k],
        decreases needle_len - offset,
    {
        if haystack.get_char(start + offset) != needle.get_char(offset) {
            proof {
                assert(haystack@.subrange(start as int, start + needle_len)[offset as int] != needle@[offset as int]);
            }
            return false;
        }
        offset = offset + 1;
    }
    proof {
        assert(haystack@.subrange(start as int, start + needle_len) =~= needle@);
    }
    true
}

/// Whether `needle` occurs in `haystack`, as `str::contains` with a text pattern.
pub fn contains(haystack: &str, needle: &str) -> (found: bool)
    ensures
        found == contains_text(haystack@, needle@),
{
    let haystack_len = haystack.unicode_len();
    let needle_len = needle.unicode_len();
    if needle_len > haystack_len {
        proof {
            assert forall|start: int| !#[trigger] occurs_at(haystack@, needle@, start) by {}
        }
        return false;
    }
    let last_start = haystack_len - needle_len;
    let mut start: usize = 0;
    while start < last_start
        invariant
            haystack_len == haystack@.len(),
            needle_len == needle@.len(),
            last_start == haystack_len - needle_len,
            start <= last_start,
            forall|s: int| 0 <= s < start ==> !#[trigger] occurs_at(haystack@, needle@, s),
        decreases last_start - start,
    {
        if occurs_at_exec(haystack, haystack_len, needle, needle_len, start) {
            return true;
        }
        start = start + 1;
    }
    if occurs_at_exec(haystack, haystack_len, needle, needle_len, last_start) {
        return true;
    }
    proof {
        assert forall|s: int| !#[trigger] occurs_at(haystack@, needle@, s) by {
            if 0 <= s < start {
            }
        }
    }
    false
}

} // verus!
