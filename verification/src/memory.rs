//! How much memory the process holds, as the kernel reports it.
use vstd::prelude::*;
use vstd::string::StrSliceExecFns;
use crate::text::{chars_of, has_prefix, starts_with};

verus! {

/// Whether the characters of `s` from `i` to `j` are one of its lines.
pub open spec fn is_line(s: Seq<char>, i: int, j: int) -> bool {
    &&& 0 <= i <= j <= s.len()
    &&& i == 0 || s[i - 1] == '\n'
    &&& j == s.len() || s[j] == '\n'
    &&& forall|k: int| i <= k < j ==> #[trigger] s[k] != '\n'
}

/// Whether a line tells the resident set size.
pub open spec fn tells_rss(line: Seq<char>) -> bool {
    has_prefix(line, "VmRSS:"@)
}

/// Finds the line of a process status that tells the resident set size: the first that begins so.
pub fn rss_line(status: &str) -> (res: Option<String>)
    ensures
        match res {
            Some(line) => exists|i: int, j: int| #[trigger]
                is_line(status@, i, j) && line@ == status@.subrange(i, j) && tells_rss(line@) && (
                forall|a: int, b: int| #[trigger]
                    is_line(status@, a, b) && a < i ==> !tells_rss(status@.subrange(a, b))),
            None => forall|a: int, b: int| #[trigger]
                is_line(status@, a, b) ==> !tells_rss(status@.subrange(a, b)),
        },
{
    let chars = chars_of(status);
    let mut start: usize = 0;
    let mut at: usize = 0;
    loop
        invariant
            chars@ == status@,
            start <= at <= chars@.len(),
            start == 0 || chars@[start - 1] == '\n',
            forall|k: int| start <= k < at ==> #[trigger] chars@[k] != '\n',
            forall|a: int, b: int| #[trigger]
                is_line(status@, a, b) && a < start ==> !tells_rss(status@.subrange(a, b)),
        decreases chars@.len() - at,
    {
        if at == chars.len() || chars[at] == '\n' {
            assert(is_line(status@, start as int, at as int));
            let line = status.substring_char(start, at);
            if starts_with(line, "VmRSS:") {
                return Some(line.to_owned());
            }
            assert forall|a: int, b: int| #[trigger]
                is_line(status@, a, b) && a < at + 1 implies !tells_rss(
                status@.subrange(a, b),
            ) by {
                if a == start {
                    lemma_line_end(status@, a, b, at as int);
                } else if a > start {
                    assert(status@[a - 1] == '\n');
                }
            }
            if at == chars.len() {
                assert forall|a: int, b: int| #[trigger] is_line(status@, a, b) implies !tells_rss(
                    status@.subrange(a, b),
                ) by {
                    assert(a < at + 1);
                }
                return None;
            }
            start = at + 1;
        }
        at += 1;
    }
}

/// A line has one end.
proof fn lemma_line_end(s: Seq<char>, i: int, j: int, k: int)
    requires
        is_line(s, i, j),
        is_line(s, i, k),
    ensures
        j == k,
{
    if j < k {
        assert(s[j] == '\n');
    } else if k < j {
        assert(s[k] == '\n');
    }
}

} // verus!
