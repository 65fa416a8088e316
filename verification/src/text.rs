//! Text scanning used when reading what the container runtime reports.

use vstd::prelude::*;

verus! {

/// The number of characters at the start of `s` that satisfy neither end
/// condition: the position of the first `stop`, or the length of `s` where
/// `stop` does not occur.
pub open spec fn first_index_of(s: Seq<char>, stop: char) -> int
    decreases s.len(),
{
    if s.len() == 0 || s[0] == stop {
        0
    } else {
        1 + first_index_of(s.drop_first(), stop)
    }
}

/// The number of characters at the start of `s` that are all `lead`.
pub open spec fn leading_run(s: Seq<char>, lead: char) -> int
    decreases s.len(),
{
    if s.len() == 0 || s[0] != lead {
        0
    } else {
        1 + leading_run(s.drop_first(), lead)
    }
}

/// `s` without the slashes it starts with.
pub open spec fn without_leading_slashes(s: Seq<char>) -> Seq<char> {
    s.skip(leading_run(s, '/'))
}

/// A position before which `stop` does not occur, and which is the end of
/// `s` or holds `stop`, is the first index of `stop`.
pub proof fn lemma_first_index_of(s: Seq<char>, stop: char, i: int)
    requires
        0 <= i <= s.len(),
        forall|j: int| 0 <= j < i ==> s[j] != stop,
        i < s.len() ==> s[i] == stop,
    ensures
        first_index_of(s, stop) == i,
    decreases i,
{
    if i > 0 {
        let rest = s.drop_first();
        assert forall|j: int| 0 <= j < i - 1 implies rest[j] != stop by {
            assert(rest[j] == s[j + 1]);
        }
        lemma_first_index_of(rest, stop, i - 1);
    }
}

/// A position before which every character is `lead`, and which is the end
/// of `s` or holds another character, is the length of the leading run.
pub proof fn lemma_leading_run(s: Seq<char>, lead: char, i: int)
    requires
        0 <= i <= s.len(),
        forall|j: int| 0 <= j < i ==> s[j] == lead,
        i < s.len() ==> s[i] != lead,
    ensures
        leading_run(s, lead) == i,
    decreases i,
{
    if i > 0 {
        let rest = s.drop_first();
        assert forall|j: int| 0 <= j < i - 1 implies rest[j] == lead by {
            assert(rest[j] == s[j + 1]);
        }
        lemma_leading_run(rest, lead, i - 1);
    }
}

/// The first index of `stop` lies within `s` or is its length.
pub proof fn lemma_first_index_of_bounds(s: Seq<char>, stop: char)
    ensures
        0 <= first_index_of(s, stop) <= s.len(),
    decreases s.len(),
{
    if s.len() > 0 && s[0] != stop {
        lemma_first_index_of_bounds(s.drop_first(), stop);
    }
}

/// Finds the first `stop` in `text`; the length of `text`, counted in
/// characters, where there is none.
pub fn find_first(text: &str, stop: char) -> (index: usize)
    ensures
        index == first_index_of(text@, stop),
        index <= text@.len(),
{
    let n: usize = text.unicode_len();
    let mut i: usize = 0;
    while i < n && text.get_char(i) != stop
        invariant
            n == text@.len(),
            i <= n,
            forall|j: int| 0 <= j < i ==> text@[j] != stop,
        decreases n - i,
    {
        i += 1;
    }
    proof {
        lemma_first_index_of(text@, stop, i as int);
    }
    i
}

/// Removes every slash that `text` starts with.
pub fn trim_leading_slashes(text: &str) -> (trimmed: String)
    ensures
        trimmed@ == without_leading_slashes(text@),
{
    let n: usize = text.unicode_len();
    let mut i: usize = 0;
    while i < n && text.get_char(i) == '/'
        invariant
            n == text@.len(),
            i <= n,
            forall|j: int| 0 <= j < i ==> text@[j] == '/',
        decreases n - i,
    {
        i += 1;
    }
    proof {
        lemma_leading_run(text@, '/', i as int);
        assert(text@.subrange(i as int, n as int) == text@.skip(i as int));
    }
    text.substring_char(i, n).to_owned()
}

} // verus!
