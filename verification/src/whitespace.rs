//! Whitespace and trimming: a string without the whitespace at its two ends.

use vstd::prelude::*;

verus! {

/// Whether `c` has the Unicode property `White_Space`.
pub open spec fn white_space(c: char) -> bool {
    let u = c as u32;
    ||| 0x09 <= u <= 0x0D
    ||| u == 0x20
    ||| u == 0x85
    ||| u == 0xA0
    ||| u == 0x1680
    ||| 0x2000 <= u <= 0x200A
    ||| u == 0x2028
    ||| u == 0x2029
    ||| u == 0x202F
    ||| u == 0x205F
    ||| u == 0x3000
}

/// `s` without the whitespace at its start.
pub open spec fn trim_start(s: Seq<char>) -> Seq<char>
    decreases s.len(),
{
    if s.len() > 0 && white_space(s.first()) {
        trim_start(s.drop_first())
    } else {
        s
    }
}

/// `s` without the whitespace at its end.
pub open spec fn trim_end(s: Seq<char>) -> Seq<char>
    decreases s.len(),
{
    if s.len() > 0 && white_space(s.last()) {
        trim_end(s.drop_last())
    } else {
        s
    }
}

/// `s` without the whitespace at its two ends. Whitespace between other
/// characters stays.
pub open spec fn trimmed(s: Seq<char>) -> Seq<char> {
    trim_end(trim_start(s))
}

/// Whether all of `s` from index `from` up to index `to` is whitespace.
pub open spec fn all_white_space(s: Seq<char>, from: int, to: int) -> bool {
    forall|i: int| from <= i < to ==> white_space(#[trigger] s[i])
}

/// Trimming the start drops exactly the whitespace before the first other
/// character.
pub proof fn lemma_trim_start(s: Seq<char>, k: int)
    requires
        0 <= k <= s.len(),
        all_white_space(s, 0, k),
        k < s.len() ==> !white_space(s[k]),
    ensures
        trim_start(s) == s.subrange(k, s.len() as int),
    decreases k,
{
    if k == 0 {
        assert(s.subrange(0, s.len() as int) =~= s);
    } else {
        let rest = s.drop_first();
        assert forall|i: int| 0 <= i < k - 1 implies white_space(#[trigger] rest[i]) by {
            assert(rest[i] == s[i + 1]);
        }
        lemma_trim_start(rest, k - 1);
        assert(rest.subrange(k - 1, rest.len() as int) =~= s.subrange(k, s.len() as int));
    }
}

/// Trimming the end drops exactly the whitespace after the last other
/// character.
pub proof fn lemma_trim_end(s: Seq<char>, k: int)
    requires
        0 <= k <= s.len(),
        all_white_space(s, k, s.len() as int),
        k > 0 ==> !white_space(s[k - 1]),
    ensures
        trim_end(s) == s.subrange(0, k),
    decreases s.len() - k,
{
    if k == s.len() {
        assert(s.subrange(0, k) =~= s);
    } else {
        let rest = s.drop_last();
        lemma_trim_end(rest, k);
        assert(rest.subrange(0, k) =~= s.subrange(0, k));
    }
}

/// What is left of a string after trimming has no whitespace at either end.
pub proof fn lemma_trimmed_ends(s: Seq<char>)
    ensures
        trimmed(s).len() > 0 ==> !white_space(trimmed(s).first()) && !white_space(
            trimmed(s).last(),
        ),
{
    lemma_trim_start_first(s);
    lemma_trim_end_last(trim_start(s));
}

/// A string trimmed at its start is empty or starts with a character that
/// is no whitespace.
proof fn lemma_trim_start_first(s: Seq<char>)
    ensures
        trim_start(s).len() > 0 ==> !white_space(trim_start(s).first()),
    decreases s.len(),
{
    if s.len() > 0 && white_space(s.first()) {
        lemma_trim_start_first(s.drop_first());
    }
}

/// A string trimmed at its end is empty or ends with a character that is no
/// whitespace, and it starts as the untrimmed string does.
proof fn lemma_trim_end_last(s: Seq<char>)
    ensures
        trim_end(s).len() > 0 ==> !white_space(trim_end(s).last()) && trim_end(s).first()
            == s.first(),
    decreases s.len(),
{
    if s.len() > 0 && white_space(s.last()) {
        lemma_trim_end_last(s.drop_last());
    }
}

/// Whether `c` is a whitespace character.
pub fn is_white_space(c: char) -> (b: bool)
    ensures
        b == white_space(c),
{
    let u: u32 = c as u32;
    (0x09 <= u && u <= 0x0D) || u == 0x20 || u == 0x85 || u == 0xA0 || u == 0x1680 || (0x2000 <= u
        && u <= 0x200A) || u == 0x2028 || u == 0x2029 || u == 0x202F || u == 0x205F || u == 0x3000
}

/// The part of `s` between its leading and its trailing whitespace.
pub fn trim(s: &str) -> (t: &str)
    ensures
        t@ == trimmed(s@),
{
    let n: usize = s.unicode_len();
    let mut start: usize = 0;
    let mut end: usize = 0;
    let mut found = false;
    let mut index: usize = 0;
    for c in it: s.chars()
        invariant
            it.seq() == s@,
            n == s@.len(),
            index == it.index(),
            index <= n,
            !found ==> start == 0 && end == 0 && all_white_space(s@, 0, index as int),
            found ==> start < end <= index,
            found ==> all_white_space(s@, 0, start as int) && !white_space(s@[start as int]),
            found ==> all_white_space(s@, end as int, index as int) && !white_space(
                s@[end - 1],
            ),
    {
        if !is_white_space(c) {
            if !found {
                found = true;
                start = index;
            }
            end = index + 1;
        }
        index = index + 1;
    }
    proof {
        let whole = s@;
        if found {
            lemma_trim_start(whole, start as int);
            let tail = whole.subrange(start as int, n as int);
            assert forall|i: int| end - start <= i < tail.len() implies white_space(
                #[trigger] tail[i],
            ) by {
                assert(tail[i] == whole[start + i]);
            }
            lemma_trim_end(tail, end - start);
            assert(tail.subrange(0, end - start) =~= whole.subrange(start as int, end as int));
        } else {
            lemma_trim_start(whole, n as int);
            assert(whole.subrange(n as int, n as int) =~= Seq::<char>::empty());
            assert(whole.subrange(0, 0) =~= Seq::<char>::empty());
        }
    }
    s.substring_char(start, end)
}

} // verus!
