//! Text as sequences of characters: trimming, cutting at a character,
//! comparing and repeating.

use vstd::prelude::*;

verus! {

/// Whether `c` is white space: one of the characters that Unicode gives the
/// property `White_Space`.
pub open spec fn is_whitespace(c: char) -> bool {
    let code = c as u32;
    ||| 0x09 <= code <= 0x0D
    ||| code == 0x20
    ||| code == 0x85
    ||| code == 0xA0
    ||| code == 0x1680
    ||| 0x2000 <= code <= 0x200A
    ||| code == 0x2028
    ||| code == 0x2029
    ||| code == 0x202F
    ||| code == 0x205F
    ||| code == 0x3000
}

/// `s` without the white space at its start.
pub open spec fn trim_start(s: Seq<char>) -> Seq<char>
    decreases s.len(),
{
    if s.len() > 0 && is_whitespace(s.first()) {
        trim_start(s.drop_first())
    } else {
        s
    }
}

/// `s` without the white space at its end.
pub open spec fn trim_end(s: Seq<char>) -> Seq<char>
    decreases s.len(),
{
    if s.len() > 0 && is_whitespace(s.last()) {
        trim_end(s.drop_last())
    } else {
        s
    }
}

/// `s` without the white space at its start and at its end.
pub open spec fn trim(s: Seq<char>) -> Seq<char> {
    trim_end(trim_start(s))
}

/// The index of the first `c` in `s`, or the length of `s` if there is none.
pub open spec fn find(s: Seq<char>, c: char) -> int
    decreases s.len(),
{
    if s.len() == 0 || s.first() == c {
        0
    } else {
        1 + find(s.drop_first(), c)
    }
}

/// `s` cut at its first `c`: what stands before it and, if there is one,
/// what stands after it. Later occurrences of `c` stay in the second part.
pub open spec fn split_once(s: Seq<char>, c: char) -> (Seq<char>, Option<Seq<char>>) {
    let at = find(s, c);
    if at < s.len() {
        (s.take(at), Some(s.skip(at + 1)))
    } else {
        (s, None)
    }
}

/// The index of the first white-space character of `s`, or the length of
/// `s` if there is none.
pub open spec fn find_whitespace(s: Seq<char>) -> int
    decreases s.len(),
{
    if s.len() == 0 || is_whitespace(s.first()) {
        0
    } else {
        1 + find_whitespace(s.drop_first())
    }
}

/// `s` cut at its first white-space character, whichever it is: what stands
/// before it and, if there is one, what stands after that one character.
/// White space that follows it stays in the second part.
pub open spec fn split_at_whitespace(s: Seq<char>) -> (Seq<char>, Option<Seq<char>>) {
    let at = find_whitespace(s);
    if at < s.len() {
        (s.take(at), Some(s.skip(at + 1)))
    } else {
        (s, None)
    }
}

/// `unit` written `n` times in a row.
pub open spec fn repeat(unit: Seq<char>, n: nat) -> Seq<char>
    decreases n,
{
    if n == 0 {
        Seq::empty()
    } else {
        repeat(unit, (n - 1) as nat) + unit
    }
}

/// Whether `c` is white space.
pub fn char_is_whitespace(c: char) -> (white: bool)
    ensures
        white == is_whitespace(c),
{
    let code: u32 = c as u32;
    (0x09 <= code && code <= 0x0D) || code == 0x20 || code == 0x85 || code == 0xA0
        || code == 0x1680 || (0x2000 <= code && code <= 0x200A) || code == 0x2028
        || code == 0x2029 || code == 0x202F || code == 0x205F || code == 0x3000
}

/// The characters of `s`, in order.
pub fn chars_of(s: &str) -> (chars: Vec<char>)
    ensures
        chars@ == s@,
{
    broadcast use vstd::string::axiom_spec_iter;

    let mut chars: Vec<char> = Vec::new();
    for c in it: s.chars()
        invariant
            it.seq() == s@,
            chars@ == s@.take(it.index()),
    {
        chars.push(c);
    }
    chars
}

/// The bounds of what trimming leaves of `line`.
pub fn trim_bounds(line: &Vec<char>) -> (bounds: (usize, usize))
    ensures
        bounds.0 <= bounds.1 <= line.len(),
        line@.subrange(bounds.0 as int, bounds.1 as int) == trim(line@),
{
    let mut lo: usize = 0;
    while lo < line.len() && char_is_whitespace(line[lo])
        invariant
            lo <= line.len(),
            forall|i: int| 0 <= i < lo ==> is_whitespace(line@[i]),
        decreases line.len() - lo,
    {
        lo += 1;
    }
    let mut hi: usize = line.len();
    while lo < hi && char_is_whitespace(line[hi - 1])
        invariant
            lo <= hi <= line.len(),
            forall|i: int| hi <= i < line.len() ==> is_whitespace(line@[i]),
        decreases hi,
    {
        hi -= 1;
    }
    proof {
        lemma_trim_is(line@, lo as int, hi as int);
    }
    (lo, hi)
}

/// The index of the first `c` in the stretch of `line` from `from` to `to`,
/// or `to` if there is none.
pub fn find_in(line: &Vec<char>, from: usize, to: usize, c: char) -> (at: usize)
    requires
        from <= to <= line.len(),
    ensures
        from <= at <= to,
        at - from == find(line@.subrange(from as int, to as int), c),
{
    let mut at: usize = from;
    while at < to && line[at] != c
        invariant
            from <= at <= to <= line.len(),
            forall|i: int| from <= i < at ==> line@[i] != c,
        decreases to - at,
    {
        at += 1;
    }
    proof {
        lemma_find_is(line@.subrange(from as int, to as int), c, at - from);
    }
    at
}

/// The index of the first white-space character in the stretch of `line`
/// from `from` to `to`, or `to` if there is none.
pub fn find_whitespace_in(line: &Vec<char>, from: usize, to: usize) -> (at: usize)
    requires
        from <= to <= line.len(),
    ensures
        from <= at <= to,
        at - from == find_whitespace(line@.subrange(from as int, to as int)),
{
    let mut at: usize = from;
    while at < to && !char_is_whitespace(line[at])
        invariant
            from <= at <= to <= line.len(),
            forall|i: int| from <= i < at ==> !is_whitespace(line@[i]),
        decreases to - at,
    {
        at += 1;
    }
    proof {
        lemma_find_whitespace_is(line@.subrange(from as int, to as int), at - from);
    }
    at
}

/// Whether the stretch of `line` from `from` to `to` spells `word`.
pub fn stretch_is(line: &Vec<char>, from: usize, to: usize, word: &str) -> (same: bool)
    requires
        from <= to <= line.len(),
    ensures
        same == (line@.subrange(from as int, to as int) == word@),
{
    broadcast use vstd::string::axiom_spec_iter;

    let ghost stretch = line@.subrange(from as int, to as int);
    let mut at: usize = from;
    for c in it: word.chars()
        invariant
            it.seq() == word@,
            from <= at <= to <= line.len(),
            at == from + it.index(),
            stretch == line@.subrange(from as int, to as int),
            forall|j: int| 0 <= j < it.index() ==> stretch[j] == word@[j],
    {
        if at >= to {
            assert(stretch.len() < word@.len());
            return false;
        }
        if line[at] != c {
            assert(stretch[at - from] != word@[at - from]);
            return false;
        }
        at += 1;
    }
    if at == to {
        assert(stretch =~= word@);
        true
    } else {
        assert(stretch.len() > word@.len());
        false
    }
}

/// The text of `s` from the character at `from` up to the one at `to`.
pub fn text_of(s: &str, from: usize, to: usize) -> (text: String)
    requires
        from <= to <= s@.len(),
    ensures
        text@ == s@.subrange(from as int, to as int),
{
    s.substring_char(from, to).to_owned()
}

/// The text of `unit` written `n` times in a row.
pub fn repeated(unit: &str, n: usize) -> (text: String)
    ensures
        text@ == repeat(unit@, n as nat),
{
    let mut text = String::new();
    let mut i: usize = 0;
    while i < n
        invariant
            i <= n,
            text@ == repeat(unit@, i as nat),
        decreases n - i,
    {
        text.append(unit);
        i += 1;
    }
    text
}

/// What trimming leaves is a stretch of `s` that neither starts nor ends
/// with white space, with nothing but white space before and after it.
pub proof fn lemma_trim(s: Seq<char>) -> (bounds: (int, int))
    ensures
        0 <= bounds.0 <= bounds.1 <= s.len(),
        trim(s) == s.subrange(bounds.0, bounds.1),
        forall|i: int| 0 <= i < bounds.0 ==> is_whitespace(s[i]),
        forall|i: int| bounds.1 <= i < s.len() ==> is_whitespace(s[i]),
        bounds.0 < bounds.1 ==> !is_whitespace(s[bounds.0]) && !is_whitespace(s[bounds.1 - 1]),
{
    let lo = lemma_trim_start(s);
    let hi = lemma_trim_end(s.skip(lo));
    assert(s.skip(lo).take(hi) =~= s.subrange(lo, lo + hi));
    assert forall|i: int| lo + hi <= i < s.len() implies is_whitespace(s[i]) by {
        assert(s[i] == s.skip(lo)[i - lo]);
    }
    if hi > 0 {
        assert(s.skip(lo)[hi - 1] == s[lo + hi - 1]);
        assert(s.skip(lo)[0] == s[lo]);
    }
    (lo, lo + hi)
}

/// A stretch of `s` is what trimming leaves when it neither starts nor ends
/// with white space and only white space stands before and after it.
pub proof fn lemma_trim_is(s: Seq<char>, lo: int, hi: int)
    requires
        0 <= lo <= hi <= s.len(),
        forall|i: int| 0 <= i < lo ==> is_whitespace(s[i]),
        forall|i: int| hi <= i < s.len() ==> is_whitespace(s[i]),
        lo < hi ==> !is_whitespace(s[lo]) && !is_whitespace(s[hi - 1]),
    ensures
        trim(s) == s.subrange(lo, hi),
{
    let found = lemma_trim(s);
    if lo < hi {
        if found.0 < lo {
            assert(is_whitespace(s[found.0]));
        }
        if lo < found.0 {
            assert(!is_whitespace(s[lo]));
        }
        if found.1 < hi {
            assert(is_whitespace(s[hi - 1]));
        }
        if hi < found.1 {
            assert(is_whitespace(s[found.1 - 1]));
        }
    } else {
        if found.0 < found.1 {
            assert(!is_whitespace(s[found.0]));
            assert(found.0 < lo || hi <= found.0);
        }
        assert(s.subrange(found.0, found.1) =~= s.subrange(lo, hi));
    }
}

/// Trimming the start skips a run of white space and stops at the first
/// character that is none.
proof fn lemma_trim_start(s: Seq<char>) -> (lo: int)
    ensures
        0 <= lo <= s.len(),
        trim_start(s) == s.skip(lo),
        forall|i: int| 0 <= i < lo ==> is_whitespace(s[i]),
        lo < s.len() ==> !is_whitespace(s[lo]),
    decreases s.len(),
{
    if s.len() > 0 && is_whitespace(s.first()) {
        let rest = lemma_trim_start(s.drop_first());
        assert(s.drop_first().skip(rest) =~= s.skip(rest + 1));
        assert forall|i: int| 0 <= i < rest + 1 implies is_whitespace(s[i]) by {
            if i > 0 {
                assert(s[i] == s.drop_first()[i - 1]);
            }
        }
        if rest + 1 < s.len() {
            assert(s[rest + 1] == s.drop_first()[rest]);
        }
        rest + 1
    } else {
        assert(s.skip(0) =~= s);
        0
    }
}

/// Trimming the end drops a run of white space and stops after the last
/// character that is none.
proof fn lemma_trim_end(s: Seq<char>) -> (hi: int)
    ensures
        0 <= hi <= s.len(),
        trim_end(s) == s.take(hi),
        forall|i: int| hi <= i < s.len() ==> is_whitespace(s[i]),
        hi > 0 ==> !is_whitespace(s[hi - 1]),
    decreases s.len(),
{
    if s.len() > 0 && is_whitespace(s.last()) {
        let hi = lemma_trim_end(s.drop_last());
        assert(s.drop_last().take(hi) =~= s.take(hi));
        assert forall|i: int| hi <= i < s.len() implies is_whitespace(s[i]) by {
            if i < s.len() - 1 {
                assert(s[i] == s.drop_last()[i]);
            }
        }
        if hi > 0 {
            assert(s[hi - 1] == s.drop_last()[hi - 1]);
        }
        hi
    } else {
        assert(s.take(s.len() as int) =~= s);
        s.len() as int
    }
}

/// The characters before the first `c` are all different from `c`, and the
/// character at the index found, if there is one, is `c`.
pub proof fn lemma_find(s: Seq<char>, c: char)
    ensures
        0 <= find(s, c) <= s.len(),
        forall|i: int| 0 <= i < find(s, c) ==> s[i] != c,
        find(s, c) < s.len() ==> s[find(s, c)] == c,
    decreases s.len(),
{
    if s.len() > 0 && s.first() != c {
        lemma_find(s.drop_first(), c);
        assert forall|i: int| 0 <= i < find(s, c) implies s[i] != c by {
            if i > 0 {
                assert(s[i] == s.drop_first()[i - 1]);
            }
        }
    }
}

/// An index is the one found when no earlier character is `c` and either
/// the character there is `c` or the index is the length.
pub proof fn lemma_find_is(s: Seq<char>, c: char, at: int)
    requires
        0 <= at <= s.len(),
        forall|i: int| 0 <= i < at ==> s[i] != c,
        at < s.len() ==> s[at] == c,
    ensures
        find(s, c) == at,
{
    lemma_find(s, c);
    let found = find(s, c);
    if found < at {
        assert(s[found] != c);
    } else if at < found {
        assert(s[at] != c);
    }
}

/// The characters before the first white-space character are none, and the
/// character at the index found, if there is one, is white space.
pub proof fn lemma_find_whitespace(s: Seq<char>)
    ensures
        0 <= find_whitespace(s) <= s.len(),
        forall|i: int| 0 <= i < find_whitespace(s) ==> !is_whitespace(s[i]),
        find_whitespace(s) < s.len() ==> is_whitespace(s[find_whitespace(s)]),
    decreases s.len(),
{
    if s.len() > 0 && !is_whitespace(s.first()) {
        lemma_find_whitespace(s.drop_first());
        assert forall|i: int| 0 <= i < find_whitespace(s) implies !is_whitespace(s[i]) by {
            if i > 0 {
                assert(s[i] == s.drop_first()[i - 1]);
            }
        }
    }
}

/// An index is the one found when no earlier character is white space and
/// either the character there is white space or the index is the length.
pub proof fn lemma_find_whitespace_is(s: Seq<char>, at: int)
    requires
        0 <= at <= s.len(),
        forall|i: int| 0 <= i < at ==> !is_whitespace(s[i]),
        at < s.len() ==> is_whitespace(s[at]),
    ensures
        find_whitespace(s) == at,
{
    lemma_find_whitespace(s);
    let found = find_whitespace(s);
    if found < at {
        assert(!is_whitespace(s[found]));
    } else if at < found {
        assert(is_whitespace(s[at]));
    }
}

/// A text written `n` times is `n` times as long.
pub proof fn lemma_repeat_len(unit: Seq<char>, n: nat)
    ensures
        repeat(unit, n).len() == n * unit.len(),
    decreases n,
{
    let len = unit.len() as int;
    if n > 0 {
        lemma_repeat_len(unit, (n - 1) as nat);
        assert(n * len == (n - 1) * len + len) by (nonlinear_arith);
    } else {
        assert(n * len == 0) by (nonlinear_arith)
            requires
                n == 0,
        ;
    }
}

} // verus!
