//! Removal of terminal control sequences from a line of text.
//!
//! A control sequence starts at an escape character and runs up to and
//! including the next `m`. An escape character with no `m` after it opens no
//! sequence: it stays where it is, with everything behind it.

use vstd::prelude::*;
use crate::text::{chars_of, esc, escape_free, lacks};

verus! {

/// The least index `j >= from` with `s[j] == 'm'`, or `s.len()` if there is none.
pub open spec fn next_m(s: Seq<char>, from: int) -> int
    decreases s.len() - from,
{
    if from < 0 || from >= s.len() {
        s.len() as int
    } else if s[from] == 'm' {
        from
    } else {
        next_m(s, from + 1)
    }
}

/// `s` with every control sequence taken out and every other character kept
/// in place.
pub open spec fn stripped(s: Seq<char>) -> Seq<char>
    decreases s.len(),
{
    if s.len() == 0 {
        s
    } else if s[0] == esc() {
        let end = next_m(s, 0);
        if end < s.len() {
            proof {
                lemma_next_m(s, 0);
            }
            stripped(s.skip(end + 1))
        } else {
            s
        }
    } else {
        seq![s[0]] + stripped(s.skip(1))
    }
}

/// Where `next_m` points: at an `m` with none before it, or past the end.
pub proof fn lemma_next_m(s: Seq<char>, from: int)
    requires
        0 <= from <= s.len(),
    ensures
        from <= next_m(s, from) <= s.len(),
        next_m(s, from) < s.len() ==> s[next_m(s, from)] == 'm',
        forall|j: int| from <= j < next_m(s, from) ==> s[j] != 'm',
    decreases s.len() - from,
{
    if from < s.len() && s[from] != 'm' {
        lemma_next_m(s, from + 1);
    }
}

/// Stripping never makes a text longer.
pub proof fn lemma_stripped_len(s: Seq<char>)
    ensures
        stripped(s).len() <= s.len(),
    decreases s.len(),
{
    if s.len() == 0 {
    } else if s[0] == esc() {
        lemma_next_m(s, 0);
        let end = next_m(s, 0);
        if end < s.len() {
            lemma_stripped_len(s.skip(end + 1));
        }
    } else {
        lemma_stripped_len(s.skip(1));
    }
}

/// Stripping a text that has been stripped changes nothing.
pub proof fn lemma_stripped_idempotent(s: Seq<char>)
    ensures
        stripped(stripped(s)) == stripped(s),
    decreases s.len(),
{
    if s.len() == 0 {
    } else if s[0] == esc() {
        lemma_next_m(s, 0);
        let end = next_m(s, 0);
        if end < s.len() {
            lemma_stripped_idempotent(s.skip(end + 1));
        }
    } else {
        let rest = stripped(s.skip(1));
        lemma_stripped_idempotent(s.skip(1));
        let once = seq![s[0]] + rest;
        assert(once.skip(1) =~= rest);
    }
}

/// `s` holds no control sequence: behind an escape character there is no `m`.
pub open spec fn sequence_free(s: Seq<char>) -> bool {
    forall|i: int, j: int| 0 <= i < j < s.len() && s[i] == esc() ==> s[j] != 'm'
}

/// What stripping leaves holds no control sequence.
pub proof fn lemma_stripped_sequence_free(s: Seq<char>)
    ensures
        sequence_free(stripped(s)),
    decreases s.len(),
{
    if s.len() == 0 {
    } else if s[0] == esc() {
        lemma_next_m(s, 0);
        let end = next_m(s, 0);
        if end < s.len() {
            lemma_stripped_sequence_free(s.skip(end + 1));
        } else {
            assert(sequence_free(s));
        }
    } else {
        let rest = stripped(s.skip(1));
        lemma_stripped_sequence_free(s.skip(1));
        let left = seq![s[0]] + rest;
        assert forall|i: int, j: int|
            0 <= i < j < left.len() && left[i] == esc() implies left[j] != 'm' by {
            if i > 0 {
                assert(left[i] == rest[i - 1]);
                assert(left[j] == rest[j - 1]);
            }
        }
        assert(sequence_free(left));
    }
}

/// A text without escape characters is left as it is.
pub proof fn lemma_stripped_escape_free(s: Seq<char>)
    requires
        escape_free(s),
    ensures
        stripped(s) == s,
    decreases s.len(),
{
    if s.len() > 0 {
        lemma_stripped_escape_free(s.skip(1));
        assert(seq![s[0]] + s.skip(1) =~= s);
    }
}

/// A text without escape characters is kept, and stripping goes on behind it.
pub proof fn lemma_stripped_after_plain(a: Seq<char>, b: Seq<char>)
    requires
        escape_free(a),
    ensures
        stripped(a + b) == a + stripped(b),
    decreases a.len(),
{
    if a.len() == 0 {
        assert(a + b =~= b);
        assert(a + stripped(b) =~= stripped(b));
    } else {
        let rest = a.skip(1);
        lemma_stripped_after_plain(rest, b);
        assert((a + b).skip(1) =~= rest + b);
        assert(seq![a[0]] + (rest + stripped(b)) =~= a + stripped(b));
    }
}

/// A control sequence is dropped, and stripping goes on behind it.
pub proof fn lemma_stripped_after_sequence(codes: Seq<char>, b: Seq<char>)
    requires
        lacks(codes, 'm'),
    ensures
        stripped(seq![esc()] + codes + seq!['m'] + b) == stripped(b),
{
    let s = seq![esc()] + codes + seq!['m'] + b;
    let end = codes.len() as int + 1;
    lemma_next_m(s, 0);
    assert(s[end] == 'm');
    assert forall|j: int| 0 <= j < end implies s[j] != 'm' by {
        if j > 0 {
            assert(s[j] == codes[j - 1]);
        }
    }
    assert(next_m(s, 0) == end);
    assert(s.skip(end + 1) =~= b);
}

/// A text that stripping leaves alone stays so with a character behind it
/// that neither opens nor ends a control sequence.
pub proof fn lemma_stripped_with_end(text: Seq<char>, end: char)
    requires
        stripped(text) == text,
        end != esc(),
        end != 'm',
    ensures
        stripped(text.push(end)) == text.push(end),
    decreases text.len(),
{
    let whole = text.push(end);
    let none = Seq::<char>::empty();
    assert(stripped(none) == none);
    if text.len() == 0 {
        assert(whole.skip(1) =~= none);
        assert(seq![end] + none =~= whole);
    } else if text[0] == esc() {
        lemma_next_m(text, 0);
        let close = next_m(text, 0);
        if close < text.len() {
            lemma_stripped_len(text.skip(close + 1));
        }
        assert(close == text.len());
        assert forall|j: int| 0 <= j < whole.len() implies whole[j] != 'm' by {
            if j < text.len() {
                assert(whole[j] == text[j]);
            }
        }
        lemma_next_m(whole, 0);
        assert(next_m(whole, 0) == whole.len());
        assert(whole[0] == esc());
    } else {
        let rest = text.skip(1);
        assert(stripped(rest) == rest) by {
            assert((seq![text[0]] + stripped(rest)).skip(1) =~= stripped(rest));
        }
        lemma_stripped_with_end(rest, end);
        assert(whole[0] == text[0]);
        assert(whole.skip(1) =~= rest.push(end));
        assert(seq![text[0]] + rest.push(end) =~= whole);
    }
}

/// Stripping keeps the last character of a text, unless it is an `m`.
pub proof fn lemma_stripped_keeps_end(s: Seq<char>)
    requires
        s.len() > 0,
        s.last() != 'm',
    ensures
        stripped(s).len() > 0,
        stripped(s).last() == s.last(),
    decreases s.len(),
{
    let none = Seq::<char>::empty();
    assert(stripped(none) == none);
    if s[0] == esc() {
        lemma_next_m(s, 0);
        let close = next_m(s, 0);
        if close < s.len() {
            let rest = s.skip(close + 1);
            assert(rest.len() > 0);
            assert(rest.last() == s.last());
            lemma_stripped_keeps_end(rest);
        }
    } else if s.len() > 1 {
        let rest = s.skip(1);
        assert(rest.last() == s.last());
        lemma_stripped_keeps_end(rest);
        let kept = seq![s[0]] + stripped(rest);
        assert(kept.last() == stripped(rest).last());
    } else {
        assert(s.skip(1) =~= none);
        assert((seq![s[0]] + none).last() == s[0]);
    }
}

/// A copy of `line` without its control sequences.
pub fn strip_ansi(line: &str) -> (out: String)
    ensures
        out@ == stripped(line@),
{
    let chars = chars_of(line);
    let n = chars.len();
    let mut out = String::new();
    let mut i: usize = 0;
    assert(chars@.skip(0) =~= chars@);
    assert(out@ + stripped(chars@) =~= stripped(chars@));
    while i < n
        invariant
            n == chars@.len(),
            i <= n,
            stripped(chars@) == out@ + stripped(chars@.skip(i as int)),
        decreases n - i,
    {
        let ghost rest = chars@.skip(i as int);
        if chars[i] == '\x1b' {
            let mut j: usize = i + 1;
            while j < n && chars[j] != 'm'
                invariant
                    n == chars@.len(),
                    i < j <= n,
                    rest == chars@.skip(i as int),
                    forall|k: int| 0 <= k < j - i ==> rest[k] != 'm',
                decreases n - j,
            {
                j += 1;
            }
            proof {
                lemma_next_m(rest, 0);
                assert(next_m(rest, 0) == j - i) by {
                    if j < n {
                        assert(rest[j - i] == 'm');
                    }
                }
            }
            if j < n {
                assert(rest.skip(j - i + 1) =~= chars@.skip(j + 1));
                i = j + 1;
            } else {
                let mut k: usize = i;
                while k < n
                    invariant
                        n == chars@.len(),
                        i <= k <= n,
                        rest == chars@.skip(i as int),
                        stripped(chars@) == out@ + rest.skip(k - i),
                    decreases n - k,
                {
                    assert(rest.skip(k - i) =~= seq![chars@[k as int]] + rest.skip(k - i + 1));
                    out.push(chars[k]);
                    k += 1;
                }
                assert(rest.skip(n - i) =~= Seq::<char>::empty());
                assert(chars@.skip(n as int) =~= Seq::<char>::empty());
                i = n;
            }
        } else {
            assert(rest.skip(1) =~= chars@.skip(i + 1));
            out.push(chars[i]);
            i += 1;
        }
    }
    assert(chars@.skip(n as int) =~= Seq::<char>::empty());
    out
}

} // verus!
