//! Text handling shared by the workflow: white space, trimming, and the split
//! of a message at its first line break.
//!
//! Everything is stated over `Seq<char>`, the view of `str` and `String`.

use vstd::prelude::*;
use vstd::string::StrSliceExecFns;
use vstd::string::StringExecFns;

verus! {

/// Whether `c` is a white-space character: one of the code points that carry
/// the Unicode property `White_Space`.
pub open spec fn is_whitespace(c: char) -> bool {
    let n = c as u32;
    ||| 0x09 <= n <= 0x0d
    ||| n == 0x20
    ||| n == 0x85
    ||| n == 0xa0
    ||| n == 0x1680
    ||| 0x2000 <= n <= 0x200a
    ||| n == 0x2028
    ||| n == 0x2029
    ||| n == 0x202f
    ||| n == 0x205f
    ||| n == 0x3000
}

/// `s` without its leading white space.
pub open spec fn trimmed_start(s: Seq<char>) -> Seq<char>
    decreases s.len(),
{
    if s.len() > 0 && is_whitespace(s.first()) {
        trimmed_start(s.drop_first())
    } else {
        s
    }
}

/// `s` without its trailing white space.
pub open spec fn trimmed_end(s: Seq<char>) -> Seq<char>
    decreases s.len(),
{
    if s.len() > 0 && is_whitespace(s.last()) {
        trimmed_end(s.drop_last())
    } else {
        s
    }
}

/// `s` without its leading and trailing white space.
pub open spec fn trimmed(s: Seq<char>) -> Seq<char> {
    trimmed_end(trimmed_start(s))
}

/// Whether every character of `s` is white space.
pub open spec fn all_whitespace(s: Seq<char>) -> bool {
    forall|i: int| 0 <= i < s.len() ==> is_whitespace(#[trigger] s[i])
}

/// The line break that separates the lines of a message.
pub open spec fn line_break() -> char {
    '\n'
}

/// The first line of `s`: what stands before its first line break, or all of
/// `s` where it has none.
pub open spec fn first_line(s: Seq<char>) -> Seq<char>
    decreases s.len(),
{
    if s.len() == 0 || s.first() == line_break() {
        Seq::empty()
    } else {
        seq![s.first()] + first_line(s.drop_first())
    }
}

/// What follows the first line break of `s`, or `None` where `s` is a single
/// line.
pub open spec fn after_first_line(s: Seq<char>) -> Option<Seq<char>>
    decreases s.len(),
{
    if s.len() == 0 {
        None
    } else if s.first() == line_break() {
        Some(s.drop_first())
    } else {
        after_first_line(s.drop_first())
    }
}

/// Skipping `k` leading white-space characters does not change what
/// `trimmed_start` gives.
pub proof fn lemma_trimmed_start_skip(s: Seq<char>, k: int)
    requires
        0 <= k <= s.len(),
        all_whitespace(s.take(k)),
    ensures
        trimmed_start(s) == trimmed_start(s.skip(k)),
    decreases k,
{
    if k == 0 {
        assert(s.skip(0) =~= s);
    } else {
        assert(s.take(k)[0] == s[0]);
        assert forall|i: int| 0 <= i < k - 1 implies is_whitespace(
            #[trigger] s.drop_first().take(k - 1)[i],
        ) by {
            assert(s.drop_first().take(k - 1)[i] == s.take(k)[i + 1]);
        }
        lemma_trimmed_start_skip(s.drop_first(), k - 1);
        assert(s.drop_first().skip(k - 1) =~= s.skip(k));
    }
}

/// Dropping trailing white-space characters down to length `k` does not
/// change what `trimmed_end` gives.
pub proof fn lemma_trimmed_end_take(s: Seq<char>, k: int)
    requires
        0 <= k <= s.len(),
        all_whitespace(s.skip(k)),
    ensures
        trimmed_end(s) == trimmed_end(s.take(k)),
    decreases s.len() - k,
{
    if k == s.len() {
        assert(s.take(k) =~= s);
    } else {
        assert(s.skip(k)[s.len() - k - 1] == s.last());
        assert forall|i: int| 0 <= i < s.len() - 1 - k implies is_whitespace(
            #[trigger] s.drop_last().skip(k)[i],
        ) by {
            assert(s.drop_last().skip(k)[i] == s.skip(k)[i]);
        }
        lemma_trimmed_end_take(s.drop_last(), k);
        assert(s.drop_last().take(k) =~= s.take(k));
    }
}

/// Trimming cuts a text into three parts: white space, the trimmed text,
/// white space. The trimmed text neither starts nor ends with white space, so
/// no other cut of this shape exists.
pub proof fn law_trim_keeps_the_core(s: Seq<char>) -> (bounds: (int, int))
    ensures
        0 <= bounds.0 <= bounds.1 <= s.len(),
        trimmed(s) == s.subrange(bounds.0, bounds.1),
        all_whitespace(s.take(bounds.0)),
        all_whitespace(s.skip(bounds.1)),
        trimmed(s).len() > 0 ==> !is_whitespace(trimmed(s).first()) && !is_whitespace(
            trimmed(s).last(),
        ),
    decreases s.len(),
{
    if s.len() > 0 && is_whitespace(s.first()) {
        let inner = law_trim_keeps_the_core(s.drop_first());
        let a = inner.0 + 1;
        let b = inner.1 + 1;
        assert(s.drop_first().subrange(inner.0, inner.1) =~= s.subrange(a, b));
        assert forall|i: int| 0 <= i < a implies is_whitespace(#[trigger] s.take(a)[i]) by {
            if i > 0 {
                assert(s.take(a)[i] == s.drop_first().take(inner.0)[i - 1]);
            }
        }
        assert forall|i: int| 0 <= i < s.len() - b implies is_whitespace(#[trigger] s.skip(b)[i]) by {
            assert(s.skip(b)[i] == s.drop_first().skip(inner.1)[i]);
        }
        (a, b)
    } else {
        let b = lemma_trimmed_end_bound(s);
        assert(s.take(b) =~= s.subrange(0, b));
        (0, b)
    }
}

/// `trimmed_end` keeps a prefix of its argument, drops white space only, and
/// leaves no white space at the end.
pub proof fn lemma_trimmed_end_bound(s: Seq<char>) -> (b: int)
    ensures
        0 <= b <= s.len(),
        trimmed_end(s) == s.take(b),
        all_whitespace(s.skip(b)),
        b > 0 ==> !is_whitespace(s[b - 1]),
    decreases s.len(),
{
    if s.len() > 0 && is_whitespace(s.last()) {
        let b = lemma_trimmed_end_bound(s.drop_last());
        assert(s.drop_last().take(b) =~= s.take(b));
        assert forall|i: int| 0 <= i < s.len() - b implies is_whitespace(#[trigger] s.skip(b)[i]) by {
            if i < s.len() - b - 1 {
                assert(s.skip(b)[i] == s.drop_last().skip(b)[i]);
            }
        }
        b
    } else {
        assert(s.take(s.len() as int) =~= s);
        s.len() as int
    }
}

/// A text is its first line, followed, where it has more than one line, by a
/// line break and the rest. The first line holds no line break.
pub proof fn law_first_line_splits(s: Seq<char>)
    ensures
        !first_line(s).contains(line_break()),
        match after_first_line(s) {
            Some(rest) => s == first_line(s) + seq![line_break()] + rest,
            None => s == first_line(s),
        },
    decreases s.len(),
{
    if s.len() == 0 {
        assert(s =~= Seq::<char>::empty());
    } else if s.first() == line_break() {
        assert(s =~= Seq::<char>::empty() + seq![line_break()] + s.drop_first());
    } else {
        let tail = s.drop_first();
        law_first_line_splits(tail);
        let head = seq![s.first()];
        assert(s =~= head + tail);
        match after_first_line(tail) {
            Some(rest) => {
                assert(head + (first_line(tail) + seq![line_break()] + rest) =~= (head
                    + first_line(tail)) + seq![line_break()] + rest);
            },
            None => {},
        }
        if first_line(s).contains(line_break()) {
            let i = choose|i: int| 0 <= i < first_line(s).len() && first_line(s)[i] == line_break();
            assert(i > 0);
            assert(first_line(tail)[i - 1] == line_break());
        }
    }
}

/// Decides `is_whitespace` for one character.
pub fn char_is_whitespace(c: char) -> (r: bool)
    ensures
        r == is_whitespace(c),
{
    let n: u32 = c as u32;
    (0x09 <= n && n <= 0x0d) || n == 0x20 || n == 0x85 || n == 0xa0 || n == 0x1680 || (0x2000 <= n
        && n <= 0x200a) || n == 0x2028 || n == 0x2029 || n == 0x202f || n == 0x205f || n == 0x3000
}

/// The characters of `s`, in order.
pub fn chars_of(s: &str) -> (r: Vec<char>)
    ensures
        r@ == s@,
{
    let mut out: Vec<char> = Vec::new();
    for c in it: s.chars()
        invariant
            out@ == it.seq().take(it.index()),
            it.seq() == s@,
    {
        out.push(c);
    }
    out
}

/// `s` without the white space around it.
pub fn trim(s: &str) -> (r: String)
    ensures
        r@ == trimmed(s@),
{
    let chars = chars_of(s);
    let n = chars.len();
    let mut start: usize = 0;
    while start < n && char_is_whitespace(chars[start])
        invariant
            start <= n == chars@.len(),
            all_whitespace(chars@.take(start as int)),
        decreases n - start,
    {
        start += 1;
    }
    let mut end: usize = n;
    while end > start && char_is_whitespace(chars[end - 1])
        invariant
            start <= end <= n == chars@.len(),
            all_whitespace(chars@.skip(end as int)),
        decreases end,
    {
        proof {
            assert forall|i: int| 0 <= i < n - (end - 1) implies is_whitespace(
                #[trigger] chars@.skip(end - 1)[i],
            ) by {
                if i > 0 {
                    assert(chars@.skip(end - 1)[i] == chars@.skip(end as int)[i - 1]);
                }
            }
        }
        end -= 1;
    }
    proof {
        let whole = chars@;
        let tail = whole.skip(start as int);
        lemma_trimmed_start_skip(whole, start as int);
        assert(trimmed_start(whole) == tail);
        assert forall|i: int| 0 <= i < tail.len() - (end - start) implies is_whitespace(
            #[trigger] tail.skip(end - start)[i],
        ) by {
            assert(tail.skip(end - start)[i] == whole.skip(end as int)[i]);
        }
        lemma_trimmed_end_take(tail, end - start);
        let core = tail.take(end - start);
        assert(core =~= whole.subrange(start as int, end as int));
        if core.len() > 0 {
            assert(core.last() == chars@[end - 1]);
        }
        assert(trimmed_end(core) == core);
    }
    String::from_str(s.substring_char(start, end))
}

/// Cuts `s` at its first line break: the first line, and what follows the
/// break where there is one.
pub fn split_first_line(s: &str) -> (r: (String, Option<String>))
    ensures
        r.0@ == first_line(s@),
        match r.1 {
            Some(rest) => after_first_line(s@) == Some(rest@),
            None => after_first_line(s@) is None,
        },
{
    let chars = chars_of(s);
    let n = chars.len();
    let mut at: usize = 0;
    proof {
        assert(chars@.skip(0) =~= chars@);
        assert(chars@.take(0) + first_line(chars@) =~= first_line(chars@));
    }
    while at < n && chars[at] != '\n'
        invariant
            at <= n == chars@.len(),
            first_line(chars@) == chars@.take(at as int) + first_line(chars@.skip(at as int)),
            after_first_line(chars@) == after_first_line(chars@.skip(at as int)),
        decreases n - at,
    {
        proof {
            let here = chars@.skip(at as int);
            assert(here.drop_first() =~= chars@.skip(at + 1));
            assert(chars@.take(at as int) + (seq![here.first()] + first_line(here.drop_first()))
                =~= chars@.take(at + 1) + first_line(here.drop_first()));
        }
        at += 1;
    }
    proof {
        let here = chars@.skip(at as int);
        assert(first_line(here) =~= Seq::<char>::empty());
        assert(chars@.take(at as int) + Seq::<char>::empty() =~= chars@.subrange(0, at as int));
        if at < n {
            assert(here.drop_first() =~= chars@.subrange(at + 1, n as int));
        }
    }
    let head = String::from_str(s.substring_char(0, at));
    if at < n {
        (head, Some(String::from_str(s.substring_char(at + 1, n))))
    } else {
        (head, None)
    }
}

} // verus!
