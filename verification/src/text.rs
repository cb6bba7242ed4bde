//! Character-level text operations: whitespace, trimming, joining and the
//! small builders that the rest of the library composes its strings from.
//!
//! Every operation is specified over `Seq<char>`, the view of a string, and
//! the executable functions are proved to compute exactly those sequences.

use vstd::prelude::*;
use vstd::utf8::encode_utf8;

verus! {

/// Whether `c` carries the Unicode `White_Space` property.
pub open spec fn is_space(c: char) -> bool {
    ||| ('\u{9}' <= c && c <= '\u{d}')
    ||| c == ' '
    ||| c == '\u{85}'
    ||| c == '\u{a0}'
    ||| c == '\u{1680}'
    ||| ('\u{2000}' <= c && c <= '\u{200a}')
    ||| c == '\u{2028}'
    ||| c == '\u{2029}'
    ||| c == '\u{202f}'
    ||| c == '\u{205f}'
    ||| c == '\u{3000}'
}

/// `s` without its leading whitespace.
pub open spec fn trim_start(s: Seq<char>) -> Seq<char>
    decreases s.len(),
{
    if s.len() > 0 && is_space(s.first()) {
        trim_start(s.drop_first())
    } else {
        s
    }
}

/// `s` without its trailing whitespace.
pub open spec fn trim_end(s: Seq<char>) -> Seq<char>
    decreases s.len(),
{
    if s.len() > 0 && is_space(s.last()) {
        trim_end(s.drop_last())
    } else {
        s
    }
}

/// `s` without its leading and trailing whitespace.
pub open spec fn trimmed(s: Seq<char>) -> Seq<char> {
    trim_end(trim_start(s))
}

/// Whether `s` neither starts nor ends with whitespace.
pub open spec fn is_trimmed(s: Seq<char>) -> bool {
    s.len() > 0 ==> !is_space(s.first()) && !is_space(s.last())
}

/// Whether `s` holds nothing but whitespace.
pub open spec fn is_blank(s: Seq<char>) -> bool {
    forall|i: int| 0 <= i < s.len() ==> is_space(#[trigger] s[i])
}

/// The parts of `parts` in order, with `sep` between each two neighbours.
pub open spec fn joined(parts: Seq<Seq<char>>, sep: Seq<char>) -> Seq<char>
    decreases parts.len(),
{
    if parts.len() == 0 {
        Seq::empty()
    } else if parts.len() == 1 {
        parts[0]
    } else {
        joined(parts.drop_last(), sep) + sep + parts.last()
    }
}

/// `s` with every space character replaced by a plus sign.
pub open spec fn plus_for_spaces(s: Seq<char>) -> Seq<char> {
    Seq::new(s.len(), |i: int| if s[i] == ' ' { '+' } else { s[i] })
}

/// The number of bytes that `s` takes in UTF-8.
pub open spec fn utf8_len(s: Seq<char>) -> nat {
    encode_utf8(s).len()
}

/// A run of `n` dashes.
pub open spec fn dashes(n: nat) -> Seq<char> {
    Seq::new(n, |i: int| '-')
}

/// Where the first `a` characters of `s` are whitespace and the one after
/// them, if any, is not, `trim_start` drops exactly those `a`.
pub proof fn lemma_trim_start_at(s: Seq<char>, a: int)
    requires
        0 <= a <= s.len(),
        forall|i: int| 0 <= i < a ==> is_space(#[trigger] s[i]),
        a < s.len() ==> !is_space(s[a]),
    ensures
        trim_start(s) == s.subrange(a, s.len() as int),
    decreases a,
{
    if a == 0 {
        assert(s.subrange(0, s.len() as int) =~= s);
    } else {
        let rest = s.drop_first();
        assert forall|i: int| 0 <= i < a - 1 implies is_space(#[trigger] rest[i]) by {
            assert(rest[i] == s[i + 1]);
        }
        lemma_trim_start_at(rest, a - 1);
        assert(rest.subrange(a - 1, rest.len() as int) =~= s.subrange(a, s.len() as int));
        assert(is_space(s[0]));
    }
}

/// Where the characters of `s` from `b` on are whitespace and the one before
/// them, if any, is not, `trim_end` keeps exactly the first `b`.
pub proof fn lemma_trim_end_at(s: Seq<char>, b: int)
    requires
        0 <= b <= s.len(),
        forall|i: int| b <= i < s.len() ==> is_space(#[trigger] s[i]),
        0 < b ==> !is_space(s[b - 1]),
    ensures
        trim_end(s) == s.subrange(0, b),
    decreases s.len() - b,
{
    if b == s.len() {
        assert(s.subrange(0, b) =~= s);
    } else {
        let rest = s.drop_last();
        assert forall|i: int| b <= i < rest.len() implies is_space(#[trigger] rest[i]) by {
            assert(rest[i] == s[i]);
        }
        lemma_trim_end_at(rest, b);
        assert(rest.subrange(0, b) =~= s.subrange(0, b));
        assert(is_space(s[s.len() - 1]));
    }
}

/// Trimming leaves a text that neither starts nor ends with whitespace, and
/// such a text is left as it is. A text is blank exactly when trimming
/// leaves nothing of it.
pub proof fn lemma_trimmed_is_trimmed(s: Seq<char>)
    ensures
        is_trimmed(trimmed(s)),
        is_trimmed(s) ==> trimmed(s) == s,
        is_blank(s) <==> trimmed(s).len() == 0,
{
    let (a, b) = lemma_trim_bounds(s);
    if is_blank(s) {
        if a < s.len() {
            assert(is_space(s[a]));
        }
    }
    if trimmed(s).len() == 0 {
        assert forall|i: int| 0 <= i < s.len() implies is_space(#[trigger] s[i]) by {
            if i < a {
            } else {
                assert(a == b);
            }
        }
    }
    if is_trimmed(s) && s.len() > 0 {
        if a > 0 {
            assert(is_space(s[0]));
        }
        if b < s.len() {
            assert(is_space(s[s.len() - 1]));
        }
        assert(s.subrange(0, s.len() as int) =~= s);
    }
}

/// The bounds of what trimming keeps: `trimmed(s)` is `s` from `a` up to
/// `b`, all before `a` and from `b` on is whitespace, and what lies between,
/// if anything, starts and ends with a character that is not.
pub proof fn lemma_trim_bounds(s: Seq<char>) -> (bounds: (int, int))
    ensures
        0 <= bounds.0 <= bounds.1 <= s.len(),
        trimmed(s) == s.subrange(bounds.0, bounds.1),
        forall|i: int| 0 <= i < bounds.0 ==> is_space(#[trigger] s[i]),
        forall|i: int| bounds.1 <= i < s.len() ==> is_space(#[trigger] s[i]),
        bounds.0 < bounds.1 ==> !is_space(s[bounds.0]) && !is_space(s[bounds.1 - 1]),
        bounds.0 == bounds.1 ==> bounds.0 == s.len(),
{
    let a = choose_start(s, 0);
    let b = choose_end(s, a, s.len() as int);
    lemma_trim_start_at(s, a);
    let t = s.subrange(a, s.len() as int);
    assert forall|i: int| b - a <= i < t.len() implies is_space(#[trigger] t[i]) by {
        assert(t[i] == s[i + a]);
    }
    if 0 < b - a {
        assert(t[b - a - 1] == s[b - 1]);
    }
    lemma_trim_end_at(t, b - a);
    assert(t.subrange(0, b - a) =~= s.subrange(a, b));
    (a, b)
}

/// The first index at or after `from` whose character is not whitespace, or
/// the length of `s` where there is none.
proof fn choose_start(s: Seq<char>, from: int) -> (a: int)
    requires
        0 <= from <= s.len(),
        forall|i: int| 0 <= i < from ==> is_space(#[trigger] s[i]),
    ensures
        from <= a <= s.len(),
        forall|i: int| 0 <= i < a ==> is_space(#[trigger] s[i]),
        a < s.len() ==> !is_space(s[a]),
    decreases s.len() - from,
{
    if from < s.len() && is_space(s[from]) {
        choose_start(s, from + 1)
    } else {
        from
    }
}

/// The end of the last stretch before `to` that does not end in whitespace,
/// never below `a`.
proof fn choose_end(s: Seq<char>, a: int, to: int) -> (b: int)
    requires
        0 <= a <= to <= s.len(),
        a < s.len() ==> !is_space(s[a]),
        forall|i: int| to <= i < s.len() ==> is_space(#[trigger] s[i]),
    ensures
        a <= b <= to,
        forall|i: int| b <= i < s.len() ==> is_space(#[trigger] s[i]),
        a < b ==> !is_space(s[b - 1]),
        a == b ==> a == s.len(),
    decreases to - a,
{
    if a < to && is_space(s[to - 1]) {
        choose_end(s, a, to - 1)
    } else {
        to
    }
}

/// Whether `c` is a whitespace character.
pub fn is_whitespace(c: char) -> (b: bool)
    ensures
        b == is_space(c),
{
    ('\u{9}' <= c && c <= '\u{d}') || c == ' ' || c == '\u{85}' || c == '\u{a0}' || c == '\u{1680}'
        || ('\u{2000}' <= c && c <= '\u{200a}') || c == '\u{2028}' || c == '\u{2029}' || c
        == '\u{202f}' || c == '\u{205f}' || c == '\u{3000}'
}

/// `String::push` of std: appends the one character `c` to the end of `text`
/// and changes nothing else.
#[verifier::external_body]
fn push_char(text: &mut String, c: char)
    ensures
        final(text)@ == old(text)@.push(c),
{
    text.push(c);
}

/// The characters of `s`, in order.
pub fn chars_of(s: &str) -> (chars: Vec<char>)
    ensures
        chars@ == s@,
{
    let mut chars: Vec<char> = Vec::new();
    for c in it: s.chars()
        invariant
            it.seq() == s@,
            chars@ == it.seq().take(it.index() as int),
    {
        chars.push(c);
    }
    chars
}

/// The text made of the characters of `chars` from index `from` up to `to`.
fn text_of(chars: &Vec<char>, from: usize, to: usize) -> (text: String)
    requires
        from <= to <= chars.len(),
    ensures
        text@ == chars@.subrange(from as int, to as int),
{
    let mut text = String::new();
    let mut i: usize = from;
    while i < to
        invariant
            from <= i <= to <= chars.len(),
            text@ == chars@.subrange(from as int, i as int),
        decreases to - i,
    {
        push_char(&mut text, chars[i]);
        assert(chars@.subrange(from as int, i as int).push(chars@[i as int])
            =~= chars@.subrange(from as int, i + 1));
        i += 1;
    }
    text
}

/// `s` without its leading and trailing whitespace.
pub fn trim(s: &str) -> (text: String)
    ensures
        text@ == trimmed(s@),
        is_trimmed(text@),
{
    let chars = chars_of(s);
    let n: usize = chars.len();
    let mut a: usize = 0;
    while a < n && is_whitespace(chars[a])
        invariant
            a <= n == chars.len(),
            forall|i: int| 0 <= i < a ==> is_space(#[trigger] chars@[i]),
        decreases n - a,
    {
        a += 1;
    }
    let mut b: usize = n;
    while b > a && is_whitespace(chars[b - 1])
        invariant
            a <= b <= n == chars.len(),
            forall|i: int| b <= i < n ==> is_space(#[trigger] chars@[i]),
        decreases b,
    {
        b -= 1;
    }
    proof {
        let tail = s@.subrange(a as int, n as int);
        lemma_trim_start_at(s@, a as int);
        assert forall|i: int| b - a <= i < tail.len() implies is_space(#[trigger] tail[i]) by {
            assert(tail[i] == s@[i + a]);
        }
        lemma_trim_end_at(tail, b - a);
        assert(tail.subrange(0, b - a) =~= s@.subrange(a as int, b as int));
        lemma_trimmed_is_trimmed(s@);
    }
    text_of(&chars, a, b)
}

/// Whether `s` holds nothing but whitespace, which is to say that trimming
/// it leaves nothing.
pub fn blank(s: &str) -> (b: bool)
    ensures
        b == is_blank(s@),
        b == (trimmed(s@).len() == 0),
{
    let chars = chars_of(s);
    let mut i: usize = 0;
    while i < chars.len()
        invariant
            i <= chars.len(),
            chars@ == s@,
            forall|k: int| 0 <= k < i ==> is_space(#[trigger] s@[k]),
        decreases chars.len() - i,
    {
        if !is_whitespace(chars[i]) {
            proof {
                assert(!is_space(s@[i as int]));
                lemma_trimmed_is_trimmed(s@);
            }
            return false;
        }
        i += 1;
    }
    proof {
        lemma_trimmed_is_trimmed(s@);
    }
    true
}

/// The texts of `parts` in order, with `sep` between each two neighbours.
pub fn join(parts: &Vec<String>, sep: &str) -> (text: String)
    ensures
        text@ == joined(parts.deep_view(), sep@),
{
    let mut text = String::new();
    let mut i: usize = 0;
    while i < parts.len()
        invariant
            i <= parts.len(),
            text@ == joined(parts.deep_view().take(i as int), sep@),
        decreases parts.len() - i,
    {
        if i > 0 {
            text.append(sep);
        }
        text.append(parts[i].as_str());
        proof {
            let all = parts.deep_view();
            let next = all.take(i + 1);
            assert(next.drop_last() =~= all.take(i as int));
            assert(next.last() == parts@[i as int]@);
            if i == 0 {
                assert(Seq::<char>::empty() + parts@[0]@ =~= parts@[0]@);
            }
        }
        i += 1;
    }
    assert(parts.deep_view().take(i as int) =~= parts.deep_view());
    text
}

/// `s` with every space character replaced by a plus sign.
pub fn replace_spaces(s: &str) -> (text: String)
    ensures
        text@ == plus_for_spaces(s@),
{
    let chars = chars_of(s);
    let mut text = String::new();
    let mut i: usize = 0;
    while i < chars.len()
        invariant
            i <= chars.len(),
            chars@ == s@,
            text@ == plus_for_spaces(s@).take(i as int),
        decreases chars.len() - i,
    {
        let c = chars[i];
        push_char(&mut text, if c == ' ' { '+' } else { c });
        assert(plus_for_spaces(s@).take(i as int).push(plus_for_spaces(s@)[i as int])
            =~= plus_for_spaces(s@).take(i + 1));
        i += 1;
    }
    assert(plus_for_spaces(s@).take(i as int) =~= plus_for_spaces(s@));
    text
}

/// The number of bytes that `s` takes in UTF-8.
pub fn byte_len(s: &str) -> (n: usize)
    ensures
        n == utf8_len(s@),
{
    s.as_bytes().len()
}

/// Appends `count` dashes to `line`.
pub fn push_dashes(line: &mut String, count: usize)
    ensures
        final(line)@ == old(line)@ + dashes(count as nat),
{
    let mut i: usize = 0;
    assert(line@ + dashes(0) =~= line@);
    while i < count
        invariant
            i <= count,
            line@ == old(line)@ + dashes(i as nat),
        decreases count - i,
    {
        push_char(line, '-');
        assert((old(line)@ + dashes(i as nat)).push('-') =~= old(line)@ + dashes((i + 1) as nat));
        i += 1;
    }
}

} // verus!
