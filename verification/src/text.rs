//! Small helpers over `&str` and `String`, stated over their views as `Seq<char>`.

use vstd::prelude::*;
use vstd::std_specs::iter::IteratorSpec;

verus! {

/// Specification assumed for `String::push` of the standard library: the
/// character is appended at the end and nothing else changes.
pub assume_specification[ std::string::String::push ](s: &mut std::string::String, c: char)
    ensures
        final(s)@ == old(s)@.push(c),
;

/// The characters of `s`, in order.
pub fn to_chars(s: &str) -> (out: Vec<char>)
    ensures
        out@ == s@,
{
    let mut out: Vec<char> = Vec::new();
    let mut it = s.chars();
    loop
        invariant
            it.obeys_prophetic_iter_laws(),
            out@ + it.remaining() == s@,
        decreases s@.len() - out@.len(),
    {
        match it.next() {
            Some(c) => {
                out.push(c);
                assert(out@ + it.remaining() =~= s@);
            },
            None => {
                assert(out@ =~= s@);
                return out;
            },
        }
    }
}

/// A string made of the characters `chars`, in order.
pub fn from_chars(chars: &Vec<char>) -> (out: String)
    ensures
        out@ == chars@,
{
    let mut out = String::new();
    let mut i: usize = 0;
    while i < chars.len()
        invariant
            i <= chars.len(),
            out@ == chars@.take(i as int),
        decreases chars.len() - i,
    {
        out.push(chars[i]);
        i += 1;
        assert(out@ =~= chars@.take(i as int));
    }
    assert(chars@.take(chars.len() as int) =~= chars@);
    out
}

/// Whether two character vectors hold the same characters.
pub fn chars_eq(a: &Vec<char>, b: &Vec<char>) -> (same: bool)
    ensures
        same == (a@ == b@),
{
    if a.len() != b.len() {
        return false;
    }
    let mut i: usize = 0;
    while i < a.len()
        invariant
            i <= a.len(),
            a.len() == b.len(),
            forall|j: int| 0 <= j < i ==> a@[j] == b@[j],
        decreases a.len() - i,
    {
        if a[i] != b[i] {
            return false;
        }
        i += 1;
    }
    assert(a@ =~= b@);
    true
}

/// Whether two strings hold the same characters.
pub fn str_eq(a: &str, b: &str) -> (same: bool)
    ensures
        same == (a@ == b@),
{
    let x = to_chars(a);
    let y = to_chars(b);
    chars_eq(&x, &y)
}

/// Whether `text` begins with `prefix`.
pub fn chars_start_with(text: &Vec<char>, prefix: &Vec<char>) -> (yes: bool)
    ensures
        yes == prefix@.is_prefix_of(text@),
{
    if prefix.len() > text.len() {
        return false;
    }
    let mut i: usize = 0;
    while i < prefix.len()
        invariant
            i <= prefix.len(),
            prefix.len() <= text.len(),
            forall|j: int| 0 <= j < i ==> prefix@[j] == text@[j],
        decreases prefix.len() - i,
    {
        if prefix[i] != text[i] {
            assert(prefix@[i as int] != text@.subrange(0, prefix@.len() as int)[i as int]);
            return false;
        }
        i += 1;
    }
    assert(prefix@ =~= text@.subrange(0, prefix@.len() as int));
    true
}

/// Whether `text` begins with `prefix`.
pub fn starts_with(text: &str, prefix: &str) -> (yes: bool)
    ensures
        yes == prefix@.is_prefix_of(text@),
{
    let t = to_chars(text);
    let p = to_chars(prefix);
    chars_start_with(&t, &p)
}

/// `a` followed by `b`.
pub fn join_pair(a: &str, b: &str) -> (out: String)
    ensures
        out@ == a@ + b@,
{
    let mut out = String::from_str(a);
    out.append(b);
    out
}

/// `text` with every occurrence of `from` replaced by `to`, found from left
/// to right without overlap. An empty `from` occurs nowhere.
pub open spec fn text_replaced(text: Seq<char>, from: Seq<char>, to: Seq<char>) -> Seq<char>
    decreases text.len(),
{
    if from.len() == 0 || text.len() < from.len() {
        text
    } else if from.is_prefix_of(text) {
        to + text_replaced(text.skip(from.len() as int), from, to)
    } else {
        seq![text[0]] + text_replaced(text.skip(1), from, to)
    }
}

/// Whether `pattern` stands in `text` at position `at`.
pub fn chars_match_at(text: &Vec<char>, at: usize, pattern: &Vec<char>) -> (yes: bool)
    requires
        at <= text.len(),
    ensures
        yes == pattern@.is_prefix_of(text@.skip(at as int)),
{
    let rest = text.len() - at;
    if pattern.len() > rest {
        return false;
    }
    let ghost tail = text@.skip(at as int);
    let mut i: usize = 0;
    while i < pattern.len()
        invariant
            i <= pattern.len(),
            at + pattern.len() <= text.len(),
            tail == text@.skip(at as int),
            forall|j: int| 0 <= j < i ==> pattern@[j] == tail[j],
        decreases pattern.len() - i,
    {
        if pattern[i] != text[at + i] {
            assert(tail[i as int] == text@[at + i]);
            assert(pattern@[i as int] != tail.subrange(0, pattern@.len() as int)[i as int]);
            return false;
        }
        assert(tail[i as int] == text@[at + i]);
        i += 1;
    }
    assert(pattern@ =~= tail.subrange(0, pattern@.len() as int));
    true
}

/// `text` with every occurrence of `from` replaced by `to`.
pub fn replace_text(text: &str, from: &str, to: &str) -> (out: String)
    ensures
        out@ == text_replaced(text@, from@, to@),
{
    let t = to_chars(text);
    let f = to_chars(from);
    let r = to_chars(to);
    if f.len() == 0 {
        return String::from_str(text);
    }
    let mut out: Vec<char> = Vec::new();
    let mut i: usize = 0;
    assert(t@.skip(0) =~= t@);
    while i < t.len()
        invariant
            i <= t.len(),
            f.len() > 0,
            out@ + text_replaced(t@.skip(i as int), f@, r@) == text_replaced(t@, f@, r@),
        decreases t.len() - i,
    {
        let ghost rest = t@.skip(i as int);
        let ghost before = out@;
        if chars_match_at(&t, i, &f) {
            let mut j: usize = 0;
            while j < r.len()
                invariant
                    j <= r.len(),
                    out@ == before + r@.take(j as int),
                decreases r.len() - j,
            {
                out.push(r[j]);
                j += 1;
                assert(out@ =~= before + r@.take(j as int));
            }
            proof {
                assert(r@.take(r.len() as int) =~= r@);
                assert(rest.skip(f.len() as int) =~= t@.skip(i + f.len()));
                assert(out@ + text_replaced(t@.skip(i + f.len()), f@, r@) =~= before
                    + text_replaced(rest, f@, r@));
            }
            i += f.len();
        } else {
            out.push(t[i]);
            proof {
                assert(rest.skip(1) =~= t@.skip(i + 1));
                assert(rest[0] == t@[i as int]);
                if rest.len() < f.len() {
                    // What is left is too short to hold `from`: it is copied as it is.
                    lemma_short_text_stays(rest.skip(1), f@, r@);
                    assert(seq![rest[0]] + rest.skip(1) =~= rest);
                }
                assert(out@ + text_replaced(t@.skip(i + 1), f@, r@) =~= before + text_replaced(
                    rest,
                    f@,
                    r@,
                ));
            }
            i += 1;
        }
    }
    proof {
        assert(t@.skip(t.len() as int) =~= Seq::<char>::empty());
        assert(out@ =~= text_replaced(t@, f@, r@));
    }
    from_chars(&out)
}

/// A text shorter than `from` holds no occurrence of it.
pub proof fn lemma_short_text_stays(text: Seq<char>, from: Seq<char>, to: Seq<char>)
    requires
        text.len() < from.len(),
    ensures
        text_replaced(text, from, to) == text,
{
}

/// Whether `text` ends with `suffix`.
pub fn chars_end_with(text: &Vec<char>, suffix: &Vec<char>) -> (yes: bool)
    ensures
        yes == suffix@.is_suffix_of(text@),
{
    if suffix.len() > text.len() {
        return false;
    }
    let at = text.len() - suffix.len();
    let yes = chars_match_at(text, at, suffix);
    proof {
        let tail = text@.skip(at as int);
        assert(tail =~= text@.subrange(at as int, text@.len() as int));
        assert(tail.subrange(0, suffix@.len() as int) =~= tail);
    }
    yes
}

/// Whether `text` ends with `suffix`.
pub fn ends_with(text: &str, suffix: &str) -> (yes: bool)
    ensures
        yes == suffix@.is_suffix_of(text@),
{
    let t = to_chars(text);
    let p = to_chars(suffix);
    chars_end_with(&t, &p)
}

/// The position of the first `c` in `text`, or the length of `text` when
/// `c` does not occur.
pub open spec fn first_position(text: Seq<char>, c: char) -> nat
    decreases text.len(),
{
    if text.len() == 0 || text[0] == c {
        0
    } else {
        1 + first_position(text.skip(1), c)
    }
}

/// A position that holds `c` and that no `c` precedes, or the length of a
/// text without `c`, is the first position of `c`.
pub proof fn lemma_first_position_unique(text: Seq<char>, c: char, k: int)
    requires
        0 <= k <= text.len(),
        forall|j: int| 0 <= j < k ==> text[j] != c,
        k < text.len() ==> text[k] == c,
    ensures
        first_position(text, c) == k,
    decreases text.len(),
{
    if text.len() > 0 && text[0] != c {
        let rest = text.skip(1);
        assert forall|j: int| 0 <= j < k - 1 implies rest[j] != c by {
            assert(rest[j] == text[j + 1]);
        }
        if k - 1 < rest.len() {
            assert(rest[k - 1] == text[k]);
        }
        lemma_first_position_unique(rest, c, k - 1);
    }
}

/// The position of the first `c` in `text`, or the length of `text`.
pub fn find_char(text: &Vec<char>, c: char) -> (at: usize)
    ensures
        at == first_position(text@, c),
        at <= text.len(),
{
    let mut i: usize = 0;
    while i < text.len()
        invariant
            i <= text.len(),
            forall|j: int| 0 <= j < i ==> text@[j] != c,
        decreases text.len() - i,
    {
        if text[i] == c {
            proof {
                lemma_first_position_unique(text@, c, i as int);
            }
            return i;
        }
        i += 1;
    }
    proof {
        lemma_first_position_unique(text@, c, i as int);
    }
    i
}

/// Whether `c` is white space: one of the code points that carry the
/// Unicode property White_Space, which is what `char::is_whitespace` of the
/// standard library goes by. They are the tab, the line feed, the vertical
/// tab, the form feed and the carriage return, the space, the next-line
/// mark, the no-break space, the Ogham space mark, the spaces from the en
/// quad to the hair space, the line and the paragraph separator, the narrow
/// no-break space, the medium mathematical space and the ideographic space.
pub open spec fn is_space(c: char) -> bool {
    let n: u32 = c as u32;
    (0x09 <= n <= 0x0D) || n == 0x20 || n == 0x85 || n == 0xA0 || n == 0x1680 || (0x2000 <= n
        <= 0x200A) || n == 0x2028 || n == 0x2029 || n == 0x202F || n == 0x205F || n == 0x3000
}

/// Number of white-space characters that `text` begins with.
pub open spec fn leading_spaces(text: Seq<char>) -> nat
    decreases text.len(),
{
    if text.len() > 0 && is_space(text[0]) {
        1 + leading_spaces(text.skip(1))
    } else {
        0
    }
}

/// Number of white-space characters that `text` ends with.
pub open spec fn trailing_spaces(text: Seq<char>) -> nat
    decreases text.len(),
{
    if text.len() > 0 && is_space(text.last()) {
        1 + trailing_spaces(text.drop_last())
    } else {
        0
    }
}

/// `text` without the white space at its two ends: what stands between the
/// white space it begins with and the white space it ends with, and nothing
/// when it is all white space.
pub open spec fn trimmed(text: Seq<char>) -> Seq<char> {
    if leading_spaces(text) >= text.len() {
        Seq::empty()
    } else {
        text.subrange(leading_spaces(text) as int, text.len() - trailing_spaces(text))
    }
}

/// `str::trim` of the standard library: the slice between leading and
/// trailing white space, where white space is what `char::is_whitespace`
/// says; what is left neither begins nor ends with white space.
#[verifier::external_body]
pub(crate) fn trim<'a>(text: &'a str) -> (out: &'a str)
    ensures
        out@ == trimmed(text@),
        out@.len() > 0 ==> !is_space(out@[0]) && !is_space(out@.last()),
{
    text.trim()
}

/// The strings joined by `separator`.
pub open spec fn joined_by(parts: Seq<Seq<char>>, separator: Seq<char>) -> Seq<char>
    decreases parts.len(),
{
    if parts.len() == 0 {
        Seq::empty()
    } else if parts.len() == 1 {
        parts[0]
    } else {
        joined_by(parts.drop_last(), separator) + separator + parts.last()
    }
}

/// The views of a vector of strings.
pub open spec fn views_of(v: Seq<String>) -> Seq<Seq<char>> {
    Seq::new(v.len(), |i: int| v[i]@)
}

/// The strings joined by `separator`.
pub fn join_strings(parts: &Vec<String>, separator: &str) -> (out: String)
    ensures
        out@ == joined_by(views_of(parts@), separator@),
{
    let ghost views = views_of(parts@);
    let mut out = String::new();
    let mut i: usize = 0;
    assert(views.take(0) =~= Seq::<Seq<char>>::empty());
    while i < parts.len()
        invariant
            i <= parts.len(),
            views == views_of(parts@),
            out@ == joined_by(views.take(i as int), separator@),
        decreases parts.len() - i,
    {
        if i > 0 {
            out.append(separator);
        }
        out.append(parts[i].as_str());
        proof {
            let t = views.take(i + 1);
            assert(t.drop_last() =~= views.take(i as int));
            assert(t.last() == parts@[i as int]@);
            if i == 0 {
                assert(out@ =~= t[0]);
            }
        }
        i += 1;
    }
    assert(views.take(parts.len() as int) =~= views);
    out
}

/// The digit of a number below ten.
pub open spec fn digit_of(d: nat) -> char {
    ('0' as u8 + d) as u8 as char
}

/// A number in decimal, without leading zeros.
pub open spec fn decimal_text(n: nat) -> Seq<char>
    decreases n,
{
    if n < 10 {
        seq![digit_of(n)]
    } else {
        decimal_text(n / 10).push(digit_of(n % 10))
    }
}

/// Appends a number in decimal.
pub fn write_decimal(n: u64, out: &mut String)
    ensures
        final(out)@ == old(out)@ + decimal_text(n as nat),
    decreases n,
{
    if n >= 10 {
        write_decimal(n / 10, out);
    }
    let digit = (('0' as u8) + ((n % 10) as u8)) as char;
    out.push(digit);
    assert(out@ =~= old(out)@ + decimal_text(n as nat));
}

/// A number in decimal.
pub fn decimal(n: u64) -> (out: String)
    ensures
        out@ == decimal_text(n as nat),
{
    let mut out = String::new();
    write_decimal(n, &mut out);
    assert(out@ =~= decimal_text(n as nat));
    out
}

} // verus!
