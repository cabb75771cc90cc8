//! Text as sequences of characters: comparison, search, replacement and decimal rendering.
//!
//! Every contract here is stated over `Seq<char>`, the view of `str` and `String`.

use vstd::prelude::*;
use vstd::string::StringExecFns;

verus! {

broadcast use vstd::string::group_string_axioms;

/// `needle` stands in `hay` at offset `i`.
pub open spec fn occurs_at(hay: Seq<char>, needle: Seq<char>, i: int) -> bool {
    0 <= i && i + needle.len() <= hay.len() && hay.subrange(i, i + needle.len()) == needle
}

/// `needle` stands somewhere in `hay`. The empty text occurs in every text.
pub open spec fn contains(hay: Seq<char>, needle: Seq<char>) -> bool {
    exists|i: int| occurs_at(hay, needle, i)
}

/// What a character of a sub-path becomes when the sub-path is folded into a file name: a
/// `/` and a blank each become the separator `-_-`, everything else stays.
pub open spec fn fold_char(c: char) -> Seq<char> {
    if c == '/' || c == ' ' {
        seq!['-', '_', '-']
    } else {
        seq![c]
    }
}

/// A sub-path folded into one path component, character by character.
pub open spec fn fold_path(p: Seq<char>) -> Seq<char>
    decreases p.len(),
{
    if p.len() == 0 {
        Seq::empty()
    } else {
        fold_char(p[0]) + fold_path(p.skip(1))
    }
}

/// `s` without the occurrences of `pat`, found from the left and not overlapping.
/// With an empty `pat` nothing is removed.
pub open spec fn remove_all(s: Seq<char>, pat: Seq<char>) -> Seq<char>
    decreases s.len(),
{
    if pat.len() == 0 || s.len() < pat.len() {
        s
    } else if occurs_at(s, pat, 0) {
        remove_all(s.skip(pat.len() as int), pat)
    } else {
        seq![s[0]] + remove_all(s.skip(1), pat)
    }
}

/// The view of a text that may be missing.
pub open spec fn optional_text(t: Option<String>) -> Option<Seq<char>> {
    match t {
        Some(t) => Some(t@),
        None => None,
    }
}

/// The decimal digit for `d`.
pub open spec fn digit(d: nat) -> char {
    if d == 0 {
        '0'
    } else if d == 1 {
        '1'
    } else if d == 2 {
        '2'
    } else if d == 3 {
        '3'
    } else if d == 4 {
        '4'
    } else if d == 5 {
        '5'
    } else if d == 6 {
        '6'
    } else if d == 7 {
        '7'
    } else if d == 8 {
        '8'
    } else {
        '9'
    }
}

/// `n` in decimal, without leading zeros.
pub open spec fn decimal(n: nat) -> Seq<char>
    decreases n,
{
    if n < 10 {
        seq![digit(n)]
    } else {
        decimal(n / 10).push(digit(n % 10))
    }
}

/// `i` in decimal, with a leading `-` when it is negative.
pub open spec fn signed_decimal(i: int) -> Seq<char> {
    if i < 0 {
        seq!['-'] + decimal((-i) as nat)
    } else {
        decimal(i as nat)
    }
}

/// `String::push`, which std documents as appending the given character to the end of the
/// string.
#[verifier::external_body]
pub(crate) fn push_char(s: &mut String, c: char)
    ensures
        final(s)@ == old(s)@.push(c),
{
    s.push(c)
}

/// The characters of `s`, in order.
pub fn chars_of(s: &str) -> (r: Vec<char>)
    ensures
        r@ == s@,
{
    let mut out: Vec<char> = Vec::new();
    for c in it: s.chars()
        invariant
            out@ == it.seq().take(it.index() as int),
            it.seq() == s@,
    {
        out.push(c);
    }
    out
}

/// Whether two texts hold the same characters.
pub fn str_eq(a: &str, b: &str) -> (r: bool)
    ensures
        r == (a@ == b@),
{
    let left = a.to_owned();
    let right = b.to_owned();
    left == right
}

/// Whether `needle` stands in `hay` at offset `i`.
pub fn occurs_at_in(hay: &Vec<char>, needle: &Vec<char>, i: usize) -> (r: bool)
    requires
        i + needle.len() <= hay.len(),
    ensures
        r == occurs_at(hay@, needle@, i as int),
{
    let n = needle.len();
    let mut j: usize = 0;
    while j < n
        invariant
            j <= n,
            n == needle.len(),
            i + n <= hay.len(),
            forall|k: int| 0 <= k < j ==> hay@[i + k] == needle@[k],
        decreases n - j,
    {
        if hay[i + j] != needle[j] {
            assert(hay@.subrange(i as int, i + n)[j as int] != needle@[j as int]);
            return false;
        }
        j += 1;
    }
    assert(hay@.subrange(i as int, i + n) =~= needle@);
    true
}

/// Whether `needle` stands somewhere in `hay`.
pub fn contains_chars(hay: &Vec<char>, needle: &Vec<char>) -> (r: bool)
    ensures
        r == contains(hay@, needle@),
{
    if needle.len() > hay.len() {
        return false;
    }
    let last: usize = hay.len() - needle.len();
    let mut i: usize = 0;
    while i < last
        invariant
            i <= last,
            last == hay.len() - needle.len(),
            forall|k: int| 0 <= k < i ==> !occurs_at(hay@, needle@, k),
        decreases last - i,
    {
        if occurs_at_in(hay, needle, i) {
            return true;
        }
        i += 1;
    }
    occurs_at_in(hay, needle, last)
}

/// Whether `needle` stands somewhere in `hay`.
pub fn str_contains(hay: &str, needle: &str) -> (r: bool)
    ensures
        r == contains(hay@, needle@),
{
    let h = chars_of(hay);
    let n = chars_of(needle);
    contains_chars(&h, &n)
}

/// Folds a sub-path into one path component: see [`fold_path`].
pub fn fold_sub_path(path: &str) -> (r: String)
    ensures
        r@ == fold_path(path@),
{
    let p = chars_of(path);
    let mut out = String::new();
    let mut i: usize = 0;
    assert(p@.skip(0) =~= p@);
    while i < p.len()
        invariant
            i <= p.len(),
            fold_path(p@) == out@ + fold_path(p@.skip(i as int)),
        decreases p.len() - i,
    {
        let c = p[i];
        let ghost before = out@;
        let ghost rest = p@.skip(i as int);
        assert(rest.skip(1) =~= p@.skip(i + 1));
        assert(rest[0] == c);
        if c == '/' || c == ' ' {
            push_char(&mut out, '-');
            push_char(&mut out, '_');
            push_char(&mut out, '-');
        } else {
            push_char(&mut out, c);
        }
        assert(out@ =~= before + fold_char(c));
        assert(before + (fold_char(c) + fold_path(rest.skip(1))) =~= (before + fold_char(c))
            + fold_path(rest.skip(1)));
        i += 1;
    }
    assert(out@ + Seq::<char>::empty() =~= out@);
    out
}

/// `s` without the occurrences of `pat`: see [`remove_all`].
pub fn remove_occurrences(s: &str, pat: &str) -> (r: String)
    ensures
        r@ == remove_all(s@, pat@),
{
    let text = chars_of(s);
    let p = chars_of(pat);
    if p.len() == 0 {
        return s.to_owned();
    }
    let mut out = String::new();
    let mut i: usize = 0;
    assert(text@.skip(0) =~= text@);
    while i < text.len()
        invariant
            i <= text.len(),
            p.len() > 0,
            remove_all(text@, p@) == out@ + remove_all(text@.skip(i as int), p@),
        decreases text.len() - i,
    {
        let ghost before = out@;
        let ghost rest = text@.skip(i as int);
        if text.len() - i >= p.len() && occurs_at_in(&text, &p, i) {
            assert(rest.subrange(0, p@.len() as int) =~= text@.subrange(i as int, i + p@.len()));
            assert(occurs_at(rest, p@, 0));
            assert(rest.skip(p@.len() as int) =~= text@.skip(i + p@.len()));
            i += p.len();
        } else {
            assert(rest.len() >= p@.len() ==> !occurs_at(rest, p@, 0)) by {
                if rest.len() >= p@.len() {
                    assert(rest.subrange(0, p@.len() as int) =~= text@.subrange(
                        i as int,
                        i + p@.len(),
                    ));
                }
            }
            assert(rest.skip(1) =~= text@.skip(i + 1));
            push_char(&mut out, text[i]);
            proof {
                if rest.len() < p@.len() {
                    lemma_remove_all_short(rest.skip(1), p@);
                    assert(seq![rest[0]] + rest.skip(1) =~= rest);
                }
            }
            assert(before + (seq![rest[0]] + remove_all(rest.skip(1), p@)) =~= before.push(
                rest[0],
            ) + remove_all(rest.skip(1), p@));
            i += 1;
        }
    }
    assert(out@ + Seq::<char>::empty() =~= out@);
    out
}

/// A text shorter than the pattern holds no occurrence of it.
pub proof fn lemma_remove_all_short(s: Seq<char>, pat: Seq<char>)
    requires
        s.len() < pat.len(),
    ensures
        remove_all(s, pat) == s,
{
}

/// The decimal digit for `d`.
pub fn digit_char(d: u64) -> (c: char)
    requires
        d < 10,
    ensures
        c == digit(d as nat),
{
    if d == 0 {
        '0'
    } else if d == 1 {
        '1'
    } else if d == 2 {
        '2'
    } else if d == 3 {
        '3'
    } else if d == 4 {
        '4'
    } else if d == 5 {
        '5'
    } else if d == 6 {
        '6'
    } else if d == 7 {
        '7'
    } else if d == 8 {
        '8'
    } else {
        '9'
    }
}

/// `n` in decimal, without leading zeros.
pub fn u64_to_string(n: u64) -> (r: String)
    ensures
        r@ == decimal(n as nat),
    decreases n,
{
    if n < 10 {
        let mut s = String::new();
        push_char(&mut s, digit_char(n));
        assert(s@ =~= seq![digit(n as nat)]);
        s
    } else {
        let mut s = u64_to_string(n / 10);
        push_char(&mut s, digit_char(n % 10));
        s
    }
}

/// `n` in decimal, without leading zeros.
pub fn u32_to_string(n: u32) -> (r: String)
    ensures
        r@ == decimal(n as nat),
{
    u64_to_string(n as u64)
}

/// `i` in decimal, with a leading `-` when it is negative.
pub fn i64_to_string(i: i64) -> (r: String)
    ensures
        r@ == signed_decimal(i as int),
{
    if i < 0 {
        let magnitude: u64 = ((-(i + 1)) as u64) + 1;
        let digits = u64_to_string(magnitude);
        let mut s = String::new();
        push_char(&mut s, '-');
        s.append(digits.as_str());
        assert(s@ =~= seq!['-'] + decimal((-i) as nat));
        s
    } else {
        u64_to_string(i as u64)
    }
}

/// Whether `c` is a decimal digit.
pub open spec fn is_digit(c: char) -> bool {
    '0' <= c <= '9'
}

/// The number that the decimal digit `c` stands for.
pub open spec fn digit_value(c: char) -> nat {
    (c as u32 - '0' as u32) as nat
}

/// The number that the decimal digits `s` stand for; 0 for no digits.
pub open spec fn digits_value(s: Seq<char>) -> nat
    decreases s.len(),
{
    if s.len() == 0 {
        0
    } else {
        digits_value(s.drop_last()) * 10 + digit_value(s.last())
    }
}

/// Whether `s` holds decimal digits only.
pub open spec fn all_digits(s: Seq<char>) -> bool {
    forall|i: int| 0 <= i < s.len() ==> is_digit(#[trigger] s[i])
}

/// `s` without a leading `+`.
pub open spec fn unsigned_part(s: Seq<char>) -> Seq<char> {
    if s.len() > 0 && s[0] == '+' {
        s.skip(1)
    } else {
        s
    }
}

/// The number below 2^32 that `s` writes in decimal: one digit or more after at most one
/// `+`, with any number of leading zeros. `None` for any other text.
pub open spec fn parsed_u32(s: Seq<char>) -> Option<u32> {
    let body = unsigned_part(s);
    if body.len() == 0 || !all_digits(body) || digits_value(body) > u32::MAX {
        None
    } else {
        Some(digits_value(body) as u32)
    }
}

/// The number that digits stand for is at least the number that any of their prefixes
/// stands for.
pub proof fn lemma_digits_grow(s: Seq<char>, i: int)
    requires
        0 <= i <= s.len(),
    ensures
        digits_value(s.take(i)) <= digits_value(s),
    decreases s.len() - i,
{
    if i == s.len() {
        assert(s.take(i) =~= s);
    } else {
        lemma_digits_grow(s, i + 1);
        assert(s.take(i + 1).drop_last() =~= s.take(i));
    }
}

/// The number below 2^32 that `s` writes in decimal: see [`parsed_u32`].
pub fn parse_u32(s: &str) -> (r: Option<u32>)
    ensures
        r == parsed_u32(s@),
{
    let chars = chars_of(s);
    let start: usize = if chars.len() > 0 && chars[0] == '+' {
        1
    } else {
        0
    };
    let ghost body = unsigned_part(s@);
    if chars.len() == start {
        return None;
    }
    let mut acc: u64 = 0;
    let mut i: usize = start;
    assert(body.take(0) =~= Seq::<char>::empty());
    while i < chars.len()
        invariant
            start <= i <= chars.len(),
            start <= 1,
            chars@ == s@,
            body == unsigned_part(s@),
            body == chars@.skip(start as int),
            acc == digits_value(body.take(i - start)),
            acc <= u32::MAX,
            forall|k: int| 0 <= k < i - start ==> is_digit(#[trigger] body[k]),
        decreases chars.len() - i,
    {
        let c = chars[i];
        assert(body[i - start] == c);
        if !(c >= '0' && c <= '9') {
            return None;
        }
        let d: u64 = (c as u32 - '0' as u32) as u64;
        acc = acc * 10 + d;
        proof {
            assert(body.take(i - start + 1).drop_last() =~= body.take(i - start));
            assert(body.take(i - start + 1).last() == c);
        }
        if acc > u32::MAX as u64 {
            proof {
                lemma_digits_grow(body, i - start + 1);
            }
            return None;
        }
        i += 1;
    }
    assert(body.take(body.len() as int) =~= body);
    Some(acc as u32)
}

/// A folded sub-path read back: each `-_-` becomes a `/`, found from the left, and
/// everything else stays.
pub open spec fn unfold_path(s: Seq<char>) -> Seq<char>
    decreases s.len(),
{
    if s.len() == 0 {
        Seq::empty()
    } else if s.len() >= 3 && s[0] == '-' && s[1] == '_' && s[2] == '-' {
        seq!['/'] + unfold_path(s.skip(3))
    } else {
        seq![s[0]] + unfold_path(s.skip(1))
    }
}

/// `p` holds no `c`.
pub open spec fn without(p: Seq<char>, c: char) -> bool {
    forall|i: int| 0 <= i < p.len() ==> #[trigger] p[i] != c
}

/// A sub-path that folding does not blur: it holds neither a blank nor a `_`.
pub open spec fn is_plain_path(p: Seq<char>) -> bool {
    without(p, ' ') && without(p, '_')
}

/// `p` with a `/` for each blank: the sub-path as far as its folded form tells it.
pub open spec fn slashed(p: Seq<char>) -> Seq<char> {
    p.map_values(|c: char| if c == ' ' { '/' } else { c })
}

/// A folded sub-path holds neither a `/` nor a blank.
pub proof fn lemma_fold_is_one_component(p: Seq<char>)
    ensures
        without(fold_path(p), '/'),
        without(fold_path(p), ' '),
    decreases p.len(),
{
    if p.len() > 0 {
        let rest = p.skip(1);
        lemma_fold_is_one_component(rest);
        let head = fold_char(p[0]);
        let tail = fold_path(rest);
        assert forall|i: int| 0 <= i < fold_path(p).len() implies #[trigger] fold_path(p)[i] != '/'
            && fold_path(p)[i] != ' ' by {
            if i < head.len() {
                assert(fold_path(p)[i] == head[i]);
            } else {
                assert(fold_path(p)[i] == tail[i - head.len()]);
            }
        }
    }
}

/// The folded form of a sub-path without `_` does not start with `_`, and is empty only
/// for the empty sub-path.
pub proof fn lemma_fold_starts_plain(p: Seq<char>)
    requires
        without(p, '_'),
    ensures
        fold_path(p).len() > 0 ==> fold_path(p)[0] != '_',
        p.len() > 0 ==> fold_path(p).len() > 0,
{
    if p.len() > 0 {
        assert(p[0] != '_');
    }
}

/// A sub-path without `_` is read back from its folded form, up to its blanks, which come
/// back as `/`: folding loses nothing else of it.
pub proof fn lemma_fold_round_trip(p: Seq<char>)
    requires
        without(p, '_'),
    ensures
        unfold_path(fold_path(p)) == slashed(p),
        without(p, ' ') ==> unfold_path(fold_path(p)) == p,
    decreases p.len(),
{
    if p.len() == 0 {
        assert(slashed(p) =~= p);
    } else {
        let rest = p.skip(1);
        assert(without(rest, '_')) by {
            assert forall|i: int| 0 <= i < rest.len() implies #[trigger] rest[i] != '_' by {
                assert(rest[i] == p[i + 1]);
            }
        }
        lemma_fold_round_trip(rest);
        lemma_fold_starts_plain(rest);
        let folded = fold_path(p);
        let tail = fold_path(rest);
        assert(p[0] != '_');
        if p[0] == '/' || p[0] == ' ' {
            assert(folded =~= seq!['-', '_', '-'] + tail);
            assert(folded.skip(3) =~= tail);
            assert(seq!['/'] + slashed(rest) =~= slashed(p));
        } else {
            assert(folded =~= seq![p[0]] + tail);
            assert(folded.skip(1) =~= tail);
            if folded.len() >= 3 && folded[0] == '-' && folded[1] == '_' {
                assert(folded[1] == tail[0]);
            }
            assert(seq![p[0]] + slashed(rest) =~= slashed(p));
        }
        if without(p, ' ') {
            assert(slashed(p) =~= p);
        }
    }
}

/// Two sub-paths without `_` that have the same folded form are the same sub-path up to
/// their blanks, and the same sub-path where neither holds a blank.
pub proof fn lemma_fold_unique(p: Seq<char>, q: Seq<char>)
    requires
        without(p, '_'),
        without(q, '_'),
        fold_path(p) == fold_path(q),
    ensures
        slashed(p) == slashed(q),
        is_plain_path(p) && is_plain_path(q) ==> p == q,
{
    lemma_fold_round_trip(p);
    lemma_fold_round_trip(q);
}

} // verus!
