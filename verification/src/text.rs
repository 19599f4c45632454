//! Character-level text utilities: conversions between strings and character
//! vectors, splitting, line extraction and unsigned decimal parsing.

use vstd::prelude::*;
use vstd::string::*;

verus! {

/// Appends one character to a string (`String::push`).
#[verifier::external_body]
pub(crate) fn push_char(s: &mut String, c: char)
    ensures
        final(s)@ == old(s)@.push(c),
{
    s.push(c);
}

/// The characters of a string slice, in order.
pub fn chars_of(s: &str) -> (v: Vec<char>)
    ensures
        v@ == s@,
{
    let n = s.unicode_len();
    let mut v: Vec<char> = Vec::new();
    let mut i: usize = 0;
    while i < n
        invariant
            n == s@.len(),
            i <= n,
            v@ == s@.take(i as int),
        decreases n - i,
    {
        let c = s.get_char(i);
        v.push(c);
        i += 1;
        assert(v@ =~= s@.take(i as int));
    }
    assert(v@ =~= s@);
    v
}

/// A string holding the given characters.
pub fn string_of(v: &Vec<char>) -> (s: String)
    ensures
        s@ == v@,
{
    let mut s = String::new();
    let mut i: usize = 0;
    while i < v.len()
        invariant
            i <= v.len(),
            s@ == v@.take(i as int),
        decreases v.len() - i,
    {
        push_char(&mut s, v[i]);
        i += 1;
        assert(s@ =~= v@.take(i as int));
    }
    assert(s@ =~= v@);
    s
}

/// A string that is the concatenation of `a` and `b`.
pub fn concat2(a: &str, b: &str) -> (s: String)
    ensures
        s@ == a@ + b@,
{
    let mut s = String::from_str(a);
    s.append(b);
    s
}

/// A string that is the concatenation of `a`, `b` and `c`.
pub fn concat3(a: &str, b: &str, c: &str) -> (s: String)
    ensures
        s@ == a@ + b@ + c@,
{
    let mut s = String::from_str(a);
    s.append(b);
    s.append(c);
    s
}

/// Whether two string slices hold the same characters.
pub fn str_eq(a: &str, b: &str) -> (r: bool)
    ensures
        r == (a@ == b@),
{
    let n = a.unicode_len();
    let m = b.unicode_len();
    if n != m {
        return false;
    }
    let mut i: usize = 0;
    while i < n
        invariant
            n == a@.len(),
            m == b@.len(),
            n == m,
            i <= n,
            forall|k: int| 0 <= k < i ==> a@[k] == b@[k],
        decreases n - i,
    {
        if a.get_char(i) != b.get_char(i) {
            return false;
        }
        i += 1;
    }
    assert(a@ =~= b@);
    true
}

/// Whether `c` is an ASCII decimal digit.
pub open spec fn is_digit(c: char) -> bool {
    48 <= (c as u32) && (c as u32) <= 57
}

/// The number written by a sequence of decimal digits (0 for no digits).
pub open spec fn digits_value(d: Seq<char>) -> nat
    decreases d.len(),
{
    if d.len() == 0 {
        0
    } else {
        digits_value(d.drop_last()) * 10 + (((d.last() as u32) - 48) as nat)
    }
}

/// The digit part of an unsigned number: one leading `+` is allowed.
pub open spec fn unsigned_digits(s: Seq<char>) -> Seq<char> {
    if s.len() > 0 && s[0] == '+' {
        s.drop_first()
    } else {
        s
    }
}

/// What `u32::from_str` gives: an optional `+` followed by at least one
/// decimal digit, with a value that fits in 32 bits.
pub open spec fn spec_parse_u32(s: Seq<char>) -> Option<u32> {
    let d = unsigned_digits(s);
    if d.len() > 0 && (forall|i: int| 0 <= i < d.len() ==> is_digit(#[trigger] d[i]))
        && digits_value(d) <= u32::MAX {
        Some(digits_value(d) as u32)
    } else {
        None
    }
}

/// Parses an unsigned 32-bit decimal number.
pub fn parse_u32(s: &Vec<char>) -> (r: Option<u32>)
    ensures
        r == spec_parse_u32(s@),
{
    let n = s.len();
    let start: usize = if n > 0 && s[0] == '+' {
        1
    } else {
        0
    };
    let ghost d = unsigned_digits(s@);
    assert(d =~= s@.skip(start as int));
    if start == n {
        return None;
    }
    let mut acc: u64 = 0;
    let mut over = false;
    let mut i: usize = start;
    assert(s@.subrange(start as int, start as int) =~= Seq::<char>::empty());
    while i < n
        invariant
            start <= i <= n,
            n == s@.len(),
            d == s@.skip(start as int),
            d == unsigned_digits(s@),
            forall|k: int| start <= k < i ==> is_digit(#[trigger] s@[k]),
            !over ==> acc == digits_value(s@.subrange(start as int, i as int)) && acc
                <= u32::MAX,
            over ==> digits_value(s@.subrange(start as int, i as int)) > u32::MAX,
        decreases n - i,
    {
        let c = s[i];
        let code = #[verifier::truncate] (c as u32);
        if !(48 <= code && code <= 57) {
            assert(d[i - start] == s@[i as int]);
            assert(!is_digit(d[i - start]));
            assert(!(forall|k: int| 0 <= k < d.len() ==> is_digit(#[trigger] d[k])));
            return None;
        }
        proof {
            assert(s@.subrange(start as int, i + 1).drop_last() =~= s@.subrange(
                start as int,
                i as int,
            ));
            assert(s@.subrange(start as int, i + 1).last() == c);
        }
        if !over {
            let v: u64 = acc * 10 + ((code - 48) as u64);
            if v > 0xffff_ffffu64 {
                over = true;
            } else {
                acc = v;
            }
        }
        i += 1;
    }
    assert(s@.subrange(start as int, n as int) =~= d);
    assert(forall|k: int| 0 <= k < d.len() ==> d[k] == s@[k + start]);
    if over {
        None
    } else {
        Some(acc as u32)
    }
}

/// The pieces of `s` between occurrences of `sep`, scanning from the left;
/// `cur` is the piece collected so far.
pub open spec fn split_from(s: Seq<char>, sep: char, cur: Seq<char>) -> Seq<Seq<char>>
    decreases s.len(),
{
    if s.len() == 0 {
        seq![cur]
    } else if s[0] == sep {
        seq![cur] + split_from(s.drop_first(), sep, seq![])
    } else {
        split_from(s.drop_first(), sep, cur.push(s[0]))
    }
}

/// What `str::split(sep)` yields for a character separator: every piece
/// between separators, empty pieces included, and always at least one piece.
pub open spec fn split_char_spec(s: Seq<char>, sep: char) -> Seq<Seq<char>> {
    split_from(s, sep, seq![])
}

/// Splits a character sequence at every occurrence of `sep`.
pub fn split_char(s: &Vec<char>, sep: char) -> (parts: Vec<Vec<char>>)
    ensures
        parts@.len() == split_char_spec(s@, sep).len(),
        forall|k: int| 0 <= k < parts@.len() ==> #[trigger] parts@[k]@ == split_char_spec(s@, sep)[k],
{
    let mut parts: Vec<Vec<char>> = Vec::new();
    let mut cur: Vec<char> = Vec::new();
    let mut i: usize = 0;
    let ghost whole = split_char_spec(s@, sep);
    let ghost done: Seq<Seq<char>> = seq![];
    assert(s@.skip(0) =~= s@);
    while i < s.len()
        invariant
            i <= s.len(),
            parts@.len() == done.len(),
            forall|k: int| 0 <= k < parts@.len() ==> #[trigger] parts@[k]@ == done[k],
            done + split_from(s@.skip(i as int), sep, cur@) == whole,
        decreases s.len() - i,
    {
        let c = s[i];
        assert(s@.skip(i as int).drop_first() =~= s@.skip(i + 1));
        if c == sep {
            proof {
                done = done.push(cur@);
                assert(seq![cur@] + split_from(s@.skip(i + 1), sep, seq![]) == split_from(
                    s@.skip(i as int),
                    sep,
                    cur@,
                ));
                assert(done + split_from(s@.skip(i + 1), sep, seq![]) =~= done.drop_last() + (
                seq![cur@] + split_from(s@.skip(i + 1), sep, seq![])));
            }
            parts.push(cur);
            cur = Vec::new();
            assert(cur@ =~= Seq::<char>::empty());
        } else {
            cur.push(c);
        }
        i += 1;
    }
    proof {
        assert(split_from(s@.skip(i as int), sep, cur@) == seq![cur@]);
        done = done.push(cur@);
        assert(done =~= whole);
    }
    parts.push(cur);
    parts
}

/// Whether `c` is white space in the sense of `char::is_whitespace`
/// (the Unicode `White_Space` property).
pub open spec fn is_white_space(c: char) -> bool {
    let u = c as u32;
    ||| 0x09 <= u && u <= 0x0d
    ||| u == 0x20
    ||| u == 0x85
    ||| u == 0xa0
    ||| u == 0x1680
    ||| 0x2000 <= u && u <= 0x200a
    ||| u == 0x2028
    ||| u == 0x2029
    ||| u == 0x202f
    ||| u == 0x205f
    ||| u == 0x3000
}

/// Executable form of [`is_white_space`].
pub fn is_white_space_char(c: char) -> (r: bool)
    ensures
        r == is_white_space(c),
{
    let u = c as u32;
    (0x09 <= u && u <= 0x0d) || u == 0x20 || u == 0x85 || u == 0xa0 || u == 0x1680 || (0x2000 <= u
        && u <= 0x200a) || u == 0x2028 || u == 0x2029 || u == 0x202f || u == 0x205f || u == 0x3000
}

/// The piece collected so far, as a list of at most one word.
pub open spec fn pending_word(cur: Seq<char>) -> Seq<Seq<char>> {
    if cur.len() > 0 {
        seq![cur]
    } else {
        seq![]
    }
}

/// The words of `s` (maximal runs of non-white-space characters), scanning
/// from the left; `cur` is the word collected so far.
pub open spec fn words_from(s: Seq<char>, cur: Seq<char>) -> Seq<Seq<char>>
    decreases s.len(),
{
    if s.len() == 0 {
        pending_word(cur)
    } else if is_white_space(s[0]) {
        pending_word(cur) + words_from(s.drop_first(), seq![])
    } else {
        words_from(s.drop_first(), cur.push(s[0]))
    }
}

/// What `str::split_whitespace` yields.
pub open spec fn words_spec(s: Seq<char>) -> Seq<Seq<char>> {
    words_from(s, seq![])
}

/// Splits a character sequence into its white-space separated words.
pub fn split_words(s: &Vec<char>) -> (words: Vec<Vec<char>>)
    ensures
        words@.len() == words_spec(s@).len(),
        forall|k: int| 0 <= k < words@.len() ==> #[trigger] words@[k]@ == words_spec(s@)[k],
{
    let mut words: Vec<Vec<char>> = Vec::new();
    let mut cur: Vec<char> = Vec::new();
    let mut i: usize = 0;
    let ghost whole = words_spec(s@);
    let ghost done: Seq<Seq<char>> = seq![];
    assert(s@.skip(0) =~= s@);
    while i < s.len()
        invariant
            i <= s.len(),
            words@.len() == done.len(),
            forall|k: int| 0 <= k < words@.len() ==> #[trigger] words@[k]@ == done[k],
            done + words_from(s@.skip(i as int), cur@) == whole,
        decreases s.len() - i,
    {
        let c = s[i];
        assert(s@.skip(i as int).drop_first() =~= s@.skip(i + 1));
        if is_white_space_char(c) {
            if cur.len() > 0 {
                proof {
                    done = done.push(cur@);
                    assert(done + words_from(s@.skip(i + 1), seq![]) =~= done.drop_last() + (
                    pending_word(cur@) + words_from(s@.skip(i + 1), seq![])));
                }
                words.push(cur);
            } else {
                assert(pending_word(cur@) =~= Seq::<Seq<char>>::empty());
                assert(done + words_from(s@.skip(i + 1), seq![]) =~= done + (pending_word(cur@)
                    + words_from(s@.skip(i + 1), seq![])));
            }
            cur = Vec::new();
            assert(cur@ =~= Seq::<char>::empty());
        } else {
            cur.push(c);
        }
        i += 1;
    }
    proof {
        assert(words_from(s@.skip(i as int), cur@) == pending_word(cur@));
    }
    if cur.len() > 0 {
        proof {
            done = done.push(cur@);
            assert(done =~= whole);
        }
        words.push(cur);
    } else {
        assert(done =~= whole);
    }
    words
}

/// Removes one trailing carriage return.
pub open spec fn strip_cr(l: Seq<char>) -> Seq<char> {
    if l.len() > 0 && l.last() == '\r' {
        l.drop_last()
    } else {
        l
    }
}

/// The first line of `s`, scanning from the left; `cur` is the part read so far.
pub open spec fn line_from(s: Seq<char>, cur: Seq<char>) -> Seq<char>
    decreases s.len(),
{
    if s.len() == 0 {
        cur
    } else if s[0] == '\n' {
        strip_cr(cur)
    } else {
        line_from(s.drop_first(), cur.push(s[0]))
    }
}

/// What `str::lines().next()` gives: nothing for an empty string, otherwise
/// the text up to the first line feed, without a carriage return right
/// before that line feed.
pub open spec fn first_line_spec(s: Seq<char>) -> Option<Seq<char>> {
    if s.len() == 0 {
        None
    } else {
        Some(line_from(s, seq![]))
    }
}

/// The first line of a character sequence.
pub fn first_line(s: &Vec<char>) -> (r: Option<Vec<char>>)
    ensures
        r is Some == first_line_spec(s@) is Some,
        r matches Some(l) ==> l@ == first_line_spec(s@)->0,
{
    if s.len() == 0 {
        return None;
    }
    let mut cur: Vec<char> = Vec::new();
    let mut i: usize = 0;
    assert(s@.skip(0) =~= s@);
    while i < s.len()
        invariant
            i <= s.len(),
            s@.len() > 0,
            line_from(s@.skip(i as int), cur@) == first_line_spec(s@)->0,
        decreases s.len() - i,
    {
        let c = s[i];
        assert(s@.skip(i as int).drop_first() =~= s@.skip(i + 1));
        if c == '\n' {
            let m = cur.len();
            let ghost before = cur@;
            if m > 0 && cur[m - 1] == '\r' {
                cur.pop();
                assert(cur@ =~= strip_cr(before));
            } else {
                assert(cur@ =~= strip_cr(before));
            }
            return Some(cur);
        }
        cur.push(c);
        i += 1;
    }
    Some(cur)
}

/// The decimal digit character for `d`, where `d < 10`.
pub open spec fn digit_char(d: nat) -> char {
    ((48 + d) as u32) as char
}

/// The decimal notation of `n`, without leading zeros.
pub open spec fn decimal_spec(n: nat) -> Seq<char>
    decreases n,
{
    if n < 10 {
        seq![digit_char(n)]
    } else {
        decimal_spec(n / 10).push(digit_char(n % 10))
    }
}

fn digit_of(d: u32) -> (c: char)
    requires
        d < 10,
    ensures
        c == digit_char(d as nat),
{
    match d {
        0 => '0',
        1 => '1',
        2 => '2',
        3 => '3',
        4 => '4',
        5 => '5',
        6 => '6',
        7 => '7',
        8 => '8',
        _ => '9',
    }
}

/// The decimal notation of a 32-bit number, as `u32::to_string` writes it.
pub fn u32_to_decimal(n: u32) -> (r: String)
    ensures
        r@ == decimal_spec(n as nat),
    decreases n,
{
    if n < 10 {
        let mut s = String::new();
        push_char(&mut s, digit_of(n));
        s
    } else {
        let mut s = u32_to_decimal(n / 10);
        push_char(&mut s, digit_of(n % 10));
        s
    }
}

/// Appends a copy of `s` to a list of strings.
pub fn push_text(v: &mut Vec<String>, s: &str)
    ensures
        final(v).deep_view() == old(v).deep_view().push(s@),
{
    let ghost before = v.deep_view();
    v.push(String::from_str(s));
    assert(v.deep_view() =~= before.push(s@));
}

/// Appends `s` to a list of strings.
pub fn push_string(v: &mut Vec<String>, s: String)
    ensures
        final(v).deep_view() == old(v).deep_view().push(s@),
{
    let ghost before = v.deep_view();
    let ghost sv = s@;
    v.push(s);
    assert(v.deep_view() =~= before.push(sv));
}

/// Splits a string at every occurrence of `sep`, as `str::split` does.
pub fn split_text(s: &str, sep: char) -> (r: Vec<String>)
    ensures
        r.deep_view() == split_char_spec(s@, sep),
{
    let cs = chars_of(s);
    let parts = split_char(&cs, sep);
    let ghost whole = split_char_spec(s@, sep);
    let mut out: Vec<String> = Vec::new();
    let mut i: usize = 0;
    while i < parts.len()
        invariant
            i <= parts@.len(),
            parts@.len() == whole.len(),
            forall|k: int| 0 <= k < parts@.len() ==> #[trigger] parts@[k]@ == whole[k],
            out.deep_view() == whole.take(i as int),
        decreases parts.len() - i,
    {
        let piece = string_of(&parts[i]);
        push_string(&mut out, piece);
        i += 1;
        assert(out.deep_view() =~= whole.take(i as int));
    }
    assert(whole.take(i as int) =~= whole);
    out
}

/// `s` with every `from` character replaced by `to`.
pub open spec fn replace_char_spec(s: Seq<char>, from: char, to: char) -> Seq<char> {
    Seq::new(s.len(), |i: int| if s[i] == from { to } else { s[i] })
}

/// Replaces every `from` character of a string by `to`.
pub fn replace_char(s: &str, from: char, to: char) -> (r: String)
    ensures
        r@ == replace_char_spec(s@, from, to),
{
    let cs = chars_of(s);
    let mut out: Vec<char> = Vec::new();
    let mut i: usize = 0;
    while i < cs.len()
        invariant
            i <= cs@.len(),
            cs@ == s@,
            out@ == replace_char_spec(s@, from, to).take(i as int),
        decreases cs.len() - i,
    {
        let c = cs[i];
        out.push(if c == from {
            to
        } else {
            c
        });
        i += 1;
        assert(out@ =~= replace_char_spec(s@, from, to).take(i as int));
    }
    assert(out@ =~= replace_char_spec(s@, from, to));
    string_of(&out)
}

/// Whether `pat` occurs in `s` at position `i`.
pub open spec fn occurs_at(s: Seq<char>, pat: Seq<char>, i: int) -> bool {
    0 <= i && i + pat.len() <= s.len() && s.subrange(i, i + pat.len()) == pat
}

/// Whether `pat` occurs somewhere in `s`.
pub open spec fn contains_spec(s: Seq<char>, pat: Seq<char>) -> bool {
    exists|i: int| occurs_at(s, pat, i)
}

/// Whether `pat` occurs in `s` at position `i`.
fn matches_at(s: &Vec<char>, pat: &Vec<char>, i: usize) -> (r: bool)
    ensures
        r == occurs_at(s@, pat@, i as int),
{
    if pat.len() > s.len() || i > s.len() - pat.len() {
        return false;
    }
    let n = s.len();
    let mut k: usize = 0;
    while k < pat.len()
        invariant
            k <= pat@.len(),
            n == s@.len(),
            i + pat@.len() <= n,
            forall|j: int| 0 <= j < k ==> s@[i + j] == pat@[j],
        decreases pat.len() - k,
    {
        if s[i + k] != pat[k] {
            assert(s@.subrange(i as int, i + pat@.len())[k as int] != pat@[k as int]);
            return false;
        }
        k += 1;
    }
    assert(s@.subrange(i as int, i + pat@.len()) =~= pat@);
    true
}

/// Whether `pat` occurs in `s`, as `str::contains` tells.
pub fn contains_text(s: &str, pat: &str) -> (r: bool)
    ensures
        r == contains_spec(s@, pat@),
{
    let cs = chars_of(s);
    let ps = chars_of(pat);
    let n = cs.len();
    let m = ps.len();
    if m > n {
        return false;
    }
    if m == 0 {
        assert(s@.subrange(0, 0) =~= pat@);
        assert(occurs_at(s@, pat@, 0));
        return true;
    }
    let mut i: usize = 0;
    while i <= n - m
        invariant
            i <= n - m + 1,
            n == cs@.len(),
            m == ps@.len(),
            0 < m <= n,
            cs@ == s@,
            ps@ == pat@,
            forall|j: int| 0 <= j < i ==> !occurs_at(s@, pat@, j),
        decreases n - m + 1 - i,
    {
        if matches_at(&cs, &ps, i) {
            return true;
        }
        i += 1;
    }
    false
}

/// `rep` before every character of `s` and once more at its end: what
/// replacing the empty pattern gives, as it matches at every character
/// boundary.
pub open spec fn interleave(s: Seq<char>, rep: Seq<char>) -> Seq<char>
    decreases s.len(),
{
    if s.len() == 0 {
        rep
    } else {
        rep + seq![s[0]] + interleave(s.drop_first(), rep)
    }
}

/// `s` with every occurrence of `pat` replaced by `rep`, scanning from the
/// left and not re-examining replaced text; the empty pattern occurs at
/// every character boundary.
pub open spec fn replace_spec(s: Seq<char>, pat: Seq<char>, rep: Seq<char>) -> Seq<char>
    decreases s.len(),
{
    if pat.len() == 0 {
        interleave(s, rep)
    } else if s.len() < pat.len() {
        s
    } else if s.take(pat.len() as int) == pat {
        rep + replace_spec(s.skip(pat.len() as int), pat, rep)
    } else {
        seq![s[0]] + replace_spec(s.drop_first(), pat, rep)
    }
}

/// Appends the characters of `rs` to `out`.
fn push_chars(out: &mut Vec<char>, rs: &Vec<char>)
    ensures
        final(out)@ == old(out)@ + rs@,
{
    let ghost before = out@;
    let mut k: usize = 0;
    while k < rs.len()
        invariant
            k <= rs@.len(),
            out@ == before + rs@.take(k as int),
        decreases rs.len() - k,
    {
        out.push(rs[k]);
        k += 1;
        assert(out@ =~= before + rs@.take(k as int));
    }
    assert(rs@.take(k as int) =~= rs@);
}

/// `rep` before every character of `s` and once more at its end.
fn interleave_text(s: &str, rep: &str) -> (r: String)
    ensures
        r@ == interleave(s@, rep@),
{
    let cs = chars_of(s);
    let rs = chars_of(rep);
    let mut out: Vec<char> = Vec::new();
    let mut i: usize = 0;
    assert(s@.skip(0) =~= s@);
    while i < cs.len()
        invariant
            i <= cs@.len(),
            cs@ == s@,
            rs@ == rep@,
            out@ + interleave(s@.skip(i as int), rep@) == interleave(s@, rep@),
        decreases cs.len() - i,
    {
        let ghost rest = s@.skip(i as int);
        assert(rest.drop_first() =~= s@.skip(i + 1));
        let ghost before = out@;
        push_chars(&mut out, &rs);
        out.push(cs[i]);
        assert(out@ + interleave(s@.skip(i + 1), rep@) =~= before + (rep@ + seq![rest[0]]
            + interleave(rest.drop_first(), rep@)));
        i += 1;
    }
    assert(s@.skip(i as int) =~= Seq::<char>::empty());
    push_chars(&mut out, &rs);
    assert(out@ =~= interleave(s@, rep@));
    string_of(&out)
}

/// Replaces every occurrence of `pat` in `s` by `rep`, as `str::replace`
/// does.
pub fn replace_text(s: &str, pat: &str, rep: &str) -> (r: String)
    ensures
        r@ == replace_spec(s@, pat@, rep@),
{
    if pat.unicode_len() == 0 {
        return interleave_text(s, rep);
    }
    let cs = chars_of(s);
    let ps = chars_of(pat);
    let rs = chars_of(rep);
    let m = ps.len();
    let mut out: Vec<char> = Vec::new();
    let mut i: usize = 0;
    assert(s@.skip(0) =~= s@);
    while i < cs.len()
        invariant
            i <= cs@.len(),
            cs@ == s@,
            ps@ == pat@,
            rs@ == rep@,
            m == pat@.len(),
            m > 0,
            out@ + replace_spec(s@.skip(i as int), pat@, rep@) == replace_spec(s@, pat@, rep@),
        decreases cs.len() - i,
    {
        let ghost rest = s@.skip(i as int);
        if matches_at(&cs, &ps, i) {
            assert(rest.take(m as int) =~= s@.subrange(i as int, i + m));
            assert(rest.skip(m as int) =~= s@.skip(i + m));
            let ghost before = out@;
            push_chars(&mut out, &rs);
            assert(out@ + replace_spec(s@.skip(i + m), pat@, rep@) =~= before + (rep@
                + replace_spec(rest.skip(m as int), pat@, rep@)));
            i = i + m;
        } else {
            proof {
                assert(rest.drop_first() =~= s@.skip(i + 1));
                if rest.len() >= m {
                    assert(rest.take(m as int) =~= s@.subrange(i as int, i + m));
                } else {
                    assert(replace_spec(rest.drop_first(), pat@, rep@) == rest.drop_first());
                    assert(rest =~= seq![rest[0]] + rest.drop_first());
                }
            }
            let ghost before = out@;
            out.push(cs[i]);
            assert(out@ + replace_spec(s@.skip(i + 1), pat@, rep@) =~= before + (seq![rest[0]]
                + replace_spec(rest.drop_first(), pat@, rep@)));
            i = i + 1;
        }
    }
    assert(s@.skip(i as int) =~= Seq::<char>::empty());
    assert(out@ =~= replace_spec(s@, pat@, rep@));
    string_of(&out)
}

} // verus!
