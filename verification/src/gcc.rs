//! Reading the GCC version out of what `gcc --version` prints.

use crate::text::{
    chars_of, first_line, first_line_spec, parse_u32, spec_parse_u32, split_char, split_char_spec,
    split_words, words_spec,
};
use vstd::prelude::*;
use vstd::utf8::*;

verus! {

/// `std::str::from_utf8`: the bytes as text when they are well-formed UTF-8.
#[verifier::external_body]
fn utf8_text(bytes: &[u8]) -> (r: Option<&str>)
    ensures
        r is Some == valid_utf8(bytes@),
        r matches Some(s) ==> s@ == decode_utf8(bytes@),
{
    std::str::from_utf8(bytes).ok()
}

/// A version read from the dot-separated pieces of one word: at least two
/// pieces, the first two unsigned numbers; the third, when present and a
/// number, is the patch level, which is 0 otherwise.
pub open spec fn version_of_parts(parts: Seq<Seq<char>>) -> Option<(u32, u32, u32)> {
    if parts.len() >= 2 && spec_parse_u32(parts[0]) is Some && spec_parse_u32(parts[1]) is Some {
        let patch: u32 = if parts.len() >= 3 {
            match spec_parse_u32(parts[2]) {
                Some(p) => p,
                None => 0,
            }
        } else {
            0
        };
        Some((spec_parse_u32(parts[0])->0, spec_parse_u32(parts[1])->0, patch))
    } else {
        None
    }
}

/// The version carried by the first word, in order, that carries one.
pub open spec fn version_in_words(words: Seq<Seq<char>>) -> Option<(u32, u32, u32)>
    decreases words.len(),
{
    if words.len() == 0 {
        None
    } else {
        match version_of_parts(split_char_spec(words[0], '.')) {
            Some(v) => Some(v),
            None => version_in_words(words.drop_first()),
        }
    }
}

/// The GCC version named on the first line of `gcc --version` output, such as
/// `9.4.0` in `gcc (Ubuntu 9.4.0-1ubuntu1~20.04.1) 9.4.0`.
pub open spec fn gcc_version_spec(text: Seq<char>) -> Option<(u32, u32, u32)> {
    match first_line_spec(text) {
        None => None,
        Some(line) => version_in_words(words_spec(line)),
    }
}

/// Reads a version out of the dot-separated pieces of one word.
pub fn version_from_parts(parts: &Vec<Vec<char>>) -> (r: Option<(u32, u32, u32)>)
    ensures
        r == version_of_parts(parts@.map_values(|p: Vec<char>| p@)),
{
    if parts.len() < 2 {
        return None;
    }
    let major = parse_u32(&parts[0]);
    let minor = parse_u32(&parts[1]);
    match (major, minor) {
        (Some(ma), Some(mi)) => {
            let patch: u32 = if parts.len() >= 3 {
                match parse_u32(&parts[2]) {
                    Some(p) => p,
                    None => 0,
                }
            } else {
                0
            };
            Some((ma, mi, patch))
        },
        _ => None,
    }
}

/// Reads the GCC version from the text that `gcc --version` printed.
pub fn parse_gcc_version(text: &str) -> (r: Option<(u32, u32, u32)>)
    ensures
        r == gcc_version_spec(text@),
{
    let chars = chars_of(text);
    let line = match first_line(&chars) {
        None => {
            return None;
        },
        Some(l) => l,
    };
    let words = split_words(&line);
    let ghost ws = words_spec(line@);
    let mut i: usize = 0;
    assert(ws.skip(0) =~= ws);
    while i < words.len()
        invariant
            i <= words@.len(),
            words@.len() == ws.len(),
            forall|k: int| 0 <= k < words@.len() ==> #[trigger] words@[k]@ == ws[k],
            version_in_words(ws.skip(i as int)) == gcc_version_spec(text@),
        decreases words.len() - i,
    {
        let parts = split_char(&words[i], '.');
        let ghost sp = split_char_spec(words@[i as int]@, '.');
        assert(parts@.map_values(|p: Vec<char>| p@) =~= sp);
        let v = version_from_parts(&parts);
        assert(ws.skip(i as int)[0] == ws[i as int]);
        assert(ws.skip(i as int).drop_first() =~= ws.skip(i + 1));
        if let Some(found) = v {
            return Some(found);
        }
        i += 1;
    }
    assert(ws.skip(i as int) =~= Seq::<Seq<char>>::empty());
    None
}

/// Reads the GCC version from the bytes that `gcc --version` wrote to its
/// standard output; nothing when they are not UTF-8 text or name no version.
pub fn detect_gcc_version(stdout: &[u8]) -> (r: Option<(u32, u32, u32)>)
    ensures
        valid_utf8(stdout@) ==> r == gcc_version_spec(decode_utf8(stdout@)),
        !valid_utf8(stdout@) ==> r is None,
{
    match utf8_text(stdout) {
        Some(text) => parse_gcc_version(text),
        None => None,
    }
}

} // verus!
