//! The names of the calendar files.
//!
//! The file of a single talk is named by the day of the month, the speaker,
//! the title and the location, joined by `_`. Characters that are awkward in
//! a file name are replaced: by `_` in speaker and location, by `-` in the
//! title. The file of all talks has a fixed name. Every file ends in `.ics`.
use vstd::prelude::*;
use vstd::string::StringExecFns;
use crate::talk::{Talk, TalkView};
use crate::text::{decimal, decimal_is_digits, push_decimal};

verus! {

/// True for the ten characters that are replaced: space, `+`, `:`, `&`, `"`,
/// `,`, `!`, `?`, `.` and the line feed.
pub open spec fn is_replaced(c: char) -> bool {
    c == ' ' || c == '+' || c == ':' || c == '&' || c == '"' || c == ',' || c == '!' || c == '?'
        || c == '.' || c == '\n'
}

/// `c`, or `replacement` in its place when `c` is one of the replaced
/// characters.
pub open spec fn clean_char(c: char, replacement: char) -> char {
    if is_replaced(c) {
        replacement
    } else {
        c
    }
}

/// `s` with every replaced character exchanged for `replacement`.
pub open spec fn sanitized(s: Seq<char>, replacement: char) -> Seq<char> {
    s.map_values(|c: char| clean_char(c, replacement))
}

/// The name of the file that holds all talks, without extension.
pub const ALL_EVENTS: &'static str = "javaland_2023_all_events";

/// The extension of a calendar file.
pub const EXTENSION: &'static str = ".ics";

/// The file name of a talk, without extension.
pub open spec fn filename_of(talk: TalkView) -> Seq<char> {
    decimal(talk.date.day as nat) + seq!['_'] + sanitized(talk.speaker, '_') + seq!['_']
        + sanitized(talk.title, '-') + seq!['_'] + sanitized(talk.location, '_')
}

/// Tests whether `c` is one of the replaced characters.
pub fn replaced(c: char) -> (b: bool)
    ensures
        b == is_replaced(c),
{
    c == ' ' || c == '+' || c == ':' || c == '&' || c == '"' || c == ',' || c == '!' || c == '?'
        || c == '.' || c == '\n'
}

/// Copies `s`, with `replacement` in place of every replaced character.
///
/// The result has as many characters as `s`; each is the character of `s` at
/// its position, or `replacement` where that one is replaced.
pub fn sanitize(s: &str, replacement: char) -> (clean: String)
    ensures
        clean@ == sanitized(s@, replacement),
{
    let mut clean = String::new();
    for c in it: s.chars()
        invariant
            it.seq() == s@,
            clean@ == sanitized(s@.take(it.index()), replacement),
    {
        if replaced(c) {
            clean.push(replacement);
        } else {
            clean.push(c);
        }
    }
    clean
}

/// Builds the file name of a talk, without extension: day of the month,
/// speaker, title and location, joined by `_`, the three texts sanitized
/// with `_`, `-` and `_`.
pub fn format_filename_for_talk(talk: &Talk) -> (name: String)
    ensures
        name@ == filename_of(talk@),
{
    let mut name = String::new();
    push_decimal(&mut name, talk.date.day);
    name.push('_');
    name.append(sanitize(talk.speaker.as_str(), '_').as_str());
    name.push('_');
    name.append(sanitize(talk.title.as_str(), '-').as_str());
    name.push('_');
    name.append(sanitize(talk.location.as_str(), '_').as_str());
    name
}

/// Builds the path of the calendar file called `name`: the name and the
/// extension `.ics`.
pub fn ics_path(name: &str) -> (path: String)
    ensures
        path@ == name@ + EXTENSION@,
{
    let mut path = String::from_str(name);
    path.append(EXTENSION);
    path
}

/// Sanitizing keeps the length, keeps every character that is not replaced,
/// and puts the replacement where one is. With a replacement that is not
/// itself replaced, no replaced character is left.
pub proof fn sanitized_is_clean(s: Seq<char>, replacement: char)
    ensures
        sanitized(s, replacement).len() == s.len(),
        forall|k: int|
            0 <= k < s.len() ==> #[trigger] sanitized(s, replacement)[k] == clean_char(
                s[k],
                replacement,
            ),
        !is_replaced(replacement) ==> forall|k: int|
            0 <= k < s.len() ==> !is_replaced(#[trigger] sanitized(s, replacement)[k]),
{
}

/// Sanitizing twice is sanitizing once, for a replacement that is not itself
/// replaced.
pub proof fn sanitized_twice(s: Seq<char>, replacement: char)
    requires
        !is_replaced(replacement),
    ensures
        sanitized(sanitized(s, replacement), replacement) == sanitized(s, replacement),
{
}

/// No file name holds a replaced character.
pub proof fn filename_is_clean(talk: TalkView)
    ensures
        forall|k: int|
            0 <= k < filename_of(talk).len() ==> !is_replaced(#[trigger] filename_of(talk)[k]),
{
    decimal_is_digits(talk.date.day as nat);
}

} // verus!
