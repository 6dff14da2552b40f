//! Texts as sequences of characters: taking a string apart, putting one
//! together, and looking for one text inside another.

use vstd::prelude::*;

verus! {

/// `String::push` puts one character at the end of the string and leaves
/// the rest as it was.
pub assume_specification[ std::string::String::push ](s: &mut std::string::String, ch: char)
    ensures
        final(s)@ == old(s)@.push(ch),
;

/// A text in lower case, as `str::to_lowercase` writes it.
pub uninterp spec fn lowercase(text: Seq<char>) -> Seq<char>;

/// `str::to_lowercase` gives the text in lower case by the rules of
/// Unicode. The result is a function of the text alone; which character
/// becomes which is left to `std`.
pub assume_specification[ str::to_lowercase ](s: &str) -> (lower: std::string::String)
    ensures
        lower@ == lowercase(s@),
;

/// A text with every blank turned into an underscore.
pub open spec fn underscored(text: Seq<char>) -> Seq<char> {
    text.map_values(|c: char| if c == ' ' { '_' } else { c })
}

/// Whether `pattern` stands in `text` at the place `at`.
pub open spec fn occurs_at(text: Seq<char>, pattern: Seq<char>, at: int) -> bool {
    &&& 0 <= at
    &&& at + pattern.len() <= text.len()
    &&& text.subrange(at, at + pattern.len()) == pattern
}

/// Whether `pattern` stands anywhere in `text`.
pub open spec fn occurs_in(text: Seq<char>, pattern: Seq<char>) -> bool {
    exists|at: int| occurs_at(text, pattern, at)
}

/// The characters of a string.
pub fn chars_of(text: &str) -> (chars: Vec<char>)
    ensures
        chars@ == text@,
{
    let mut chars: Vec<char> = Vec::new();
    for c in it: text.chars()
        invariant
            chars@ == it.seq().take(it.index()),
            it.seq() == text@,
    {
        chars.push(c);
    }
    chars
}

/// The string made of the characters from `from` up to `to`.
pub(crate) fn text_of(chars: &Vec<char>, from: usize, to: usize) -> (text: String)
    requires
        from <= to <= chars.len(),
    ensures
        text@ == chars@.subrange(from as int, to as int),
{
    let mut text = String::new();
    let mut i: usize = from;
    while i < to
        invariant
            from <= i <= to <= chars.len(),
            text@ == chars@.subrange(from as int, i as int),
        decreases to - i,
    {
        text.push(chars[i]);
        i = i + 1;
    }
    text
}

/// Turns every blank of a text into an underscore.
pub fn replace_blanks(text: &str) -> (replaced: String)
    ensures
        replaced@ == underscored(text@),
{
    let mut replaced = String::new();
    for c in it: text.chars()
        invariant
            replaced@ == underscored(it.seq().take(it.index())),
            it.seq() == text@,
    {
        let ghost sofar = it.seq().take(it.index());
        if c == ' ' {
            replaced.push('_');
        } else {
            replaced.push(c);
        }
        assert(underscored(it.seq().take(it.index() + 1)) =~= underscored(sofar).push(
            if c == ' ' {
                '_'
            } else {
                c
            },
        ));
    }
    assert(text@.take(text@.len() as int) == text@);
    replaced
}

/// Whether two strings are the same text.
pub fn same_text(a: &str, b: &str) -> (same: bool)
    ensures
        same == (a@ == b@),
{
    String::from_str(a) == String::from_str(b)
}

/// Whether `pattern` stands in `text` at the place `at`.
pub fn matches_at(text: &Vec<char>, pattern: &Vec<char>, at: usize) -> (hit: bool)
    ensures
        hit == occurs_at(text@, pattern@, at as int),
{
    if pattern.len() > text.len() || at > text.len() - pattern.len() {
        return false;
    }
    let ghost window = text@.subrange(at as int, at + pattern.len());
    let mut j: usize = 0;
    while j < pattern.len()
        invariant
            j <= pattern.len(),
            at + pattern.len() <= text.len(),
            window == text@.subrange(at as int, at + pattern.len()),
            forall|k: int| 0 <= k < j ==> window[k] == pattern@[k],
        decreases pattern.len() - j,
    {
        if text[at + j] != pattern[j] {
            assert(window[j as int] != pattern@[j as int]);
            return false;
        }
        j = j + 1;
    }
    assert(window =~= pattern@);
    true
}

/// Whether `text` begins with `pattern`.
pub fn starts_with(text: &Vec<char>, pattern: &Vec<char>) -> (hit: bool)
    ensures
        hit == occurs_at(text@, pattern@, 0),
{
    matches_at(text, pattern, 0)
}

/// The last place at which `pattern` stands in `text`.
pub fn find_last(text: &Vec<char>, pattern: &Vec<char>) -> (found: Option<usize>)
    ensures
        match found {
            Some(at) => occurs_at(text@, pattern@, at as int) && forall|later: int|
                later > at ==> !occurs_at(text@, pattern@, later),
            None => !occurs_in(text@, pattern@),
        },
{
    if pattern.len() > text.len() {
        return None;
    }
    let mut at: usize = text.len() - pattern.len();
    loop
        invariant
            at + pattern.len() <= text.len(),
            forall|later: int| later > at ==> !occurs_at(text@, pattern@, later),
        decreases at,
    {
        if matches_at(text, pattern, at) {
            return Some(at);
        }
        if at == 0 {
            return None;
        }
        at = at - 1;
    }
}

/// Whether `pattern` stands anywhere in `text`.
pub fn occurs(text: &Vec<char>, pattern: &Vec<char>) -> (hit: bool)
    ensures
        hit == occurs_in(text@, pattern@),
{
    match find_last(text, pattern) {
        Some(at) => {
            assert(occurs_at(text@, pattern@, at as int));
            true
        },
        None => false,
    }
}

} // verus!
