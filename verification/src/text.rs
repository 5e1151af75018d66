//! Text helpers shared by the store and the navigation state.

use vstd::prelude::*;
use unicode_width::UnicodeWidthStr;

verus! {

/// The directory in which the dictionaries are looked for.
pub const DICPATH: &'static str = "dics/";

/// The ending of a dictionary's file name.
pub const DICEXTENSION: &'static str = ".db";

/// The number of terminal columns that `text` takes when printed, as
/// `unicode_width` counts them.
pub uninterp spec fn display_width(text: Seq<char>) -> nat;

/// The character shown in place of `c`: a carriage return becomes a line feed.
pub open spec fn newline_for(c: char) -> char {
    if c == '\r' {
        '\n'
    } else {
        c
    }
}

/// `text` with every carriage return replaced by a line feed.
pub open spec fn with_newlines(text: Seq<char>) -> Seq<char> {
    text.map_values(|c: char| newline_for(c))
}

/// Whether `text` is ready for display: it holds no carriage return.
pub open spec fn is_clean(text: Seq<char>) -> bool {
    forall|i: int| 0 <= i < text.len() ==> text[i] != '\r'
}

/// `text` with every occurrence of `pattern` taken out, scanning from the left
/// and going on behind each occurrence found. An empty `pattern` occurs nowhere.
pub open spec fn without(text: Seq<char>, pattern: Seq<char>) -> Seq<char>
    decreases text.len(),
{
    if text.len() == 0 || pattern.len() == 0 {
        text
    } else if pattern.is_prefix_of(text) {
        without(text.skip(pattern.len() as int), pattern)
    } else {
        seq![text[0]] + without(text.skip(1), pattern)
    }
}

/// How one character is written in a `GLOB` pattern so that it stands for
/// itself: the three characters with a meaning of their own go in brackets.
pub open spec fn glob_char(c: char) -> Seq<char> {
    if c == '*' || c == '?' || c == '[' {
        seq!['[', c, ']']
    } else {
        seq![c]
    }
}

/// `text` written so that a `GLOB` pattern matches it literally.
pub open spec fn glob_literal(text: Seq<char>) -> Seq<char>
    decreases text.len(),
{
    if text.len() == 0 {
        Seq::empty()
    } else {
        glob_literal(text.drop_last()) + glob_char(text.last())
    }
}

/// Replacing the carriage returns leaves none.
pub proof fn lemma_newlines_clean(text: Seq<char>)
    ensures
        is_clean(with_newlines(text)),
{
}

/// Calls `String::push`, which appends one character.
#[verifier::external_body]
pub(crate) fn push_char(text: &mut String, c: char)
    ensures
        final(text)@ == old(text)@.push(c),
{
    text.push(c)
}

/// Calls `String::pop`, which removes the last character and returns it, or
/// returns `None` and leaves an empty string as it is.
#[verifier::external_body]
pub(crate) fn pop_char(text: &mut String) -> (last: Option<char>)
    ensures
        old(text)@.len() == 0 ==> last is None,
        old(text)@.len() == 0 ==> final(text)@ == old(text)@,
        old(text)@.len() > 0 ==> last == Some(old(text)@.last()),
        old(text)@.len() > 0 ==> final(text)@ == old(text)@.drop_last(),
{
    text.pop()
}

/// Calls `unicode_width::UnicodeWidthStr::width` on `text`. The width is a
/// function of the characters alone; the contract only gives it its name.
#[verifier::external_body]
pub(crate) fn text_width(text: &str) -> (columns: usize)
    ensures
        columns == display_width(text@),
{
    UnicodeWidthStr::width(text)
}

/// Replaces every carriage return in `text` by a line feed.
pub fn normalize_newlines(text: &str) -> (clean: String)
    ensures
        clean@ == with_newlines(text@),
{
    let mut clean = String::new();
    for c in it: text.chars()
        invariant
            it.seq() == text@,
            clean@ == with_newlines(text@.take(it.index() as int)),
    {
        let shown: char = if c == '\r' { '\n' } else { c };
        push_char(&mut clean, shown);
    }
    clean
}

/// The characters of `text`, in order.
pub fn chars_of(text: &str) -> (chars: Vec<char>)
    ensures
        chars@ == text@,
{
    let mut chars: Vec<char> = Vec::new();
    for c in it: text.chars()
        invariant
            it.seq() == text@,
            chars@ == text@.take(it.index() as int),
    {
        chars.push(c);
    }
    chars
}

/// Whether `pattern` stands in `text` at position `at`.
fn occurs_at(text: &Vec<char>, at: usize, pattern: &Vec<char>) -> (found: bool)
    requires
        at <= text.len(),
    ensures
        found == pattern@.is_prefix_of(text@.skip(at as int)),
{
    if pattern.len() > text.len() - at {
        return false;
    }
    let mut k: usize = 0;
    while k < pattern.len()
        invariant
            at <= text.len(),
            pattern.len() <= text.len() - at,
            k <= pattern.len(),
            forall|j: int| 0 <= j < k ==> pattern@[j] == text@[at + j],
        decreases pattern.len() - k,
    {
        if pattern[k] != text[at + k] {
            return false;
        }
        k += 1;
    }
    true
}

/// Whether `text` begins with `prefix`, character for character.
pub fn starts_with(text: &str, prefix: &str) -> (yes: bool)
    ensures
        yes == prefix@.is_prefix_of(text@),
{
    let whole = chars_of(text);
    let head = chars_of(prefix);
    occurs_at(&whole, 0, &head)
}

/// Takes every occurrence of `pattern` out of `text`.
pub fn remove_all(text: &str, pattern: &str) -> (rest: String)
    ensures
        rest@ == without(text@, pattern@),
{
    let source = chars_of(text);
    let unwanted = chars_of(pattern);
    if unwanted.len() == 0 {
        return text.to_owned();
    }
    let mut rest = String::new();
    let mut i: usize = 0;
    assert(source@.skip(0) == source@);
    while i < source.len()
        invariant
            i <= source.len(),
            source@ == text@,
            unwanted@ == pattern@,
            unwanted.len() > 0,
            rest@ + without(source@.skip(i as int), unwanted@) == without(source@, unwanted@),
        decreases source.len() - i,
    {
        let ghost tail = source@.skip(i as int);
        if occurs_at(&source, i, &unwanted) {
            assert(tail.skip(unwanted@.len() as int) == source@.skip(i + unwanted@.len()));
            i += unwanted.len();
        } else {
            let c: char = source[i];
            assert(tail.skip(1) == source@.skip(i + 1));
            push_char(&mut rest, c);
            i += 1;
        }
    }
    rest
}

/// The name of the dictionary kept in the file `file_name`: the file's name
/// without its ending.
pub fn dictionary_name(file_name: &str) -> (name: String)
    ensures
        name@ == without(file_name@, DICEXTENSION@),
{
    remove_all(file_name, DICEXTENSION)
}

/// The path of the dictionary `name` in `directory`.
pub fn database_path(directory: &str, name: &str) -> (path: String)
    ensures
        path@ == directory@ + name@ + DICEXTENSION@,
{
    let mut path = directory.to_owned();
    path.append(name);
    path.append(DICEXTENSION);
    path
}

/// The pattern handed to the store for a prefix search: `query`, matched
/// literally and with regard to case, followed by the wildcard that stands
/// for any rest.
pub fn prefix_pattern(query: &str) -> (pattern: String)
    ensures
        pattern@ == glob_literal(query@).push('*'),
{
    let mut pattern = String::new();
    for c in it: query.chars()
        invariant
            it.seq() == query@,
            pattern@ == glob_literal(query@.take(it.index() as int)),
    {
        let ghost next = query@.take(it.index() + 1);
        assert(next.drop_last() == query@.take(it.index() as int));
        if c == '*' || c == '?' || c == '[' {
            push_char(&mut pattern, '[');
            push_char(&mut pattern, c);
            push_char(&mut pattern, ']');
        } else {
            push_char(&mut pattern, c);
        }
    }
    assert(query@.take(query@.len() as int) == query@);
    push_char(&mut pattern, '*');
    pattern
}

} // verus!
