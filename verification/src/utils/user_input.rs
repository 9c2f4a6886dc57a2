//! Reading a yes-or-no answer.
use vstd::prelude::*;
use crate::text::str_eq;

verus! {

/// The characters with the Unicode White_Space property (PropList.txt):
/// U+0009 to U+000D, U+0020, U+0085, U+00A0, U+1680, U+2000 to U+200A,
/// U+2028, U+2029, U+202F, U+205F and U+3000.
pub open spec fn is_whitespace_char(c: char) -> bool {
    let u = c as u32;
    (0x09 <= u <= 0x0d) || u == 0x20 || u == 0x85 || u == 0xa0 || u == 0x1680 || (0x2000 <= u
        <= 0x200a) || u == 0x2028 || u == 0x2029 || u == 0x202f || u == 0x205f || u == 0x3000
}

/// Whether every character of the text is ASCII.
pub open spec fn all_ascii(s: Seq<char>) -> bool {
    forall|i: int| 0 <= i < s.len() ==> (s[i] as u32) < 128
}

/// The ASCII lowercase of a character: `A` to `Z` become `a` to `z`, every
/// other character stays.
pub open spec fn ascii_lowercase(c: char) -> char {
    if 'A' <= c <= 'Z' {
        ((c as u32) + 32) as char
    } else {
        c
    }
}

/// What `str::to_lowercase` returns for a text (the Unicode lowercase
/// mapping).
pub uninterp spec fn lowercase_of(s: Seq<char>) -> Seq<char>;

/// Whether `c` is whitespace, as `char::is_whitespace` documents it: one of
/// the characters with the Unicode White_Space property.
pub fn char_is_whitespace(c: char) -> (r: bool)
    ensures
        r == is_whitespace_char(c),
{
    let u = c as u32;
    (0x09 <= u && u <= 0x0d) || u == 0x20 || u == 0x85 || u == 0xa0 || u == 0x1680 || (0x2000 <= u
        && u <= 0x200a) || u == 0x2028 || u == 0x2029 || u == 0x202f || u == 0x205f || u == 0x3000
}

/// `str::to_lowercase`, which std documents as the Unicode lowercase mapping.
/// The contract names the result as a function of the text, and states it
/// for an all-ASCII text, where the mapping turns `A` to `Z` into `a` to `z`
/// and keeps every other character. What it gives for other texts is not
/// stated.
#[verifier::external_body]
fn str_to_lowercase(s: &str) -> (r: String)
    ensures
        r@ == lowercase_of(s@),
        all_ascii(s@) ==> r@ == s@.map_values(|c: char| ascii_lowercase(c)),
{
    s.to_lowercase()
}

/// `s` without its leading whitespace.
pub open spec fn trim_start_ws(s: Seq<char>) -> Seq<char>
    decreases s.len(),
{
    if s.len() > 0 && is_whitespace_char(s[0]) {
        trim_start_ws(s.drop_first())
    } else {
        s
    }
}

/// `s` without its trailing whitespace.
pub open spec fn trim_end_ws(s: Seq<char>) -> Seq<char>
    decreases s.len(),
{
    if s.len() > 0 && is_whitespace_char(s.last()) {
        trim_end_ws(s.drop_last())
    } else {
        s
    }
}

/// `s` without leading and trailing whitespace, as `str::trim` documents it.
pub open spec fn trim_ws(s: Seq<char>) -> Seq<char> {
    trim_end_ws(trim_start_ws(s))
}

/// `s` without leading and trailing whitespace.
pub fn trim(s: &str) -> (r: &str)
    ensures
        r@ == trim_ws(s@),
{
    let n = s.unicode_len();
    let mut start: usize = 0;
    assert(s@.subrange(0, n as int) =~= s@);
    while start < n
        invariant_except_break
            n == s@.len(),
            start <= n,
            trim_start_ws(s@) == trim_start_ws(s@.subrange(start as int, n as int)),
        ensures
            start <= n,
            trim_start_ws(s@) == s@.subrange(start as int, n as int),
        decreases n - start,
    {
        let ghost rest = s@.subrange(start as int, n as int);
        if !char_is_whitespace(s.get_char(start)) {
            break;
        }
        assert(rest.drop_first() =~= s@.subrange(start + 1, n as int));
        start = start + 1;
    }
    let mut end: usize = n;
    assert(s@.subrange(start as int, n as int) == s@.subrange(start as int, end as int));
    while end > start
        invariant_except_break
            n == s@.len(),
            start <= end <= n,
            trim_start_ws(s@) == s@.subrange(start as int, n as int),
            trim_ws(s@) == trim_end_ws(s@.subrange(start as int, end as int)),
        ensures
            start <= end <= n,
            trim_ws(s@) == s@.subrange(start as int, end as int),
        decreases end - start,
    {
        let ghost rest = s@.subrange(start as int, end as int);
        if !char_is_whitespace(s.get_char(end - 1)) {
            break;
        }
        assert(rest.drop_last() =~= s@.subrange(start as int, end - 1));
        end = end - 1;
    }
    s.substring_char(start, end)
}

/// A reply to a yes-or-no question.
#[derive(Debug, PartialEq, Eq)]
pub enum Reply {
    Yes,
    No,
    /// Neither: the reply, lowercased and trimmed.
    Invalid(String),
}

/// A reply, lowercased and without surrounding whitespace.
pub open spec fn normalized_reply(input: Seq<char>) -> Seq<char> {
    trim_ws(lowercase_of(input))
}

/// Reads an already lowercased reply: without surrounding whitespace, `y` is
/// a yes, `n` a no, and anything else is invalid.
pub fn parse_lowercased_reply(lowered: &str) -> (r: Reply)
    ensures
        (r is Yes) == (trim_ws(lowered@) == "y"@),
        (r is No) == (trim_ws(lowered@) == "n"@),
        r matches Reply::Invalid(t) ==> t@ == trim_ws(lowered@),
{
    let reply = trim(lowered);
    proof {
        reveal_strlit("y");
        reveal_strlit("n");
        assert("y"@[0] != "n"@[0]);
    }
    if str_eq(reply, "y") {
        Reply::Yes
    } else if str_eq(reply, "n") {
        Reply::No
    } else {
        Reply::Invalid(String::from_str(reply))
    }
}

/// Reads a reply: after lowercasing and trimming, `y` is a yes, `n` a no, and
/// anything else is invalid (and the question is to be asked again).
pub fn parse_reply(input: &str) -> (r: Reply)
    ensures
        (r is Yes) == (normalized_reply(input@) == "y"@),
        (r is No) == (normalized_reply(input@) == "n"@),
        r matches Reply::Invalid(t) ==> t@ == normalized_reply(input@),
        all_ascii(input@) ==> normalized_reply(input@) == trim_ws(
            input@.map_values(|c: char| ascii_lowercase(c)),
        ),
{
    let lowered = str_to_lowercase(input);
    parse_lowercased_reply(lowered.as_str())
}

} // verus!
