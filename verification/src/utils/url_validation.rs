//! Recognising YouTube URLs, and what to do with a URL that is not one.
use vstd::prelude::*;
use crate::text::{prefixed, surrounded};

verus! {

/// The pattern of the URLs that are taken as YouTube URLs.
pub const YOUTUBE_URL_PATTERN: &'static str = r"^(https?://)?(www\.youtube\.com|youtu\.?be)/.+$";

/// The optional scheme in front of a YouTube URL: nothing, `http://` or
/// `https://`.
pub open spec fn is_url_scheme(s: Seq<char>) -> bool {
    s.len() == 0 || s == "http://"@ || s == "https://"@
}

/// The hosts of a YouTube URL: `www.youtube.com`, `youtu.be` or `youtube`.
pub open spec fn is_youtube_host(h: Seq<char>) -> bool {
    h == "www.youtube.com"@ || h == "youtu.be"@ || h == "youtube"@
}

/// What follows the `/` after the host: at least one character, none of them
/// a line feed.
pub open spec fn is_url_tail(t: Seq<char>) -> bool {
    t.len() > 0 && !t.contains('\n')
}

/// The texts that [`YOUTUBE_URL_PATTERN`] matches: an optional scheme, a
/// YouTube host, a `/`, and a non-empty tail without line feeds, filling the
/// whole text.
pub open spec fn is_youtube_url_text(s: Seq<char>) -> bool {
    exists|scheme: Seq<char>, host: Seq<char>, tail: Seq<char>|
        #![trigger is_url_scheme(scheme), is_youtube_host(host), is_url_tail(tail)]
        is_url_scheme(scheme) && is_youtube_host(host) && is_url_tail(tail) && s == scheme + host
            + seq!['/'] + tail
}

/// What `regex::Regex::new(pattern)` followed by `is_match(haystack)` gives:
/// `None` when the pattern is refused.
pub uninterp spec fn regex_search_of(pattern: Seq<char>, haystack: Seq<char>) -> Option<bool>;

/// Compiles `pattern` with `regex::Regex::new` and asks `Regex::is_match`
/// whether `haystack` holds a match; `None` when the pattern is refused.
/// The contract names the result as a function of the two texts, and, for
/// [`YOUTUBE_URL_PATTERN`], states what the crate's documented syntax gives:
/// the pattern compiles, and with `^` and `$` (start and end of the
/// haystack) and `.` (any character but a line feed) it matches exactly the
/// texts of [`is_youtube_url_text`].
#[verifier::external_body]
fn regex_is_match(pattern: &str, haystack: &str) -> (r: Option<bool>)
    ensures
        r == regex_search_of(pattern@, haystack@),
        pattern@ == YOUTUBE_URL_PATTERN@ ==> r == Some(is_youtube_url_text(haystack@)),
{
    match regex::Regex::new(pattern) {
        Ok(re) => Some(re.is_match(haystack)),
        Err(_) => None,
    }
}

/// Whether `url` is a YouTube URL, i.e. matches [`YOUTUBE_URL_PATTERN`].
pub fn is_youtube_url(url: &str) -> (r: bool)
    ensures
        r == is_youtube_url_text(url@),
{
    match regex_is_match(YOUTUBE_URL_PATTERN, url) {
        Some(b) => b,
        None => false,
    }
}

/// The question put to the user about a URL that is not a YouTube URL.
pub open spec fn search_prompt_text(url: Seq<char>) -> Seq<char> {
    "not a valid youtube url, wanna search \""@ + url + "\" on youtube instead? [y/n]: "@
}

/// The youtube-dl search target for a search term.
pub open spec fn search_query_text(url: Seq<char>) -> Seq<char> {
    "ytsearch:"@ + url
}

/// The question put to the user about `url`.
pub fn search_prompt(url: &str) -> (r: String)
    ensures
        r@ == search_prompt_text(url@),
{
    surrounded("not a valid youtube url, wanna search \"", url, "\" on youtube instead? [y/n]: ")
}

/// The youtube-dl search target for the search term `url`.
pub fn search_query(url: &str) -> (r: String)
    ensures
        r@ == search_query_text(url@),
{
    prefixed("ytsearch:", url)
}

/// What to do with a URL given on the command line.
#[derive(Debug, PartialEq, Eq)]
pub enum UrlResolution {
    /// A YouTube URL: it is used as it is.
    Valid,
    /// Not a YouTube URL: the user is asked `prompt`; on a yes, `search` is
    /// used in place of the URL, on a no the URL stays.
    NotYoutube { prompt: String, search: String },
}

/// Resolves `url`: a YouTube URL is kept; for anything else the user is to be
/// asked whether to search YouTube for it instead, and a yes replaces it by
/// `ytsearch:<url>`.
pub fn resolve_url(url: &String) -> (r: UrlResolution)
    ensures
        (r is Valid) == is_youtube_url_text(url@),
        r matches UrlResolution::NotYoutube { prompt, search } ==> prompt@ == search_prompt_text(
            url@,
        ) && search@ == search_query_text(url@),
{
    if is_youtube_url(url.as_str()) {
        UrlResolution::Valid
    } else {
        UrlResolution::NotYoutube {
            prompt: search_prompt(url.as_str()),
            search: search_query(url.as_str()),
        }
    }
}

} // verus!
