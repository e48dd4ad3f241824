//! URLs as the `url` crate parses them, held as plain values: the
//! serialization of the parsed URL, its path and its host.
use vstd::prelude::*;

use crate::text::opt_chars;

verus! {

/// A parsed URL: its serialization, its path and its host, if it has one.
#[derive(Clone, Debug)]
pub struct ParsedUrl {
    pub serialization: String,
    pub path: String,
    pub host: Option<String>,
}

/// The serialization of the URL that the `url` crate parses from `input`,
/// or `None` where it refuses the input.
pub uninterp spec fn url_parse(input: Seq<char>) -> Option<Seq<char>>;

/// The path that `url::Url::path` gives of the URL with this serialization.
pub uninterp spec fn url_path(serialization: Seq<char>) -> Seq<char>;

/// The host that `url::Url::host_str` gives of the URL with this
/// serialization, if it has one.
pub uninterp spec fn url_host(serialization: Seq<char>) -> Option<Seq<char>>;

/// Whether `u` is what the `url` crate parses from `input`.
pub open spec fn parses_to(input: Seq<char>, u: ParsedUrl) -> bool {
    &&& url_parse(input) == Some(u.serialization@)
    &&& u.path@ == url_path(u.serialization@)
    &&& opt_chars(u.host) == url_host(u.serialization@)
}

/// Parses a URL with `url::Url::parse`, and reads off the parsed URL its
/// serialization (`String::from`), its path (`Url::path`) and its host
/// (`Url::host_str`); the error is the crate's description of the parse
/// error. Which inputs the crate accepts, and what it makes of them, is not
/// stated: it is named by `url_parse`, `url_path` and `url_host`.
#[verifier::external_body]
pub(crate) fn parse_url(input: &str) -> (parsed: Result<ParsedUrl, String>)
    ensures
        match parsed {
            Ok(u) => url_parse(input@) == Some(u.serialization@) && u.path@ == url_path(u.serialization@)
                && opt_chars(u.host) == url_host(u.serialization@),
            Err(_) => url_parse(input@) is None,
        },
{
    match url::Url::parse(input) {
        Ok(u) => Ok(ParsedUrl {
            path: u.path().to_string(),
            host: u.host_str().map(|h| h.to_string()),
            serialization: u.into(),
        }),
        Err(e) => Err(e.to_string()),
    }
}

} // verus!
