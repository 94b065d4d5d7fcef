use vstd::prelude::*;
use vstd::string::{StrSliceExecFns, StringExecFns};
use crate::consts::MAX_ADDRESS_LENGTH;
use crate::error::{Error, ErrorView, UrlFailure};

verus! {

/// The address that `url::Url::parse_with_params` builds from a base address
/// and one query parameter, as text; or the error it fails with.
pub uninterp spec fn address_with_param(base: Seq<char>, key: Seq<char>, value: Seq<char>) -> Result<Seq<char>, url::ParseError>;

/// The path component that `url::Url::path` reports of the address that
/// `url::Url::parse` reads from the text; or the error the parser fails with.
pub uninterp spec fn path_of(location: Seq<char>) -> Result<Seq<char>, url::ParseError>;

/// Whether the texts of an address are together short enough for the
/// library to hand them to the `url` crate.
pub open spec fn fits(base: Seq<char>, key: Seq<char>, value: Seq<char>) -> bool {
    base.len() + key.len() + value.len() <= MAX_ADDRESS_LENGTH
}

/// A parser's result with the text taken as a character sequence.
pub open spec fn as_text(r: Result<String, url::ParseError>) -> Result<Seq<char>, url::ParseError> {
    match r {
        Ok(text) => Ok(text@),
        Err(e) => Err(e),
    }
}

/// What a parser's result means to a session: the text, or a URL error.
pub open spec fn or_url_error(r: Result<Seq<char>, url::ParseError>) -> Result<Seq<char>, ErrorView> {
    match r {
        Ok(text) => Ok(text),
        Err(e) => Err(ErrorView::UrlError(UrlFailure::Parse(e))),
    }
}

/// The error for an address whose texts are longer than the library takes.
pub open spec fn too_long() -> ErrorView {
    ErrorView::UrlError(UrlFailure::TooLong)
}

/// Calls `url::Url::parse_with_params` with the base address and the single
/// pair `(key, value)`, and returns the serialization of the address it
/// built. Trusted: the parser and the percent-encoding of the pair are the
/// `url` crate's; the contract only gives their result its name.
///
/// The texts must fit: `url` keeps the positions inside an address as
/// 32-bit numbers, and where it appends the pair it panics on a
/// serialization that has outgrown them. A character of the base or of the
/// pair makes a few bytes of the serialization, a dozen where it is
/// percent-encoded and some more in an international host name, so texts
/// that fit stay far below that size.
#[verifier::external_body]
fn parse_with_param(base: &str, key: &str, value: &str) -> (r: Result<String, url::ParseError>)
    requires
        fits(base@, key@, value@),
    ensures
        as_text(r) == address_with_param(base@, key@, value@),
{
    url::Url::parse_with_params(base, &[(key, value)]).map(String::from)
}

/// Calls `url::Url::parse` on the text and returns what `url::Url::path`
/// reports of the result. Trusted: the parser is the `url` crate's; the
/// contract only gives its result its name. The text must be short enough
/// for its serialization to stay within the 32-bit positions that `url`
/// keeps.
#[verifier::external_body]
fn parse_path(location: &str) -> (r: Result<String, url::ParseError>)
    requires
        location@.len() <= MAX_ADDRESS_LENGTH,
    ensures
        as_text(r) == path_of(location@),
{
    url::Url::parse(location).map(|address| address.path().to_owned())
}

/// The page of the service at `host` that answers searches and takes tokens.
pub open spec fn search_page(host: Seq<char>) -> Seq<char> {
    host + "/search"@
}

/// The address made of a base address and one parameter: texts that do not
/// fit are refused as too long, of the others the `url` crate builds the
/// address or says why it cannot.
pub open spec fn target(base: Seq<char>, key: Seq<char>, value: Seq<char>) -> Result<Seq<char>, ErrorView> {
    if fits(base, key, value) {
        or_url_error(address_with_param(base, key, value))
    } else {
        Err(too_long())
    }
}

/// The address to load for a search: the search page with the query as its
/// parameter `q`.
pub open spec fn search_target(host: Seq<char>, query: Seq<char>) -> Result<Seq<char>, ErrorView> {
    target(search_page(host), "q"@, query)
}

/// The address to load to sign in with a token: the search page with the
/// token as its parameter `token`.
pub open spec fn token_target(host: Seq<char>, token: Seq<char>) -> Result<Seq<char>, ErrorView> {
    target(search_page(host), "token"@, token)
}

/// The path a session has landed on, given the address the browser
/// reports: a location that is too long is refused, of the others the `url`
/// crate reads the path or says why it cannot.
pub open spec fn landing_path(location: Seq<char>) -> Result<Seq<char>, ErrorView> {
    if location.len() <= MAX_ADDRESS_LENGTH {
        or_url_error(path_of(location))
    } else {
        Err(too_long())
    }
}

/// A result with its text and its error taken as mathematical values.
pub open spec fn text_or_error(r: Result<String, Error>) -> Result<Seq<char>, ErrorView> {
    match r {
        Ok(text) => Ok(text@),
        Err(e) => Err(e@),
    }
}

fn search_page_of(host: &str) -> (page: String)
    ensures
        page@ == search_page(host@),
{
    host.to_owned().concat("/search")
}

fn lift(r: Result<String, url::ParseError>) -> (out: Result<String, Error>)
    ensures
        text_or_error(out) == or_url_error(as_text(r)),
{
    match r {
        Ok(text) => Ok(text),
        Err(e) => Err(Error::UrlError(UrlFailure::Parse(e))),
    }
}

/// Tells whether a text has at most `limit` characters.
pub fn within(text: &str, limit: usize) -> (yes: bool)
    ensures
        yes == (text@.len() <= limit),
{
    text.unicode_len() <= limit
}

/// Builds the address made of a base address and one parameter.
pub fn address(base: &str, key: &str, value: &str) -> (r: Result<String, Error>)
    ensures
        text_or_error(r) == target(base@, key@, value@),
{
    let fits = within(base, MAX_ADDRESS_LENGTH) && within(key, MAX_ADDRESS_LENGTH) && within(
        value,
        MAX_ADDRESS_LENGTH,
    ) && base.unicode_len() + key.unicode_len() + value.unicode_len() <= MAX_ADDRESS_LENGTH;
    if fits {
        lift(parse_with_param(base, key, value))
    } else {
        Err(Error::UrlError(UrlFailure::TooLong))
    }
}

/// Builds the address to load for a search.
pub fn search_url(host: &str, query: &str) -> (r: Result<String, Error>)
    ensures
        text_or_error(r) == search_target(host@, query@),
{
    let page = search_page_of(host);
    address(page.as_str(), "q", query)
}

/// Builds the address to load to sign in with a token.
pub fn token_url(host: &str, token: &str) -> (r: Result<String, Error>)
    ensures
        text_or_error(r) == token_target(host@, token@),
{
    let page = search_page_of(host);
    address(page.as_str(), "token", token)
}

/// Reads the path out of an address that the browser reports.
pub fn location_path(location: &str) -> (r: Result<String, Error>)
    ensures
        text_or_error(r) == landing_path(location@),
{
    if within(location, MAX_ADDRESS_LENGTH) {
        lift(parse_path(location))
    } else {
        Err(Error::UrlError(UrlFailure::TooLong))
    }
}

/// Tells whether two texts are the same.
pub fn same_text(a: &str, b: &str) -> (same: bool)
    ensures
        same == (a@ == b@),
{
    a.to_owned() == b.to_owned()
}

} // verus!
