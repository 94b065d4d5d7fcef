use vstd::prelude::*;

verus! {

/// `url::ParseError`, the reason why the `url` crate could not read an
/// address. Trusted to be a type; nothing is said of its values, which are
/// carried through as they are.
#[verifier::external_type_specification]
#[verifier::external_body]
pub struct ExParseError(url::ParseError);

/// `chromiumoxide::error::CdpError`, the fault that the automation surface
/// reports when it cannot carry a command out. Trusted to be a type;
/// nothing is said of its values, which are carried through as they are.
#[verifier::external_type_specification]
#[verifier::external_body]
pub struct ExCdpError(chromiumoxide::error::CdpError);

/// `std::io::Error`, the failure of waiting for the browser process.
/// Trusted to be a type; nothing is said of its values, which are carried
/// through as they are.
#[verifier::external_type_specification]
#[verifier::external_body]
pub struct ExIoError(std::io::Error);

/// Why an address could not be built or read.
#[derive(Clone, Copy, Debug, PartialEq, Eq)]
pub enum UrlFailure {
    /// The texts that make up the address are longer than the library
    /// takes.
    TooLong,
    /// The `url` crate could not read the address.
    Parse(url::ParseError),
}

/// Everything that can end a session operation early.
#[derive(Debug)]
pub enum Error {
    /// A credential was rejected, or the session cannot answer a sign-in redirect.
    AuthError(String),
    /// A page element that the service's markup is expected to hold is absent.
    ElementNotFound(String),
    /// The browser went somewhere unexpected or reported nonsense.
    BrowserError(String),
    /// A navigation target or a reported location is no valid URL.
    UrlError(UrlFailure),
    /// The browser process could not be waited for.
    IoError(std::io::Error),
    /// The automation surface failed to carry out a command.
    CdpError(chromiumoxide::error::CdpError),
    /// The background event loop could not be started.
    SpawnerError(String),
}

/// The mathematical value of an [`Error`]: messages are character sequences,
/// values of other crates stand for themselves.
pub enum ErrorView {
    AuthError(Seq<char>),
    ElementNotFound(Seq<char>),
    BrowserError(Seq<char>),
    UrlError(UrlFailure),
    IoError(std::io::Error),
    CdpError(chromiumoxide::error::CdpError),
    SpawnerError(Seq<char>),
}

impl View for Error {
    type V = ErrorView;

    open spec fn view(&self) -> ErrorView {
        match *self {
            Error::AuthError(m) => ErrorView::AuthError(m@),
            Error::ElementNotFound(m) => ErrorView::ElementNotFound(m@),
            Error::BrowserError(m) => ErrorView::BrowserError(m@),
            Error::UrlError(e) => ErrorView::UrlError(e),
            Error::IoError(e) => ErrorView::IoError(e),
            Error::CdpError(e) => ErrorView::CdpError(e),
            Error::SpawnerError(m) => ErrorView::SpawnerError(m@),
        }
    }
}

/// The error for an answer of the automation surface that does not fit the
/// command it was given.
pub open spec fn unexpected_reply() -> ErrorView {
    ErrorView::BrowserError("unexpected reply"@)
}

impl Error {
    /// The error for an answer that does not fit the command it was given.
    pub fn unexpected() -> (e: Error)
        ensures
            e@ == unexpected_reply(),
    {
        Error::browser("unexpected reply")
    }

    /// An authentication failure with the given message.
    pub fn auth(message: &str) -> (e: Error)
        ensures
            e@ == ErrorView::AuthError(message@),
    {
        Error::AuthError(message.to_owned())
    }

    /// A missing page element, named by the text of its selector.
    pub fn element(selector: &str) -> (e: Error)
        ensures
            e@ == ErrorView::ElementNotFound(selector@),
    {
        Error::ElementNotFound(selector.to_owned())
    }

    /// A browser failure with the given message.
    pub fn browser(message: &str) -> (e: Error)
        ensures
            e@ == ErrorView::BrowserError(message@),
    {
        Error::BrowserError(message.to_owned())
    }

    /// A failure to start the background event loop.
    pub fn spawner(message: &str) -> (e: Error)
        ensures
            e@ == ErrorView::SpawnerError(message@),
    {
        Error::SpawnerError(message.to_owned())
    }
}

} // verus!
