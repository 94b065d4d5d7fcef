use vstd::prelude::*;
use chromiumoxide::cdp::browser_protocol::network::{Cookie, CookieParam};

verus! {

/// `chromiumoxide::cdp::browser_protocol::network::CookieParam`, a cookie as
/// the browser takes it. Trusted to be a type; nothing is said of its
/// values, which are carried through as they are.
#[verifier::external_type_specification]
#[verifier::external_body]
pub struct ExCookieParam(CookieParam);

/// `chromiumoxide::cdp::browser_protocol::network::Cookie`, a cookie as the
/// browser hands it out. Trusted to be a type; nothing is said of its
/// values, which are carried through as they are.
#[verifier::external_type_specification]
#[verifier::external_body]
pub struct ExCookie(Cookie);

/// Authentication type
#[derive(Debug)]
pub enum AuthType {
    /// Login with username, password and optional 2FA code
    Login(String, String, Option<String>),
    /// Login with a token
    Token(String),
    /// Load cookies
    Cookies(Vec<CookieParam>),
    /// Use incognito mode
    Icognito,
}

/// The mathematical value of an [`AuthType`]. A cookie stands for itself: the
/// session stores and forwards it whole and never looks inside.
pub enum AuthTypeView {
    Login(Seq<char>, Seq<char>, Option<Seq<char>>),
    Token(Seq<char>),
    Cookies(Seq<CookieParam>),
    Icognito,
}

/// What a search can do when the service sends it to the sign-in page.
#[derive(Debug)]
pub enum Handshake {
    /// Fill in the sign-in form with e-mail, password and, if the service
    /// asks for one, the one-time code.
    Login(String, String, Option<String>),
    /// Present the token.
    Token(String),
    /// Nothing: the credential cannot answer a sign-in redirect.
    Unavailable,
}

/// The mathematical value of a [`Handshake`].
pub enum HandshakeView {
    Login(Seq<char>, Seq<char>, Option<Seq<char>>),
    Token(Seq<char>),
    Unavailable,
}

impl View for AuthType {
    type V = AuthTypeView;

    open spec fn view(&self) -> AuthTypeView {
        match *self {
            AuthType::Login(email, password, code) => AuthTypeView::Login(email@, password@, code.deep_view()),
            AuthType::Token(token) => AuthTypeView::Token(token@),
            AuthType::Cookies(cookies) => AuthTypeView::Cookies(cookies@),
            AuthType::Icognito => AuthTypeView::Icognito,
        }
    }
}

impl View for Handshake {
    type V = HandshakeView;

    open spec fn view(&self) -> HandshakeView {
        match *self {
            Handshake::Login(email, password, code) => HandshakeView::Login(email@, password@, code.deep_view()),
            Handshake::Token(token) => HandshakeView::Token(token@),
            Handshake::Unavailable => HandshakeView::Unavailable,
        }
    }
}

impl AuthTypeView {
    /// Whether the credential can answer a sign-in redirect: a login and a
    /// token can, cookies and the incognito identity cannot.
    pub open spec fn interactive(self) -> bool {
        self is Login || self is Token
    }

    /// The handshake that the credential allows.
    pub open spec fn handshake(self) -> HandshakeView {
        match self {
            AuthTypeView::Login(email, password, code) => HandshakeView::Login(email, password, code),
            AuthTypeView::Token(token) => HandshakeView::Token(token),
            AuthTypeView::Cookies(_) => HandshakeView::Unavailable,
            AuthTypeView::Icognito => HandshakeView::Unavailable,
        }
    }

    /// The cookies to put into the browser before any page is loaded.
    pub open spec fn cookies(self) -> Option<Seq<CookieParam>> {
        match self {
            AuthTypeView::Cookies(cookies) => Some(cookies),
            _ => None,
        }
    }
}

/// A copy of an optional text.
pub fn copy_text(text: &Option<String>) -> (copy: Option<String>)
    ensures
        copy.deep_view() == text.deep_view(),
{
    match text {
        Some(text) => Some(text.clone()),
        None => None,
    }
}

impl AuthType {
    /// Whether the credential can answer a sign-in redirect.
    pub fn interactive(&self) -> (yes: bool)
        ensures
            yes == self@.interactive(),
    {
        match self {
            AuthType::Login(_, _, _) => true,
            AuthType::Token(_) => true,
            AuthType::Cookies(_) => false,
            AuthType::Icognito => false,
        }
    }

    /// The handshake that the credential allows.
    pub fn handshake(&self) -> (handshake: Handshake)
        ensures
            handshake@ == self@.handshake(),
    {
        match self {
            AuthType::Login(email, password, code) => Handshake::Login(email.clone(), password.clone(), copy_text(code)),
            AuthType::Token(token) => Handshake::Token(token.clone()),
            AuthType::Cookies(_) => Handshake::Unavailable,
            AuthType::Icognito => Handshake::Unavailable,
        }
    }

    /// The cookies to put into the browser before any page is loaded: those
    /// of a cookie credential, all of them and in their order; none for any
    /// other credential.
    pub fn cookies(&self) -> (cookies: Option<&Vec<CookieParam>>)
        ensures
            match cookies {
                Some(list) => self@.cookies() == Some(list@),
                None => self@.cookies() is None,
            },
    {
        match self {
            AuthType::Cookies(cookies) => Some(cookies),
            _ => None,
        }
    }
}

} // verus!
