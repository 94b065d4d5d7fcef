use vstd::prelude::*;
use chromiumoxide::cdp::browser_protocol::network::{Cookie, CookieParam};
use chromiumoxide::error::CdpError;
use crate::config::{Config, ConfigView};
use crate::consts::{VIEWPORT_HEIGHT, VIEWPORT_WIDTH};
use crate::credential::{AuthType, AuthTypeView};
use crate::error::{Error, ErrorView};
use crate::record::{SearchResult, SearchResultView};
use crate::auth::outcome;
use crate::search::{outcome_view, Search, SearchView, Step, StepView};

verus! {

/// How the browser of a session is launched. All of it is fixed: the service
/// looks for the marks of an automated browser.
#[derive(Debug)]
pub struct LaunchOptions {
    /// The width of the viewport, in pixels.
    pub width: u32,
    /// The height of the viewport, in pixels.
    pub height: u32,
    /// Whether the browser runs without a profile of its own.
    pub incognito: bool,
    /// Whether every page gets the properties injected that hide the
    /// automation from the scripts of the service.
    pub stealth: bool,
    /// The flags on the browser's command line.
    pub args: Vec<&'static str>,
}

/// The flags on the command line of a session's browser.
pub open spec fn launch_flags() -> Seq<Seq<char>> {
    seq![
        "--disable-blink-features=AutomationControlled"@,
        "--disable-features=IsolateOrigins,site-per-process"@,
        "--disable-site-isolation-trials"@,
        "--no-sandbox"@,
        "--disable-setuid-sandbox"@,
        "--disable-dev-shm-usage"@,
        "--disable-accelerated-2d-canvas"@,
        "--no-first-run"@,
        "--no-zygote"@,
        "--disable-gpu"@,
        "--hide-scrollbars"@,
        "--mute-audio"@,
        "--disable-background-networking"@,
        "--disable-background-timer-throttling"@,
        "--disable-backgrounding-occluded-windows"@,
        "--disable-breakpad"@,
        "--disable-component-extensions-with-background-pages"@,
        "--disable-extensions"@,
        "--disable-features=TranslateUI"@,
        "--disable-ipc-flooding-protection"@,
        "--disable-renderer-backgrounding"@,
        "--enable-features=NetworkService,NetworkServiceInProcess"@,
        "--force-color-profile=srgb"@,
        "--metrics-recording-only"@,
    ]
}

/// The texts of a list of string slices, in the same order.
pub open spec fn texts(list: Seq<&'static str>) -> Seq<Seq<char>> {
    Seq::new(list.len(), |i: int| list[i]@)
}

/// The error for an operation on a session that was closed.
pub open spec fn closed_session() -> ErrorView {
    ErrorView::BrowserError("Browser closed"@)
}

/// The error for a credential that cannot stand in for the session's own
/// during one search.
pub open spec fn invalid_override() -> ErrorView {
    ErrorView::AuthError("only a token or a login can be used for a single search"@)
}

/// Whether `pattern` occurs in `text` as a run of consecutive characters.
pub open spec fn occurs_in(pattern: Seq<char>, text: Seq<char>) -> bool {
    exists|i: int|
        0 <= i && i + pattern.len() <= text.len() && #[trigger] text.subrange(i, i + pattern.len()) == pattern
}

/// Calls `str::contains` of the standard library with a string slice as the
/// pattern. Trusted: the contract restates its documentation, that it tells
/// whether the pattern matches a sub-slice of the text.
#[verifier::external_body]
fn contains(text: &str, pattern: &str) -> (found: bool)
    ensures
        found == occurs_in(pattern@, text@),
{
    text.contains(pattern)
}

/// Whether the loop that forwards the browser's events in the background
/// ends after an event that failed with the given message: it does once the
/// browser has closed, and goes on after any other failure.
pub fn ends_event_loop(message: &str) -> (ends: bool)
    ensures
        ends == occurs_in("Browser closed"@, message@),
{
    contains(message, "Browser closed")
}

/// Browser instance: the controller of one session with the service.
///
/// It holds the credential of the session and knows whether the session was
/// closed. It decides what is asked of the browser, and leaves the asking to
/// whoever owns the browser.
#[derive(Debug)]
pub struct Kagi {
    auth_type: AuthType,
    config: Config,
    closed: bool,
}

/// The mathematical value of a [`Kagi`].
pub struct KagiView {
    /// The credential of the session.
    pub auth_type: AuthTypeView,
    /// What the session is set up with.
    pub config: ConfigView,
    /// Whether the session was closed.
    pub closed: bool,
}

impl View for Kagi {
    type V = KagiView;

    closed spec fn view(&self) -> KagiView {
        KagiView { auth_type: self.auth_type@, config: self.config@, closed: self.closed }
    }
}

/// The mathematical value of a credential for a single search.
pub open spec fn single_view(single: Option<AuthType>) -> Option<AuthTypeView> {
    match single {
        Some(auth_type) => Some(auth_type@),
        None => None,
    }
}

impl KagiView {
    /// The credential that counts for one search: the one given for that
    /// search, if one was given, else the session's own.
    pub open spec fn effective(self, single: Option<AuthTypeView>) -> AuthTypeView {
        match single {
            Some(auth_type) => auth_type,
            None => self.auth_type,
        }
    }

    /// Whether closing the session has anything to do: the browser is to
    /// be shut down if and only if the session is open.
    pub open spec fn close(self) -> bool {
        !self.closed
    }

    /// What the session is after the browser was asked to shut down, and
    /// what the caller of the close is told: the session is closed once
    /// the browser has taken the request, and stays as it was, with the
    /// fault for the caller, if it has not.
    pub open spec fn shut(self, shutdown: Result<(), CdpError>) -> (KagiView, Result<(), ErrorView>) {
        match shutdown {
            Ok(()) => (KagiView { closed: true, ..self }, Ok(())),
            Err(fault) => (self, Err(self.fault(fault))),
        }
    }

    /// The error that a fault of the browser means to the caller of an
    /// operation of this session: the fault itself, unless the session was
    /// closed, which fails whatever is under way with the error for a
    /// closed browser.
    pub open spec fn fault(self, fault: CdpError) -> ErrorView {
        if self.closed {
            closed_session()
        } else {
            ErrorView::CdpError(fault)
        }
    }

    /// What a search of this session comes to in the end: a fault of the
    /// browser is told to the caller as the session sees it, every other
    /// outcome stands.
    pub open spec fn conclude(
        self,
        outcome: Result<Option<Seq<SearchResultView>>, ErrorView>,
    ) -> Result<Option<Seq<SearchResultView>>, ErrorView> {
        match outcome {
            Err(ErrorView::CdpError(fault)) => Err(self.fault(fault)),
            _ => outcome,
        }
    }

    /// How a search of this session starts.
    ///
    /// A closed session starts none, and neither does a credential for a
    /// single search that is no token and no login. Otherwise the search
    /// opens its page, in a browsing context of its own if and only if the
    /// session's own credential is the incognito identity.
    pub open spec fn search(self, query: Seq<char>, limit: nat, single: Option<AuthTypeView>) -> StepView {
        if self.closed {
            StepView::Finished(Err(closed_session()))
        } else if single is Some && !single->0.interactive() {
            StepView::Finished(Err(invalid_override()))
        } else {
            SearchView::begin(
                self.config,
                query,
                limit,
                self.effective(single).handshake(),
                self.auth_type is Icognito,
            )
        }
    }
}

impl Kagi {
    /// Create a new browser instance with authentication: the controller
    /// of a session that is open and set up as usual.
    pub fn new(auth_type: AuthType) -> (kagi: Kagi)
        ensures
            kagi@ == (KagiView { auth_type: auth_type@, config: ConfigView::standard(), closed: false }),
    {
        Kagi { auth_type, config: Config::default(), closed: false }
    }

    /// The controller of a session that is open and set up as given.
    pub fn with_config(auth_type: AuthType, config: Config) -> (kagi: Kagi)
        ensures
            kagi@ == (KagiView { auth_type: auth_type@, config: config@, closed: false }),
    {
        Kagi { auth_type, config, closed: false }
    }

    /// How the browser of a session is launched.
    pub fn launch_options() -> (options: LaunchOptions)
        ensures
            options.width == VIEWPORT_WIDTH,
            options.height == VIEWPORT_HEIGHT,
            options.incognito,
            options.stealth,
            texts(options.args@) == launch_flags(),
    {
        let args: Vec<&'static str> = vec![
            "--disable-blink-features=AutomationControlled",
            "--disable-features=IsolateOrigins,site-per-process",
            "--disable-site-isolation-trials",
            "--no-sandbox",
            "--disable-setuid-sandbox",
            "--disable-dev-shm-usage",
            "--disable-accelerated-2d-canvas",
            "--no-first-run",
            "--no-zygote",
            "--disable-gpu",
            "--hide-scrollbars",
            "--mute-audio",
            "--disable-background-networking",
            "--disable-background-timer-throttling",
            "--disable-backgrounding-occluded-windows",
            "--disable-breakpad",
            "--disable-component-extensions-with-background-pages",
            "--disable-extensions",
            "--disable-features=TranslateUI",
            "--disable-ipc-flooding-protection",
            "--disable-renderer-backgrounding",
            "--enable-features=NetworkService,NetworkServiceInProcess",
            "--force-color-profile=srgb",
            "--metrics-recording-only",
        ];
        assert(texts(args@) =~= launch_flags());
        LaunchOptions { width: VIEWPORT_WIDTH, height: VIEWPORT_HEIGHT, incognito: true, stealth: true, args }
    }

    /// The cookies to put into the browser before any page is loaded: those
    /// of a cookie credential, all of them and in their order; none for any
    /// other credential.
    pub fn cookies_to_seed(&self) -> (cookies: Option<&Vec<CookieParam>>)
        ensures
            match cookies {
                Some(list) => self@.auth_type.cookies() == Some(list@),
                None => self@.auth_type.cookies() is None,
            },
    {
        self.auth_type.cookies()
    }

    /// Takes the outcome of putting the cookies into the browser: a session
    /// whose cookies could not be seeded is not handed out, the failure is
    /// an authentication error with the message of the fault.
    pub fn seeded(self, outcome: Result<(), String>) -> (r: Result<Kagi, Error>)
        ensures
            match outcome {
                Ok(()) => r matches Ok(kagi) && kagi@ == self@,
                Err(message) => r matches Err(e) && e@ == ErrorView::AuthError(message@),
            },
    {
        match outcome {
            Ok(()) => Ok(self),
            Err(message) => Err(Error::AuthError(message)),
        }
    }

    /// Whether the session was closed.
    pub fn is_closed(&self) -> (closed: bool)
        ensures
            closed == self@.closed,
    {
        self.closed
    }

    /// Close the browser instance: tells whether the browser is to be shut
    /// down. It is while the session is open; closing a closed session asks
    /// for nothing. The outcome of the shutdown goes to [`Kagi::shut`].
    pub fn close(&self) -> (shut_down: bool)
        ensures
            shut_down == self@.close(),
    {
        !self.closed
    }

    /// Takes the outcome of asking the browser to shut down. The session is
    /// closed only once the browser has taken the request, so that a close
    /// that failed can be tried again.
    pub fn shut(&mut self, shutdown: Result<(), CdpError>) -> (r: Result<(), Error>)
        ensures
            (final(self)@, outcome(r)) == old(self)@.shut(shutdown),
    {
        match shutdown {
            Ok(()) => {
                self.closed = true;
                Ok(())
            },
            Err(fault) => Err(self.fault(fault)),
        }
    }

    /// The error that a fault of the browser means to the caller of an
    /// operation of this session.
    pub fn fault(&self, fault: CdpError) -> (e: Error)
        ensures
            e@ == self@.fault(fault),
    {
        if self.closed {
            Error::browser("Browser closed")
        } else {
            Error::CdpError(fault)
        }
    }

    /// Get the cookies stored in the browser context: takes what the
    /// browser handed out and passes it on, the cookies all of them and in
    /// their order, a fault as the session sees it.
    pub fn cookies(&self, jar: Result<Vec<Cookie>, CdpError>) -> (r: Result<Vec<Cookie>, Error>)
        ensures
            match jar {
                Ok(list) => r matches Ok(cookies) && cookies@ == list@,
                Err(fault) => r matches Err(e) && e@ == self@.fault(fault),
            },
    {
        match jar {
            Ok(list) => Ok(list),
            Err(fault) => Err(self.fault(fault)),
        }
    }

    /// Takes the outcome of a search of this session and hands out what
    /// the caller of the search gets.
    pub fn conclude(&self, outcome: Result<Option<Vec<SearchResult>>, Error>) -> (r: Result<
        Option<Vec<SearchResult>>,
        Error,
    >)
        ensures
            outcome_view(r) == self@.conclude(outcome_view(outcome)),
    {
        match outcome {
            Err(Error::CdpError(fault)) => Err(self.fault(fault)),
            other => other,
        }
    }

    /// Performs a search query on Kagi: starts a search for `query` that
    /// hands out at most `limit` records.
    ///
    /// `auth_type` is an optional authentication type to use for this
    /// search only, while the session keeps its own. Only
    /// `AuthType::Token` and `AuthType::Login` are supported.
    pub fn search(&self, query: &str, limit: usize, auth_type: Option<AuthType>) -> (step: Step)
        ensures
            step@ == self@.search(query@, limit as nat, single_view(auth_type)),
            step matches Step::Continue(search, _) ==> search@.wf(),
    {
        if self.closed {
            return Step::Finished(Err(Error::browser("Browser closed")));
        }
        let handshake = match &auth_type {
            Some(single) => {
                if !single.interactive() {
                    return Step::Finished(
                        Err(Error::auth("only a token or a login can be used for a single search")),
                    );
                }
                single.handshake()
            },
            None => self.auth_type.handshake(),
        };
        let private = match &self.auth_type {
            AuthType::Icognito => true,
            _ => false,
        };
        Search::start(&self.config, query, limit, handshake, private)
    }
}

} // verus!
