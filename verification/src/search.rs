use vstd::prelude::*;
use crate::auth::{
    handle_signin, handle_token, no_location, token_command, token_landed, token_outcome, token_reply,
    token_verdict, Login, LoginStep, LoginStepView, LoginView, SEARCH_PATH, SIGNIN_PATH,
};
use crate::config::{Config, ConfigView};
use crate::credential::{Handshake, HandshakeView};
use crate::error::{unexpected_reply, Error, ErrorView};
use crate::extract::{ExtractStep, ExtractStepView, Extractor, ExtractorView};
use crate::location::{landing_path, location_path, same_text, search_target, search_url, text_or_error};
use crate::poll::{PollStep, PollStepView, Poller, PollerView};
use crate::record::{records, SearchResult, SearchResultView};
use crate::surface::{Command, CommandView, Reply, ReplyView};

verus! {

/// The error for a credential that cannot answer a sign-in redirect.
pub open spec fn invalid_credentials() -> ErrorView {
    ErrorView::AuthError("invalid credentials"@)
}

/// The error for a service that keeps sending a search back to the sign-in
/// page although signing in succeeds.
pub open spec fn too_many_redirects() -> ErrorView {
    ErrorView::AuthError("too many sign-in redirects"@)
}

/// The error for a browser that ends up neither on the results page nor on
/// the sign-in page.
pub open spec fn lost() -> ErrorView {
    ErrorView::BrowserError("Failed to navigate to search page"@)
}

/// What a search is busy with.
#[derive(Debug)]
pub enum Phase {
    /// The page is being opened.
    Opening,
    /// The search address is being loaded.
    Navigating,
    /// The token was presented.
    Token,
    /// The sign-in form is being filled in.
    Login(Login),
    /// The results are being waited for.
    Polling(Poller),
    /// The results are being read.
    Extracting(Extractor),
}

/// The mathematical value of a [`Phase`].
pub enum PhaseView {
    Opening,
    Navigating,
    Token,
    Login(LoginView),
    Polling(PollerView),
    Extracting(ExtractorView),
}

/// One search of a session, from opening its page to its records.
///
/// A search hands out one [`Command`] at a time and takes the surface's
/// [`Reply`] to it; it never performs anything itself.
#[derive(Debug)]
pub struct Search {
    plan: Plan,
    phase: Phase,
}

/// The parts of a search that stay as they are while the phases change.
#[derive(Debug)]
struct Plan {
    config: Config,
    query: String,
    limit: usize,
    handshake: Handshake,
    rounds: u32,
}

/// The mathematical value of a [`Search`].
pub struct SearchView {
    /// What the session is set up with.
    pub config: ConfigView,
    /// The search term.
    pub query: Seq<char>,
    /// The largest number of records to hand out.
    pub limit: nat,
    /// What the search can do when it is sent to the sign-in page.
    pub handshake: HandshakeView,
    /// How often the search may still sign in.
    pub rounds: nat,
    /// What the search is busy with.
    pub phase: PhaseView,
}

/// How a search goes on after an answer.
#[derive(Debug)]
pub enum Step {
    /// Perform the command and hand its answer to the search.
    Continue(Search, Command),
    /// The search has ended: with its records in document order, with
    /// `None` if no result was rendered in time, or with an error.
    Finished(Result<Option<Vec<SearchResult>>, Error>),
}

/// The mathematical value of a [`Step`].
pub enum StepView {
    Continue(SearchView, CommandView),
    Finished(Result<Option<Seq<SearchResultView>>, ErrorView>),
}

/// The outcome of a search as a mathematical value.
pub open spec fn outcome_view(
    outcome: Result<Option<Vec<SearchResult>>, Error>,
) -> Result<Option<Seq<SearchResultView>>, ErrorView> {
    match outcome {
        Ok(Some(list)) => Ok(Some(records(list@))),
        Ok(None) => Ok(None),
        Err(e) => Err(e@),
    }
}

impl View for Phase {
    type V = PhaseView;

    open spec fn view(&self) -> PhaseView {
        match *self {
            Phase::Opening => PhaseView::Opening,
            Phase::Navigating => PhaseView::Navigating,
            Phase::Token => PhaseView::Token,
            Phase::Login(login) => PhaseView::Login(login@),
            Phase::Polling(poller) => PhaseView::Polling(poller@),
            Phase::Extracting(extractor) => PhaseView::Extracting(extractor@),
        }
    }
}

impl View for Search {
    type V = SearchView;

    closed spec fn view(&self) -> SearchView {
        self.plan.with(self.phase@)
    }
}

impl View for Step {
    type V = StepView;

    open spec fn view(&self) -> StepView {
        match *self {
            Step::Continue(search, command) => StepView::Continue(search@, command@),
            Step::Finished(outcome) => StepView::Finished(outcome_view(outcome)),
        }
    }
}

impl PhaseView {
    /// The place of the phase in the course of a search: opening the page,
    /// loading the search address, signing in, waiting for the results,
    /// reading them.
    pub open spec fn ordinal(self) -> nat {
        match self {
            PhaseView::Opening => 0,
            PhaseView::Navigating => 1,
            PhaseView::Token => 2,
            PhaseView::Login(_) => 2,
            PhaseView::Polling(_) => 3,
            PhaseView::Extracting(_) => 4,
        }
    }
}

impl SearchView {
    /// The parts of a search in use fit together: the handlers and helpers
    /// it holds are themselves in order, and a search that is signing in
    /// had a round left to do so.
    pub open spec fn wf(self) -> bool {
        match self.phase {
            PhaseView::Opening => true,
            PhaseView::Navigating => true,
            PhaseView::Token => self.rounds > 0,
            PhaseView::Login(login) => login.wf() && self.rounds > 0,
            PhaseView::Polling(poller) => poller.wf(),
            PhaseView::Extracting(extractor) => extractor.wf() && extractor.limit == self.limit,
        }
    }

    /// The number of phases that can still follow in this round.
    pub open spec fn phases_left(self) -> nat {
        (4 - self.phase.ordinal()) as nat
    }

    /// How far the search is from its end, as three numbers of which an
    /// earlier one counts for more than all later ones: the rounds of
    /// signing in that are left, the phases that can still follow, and the
    /// answers that the handler or helper at work can still take.
    pub open spec fn rank(self) -> (nat, nat, nat) {
        match self.phase {
            PhaseView::Login(login) => (self.rounds, self.phases_left(), login.answers_left()),
            PhaseView::Polling(poller) => (self.rounds, self.phases_left(), poller.answers_left()),
            PhaseView::Extracting(extractor) => (self.rounds, self.phases_left(), extractor.answers_left()),
            _ => (self.rounds, self.phases_left(), 0),
        }
    }

    /// The search goes on in the given phase.
    pub open spec fn enter(self, phase: PhaseView) -> SearchView {
        SearchView { phase, ..self }
    }

    /// A search starts by opening its page, in a browsing context of its own
    /// if `private`. It has as many rounds of signing in as it is set up
    /// with.
    pub open spec fn begin(
        config: ConfigView,
        query: Seq<char>,
        limit: nat,
        handshake: HandshakeView,
        private: bool,
    ) -> StepView {
        StepView::Continue(
            SearchView {
                config,
                query,
                limit,
                handshake,
                rounds: config.max_signin_rounds as nat,
                phase: PhaseView::Opening,
            },
            CommandView::OpenPage { private },
        )
    }

    /// Loads the search address.
    pub open spec fn navigate(self) -> StepView {
        match search_target(self.config.host, self.query) {
            Ok(address) => StepView::Continue(self.enter(PhaseView::Navigating), CommandView::Navigate(address)),
            Err(e) => StepView::Finished(Err(e)),
        }
    }

    /// After signing in, the search address is loaded again, with one round
    /// of signing in used up.
    pub open spec fn signed_in(self) -> StepView {
        SearchView { rounds: (self.rounds - 1) as nat, ..self }.navigate()
    }

    /// Answers a redirect to the sign-in page.
    ///
    /// A credential that cannot sign in fails at once, and so does a
    /// search that has used up its rounds. Otherwise the handler of the
    /// credential takes over: the token is presented, or the form filled in.
    pub open spec fn sign_in(self) -> StepView {
        if self.handshake is Unavailable {
            StepView::Finished(Err(invalid_credentials()))
        } else if self.rounds == 0 {
            StepView::Finished(Err(too_many_redirects()))
        } else {
            match self.handshake {
                HandshakeView::Token(token) => match token_command(self.config.host, token) {
                    Ok(command) => StepView::Continue(self.enter(PhaseView::Token), command),
                    Err(e) => StepView::Finished(Err(e)),
                },
                HandshakeView::Login(email, password, code) => self.logged(
                    LoginView::begin(email, password, code),
                ),
                HandshakeView::Unavailable => StepView::Finished(Err(invalid_credentials())),
            }
        }
    }

    /// Goes on with what the login handler came to.
    pub open spec fn logged(self, step: LoginStepView) -> StepView {
        match step {
            LoginStepView::Continue(login, command) => StepView::Continue(
                self.enter(PhaseView::Login(login)),
                command,
            ),
            LoginStepView::Done(Ok(())) => self.signed_in(),
            LoginStepView::Done(Err(e)) => StepView::Finished(Err(e)),
        }
    }

    /// Starts waiting for the results.
    pub open spec fn poll(self) -> StepView {
        self.polled(PollerView::begin(self.config.max_retries, self.config.retry_interval))
    }

    /// Goes on with what the poller came to: without nodes the search ends
    /// without records, with nodes the records are read from them.
    pub open spec fn polled(self, step: PollStepView) -> StepView {
        match step {
            PollStepView::Continue(poller, command) => StepView::Continue(
                self.enter(PhaseView::Polling(poller)),
                command,
            ),
            PollStepView::Done(Ok(None)) => StepView::Finished(Ok(None)),
            PollStepView::Done(Ok(Some(nodes))) => self.extracted(ExtractorView::begin(nodes, self.limit)),
            PollStepView::Done(Err(e)) => StepView::Finished(Err(e)),
        }
    }

    /// Goes on with what the extractor came to.
    pub open spec fn extracted(self, step: ExtractStepView) -> StepView {
        match step {
            ExtractStepView::Continue(extractor, command) => StepView::Continue(
                self.enter(PhaseView::Extracting(extractor)),
                command,
            ),
            ExtractStepView::Done(Ok(list)) => StepView::Finished(Ok(Some(list))),
            ExtractStepView::Done(Err(e)) => StepView::Finished(Err(e)),
        }
    }

    /// Where the search goes from the page that the search address led to:
    /// on the sign-in page it signs in, on the results page it waits for
    /// the results, and anywhere else it fails.
    pub open spec fn arrived(self, path: Seq<char>) -> StepView {
        if path == SIGNIN_PATH@ {
            self.sign_in()
        } else if path == SEARCH_PATH@ {
            self.poll()
        } else {
            StepView::Finished(Err(lost()))
        }
    }

    /// What the search does once the browser has landed, given the path it
    /// landed on.
    ///
    /// After loading the search address the path decides where the search
    /// goes. After presenting the token it decides whether the token is
    /// good, and during a login it is the login handler's to judge. A
    /// search that is not waiting for the browser to land has no use for a
    /// path.
    pub open spec fn landed(self, path: Result<Seq<char>, ErrorView>) -> StepView {
        match self.phase {
            PhaseView::Navigating => match path {
                Err(e) => StepView::Finished(Err(e)),
                Ok(path) => self.arrived(path),
            },
            PhaseView::Token => match token_verdict(path) {
                Ok(()) => self.signed_in(),
                Err(e) => StepView::Finished(Err(e)),
            },
            PhaseView::Login(login) => self.logged(login.landed(path)),
            _ => StepView::Finished(Err(unexpected_reply())),
        }
    }

    /// What the search does with an answer.
    ///
    /// A location that the browser reports is read for its path, and the
    /// search goes on from there. Every other answer is taken by what the
    /// search is busy with.
    pub open spec fn next(self, reply: ReplyView) -> StepView {
        match reply {
            ReplyView::Location(Some(location)) => self.landed(landing_path(location)),
            _ => match self.phase {
                PhaseView::Opening => match reply {
                    ReplyView::Done => self.navigate(),
                    ReplyView::Fault(fault) => StepView::Finished(Err(ErrorView::CdpError(fault))),
                    _ => StepView::Finished(Err(unexpected_reply())),
                },
                PhaseView::Navigating => match reply {
                    ReplyView::Location(None) => StepView::Finished(Err(no_location())),
                    ReplyView::Fault(fault) => StepView::Finished(Err(ErrorView::CdpError(fault))),
                    _ => StepView::Finished(Err(unexpected_reply())),
                },
                PhaseView::Token => match token_outcome(reply) {
                    Ok(()) => self.signed_in(),
                    Err(e) => StepView::Finished(Err(e)),
                },
                PhaseView::Login(login) => self.logged(login.next(reply)),
                PhaseView::Polling(poller) => self.polled(poller.next(reply)),
                PhaseView::Extracting(extractor) => self.extracted(extractor.next(reply)),
            },
        }
    }
}

impl StepView {
    /// Where a search stands after the answers were handed to it one by one.
    /// Answers that come after the search has ended are not looked at.
    pub open spec fn feed(self, replies: Seq<ReplyView>) -> StepView
        decreases replies.len(),
    {
        if replies.len() == 0 {
            self
        } else {
            match self {
                StepView::Continue(search, _) => search.next(replies[0]).feed(replies.drop_first()),
                StepView::Finished(_) => self,
            }
        }
    }

    /// The commands that a search hands out while the answers are handed to
    /// it one by one, the command in hand at the start included.
    pub open spec fn commands(self, replies: Seq<ReplyView>) -> Seq<CommandView>
        decreases replies.len(),
    {
        match self {
            StepView::Finished(_) => Seq::empty(),
            StepView::Continue(search, command) => if replies.len() == 0 {
                seq![command]
            } else {
                seq![command] + search.next(replies[0]).commands(replies.drop_first())
            },
        }
    }
}

impl Plan {
    spec fn with(self, phase: PhaseView) -> SearchView {
        SearchView {
            config: self.config@,
            query: self.query@,
            limit: self.limit as nat,
            handshake: self.handshake@,
            rounds: self.rounds as nat,
            phase,
        }
    }

    fn enter(self, phase: Phase) -> (search: Search)
        requires
            self.with(phase@).wf(),
        ensures
            search@ == self.with(phase@),
    {
        Search { plan: self, phase }
    }

    fn navigate(self) -> (step: Step)
        ensures
            step@ == self.with(PhaseView::Opening).navigate(),
            step matches Step::Continue(search, _) ==> search@.wf(),
    {
        match search_url(self.config.host.as_str(), self.query.as_str()) {
            Ok(address) => Step::Continue(self.enter(Phase::Navigating), Command::Navigate(address)),
            Err(e) => Step::Finished(Err(e)),
        }
    }

    fn signed_in(self) -> (step: Step)
        requires
            self.rounds > 0,
        ensures
            step@ == self.with(PhaseView::Opening).signed_in(),
            step matches Step::Continue(search, _) ==> search@.wf(),
    {
        let plan = Plan {
            config: self.config,
            query: self.query,
            limit: self.limit,
            handshake: self.handshake,
            rounds: self.rounds - 1,
        };
        plan.navigate()
    }

    fn logged(self, step: LoginStep) -> (out: Step)
        requires
            self.rounds > 0,
            step matches LoginStep::Continue(login, _) ==> login@.wf(),
        ensures
            out@ == self.with(PhaseView::Opening).logged(step@),
            out matches Step::Continue(search, _) ==> search@.wf(),
    {
        match step {
            LoginStep::Continue(login, command) => Step::Continue(self.enter(Phase::Login(login)), command),
            LoginStep::Done(Ok(())) => self.signed_in(),
            LoginStep::Done(Err(e)) => Step::Finished(Err(e)),
        }
    }

    fn sign_in(self) -> (step: Step)
        ensures
            step@ == self.with(PhaseView::Opening).sign_in(),
            step matches Step::Continue(search, _) ==> search@.wf(),
    {
        match &self.handshake {
            Handshake::Unavailable => Step::Finished(Err(Error::auth("invalid credentials"))),
            Handshake::Token(token) => if self.rounds == 0 {
                Step::Finished(Err(Error::auth("too many sign-in redirects")))
            } else {
                match handle_token(self.config.host.as_str(), token.as_str()) {
                    Ok(command) => Step::Continue(self.enter(Phase::Token), command),
                    Err(e) => Step::Finished(Err(e)),
                }
            },
            Handshake::Login(email, password, code) => if self.rounds == 0 {
                Step::Finished(Err(Error::auth("too many sign-in redirects")))
            } else {
                let code: Option<&str> = match code {
                    Some(code) => Some(code.as_str()),
                    None => None,
                };
                let step = handle_signin(email.as_str(), password.as_str(), code);
                self.logged(step)
            },
        }
    }

    fn extracted(self, step: ExtractStep) -> (out: Step)
        requires
            step matches ExtractStep::Continue(extractor, _) ==> extractor@.wf() && extractor@.limit == self.limit,
        ensures
            out@ == self.with(PhaseView::Opening).extracted(step@),
            out matches Step::Continue(search, _) ==> search@.wf(),
    {
        match step {
            ExtractStep::Continue(extractor, command) => Step::Continue(
                self.enter(Phase::Extracting(extractor)),
                command,
            ),
            ExtractStep::Done(Ok(list)) => Step::Finished(Ok(Some(list))),
            ExtractStep::Done(Err(e)) => Step::Finished(Err(e)),
        }
    }

    fn polled(self, step: PollStep) -> (out: Step)
        requires
            step matches PollStep::Continue(poller, _) ==> poller@.wf(),
        ensures
            out@ == self.with(PhaseView::Opening).polled(step@),
            out matches Step::Continue(search, _) ==> search@.wf(),
    {
        match step {
            PollStep::Continue(poller, command) => Step::Continue(self.enter(Phase::Polling(poller)), command),
            PollStep::Done(Ok(None)) => Step::Finished(Ok(None)),
            PollStep::Done(Ok(Some(nodes))) => {
                let limit = self.limit;
                self.extracted(Extractor::start(nodes, limit))
            },
            PollStep::Done(Err(e)) => Step::Finished(Err(e)),
        }
    }

    fn poll(self) -> (step: Step)
        ensures
            step@ == self.with(PhaseView::Opening).poll(),
            step matches Step::Continue(search, _) ==> search@.wf(),
    {
        let step = Poller::start(self.config.max_retries, self.config.retry_interval);
        self.polled(step)
    }

    fn arrived(self, path: &str) -> (step: Step)
        ensures
            step@ == self.with(PhaseView::Opening).arrived(path@),
            step matches Step::Continue(search, _) ==> search@.wf(),
    {
        if same_text(path, SIGNIN_PATH) {
            self.sign_in()
        } else if same_text(path, SEARCH_PATH) {
            self.poll()
        } else {
            Step::Finished(Err(Error::browser("Failed to navigate to search page")))
        }
    }
}

impl Search {
    #[verifier::type_invariant]
    spec fn inv(self) -> bool {
        self@.wf()
    }

    /// Starts a search for `query` that hands out at most `limit` records,
    /// with the setup of its session.
    ///
    /// Its page is opened in a browsing context of its own if `private`.
    /// When it is sent to the sign-in page it answers with `handshake`.
    pub fn start(config: &Config, query: &str, limit: usize, handshake: Handshake, private: bool) -> (step: Step)
        ensures
            step@ == SearchView::begin(config@, query@, limit as nat, handshake@, private),
            step matches Step::Continue(search, _) && search@.wf(),
    {
        let plan = Plan {
            config: config.copy(),
            query: query.to_owned(),
            limit,
            handshake,
            rounds: config.max_signin_rounds,
        };
        Step::Continue(plan.enter(Phase::Opening), Command::OpenPage { private })
    }

    /// Goes on with the search once the browser has landed, given the path
    /// it landed on.
    pub fn landed(self, path: Result<String, Error>) -> (step: Step)
        ensures
            self@.wf(),
            step@ == self@.landed(text_or_error(path)),
            step matches Step::Continue(search, _) ==> search@.wf(),
    {
        proof {
            use_type_invariant(&self);
        }
        let Search { plan, phase } = self;
        match phase {
            Phase::Navigating => match path {
                Err(e) => Step::Finished(Err(e)),
                Ok(path) => plan.arrived(path.as_str()),
            },
            Phase::Token => match token_landed(path) {
                Ok(()) => plan.signed_in(),
                Err(e) => Step::Finished(Err(e)),
            },
            Phase::Login(login) => {
                let step = login.landed(path);
                plan.logged(step)
            },
            _ => Step::Finished(Err(Error::unexpected())),
        }
    }

    /// Takes the answer to the command that was handed out last.
    pub fn step(self, reply: Reply) -> (step: Step)
        ensures
            self@.wf(),
            step@ == self@.next(reply@),
            step matches Step::Continue(search, _) ==> search@.wf(),
    {
        proof {
            use_type_invariant(&self);
        }
        if let Reply::Location(Some(location)) = reply {
            return self.landed(location_path(location.as_str()));
        }
        let Search { plan, phase } = self;
        match phase {
            Phase::Opening => match reply {
                Reply::Done => plan.navigate(),
                Reply::Fault(fault) => Step::Finished(Err(Error::CdpError(fault))),
                _ => Step::Finished(Err(Error::unexpected())),
            },
            Phase::Navigating => match reply {
                Reply::Location(None) => Step::Finished(Err(Error::browser("Failed to get URL"))),
                Reply::Fault(fault) => Step::Finished(Err(Error::CdpError(fault))),
                _ => Step::Finished(Err(Error::unexpected())),
            },
            Phase::Token => match token_reply(reply) {
                Ok(()) => plan.signed_in(),
                Err(e) => Step::Finished(Err(e)),
            },
            Phase::Login(login) => {
                let step = login.step(reply);
                plan.logged(step)
            },
            Phase::Polling(poller) => {
                let step = poller.step(reply);
                plan.polled(step)
            },
            Phase::Extracting(extractor) => {
                let step = extractor.step(reply);
                plan.extracted(step)
            },
        }
    }
}

} // verus!
