use vstd::prelude::*;
use crate::credential::copy_text;
use crate::error::{unexpected_reply, Error, ErrorView};
use crate::location::{landing_path, location_path, same_text, text_or_error, token_target, token_url};
use crate::surface::{Command, CommandView, Handle, Reply, ReplyView, Selector};

verus! {

/// The path of the service's home page, where a token that was accepted
/// leaves the browser.
pub const HOME_PATH: &'static str = "/";

/// The path of the sign-in page.
pub const SIGNIN_PATH: &'static str = "/signin";

/// The path of the results page.
pub const SEARCH_PATH: &'static str = "/search";

/// The error for a browser that cannot tell where it is.
pub open spec fn no_location() -> ErrorView {
    ErrorView::BrowserError("Failed to get URL"@)
}

/// The error for a token that the service did not accept.
pub open spec fn invalid_token() -> ErrorView {
    ErrorView::AuthError("invalid token"@)
}

/// The error for a second factor that was asked for and not supplied.
pub open spec fn code_required() -> ErrorView {
    ErrorView::AuthError("2FA code required"@)
}

/// The error for a login that did not end on the results page.
pub open spec fn login_failed() -> ErrorView {
    ErrorView::AuthError("login failed"@)
}

/// The outcome of an authentication as a mathematical value.
pub open spec fn outcome(r: Result<(), Error>) -> Result<(), ErrorView> {
    match r {
        Ok(()) => Ok(()),
        Err(e) => Err(e@),
    }
}

/// What presenting a token starts with: loading the token's address.
pub open spec fn token_command(host: Seq<char>, token: Seq<char>) -> Result<CommandView, ErrorView> {
    match token_target(host, token) {
        Ok(address) => Ok(CommandView::Navigate(address)),
        Err(e) => Err(e),
    }
}

/// The verdict on a token, given the path the browser landed on: the token
/// is good if and only if that is the home page.
pub open spec fn token_verdict(path: Result<Seq<char>, ErrorView>) -> Result<(), ErrorView> {
    match path {
        Ok(path) => if path == HOME_PATH@ {
            Ok(())
        } else {
            Err(invalid_token())
        },
        Err(e) => Err(e),
    }
}

/// The verdict on a token, given the answer to loading its address.
pub open spec fn token_outcome(reply: ReplyView) -> Result<(), ErrorView> {
    match reply {
        ReplyView::Location(Some(location)) => token_verdict(landing_path(location)),
        ReplyView::Location(None) => Err(no_location()),
        ReplyView::Fault(fault) => Err(ErrorView::CdpError(fault)),
        _ => Err(unexpected_reply()),
    }
}

/// A command or an error as mathematical values.
pub open spec fn command_or_error(r: Result<Command, Error>) -> Result<CommandView, ErrorView> {
    match r {
        Ok(command) => Ok(command@),
        Err(e) => Err(e@),
    }
}

/// Handle token authentication: hands out the command that presents the
/// token to the service at `host`. Its answer goes to [`token_reply`].
pub fn handle_token(host: &str, token: &str) -> (r: Result<Command, Error>)
    ensures
        command_or_error(r) == token_command(host@, token@),
{
    match token_url(host, token) {
        Ok(address) => Ok(Command::Navigate(address)),
        Err(e) => Err(e),
    }
}

/// Judges a token by the path the browser landed on after presenting it.
pub fn token_landed(path: Result<String, Error>) -> (r: Result<(), Error>)
    ensures
        outcome(r) == token_verdict(text_or_error(path)),
{
    match path {
        Ok(path) => if same_text(path.as_str(), HOME_PATH) {
            Ok(())
        } else {
            Err(Error::auth("invalid token"))
        },
        Err(e) => Err(e),
    }
}

/// Judges a token by the answer to the command of [`handle_token`].
pub fn token_reply(reply: Reply) -> (r: Result<(), Error>)
    ensures
        outcome(r) == token_outcome(reply@),
{
    match reply {
        Reply::Location(Some(location)) => token_landed(location_path(location.as_str())),
        Reply::Location(None) => Err(Error::browser("Failed to get URL")),
        Reply::Fault(fault) => Err(Error::CdpError(fault)),
        _ => Err(Error::unexpected()),
    }
}

/// Where a login stands in its course. The stages follow each other in the
/// order in which they are listed; the last seven are only gone through if
/// the service asks for a second factor.
#[derive(Clone, Copy, Debug, PartialEq, Eq)]
pub enum LoginStage {
    /// The sign-in form is asked for.
    Form,
    /// The e-mail field is asked for.
    Email,
    /// The e-mail field is clicked.
    EmailClick,
    /// The e-mail is typed.
    EmailType,
    /// The password field is asked for.
    Password,
    /// The password field is clicked.
    PasswordClick,
    /// The password is typed.
    PasswordType,
    /// The submit button is asked for.
    Submit,
    /// The submit button is clicked.
    SubmitClick,
    /// The navigation after submitting is awaited.
    Landing,
    /// The sign-in form is asked for again, for the one-time code.
    CodeForm,
    /// The field for the one-time code is asked for.
    Code,
    /// The field for the one-time code is clicked.
    CodeClick,
    /// The one-time code is typed.
    CodeType,
    /// The submit button is asked for, to send the one-time code.
    CodeSubmit,
    /// The submit button is clicked, to send the one-time code.
    CodeSubmitClick,
    /// The navigation after sending the one-time code is awaited.
    CodeLanding,
}

impl LoginStage {
    /// The element that the stage asks for, if it asks for one.
    pub open spec fn wanted(self) -> Option<Selector> {
        match self {
            LoginStage::Form => Some(Selector::SignInForm),
            LoginStage::Email => Some(Selector::EmailInput),
            LoginStage::Password => Some(Selector::PasswordInput),
            LoginStage::Submit => Some(Selector::SubmitButton),
            LoginStage::CodeForm => Some(Selector::SignInForm),
            LoginStage::Code => Some(Selector::CodeInput),
            LoginStage::CodeSubmit => Some(Selector::SubmitButton),
            _ => None,
        }
    }

    /// Whether the stage asks for the sign-in form itself.
    pub open spec fn wants_form(self) -> bool {
        self == LoginStage::Form || self == LoginStage::CodeForm
    }

    /// Whether the stage clicks on the element that was found last.
    pub open spec fn clicks(self) -> bool {
        match self {
            LoginStage::EmailClick => true,
            LoginStage::PasswordClick => true,
            LoginStage::SubmitClick => true,
            LoginStage::CodeClick => true,
            LoginStage::CodeSubmitClick => true,
            _ => false,
        }
    }

    /// Whether the stage types into the element that was found last.
    pub open spec fn types(self) -> bool {
        self == LoginStage::EmailType || self == LoginStage::PasswordType || self == LoginStage::CodeType
    }

    /// Whether the stage waits for the browser to land.
    pub open spec fn lands(self) -> bool {
        self == LoginStage::Landing || self == LoginStage::CodeLanding
    }

    /// Whether the stage belongs to sending the one-time code.
    pub open spec fn second_factor(self) -> bool {
        self.ordinal() >= LoginStage::CodeForm.ordinal()
    }

    /// The place of the stage in the course of a login.
    pub open spec fn ordinal(self) -> nat {
        match self {
            LoginStage::Form => 0,
            LoginStage::Email => 1,
            LoginStage::EmailClick => 2,
            LoginStage::EmailType => 3,
            LoginStage::Password => 4,
            LoginStage::PasswordClick => 5,
            LoginStage::PasswordType => 6,
            LoginStage::Submit => 7,
            LoginStage::SubmitClick => 8,
            LoginStage::Landing => 9,
            LoginStage::CodeForm => 10,
            LoginStage::Code => 11,
            LoginStage::CodeClick => 12,
            LoginStage::CodeType => 13,
            LoginStage::CodeSubmit => 14,
            LoginStage::CodeSubmitClick => 15,
            LoginStage::CodeLanding => 16,
        }
    }

    /// The stage that comes next in the course of a login; the last stage
    /// has none and stands for itself.
    pub open spec fn follows(self) -> LoginStage {
        match self {
            LoginStage::Form => LoginStage::Email,
            LoginStage::Email => LoginStage::EmailClick,
            LoginStage::EmailClick => LoginStage::EmailType,
            LoginStage::EmailType => LoginStage::Password,
            LoginStage::Password => LoginStage::PasswordClick,
            LoginStage::PasswordClick => LoginStage::PasswordType,
            LoginStage::PasswordType => LoginStage::Submit,
            LoginStage::Submit => LoginStage::SubmitClick,
            LoginStage::SubmitClick => LoginStage::Landing,
            LoginStage::Landing => LoginStage::CodeForm,
            LoginStage::CodeForm => LoginStage::Code,
            LoginStage::Code => LoginStage::CodeClick,
            LoginStage::CodeClick => LoginStage::CodeType,
            LoginStage::CodeType => LoginStage::CodeSubmit,
            LoginStage::CodeSubmit => LoginStage::CodeSubmitClick,
            LoginStage::CodeSubmitClick => LoginStage::CodeLanding,
            LoginStage::CodeLanding => LoginStage::CodeLanding,
        }
    }

    /// The element that the stage asks for, if it asks for one.
    pub fn element(self) -> (selector: Option<Selector>)
        ensures
            selector == self.wanted(),
    {
        match self {
            LoginStage::Form => Some(Selector::SignInForm),
            LoginStage::Email => Some(Selector::EmailInput),
            LoginStage::Password => Some(Selector::PasswordInput),
            LoginStage::Submit => Some(Selector::SubmitButton),
            LoginStage::CodeForm => Some(Selector::SignInForm),
            LoginStage::Code => Some(Selector::CodeInput),
            LoginStage::CodeSubmit => Some(Selector::SubmitButton),
            _ => None,
        }
    }

    /// The stage that comes next in the course of a login.
    pub fn next(self) -> (stage: LoginStage)
        ensures
            stage == self.follows(),
    {
        match self {
            LoginStage::Form => LoginStage::Email,
            LoginStage::Email => LoginStage::EmailClick,
            LoginStage::EmailClick => LoginStage::EmailType,
            LoginStage::EmailType => LoginStage::Password,
            LoginStage::Password => LoginStage::PasswordClick,
            LoginStage::PasswordClick => LoginStage::PasswordType,
            LoginStage::PasswordType => LoginStage::Submit,
            LoginStage::Submit => LoginStage::SubmitClick,
            LoginStage::SubmitClick => LoginStage::Landing,
            LoginStage::Landing => LoginStage::CodeForm,
            LoginStage::CodeForm => LoginStage::Code,
            LoginStage::Code => LoginStage::CodeClick,
            LoginStage::CodeClick => LoginStage::CodeType,
            LoginStage::CodeType => LoginStage::CodeSubmit,
            LoginStage::CodeSubmit => LoginStage::CodeSubmitClick,
            LoginStage::CodeSubmitClick => LoginStage::CodeLanding,
            LoginStage::CodeLanding => LoginStage::CodeLanding,
        }
    }
}

/// Signs in through the sign-in form: e-mail, password, submit; and, if the
/// service then asks for a second factor, the one-time code and submit again.
#[derive(Debug)]
pub struct Login {
    email: String,
    password: String,
    code: Option<String>,
    stage: LoginStage,
    form: Option<Handle>,
    field: Option<Handle>,
}

/// The mathematical value of a [`Login`].
pub struct LoginView {
    /// The e-mail address or user name.
    pub email: Seq<char>,
    /// The password.
    pub password: Seq<char>,
    /// The one-time code, if one was supplied.
    pub code: Option<Seq<char>>,
    /// Where the login stands.
    pub stage: LoginStage,
    /// The sign-in form, once it was found.
    pub form: Option<Handle>,
    /// The field or button that was found last, once one was found.
    pub field: Option<Handle>,
}

/// How a login goes on after an answer.
#[derive(Debug)]
pub enum LoginStep {
    /// Perform the command and hand its answer to the login.
    Continue(Login, Command),
    /// The login has ended: the session is signed in, or it failed.
    Done(Result<(), Error>),
}

/// The mathematical value of a [`LoginStep`].
pub enum LoginStepView {
    Continue(LoginView, CommandView),
    Done(Result<(), ErrorView>),
}

impl View for Login {
    type V = LoginView;

    closed spec fn view(&self) -> LoginView {
        LoginView {
            email: self.email@,
            password: self.password@,
            code: self.code.deep_view(),
            stage: self.stage,
            form: self.form,
            field: self.field,
        }
    }
}

impl View for LoginStep {
    type V = LoginStepView;

    open spec fn view(&self) -> LoginStepView {
        match *self {
            LoginStep::Continue(login, command) => LoginStepView::Continue(login@, command@),
            LoginStep::Done(r) => LoginStepView::Done(outcome(r)),
        }
    }
}

impl LoginView {
    /// The largest number of answers that the login still takes.
    pub open spec fn answers_left(self) -> nat {
        (17 - self.stage.ordinal()) as nat
    }

    /// A login holds what its stage works with: the form once it has asked
    /// for it, the element that it clicks or types into, and the one-time
    /// code while it is sending it.
    pub open spec fn wf(self) -> bool {
        &&& !self.stage.wants_form() ==> self.form is Some
        &&& self.stage.clicks() || self.stage.types() ==> self.field is Some
        &&& self.stage.second_factor() ==> self.code is Some
    }

    /// The login at the given stage.
    pub open spec fn at(self, stage: LoginStage) -> LoginView {
        LoginView { stage, ..self }
    }

    /// The text that the stage types.
    pub open spec fn text(self) -> Seq<char> {
        match self.stage {
            LoginStage::EmailType => self.email,
            LoginStage::PasswordType => self.password,
            _ => self.code->0,
        }
    }

    /// The command of the stage the login stands at: it asks for the form
    /// in the whole page and for a field or the button in the form, clicks
    /// on or types into what it found last, or waits for the navigation.
    pub open spec fn command(self) -> CommandView {
        match self.stage.wanted() {
            Some(selector) => CommandView::Find {
                within: if self.stage.wants_form() {
                    None
                } else {
                    self.form
                },
                selector,
            },
            None => if self.stage.clicks() {
                CommandView::Click(self.field->0)
            } else if self.stage.types() {
                CommandView::TypeText(self.field->0, self.text())
            } else {
                CommandView::AwaitNavigation
            },
        }
    }

    /// The login goes on with the command of its stage.
    pub open spec fn proceed(self) -> LoginStepView {
        LoginStepView::Continue(self, self.command())
    }

    /// A login starts by asking for the sign-in form.
    pub open spec fn begin(email: Seq<char>, password: Seq<char>, code: Option<Seq<char>>) -> LoginStepView {
        (LoginView { email, password, code, stage: LoginStage::Form, form: None, field: None }).proceed()
    }

    /// What the login does with an element that was found: it keeps it, as
    /// the form or as the element to work on, and goes on to the next stage.
    pub open spec fn found(self, element: Handle) -> LoginStepView {
        if self.stage.wants_form() {
            (LoginView { form: Some(element), stage: self.stage.follows(), ..self }).proceed()
        } else {
            (LoginView { field: Some(element), stage: self.stage.follows(), ..self }).proceed()
        }
    }

    /// The verdict at the end of a login: it succeeded if and only if the
    /// browser is on the results page.
    pub open spec fn verdict(path: Seq<char>) -> Result<(), ErrorView> {
        if path == SEARCH_PATH@ {
            Ok(())
        } else {
            Err(login_failed())
        }
    }

    /// What the login does once the browser has landed, given the path it
    /// landed on.
    ///
    /// After the first submit, still being on the sign-in page means that
    /// the service asks for a second factor: without a one-time code the
    /// login fails there and then, with one it goes on to send it. Anywhere
    /// else, and after the second submit, the verdict falls. A login that
    /// is not waiting for the browser to land has no use for a path.
    pub open spec fn landed(self, path: Result<Seq<char>, ErrorView>) -> LoginStepView {
        if !self.stage.lands() {
            LoginStepView::Done(Err(unexpected_reply()))
        } else {
            match path {
                Err(e) => LoginStepView::Done(Err(e)),
                Ok(path) => if self.stage == LoginStage::Landing && path == SIGNIN_PATH@ {
                    if self.code is Some {
                        self.at(LoginStage::CodeForm).proceed()
                    } else {
                        LoginStepView::Done(Err(code_required()))
                    }
                } else {
                    LoginStepView::Done(Self::verdict(path))
                },
            }
        }
    }

    /// What the login does with an answer.
    ///
    /// An answer that fits the stage takes the login to the next stage. A
    /// fault ends it with that fault, and an element of the form that is
    /// missing with an error that names it; nothing is tried again.
    pub open spec fn next(self, reply: ReplyView) -> LoginStepView {
        match reply {
            ReplyView::Fault(fault) => LoginStepView::Done(Err(ErrorView::CdpError(fault))),
            ReplyView::Element(found) => match (self.stage.wanted(), found) {
                (Some(_), Some(element)) => self.found(element),
                (Some(selector), None) => LoginStepView::Done(Err(ErrorView::ElementNotFound(selector.css()))),
                (None, _) => LoginStepView::Done(Err(unexpected_reply())),
            },
            ReplyView::Done => if self.stage.clicks() || self.stage.types() {
                self.at(self.stage.follows()).proceed()
            } else {
                LoginStepView::Done(Err(unexpected_reply()))
            },
            ReplyView::Location(Some(location)) => self.landed(landing_path(location)),
            ReplyView::Location(None) => if self.stage.lands() {
                LoginStepView::Done(Err(no_location()))
            } else {
                LoginStepView::Done(Err(unexpected_reply()))
            },
            _ => LoginStepView::Done(Err(unexpected_reply())),
        }
    }
}

impl LoginStepView {
    /// Where a login stands after the answers were handed to it one by one.
    /// Answers that come after the login has ended are not looked at.
    pub open spec fn feed(self, replies: Seq<ReplyView>) -> LoginStepView
        decreases replies.len(),
    {
        if replies.len() == 0 {
            self
        } else {
            match self {
                LoginStepView::Continue(login, _) => login.next(replies[0]).feed(replies.drop_first()),
                LoginStepView::Done(_) => self,
            }
        }
    }

    /// The commands that a login hands out while the answers are handed to
    /// it one by one, the command in hand at the start included.
    pub open spec fn commands(self, replies: Seq<ReplyView>) -> Seq<CommandView>
        decreases replies.len(),
    {
        match self {
            LoginStepView::Done(_) => Seq::empty(),
            LoginStepView::Continue(login, command) => if replies.len() == 0 {
                seq![command]
            } else {
                seq![command] + login.next(replies[0]).commands(replies.drop_first())
            },
        }
    }
}

/// Handle login authentication: hands out the first command of signing in
/// with e-mail, password and an optional one-time code.
pub fn handle_signin(email: &str, password: &str, code: Option<&str>) -> (step: LoginStep)
    ensures
        step@ == LoginView::begin(email@, password@, code.deep_view()),
        step matches LoginStep::Continue(login, _) && login@.wf(),
{
    let code: Option<String> = match code {
        Some(code) => Some(code.to_owned()),
        None => None,
    };
    let login = Login {
        email: email.to_owned(),
        password: password.to_owned(),
        code,
        stage: LoginStage::Form,
        form: None,
        field: None,
    };
    login.proceed()
}

impl Login {
    #[verifier::type_invariant]
    spec fn inv(self) -> bool {
        self@.wf()
    }

    fn text(&self) -> (text: String)
        requires
            self@.stage.types(),
        ensures
            text@ == self@.text(),
    {
        proof {
            use_type_invariant(self);
        }
        match self.stage {
            LoginStage::EmailType => self.email.clone(),
            LoginStage::PasswordType => self.password.clone(),
            _ => copy_text(&self.code).unwrap(),
        }
    }

    fn command(&self) -> (command: Command)
        ensures
            command@ == self@.command(),
    {
        proof {
            use_type_invariant(self);
        }
        match self.stage.element() {
            Some(selector) => {
                let within = match self.stage {
                    LoginStage::Form => None,
                    LoginStage::CodeForm => None,
                    _ => self.form,
                };
                Command::Find { within, selector }
            },
            None => match self.stage {
                LoginStage::EmailClick => Command::Click(self.field.unwrap()),
                LoginStage::PasswordClick => Command::Click(self.field.unwrap()),
                LoginStage::SubmitClick => Command::Click(self.field.unwrap()),
                LoginStage::CodeClick => Command::Click(self.field.unwrap()),
                LoginStage::CodeSubmitClick => Command::Click(self.field.unwrap()),
                LoginStage::EmailType => Command::TypeText(self.field.unwrap(), self.text()),
                LoginStage::PasswordType => Command::TypeText(self.field.unwrap(), self.text()),
                LoginStage::CodeType => Command::TypeText(self.field.unwrap(), self.text()),
                _ => Command::AwaitNavigation,
            },
        }
    }

    fn proceed(self) -> (step: LoginStep)
        ensures
            step@ == self@.proceed(),
            step matches LoginStep::Continue(login, _) && login@.wf(),
    {
        proof {
            use_type_invariant(&self);
        }
        let command = self.command();
        LoginStep::Continue(self, command)
    }

    fn at(self, stage: LoginStage) -> (login: Login)
        requires
            self@.at(stage).wf(),
        ensures
            login@ == self@.at(stage),
    {
        Login {
            email: self.email,
            password: self.password,
            code: self.code,
            stage,
            form: self.form,
            field: self.field,
        }
    }

    fn found(self, element: Handle) -> (step: LoginStep)
        requires
            self@.stage.wanted() is Some,
        ensures
            step@ == self@.found(element),
            step matches LoginStep::Continue(login, _) ==> login@.wf(),
    {
        proof {
            use_type_invariant(&self);
        }
        let Login { email, password, code, stage, form, field } = self;
        let login = match stage {
            LoginStage::Form => Login { email, password, code, stage: stage.next(), form: Some(element), field },
            LoginStage::CodeForm => Login { email, password, code, stage: stage.next(), form: Some(element), field },
            _ => Login { email, password, code, stage: stage.next(), form, field: Some(element) },
        };
        login.proceed()
    }

    fn verdict(path: &str) -> (r: Result<(), Error>)
        ensures
            outcome(r) == LoginView::verdict(path@),
    {
        if same_text(path, SEARCH_PATH) {
            Ok(())
        } else {
            Err(Error::auth("login failed"))
        }
    }

    fn lands(&self) -> (yes: bool)
        ensures
            yes == self@.stage.lands(),
    {
        match self.stage {
            LoginStage::Landing => true,
            LoginStage::CodeLanding => true,
            _ => false,
        }
    }

    fn acts(&self) -> (yes: bool)
        ensures
            yes == (self@.stage.clicks() || self@.stage.types()),
    {
        match self.stage {
            LoginStage::EmailClick => true,
            LoginStage::PasswordClick => true,
            LoginStage::SubmitClick => true,
            LoginStage::CodeClick => true,
            LoginStage::CodeSubmitClick => true,
            LoginStage::EmailType => true,
            LoginStage::PasswordType => true,
            LoginStage::CodeType => true,
            _ => false,
        }
    }

    /// Goes on with the login once the browser has landed, given the path
    /// it landed on.
    pub fn landed(self, path: Result<String, Error>) -> (step: LoginStep)
        ensures
            self@.wf(),
            step@ == self@.landed(text_or_error(path)),
            step matches LoginStep::Continue(login, _) ==> login@.wf(),
    {
        proof {
            use_type_invariant(&self);
        }
        if !self.lands() {
            return LoginStep::Done(Err(Error::unexpected()));
        }
        match path {
            Err(e) => LoginStep::Done(Err(e)),
            Ok(path) => {
                let asked_again = match self.stage {
                    LoginStage::Landing => same_text(path.as_str(), SIGNIN_PATH),
                    _ => false,
                };
                if asked_again {
                    if self.code.is_some() {
                        self.at(LoginStage::CodeForm).proceed()
                    } else {
                        LoginStep::Done(Err(Error::auth("2FA code required")))
                    }
                } else {
                    LoginStep::Done(Self::verdict(path.as_str()))
                }
            },
        }
    }

    /// Takes the answer to the command that was handed out last.
    pub fn step(self, reply: Reply) -> (step: LoginStep)
        ensures
            self@.wf(),
            step@ == self@.next(reply@),
            step matches LoginStep::Continue(login, _) ==> login@.wf(),
    {
        proof {
            use_type_invariant(&self);
        }
        match reply {
            Reply::Fault(fault) => LoginStep::Done(Err(Error::CdpError(fault))),
            Reply::Element(found) => match (self.stage.element(), found) {
                (Some(_), Some(element)) => self.found(element),
                (Some(selector), None) => LoginStep::Done(Err(Error::element(selector.as_str()))),
                (None, _) => LoginStep::Done(Err(Error::unexpected())),
            },
            Reply::Done => if self.acts() {
                let stage = self.stage.next();
                self.at(stage).proceed()
            } else {
                LoginStep::Done(Err(Error::unexpected()))
            },
            Reply::Location(Some(location)) => self.landed(location_path(location.as_str())),
            Reply::Location(None) => if self.lands() {
                LoginStep::Done(Err(Error::browser("Failed to get URL")))
            } else {
                LoginStep::Done(Err(Error::unexpected()))
            },
            _ => LoginStep::Done(Err(Error::unexpected())),
        }
    }
}

} // verus!
