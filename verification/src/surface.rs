use vstd::prelude::*;

verus! {

/// Names one page element that the automation surface has handed out.
/// The surface numbers the elements it finds; the session only stores the
/// number and hands it back.
#[derive(Clone, Copy, Debug, PartialEq, Eq, Hash)]
pub struct Handle {
    pub id: u64,
}

/// The places in the service's markup that the session looks for.
#[derive(Clone, Copy, Debug, PartialEq, Eq)]
pub enum Selector {
    /// The container of all rendered results.
    ResultsBox,
    /// One rendered result inside the container.
    ResultNode,
    /// The title of a result.
    Title,
    /// The anchor that carries the address of a result.
    Link,
    /// The description of a result.
    Snippet,
    /// The sign-in form.
    SignInForm,
    /// The e-mail field of the sign-in form.
    EmailInput,
    /// The password field of the sign-in form.
    PasswordInput,
    /// The field for the one-time code of the sign-in form.
    CodeInput,
    /// The button that submits the sign-in form.
    SubmitButton,
}

impl Selector {
    /// The CSS text of the selector.
    pub open spec fn css(self) -> Seq<char> {
        match self {
            Selector::ResultsBox => ".results-box"@,
            Selector::ResultNode => ".search-result"@,
            Selector::Title => ".__sri-title"@,
            Selector::Link => ".__sri-url-box a[href]"@,
            Selector::Snippet => ".__sri-desc"@,
            Selector::SignInForm => "#signInForm"@,
            Selector::EmailInput => "input[name=email]"@,
            Selector::PasswordInput => "input[name=password]"@,
            Selector::CodeInput => "input[name=code]"@,
            Selector::SubmitButton => "button[type=submit]"@,
        }
    }

    /// The CSS text to hand to the automation surface.
    pub fn as_str(self) -> (text: &'static str)
        ensures
            text@ == self.css(),
    {
        match self {
            Selector::ResultsBox => ".results-box",
            Selector::ResultNode => ".search-result",
            Selector::Title => ".__sri-title",
            Selector::Link => ".__sri-url-box a[href]",
            Selector::Snippet => ".__sri-desc",
            Selector::SignInForm => "#signInForm",
            Selector::EmailInput => "input[name=email]",
            Selector::PasswordInput => "input[name=password]",
            Selector::CodeInput => "input[name=code]",
            Selector::SubmitButton => "button[type=submit]",
        }
    }
}

/// The attribute of a result's anchor that holds its address.
pub const HREF: &'static str = "href";

/// One request to the automation surface. Whoever drives a session performs
/// the command and hands the surface's answer back as a [`Reply`].
#[derive(Debug)]
pub enum Command {
    /// Open a blank page, in a browsing context of its own if `private`.
    /// Answered by [`Reply::Done`].
    OpenPage { private: bool },
    /// Load the address and wait until the page has loaded.
    /// Answered by [`Reply::Location`].
    Navigate(String),
    /// Wait until the navigation under way has finished.
    /// Answered by [`Reply::Location`].
    AwaitNavigation,
    /// Find the first element that matches, in the whole page or below `within`.
    /// Answered by [`Reply::Element`].
    Find { within: Option<Handle>, selector: Selector },
    /// Find all elements that match, in the whole page or below `within`, in
    /// document order.
    /// Answered by [`Reply::Elements`].
    FindAll { within: Option<Handle>, selector: Selector },
    /// Read the rendered text of an element. Answered by [`Reply::Text`].
    ReadText(Handle),
    /// Read the named attribute of an element. Answered by [`Reply::Text`].
    ReadAttribute(Handle, &'static str),
    /// Click on an element. Answered by [`Reply::Done`].
    Click(Handle),
    /// Type the text into an element. Answered by [`Reply::Done`].
    TypeText(Handle, String),
    /// Let the given number of milliseconds pass. Answered by [`Reply::Done`].
    Pause(u64),
}

/// The mathematical value of a [`Command`].
pub enum CommandView {
    OpenPage { private: bool },
    Navigate(Seq<char>),
    AwaitNavigation,
    Find { within: Option<Handle>, selector: Selector },
    FindAll { within: Option<Handle>, selector: Selector },
    ReadText(Handle),
    ReadAttribute(Handle, Seq<char>),
    Click(Handle),
    TypeText(Handle, Seq<char>),
    Pause(u64),
}

impl View for Command {
    type V = CommandView;

    open spec fn view(&self) -> CommandView {
        match *self {
            Command::OpenPage { private } => CommandView::OpenPage { private },
            Command::Navigate(url) => CommandView::Navigate(url@),
            Command::AwaitNavigation => CommandView::AwaitNavigation,
            Command::Find { within, selector } => CommandView::Find { within, selector },
            Command::FindAll { within, selector } => CommandView::FindAll { within, selector },
            Command::ReadText(element) => CommandView::ReadText(element),
            Command::ReadAttribute(element, name) => CommandView::ReadAttribute(element, name@),
            Command::Click(element) => CommandView::Click(element),
            Command::TypeText(element, text) => CommandView::TypeText(element, text@),
            Command::Pause(millis) => CommandView::Pause(millis),
        }
    }
}

/// What the automation surface answered to a [`Command`].
#[derive(Debug)]
pub enum Reply {
    /// The command was carried out and has nothing to report.
    Done,
    /// The address the page is at now, if the surface knows one.
    Location(Option<String>),
    /// The element that was found, or `None` if nothing matches.
    Element(Option<Handle>),
    /// The elements that were found, in document order.
    Elements(Vec<Handle>),
    /// The text that was read, or `None` if the element has none.
    Text(Option<String>),
    /// The surface could not carry the command out.
    Fault(chromiumoxide::error::CdpError),
}

/// The mathematical value of a [`Reply`].
pub enum ReplyView {
    Done,
    Location(Option<Seq<char>>),
    Element(Option<Handle>),
    Elements(Seq<Handle>),
    Text(Option<Seq<char>>),
    Fault(chromiumoxide::error::CdpError),
}

impl View for Reply {
    type V = ReplyView;

    open spec fn view(&self) -> ReplyView {
        match *self {
            Reply::Done => ReplyView::Done,
            Reply::Location(url) => ReplyView::Location(url.deep_view()),
            Reply::Element(element) => ReplyView::Element(element),
            Reply::Elements(elements) => ReplyView::Elements(elements@),
            Reply::Text(text) => ReplyView::Text(text.deep_view()),
            Reply::Fault(fault) => ReplyView::Fault(fault),
        }
    }
}

/// Tells the variant `Chrome` of `chromiumoxide::error::CdpError` apart
/// from the others: the error that the browser itself answers a command
/// with, as against a failure to reach the browser or to read its answer.
/// It calls nothing. Trusted, and nothing is promised of what it tells.
#[verifier::external_body]
fn from_chrome(fault: &chromiumoxide::error::CdpError) -> (yes: bool) {
    match fault {
        chromiumoxide::error::CdpError::Chrome(_) => true,
        _ => false,
    }
}

/// What the search of an element came to, as a mathematical value.
pub open spec fn sought(
    outcome: Result<Handle, chromiumoxide::error::CdpError>,
    refused: bool,
) -> ReplyView {
    match outcome {
        Ok(element) => ReplyView::Element(Some(element)),
        Err(fault) => if refused {
            ReplyView::Element(None)
        } else {
            ReplyView::Fault(fault)
        },
    }
}

impl Reply {
    /// The answer to a [`Command::Find`], given what the search of the
    /// element came to and, where it failed, whether it was the browser
    /// itself that refused it. The browser refuses the search of an element
    /// that is not there, so that failure means that nothing matches; any
    /// other failure is a fault.
    pub fn sought(outcome: Result<Handle, chromiumoxide::error::CdpError>, refused: bool) -> (reply: Reply)
        ensures
            reply@ == sought(outcome, refused),
    {
        match outcome {
            Ok(element) => Reply::Element(Some(element)),
            Err(fault) => if refused {
                Reply::Element(None)
            } else {
                Reply::Fault(fault)
            },
        }
    }

    /// The answer to a [`Command::Find`], given what the search of the
    /// element came to: the element, or, where the search failed, that
    /// nothing matches or the fault, as [`Reply::sought`] has it.
    pub fn found(outcome: Result<Handle, chromiumoxide::error::CdpError>) -> (reply: Reply)
        ensures
            reply@ == sought(outcome, true) || reply@ == sought(outcome, false),
    {
        let refused = match &outcome {
            Ok(_) => false,
            Err(fault) => from_chrome(fault),
        };
        Reply::sought(outcome, refused)
    }
}

} // verus!
