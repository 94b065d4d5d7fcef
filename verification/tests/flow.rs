use chromiumoxide::cdp::browser_protocol::network::{Cookie, CookieParam, CookiePriority, CookieSourceScheme};
use chromiumoxide::error::CdpError;
use kagisearch::{
    AuthType, Command, Config, Error, Handle, Kagi, Reply, SearchResult, Selector, Step, UrlFailure,
};
use std::collections::VecDeque;

/// One result node of the imitated page. For each part: `None` if the
/// element is missing, `Some(None)` if it is there without a text.
#[derive(Clone)]
struct Node {
    title: Option<Option<&'static str>>,
    link: Option<Option<&'static str>>,
    snippet: Option<Option<&'static str>>,
}

fn whole(n: usize) -> Node {
    let title: &'static str = Box::leak(format!("title {}", n).into_boxed_str());
    let link: &'static str = Box::leak(format!("https://example.com/{}", n).into_boxed_str());
    let snippet: &'static str = Box::leak(format!("snippet {}", n).into_boxed_str());
    Node { title: Some(Some(title)), link: Some(Some(link)), snippet: Some(Some(snippet)) }
}

enum Item {
    Container,
    Node(usize),
    Part(Option<String>),
    Form,
    Field(Selector),
}

/// An imitation of the automation surface that answers from a script and
/// keeps count of what it was asked.
struct Page {
    landings: VecDeque<Option<String>>,
    looks: Vec<Vec<Node>>,
    form: Vec<Selector>,
    container: bool,
    fault_on_read: bool,
    items: Vec<Item>,
    nodes: Vec<Node>,
    looked: usize,
    opened: Vec<bool>,
    navigations: Vec<String>,
    node_queries: Vec<usize>,
    clicks: Vec<Selector>,
    typed: Vec<(Selector, String)>,
    pauses: Vec<u64>,
    commands: usize,
}

impl Page {
    fn new(landings: &[Option<&str>], looks: Vec<Vec<Node>>) -> Page {
        Page {
            landings: landings.iter().map(|l| l.map(|s| s.to_string())).collect(),
            looks,
            form: vec![
                Selector::SignInForm,
                Selector::EmailInput,
                Selector::PasswordInput,
                Selector::CodeInput,
                Selector::SubmitButton,
            ],
            container: true,
            fault_on_read: false,
            items: Vec::new(),
            nodes: Vec::new(),
            looked: 0,
            opened: Vec::new(),
            navigations: Vec::new(),
            node_queries: vec![0; 64],
            clicks: Vec::new(),
            typed: Vec::new(),
            pauses: Vec::new(),
            commands: 0,
        }
    }

    fn hand_out(&mut self, item: Item) -> Handle {
        self.items.push(item);
        Handle { id: (self.items.len() - 1) as u64 }
    }

    fn land(&mut self) -> Reply {
        match self.landings.pop_front() {
            Some(location) => Reply::Location(location),
            None => Reply::Fault(CdpError::Timeout),
        }
    }

    fn part(&mut self, part: Option<Option<&'static str>>) -> Reply {
        match part {
            None => Reply::Element(None),
            Some(text) => {
                let handle = self.hand_out(Item::Part(text.map(|t| t.to_string())));
                Reply::Element(Some(handle))
            }
        }
    }

    fn find(&mut self, within: Option<Handle>, selector: Selector) -> Reply {
        match (within.map(|h| &self.items[h.id as usize]), selector) {
            (None, Selector::ResultsBox) => {
                if self.container {
                    Reply::Element(Some(self.hand_out(Item::Container)))
                } else {
                    Reply::Element(None)
                }
            }
            (None, Selector::SignInForm) => {
                if self.form.contains(&selector) {
                    Reply::Element(Some(self.hand_out(Item::Form)))
                } else {
                    Reply::Element(None)
                }
            }
            (Some(Item::Form), field) => {
                if self.form.contains(&field) {
                    Reply::Element(Some(self.hand_out(Item::Field(field))))
                } else {
                    Reply::Element(None)
                }
            }
            (Some(Item::Node(n)), part) => {
                let n = *n;
                self.node_queries[n] += 1;
                let node = self.nodes[n].clone();
                match part {
                    Selector::Title => self.part(node.title),
                    Selector::Link => self.part(node.link),
                    Selector::Snippet => self.part(node.snippet),
                    _ => Reply::Element(None),
                }
            }
            _ => Reply::Element(None),
        }
    }

    fn perform(&mut self, command: Command) -> Reply {
        self.commands += 1;
        match command {
            Command::OpenPage { private } => {
                self.opened.push(private);
                Reply::Done
            }
            Command::Navigate(address) => {
                self.navigations.push(address);
                self.land()
            }
            Command::AwaitNavigation => self.land(),
            Command::Find { within, selector } => self.find(within, selector),
            Command::FindAll { within, selector } => {
                let inside = within.map(|h| matches!(self.items[h.id as usize], Item::Container));
                if inside != Some(true) || selector != Selector::ResultNode {
                    return Reply::Elements(Vec::new());
                }
                let look = self.looked.min(self.looks.len().saturating_sub(1));
                self.looked += 1;
                self.nodes = self.looks.get(look).cloned().unwrap_or_default();
                let count = self.nodes.len();
                Reply::Elements((0..count).map(|n| self.hand_out(Item::Node(n))).collect())
            }
            Command::ReadText(element) => {
                if self.fault_on_read {
                    return Reply::Fault(CdpError::NoResponse);
                }
                match &self.items[element.id as usize] {
                    Item::Part(text) => Reply::Text(text.clone()),
                    _ => Reply::Text(None),
                }
            }
            Command::ReadAttribute(element, name) => {
                assert_eq!(name, "href");
                match &self.items[element.id as usize] {
                    Item::Part(text) => Reply::Text(text.clone()),
                    _ => Reply::Text(None),
                }
            }
            Command::Click(element) => {
                if let Item::Field(field) = &self.items[element.id as usize] {
                    self.clicks.push(*field);
                }
                Reply::Done
            }
            Command::TypeText(element, text) => {
                if let Item::Field(field) = &self.items[element.id as usize] {
                    self.typed.push((*field, text));
                }
                Reply::Done
            }
            Command::Pause(millis) => {
                self.pauses.push(millis);
                Reply::Done
            }
        }
    }
}

fn run(mut step: Step, page: &mut Page) -> Result<Option<Vec<SearchResult>>, Error> {
    loop {
        match step {
            Step::Continue(search, command) => {
                assert!(page.commands < 10_000, "the search does not end");
                let reply = page.perform(command);
                step = search.step(reply);
            }
            Step::Finished(outcome) => return outcome,
        }
    }
}

fn token() -> AuthType {
    AuthType::Token("t0k3n".to_string())
}

fn login(code: Option<&str>) -> AuthType {
    AuthType::Login("me@example.com".to_string(), "hunter2".to_string(), code.map(|c| c.to_string()))
}

fn auth_message(outcome: Result<Option<Vec<SearchResult>>, Error>) -> String {
    match outcome {
        Err(Error::AuthError(message)) => message,
        other => panic!("expected an authentication error, got {:?}", other),
    }
}

const SIGNIN: Option<&str> = Some("https://kagi.com/signin");
const SEARCH: Option<&str> = Some("https://kagi.com/search?q=rust");
const HOME: Option<&str> = Some("https://kagi.com/");

#[test]
fn cookie_session_sent_to_signin_is_an_auth_error() {
    let kagi = Kagi::new(AuthType::Cookies(vec![CookieParam::new("kagi_session", "abc")]));
    let mut page = Page::new(&[SIGNIN], vec![vec![whole(0)]]);
    let outcome = run(kagi.search("rust", 5, None), &mut page);
    assert_eq!(auth_message(outcome), "invalid credentials");
    assert_eq!(page.navigations.len(), 1);
    assert!(page.clicks.is_empty() && page.typed.is_empty());
}

#[test]
fn incognito_session_sent_to_signin_is_an_auth_error() {
    let kagi = Kagi::new(AuthType::Icognito);
    let mut page = Page::new(&[SIGNIN], vec![vec![whole(0)]]);
    let outcome = run(kagi.search("rust", 5, None), &mut page);
    assert_eq!(auth_message(outcome), "invalid credentials");
    assert_eq!(page.opened, vec![true]);
}

#[test]
fn token_that_lands_on_the_results_page_is_rejected() {
    let kagi = Kagi::new(token());
    let mut page = Page::new(&[SIGNIN, SEARCH], vec![vec![whole(0)]]);
    let outcome = run(kagi.search("rust", 5, None), &mut page);
    assert_eq!(auth_message(outcome), "invalid token");
    assert_eq!(
        page.navigations,
        vec!["https://kagi.com/search?q=rust".to_string(), "https://kagi.com/search?token=t0k3n".to_string()]
    );
}

#[test]
fn token_that_lands_on_the_signin_page_is_rejected() {
    let kagi = Kagi::new(token());
    let mut page = Page::new(&[SIGNIN, SIGNIN], vec![vec![whole(0)]]);
    assert_eq!(auth_message(run(kagi.search("rust", 5, None), &mut page)), "invalid token");
}

#[test]
fn token_that_lands_on_the_home_page_lets_the_search_go_on() {
    let kagi = Kagi::new(token());
    let mut page = Page::new(&[SIGNIN, HOME, SEARCH], vec![vec![whole(0), whole(1)]]);
    let records = run(kagi.search("rust", 5, None), &mut page).unwrap().unwrap();
    assert_eq!(records.len(), 2);
    assert_eq!(
        page.navigations,
        vec![
            "https://kagi.com/search?q=rust".to_string(),
            "https://kagi.com/search?token=t0k3n".to_string(),
            "https://kagi.com/search?q=rust".to_string(),
        ]
    );
    assert_eq!(page.opened, vec![false]);
}

#[test]
fn second_factor_without_a_code_fails_before_anything_is_sent() {
    let kagi = Kagi::new(login(None));
    let mut page = Page::new(&[SIGNIN, SIGNIN], vec![vec![whole(0)]]);
    let outcome = run(kagi.search("rust", 5, None), &mut page);
    assert_eq!(auth_message(outcome), "2FA code required");
    assert_eq!(page.clicks, vec![Selector::EmailInput, Selector::PasswordInput, Selector::SubmitButton]);
    assert_eq!(
        page.typed,
        vec![
            (Selector::EmailInput, "me@example.com".to_string()),
            (Selector::PasswordInput, "hunter2".to_string()),
        ]
    );
}

#[test]
fn login_without_second_factor_reaches_the_results() {
    let kagi = Kagi::new(login(None));
    let mut page = Page::new(&[SIGNIN, SEARCH, SEARCH], vec![vec![whole(0)]]);
    let records = run(kagi.search("rust", 5, None), &mut page).unwrap().unwrap();
    assert_eq!(records.len(), 1);
    assert_eq!(page.clicks, vec![Selector::EmailInput, Selector::PasswordInput, Selector::SubmitButton]);
}

#[test]
fn login_with_second_factor_sends_the_code() {
    let kagi = Kagi::new(login(Some("123456")));
    let mut page = Page::new(&[SIGNIN, SIGNIN, SEARCH, SEARCH], vec![vec![whole(0)]]);
    let records = run(kagi.search("rust", 5, None), &mut page).unwrap().unwrap();
    assert_eq!(records.len(), 1);
    assert_eq!(
        page.clicks,
        vec![
            Selector::EmailInput,
            Selector::PasswordInput,
            Selector::SubmitButton,
            Selector::CodeInput,
            Selector::SubmitButton,
        ]
    );
    assert_eq!(page.typed[2], (Selector::CodeInput, "123456".to_string()));
}

#[test]
fn login_that_ends_elsewhere_has_failed() {
    let kagi = Kagi::new(login(None));
    let mut page = Page::new(&[SIGNIN, HOME], vec![vec![whole(0)]]);
    assert_eq!(auth_message(run(kagi.search("rust", 5, None), &mut page)), "login failed");
    let kagi = Kagi::new(login(Some("123456")));
    let mut page = Page::new(&[SIGNIN, SIGNIN, SIGNIN], vec![vec![whole(0)]]);
    assert_eq!(auth_message(run(kagi.search("rust", 5, None), &mut page)), "login failed");
}

#[test]
fn missing_form_element_is_fatal_and_not_retried() {
    for (missing, css) in [
        (Selector::SignInForm, "#signInForm"),
        (Selector::EmailInput, "input[name=email]"),
        (Selector::PasswordInput, "input[name=password]"),
        (Selector::SubmitButton, "button[type=submit]"),
    ] {
        let kagi = Kagi::new(login(None));
        let mut page = Page::new(&[SIGNIN, SEARCH, SEARCH], vec![vec![whole(0)]]);
        page.form.retain(|s| *s != missing);
        match run(kagi.search("rust", 5, None), &mut page) {
            Err(Error::ElementNotFound(selector)) => assert_eq!(selector, css),
            other => panic!("expected a missing element, got {:?}", other),
        }
        assert_eq!(page.navigations.len(), 1);
    }
    let kagi = Kagi::new(login(Some("123456")));
    let mut page = Page::new(&[SIGNIN, SIGNIN, SEARCH], vec![vec![whole(0)]]);
    page.form.retain(|s| *s != Selector::CodeInput);
    match run(kagi.search("rust", 5, None), &mut page) {
        Err(Error::ElementNotFound(selector)) => assert_eq!(selector, "input[name=code]"),
        other => panic!("expected a missing element, got {:?}", other),
    }
}

#[test]
fn node_without_snippet_is_dropped() {
    let mut nodes: Vec<Node> = (0..5).map(whole).collect();
    nodes[2].snippet = None;
    let kagi = Kagi::new(token());
    let mut page = Page::new(&[SEARCH], vec![nodes]);
    let records = run(kagi.search("rust", 5, None), &mut page).unwrap().unwrap();
    assert_eq!(records.len(), 4);
    let titles: Vec<&str> = records.iter().map(|r| r.title.as_str()).collect();
    assert_eq!(titles, vec!["title 0", "title 1", "title 3", "title 4"]);
}

#[test]
fn limit_stops_the_scan() {
    let nodes: Vec<Node> = (0..10).map(whole).collect();
    let kagi = Kagi::new(token());
    let mut page = Page::new(&[SEARCH], vec![nodes]);
    let records = run(kagi.search("rust", 3, None), &mut page).unwrap().unwrap();
    assert_eq!(records.len(), 3);
    for (n, record) in records.iter().enumerate() {
        assert_eq!(record.title, format!("title {}", n));
        assert_eq!(record.url, format!("https://example.com/{}", n));
        assert_eq!(record.snippet, format!("snippet {}", n));
    }
    assert_eq!(&page.node_queries[0..3], &[3, 3, 3]);
    assert!(page.node_queries[3..10].iter().all(|count| *count == 0));
}

#[test]
fn dropped_nodes_do_not_count_toward_the_limit() {
    let mut nodes: Vec<Node> = (0..6).map(whole).collect();
    nodes[0].title = None;
    nodes[1].title = Some(None);
    nodes[3].link = None;
    let kagi = Kagi::new(token());
    let mut page = Page::new(&[SEARCH], vec![nodes]);
    let records = run(kagi.search("rust", 2, None), &mut page).unwrap().unwrap();
    let titles: Vec<&str> = records.iter().map(|r| r.title.as_str()).collect();
    assert_eq!(titles, vec!["title 2", "title 4"]);
    assert_eq!(&page.node_queries[0..6], &[1, 1, 3, 2, 3, 0]);
}

#[test]
fn each_missing_part_drops_its_node() {
    let broken: Vec<fn(&mut Node)> = vec![
        |n| n.title = None,
        |n| n.title = Some(None),
        |n| n.link = None,
        |n| n.link = Some(None),
        |n| n.snippet = None,
        |n| n.snippet = Some(None),
    ];
    for damage in broken {
        let mut nodes: Vec<Node> = (0..3).map(whole).collect();
        damage(&mut nodes[1]);
        let kagi = Kagi::new(token());
        let mut page = Page::new(&[SEARCH], vec![nodes]);
        let records = run(kagi.search("rust", 5, None), &mut page).unwrap().unwrap();
        let titles: Vec<&str> = records.iter().map(|r| r.title.as_str()).collect();
        assert_eq!(titles, vec!["title 0", "title 2"]);
    }
}

#[test]
fn limit_of_zero_gives_no_record_and_asks_no_node() {
    let kagi = Kagi::new(token());
    let mut page = Page::new(&[SEARCH], vec![vec![whole(0), whole(1)]]);
    let records = run(kagi.search("rust", 0, None), &mut page).unwrap().unwrap();
    assert!(records.is_empty());
    assert!(page.node_queries.iter().all(|count| *count == 0));
}

#[test]
fn empty_container_at_every_look_is_no_result_and_no_error() {
    let kagi = Kagi::new(token());
    let mut page = Page::new(&[SEARCH], vec![vec![]]);
    let outcome = run(kagi.search("rust", 5, None), &mut page).unwrap();
    assert!(outcome.is_none());
    assert_eq!(page.looked, 5);
    assert_eq!(page.pauses, vec![1000, 1000, 1000, 1000, 1000]);
}

#[test]
fn results_that_render_late_are_found() {
    let kagi = Kagi::new(token());
    let mut page = Page::new(&[SEARCH], vec![vec![], vec![], vec![whole(0), whole(1)]]);
    let records = run(kagi.search("rust", 5, None), &mut page).unwrap().unwrap();
    assert_eq!(records.len(), 2);
    assert_eq!(page.looked, 3);
    assert_eq!(page.pauses, vec![1000, 1000]);
}

#[test]
fn results_at_the_last_look_are_found() {
    let kagi = Kagi::new(token());
    let mut page = Page::new(&[SEARCH], vec![vec![], vec![], vec![], vec![], vec![whole(7)]]);
    let records = run(kagi.search("rust", 5, None), &mut page).unwrap().unwrap();
    assert_eq!(records[0].title, "title 7");
    assert_eq!(page.looked, 5);
}

#[test]
fn missing_container_is_fatal() {
    let kagi = Kagi::new(token());
    let mut page = Page::new(&[SEARCH], vec![vec![whole(0)]]);
    page.container = false;
    match run(kagi.search("rust", 5, None), &mut page) {
        Err(Error::ElementNotFound(selector)) => assert_eq!(selector, ".results-box"),
        other => panic!("expected a missing element, got {:?}", other),
    }
    assert!(page.pauses.is_empty());
}

#[test]
fn unexpected_destination_is_a_browser_error() {
    let kagi = Kagi::new(token());
    let mut page = Page::new(&[Some("https://kagi.com/settings")], vec![vec![whole(0)]]);
    match run(kagi.search("rust", 5, None), &mut page) {
        Err(Error::BrowserError(message)) => assert_eq!(message, "Failed to navigate to search page"),
        other => panic!("expected a browser error, got {:?}", other),
    }
}

#[test]
fn unknown_location_is_a_browser_error() {
    let kagi = Kagi::new(token());
    let mut page = Page::new(&[None], vec![vec![whole(0)]]);
    match run(kagi.search("rust", 5, None), &mut page) {
        Err(Error::BrowserError(message)) => assert_eq!(message, "Failed to get URL"),
        other => panic!("expected a browser error, got {:?}", other),
    }
}

#[test]
fn location_that_is_no_address_is_a_url_error() {
    let kagi = Kagi::new(token());
    let mut page = Page::new(&[Some("/search")], vec![vec![whole(0)]]);
    match run(kagi.search("rust", 5, None), &mut page) {
        Err(Error::UrlError(e)) => assert_eq!(e, UrlFailure::Parse(url::ParseError::RelativeUrlWithoutBase)),
        other => panic!("expected a URL error, got {:?}", other),
    }
}

#[test]
fn host_that_is_no_address_is_a_url_error() {
    let config = Config { host: "kagi dot com".to_string(), ..Config::default() };
    let kagi = Kagi::with_config(token(), config);
    let mut page = Page::new(&[SEARCH], vec![vec![whole(0)]]);
    match run(kagi.search("rust", 5, None), &mut page) {
        Err(Error::UrlError(e)) => assert_eq!(e, UrlFailure::Parse(url::ParseError::RelativeUrlWithoutBase)),
        other => panic!("expected a URL error, got {:?}", other),
    }
    assert_eq!(page.opened, vec![false]);
    assert!(page.navigations.is_empty());
}

#[test]
fn fault_of_the_surface_surfaces_at_once() {
    let kagi = Kagi::new(token());
    let mut page = Page::new(&[], vec![vec![whole(0)]]);
    match run(kagi.search("rust", 5, None), &mut page) {
        Err(Error::CdpError(CdpError::Timeout)) => {}
        other => panic!("expected the fault, got {:?}", other),
    }
    let kagi = Kagi::new(token());
    let mut page = Page::new(&[SEARCH], vec![vec![whole(0), whole(1)]]);
    page.fault_on_read = true;
    match run(kagi.search("rust", 5, None), &mut page) {
        Err(Error::CdpError(CdpError::NoResponse)) => {}
        other => panic!("expected the fault, got {:?}", other),
    }
    assert_eq!(&page.node_queries[0..2], &[1, 0]);
}

#[test]
fn answer_that_does_not_fit_the_command_is_a_browser_error() {
    let kagi = Kagi::new(token());
    let step = kagi.search("rust", 5, None);
    let Step::Continue(search, _) = step else { panic!("the search did not start") };
    match search.step(Reply::Text(None)) {
        Step::Finished(Err(Error::BrowserError(message))) => assert_eq!(message, "unexpected reply"),
        other => panic!("expected a browser error, got {:?}", other),
    }
}

#[test]
fn override_signs_in_for_one_search_of_an_incognito_session() {
    let kagi = Kagi::new(AuthType::Icognito);
    let mut page = Page::new(&[SIGNIN, HOME, SEARCH], vec![vec![whole(0)]]);
    let records = run(kagi.search("rust", 5, Some(token())), &mut page).unwrap().unwrap();
    assert_eq!(records.len(), 1);
    assert_eq!(page.opened, vec![true]);
    let mut page = Page::new(&[SIGNIN], vec![vec![whole(0)]]);
    let outcome = run(kagi.search("rust", 5, None), &mut page);
    assert_eq!(auth_message(outcome), "invalid credentials");
}

#[test]
fn override_takes_precedence_over_the_session_credential() {
    let kagi = Kagi::new(token());
    let mut page = Page::new(&[SIGNIN, SEARCH, SEARCH], vec![vec![whole(0)]]);
    let records = run(kagi.search("rust", 5, Some(login(None))), &mut page).unwrap().unwrap();
    assert_eq!(records.len(), 1);
    assert_eq!(page.navigations.len(), 2);
    assert_eq!(page.clicks.len(), 3);
}

#[test]
fn override_with_cookies_or_incognito_is_rejected() {
    let kagi = Kagi::new(token());
    for single in [AuthType::Cookies(Vec::new()), AuthType::Icognito] {
        let mut page = Page::new(&[SEARCH], vec![vec![whole(0)]]);
        let outcome = run(kagi.search("rust", 5, Some(single)), &mut page);
        assert_eq!(auth_message(outcome), "only a token or a login can be used for a single search");
        assert_eq!(page.commands, 0);
    }
}

#[test]
fn service_that_keeps_redirecting_ends_in_an_auth_error() {
    let kagi = Kagi::new(token());
    let landings: Vec<Option<&str>> = (0..40).map(|n| if n % 2 == 0 { SIGNIN } else { HOME }).collect();
    let mut page = Page::new(&landings, vec![vec![whole(0)]]);
    let outcome = run(kagi.search("rust", 5, None), &mut page);
    assert_eq!(auth_message(outcome), "too many sign-in redirects");
    assert_eq!(page.navigations.len(), 11);
}

#[test]
fn session_invalidated_later_signs_in_again() {
    let kagi = Kagi::new(token());
    let mut page = Page::new(&[SEARCH], vec![vec![whole(0)]]);
    assert_eq!(run(kagi.search("first", 5, None), &mut page).unwrap().unwrap().len(), 1);
    let mut page = Page::new(&[SIGNIN, HOME, SEARCH], vec![vec![whole(0)]]);
    assert_eq!(run(kagi.search("second", 5, None), &mut page).unwrap().unwrap().len(), 1);
    assert_eq!(page.navigations[0], "https://kagi.com/search?q=second");
}

#[test]
fn seeded_cookie_session_searches_without_signing_in() {
    let cookies = vec![CookieParam::new("kagi_session", "abc"), CookieParam::new("theme", "dark")];
    let kagi = Kagi::new(AuthType::Cookies(cookies.clone()));
    assert_eq!(kagi.cookies_to_seed(), Some(&cookies));
    let kagi = kagi.seeded(Ok(())).unwrap();
    let mut page = Page::new(&[SEARCH], vec![vec![whole(0)]]);
    let records = run(kagi.search("rust", 5, None), &mut page).unwrap().unwrap();
    assert_eq!(records.len(), 1);
    assert_eq!(page.navigations, vec!["https://kagi.com/search?q=rust".to_string()]);
    assert!(page.clicks.is_empty() && page.typed.is_empty());
    assert_eq!(page.opened, vec![false]);
}

#[test]
fn configured_budget_and_pause_are_used() {
    let config = Config { max_retries: 2, retry_interval: 10, ..Config::default() };
    let kagi = Kagi::with_config(token(), config);
    let mut page = Page::new(&[SEARCH], vec![vec![]]);
    assert!(run(kagi.search("rust", 5, None), &mut page).unwrap().is_none());
    assert_eq!(page.pauses, vec![10, 10]);
    let config = Config { max_retries: 0, ..Config::default() };
    let kagi = Kagi::with_config(token(), config);
    let mut page = Page::new(&[SEARCH], vec![vec![whole(0)]]);
    assert!(run(kagi.search("rust", 5, None), &mut page).unwrap().is_none());
    assert_eq!(page.looked, 0);
}

fn browser_cookie(name: &str, value: &str) -> Cookie {
    Cookie {
        name: name.to_string(),
        value: value.to_string(),
        domain: "kagi.com".to_string(),
        path: "/".to_string(),
        expires: 1893456000.0,
        size: 12,
        http_only: true,
        secure: true,
        session: false,
        same_site: None,
        priority: CookiePriority::Medium,
        source_scheme: CookieSourceScheme::Secure,
        source_port: 443,
        partition_key: None,
        partition_key_opaque: None,
    }
}

#[test]
fn cookies_of_a_login_carry_a_fresh_session_to_the_results() {
    let first = Kagi::new(login(None));
    let mut page = Page::new(&[SIGNIN, SEARCH, SEARCH], vec![vec![whole(0)]]);
    assert_eq!(run(first.search("rust", 5, None), &mut page).unwrap().unwrap().len(), 1);
    let jar = vec![browser_cookie("kagi_session", "abc"), browser_cookie("theme", "dark")];
    let cookies = first.cookies(Ok(jar.clone())).unwrap();
    assert_eq!(cookies, jar);
    let seeds: Vec<CookieParam> = cookies
        .iter()
        .map(|c| {
            CookieParam::builder()
                .name(c.name.clone())
                .value(c.value.clone())
                .domain(c.domain.clone())
                .path(c.path.clone())
                .secure(c.secure)
                .http_only(c.http_only)
                .build()
                .unwrap()
        })
        .collect();
    let second = Kagi::new(AuthType::Cookies(seeds.clone()));
    assert_eq!(second.cookies_to_seed(), Some(&seeds));
    let second = second.seeded(Ok(())).unwrap();
    let mut page = Page::new(&[SEARCH], vec![vec![whole(0), whole(1)]]);
    let records = run(second.search("rust", 5, None), &mut page).unwrap().unwrap();
    assert_eq!(records.len(), 2);
    assert_eq!(page.navigations, vec!["https://kagi.com/search?q=rust".to_string()]);
    assert_eq!(page.opened, vec![false]);
    assert!(page.clicks.is_empty() && page.typed.is_empty());
    assert!(page.landings.is_empty());
}

#[test]
fn service_that_keeps_redirecting_a_login_ends_in_an_auth_error() {
    let kagi = Kagi::new(login(None));
    let landings: Vec<Option<&str>> = (0..40).map(|n| if n % 2 == 0 { SIGNIN } else { SEARCH }).collect();
    let mut page = Page::new(&landings, vec![vec![whole(0)]]);
    let outcome = run(kagi.search("rust", 5, None), &mut page);
    assert_eq!(auth_message(outcome), "too many sign-in redirects");
    assert_eq!(page.navigations.len(), 6);
    assert_eq!(page.clicks.len(), 15);
    let config = Config { max_signin_rounds: 0, ..Config::default() };
    let kagi = Kagi::with_config(login(None), config);
    let mut page = Page::new(&[SIGNIN], vec![vec![whole(0)]]);
    assert_eq!(auth_message(run(kagi.search("rust", 5, None), &mut page)), "too many sign-in redirects");
    assert!(page.clicks.is_empty());
}
