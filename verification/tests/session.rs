use chromiumoxide::cdp::browser_protocol::network::{Cookie, CookieParam, CookiePriority, CookieSourceScheme};
use chromiumoxide::error::CdpError;
use kagisearch::{ends_event_loop, AuthType, Command, Config, Error, Handle, Kagi, Reply, Selector, Step, HREF};

#[test]
fn a_search_starts_by_opening_its_page() {
    let kagi = Kagi::new(AuthType::Token("secret".to_string()));
    match kagi.search("rust", 5, None) {
        Step::Continue(_, Command::OpenPage { private }) => assert!(!private),
        other => panic!("unexpected first step: {:?}", other),
    }
}

#[test]
fn only_an_incognito_session_gets_a_context_of_its_own() {
    let credentials = vec![
        (AuthType::Token("t".to_string()), false),
        (AuthType::Login("e".to_string(), "p".to_string(), None), false),
        (AuthType::Cookies(Vec::new()), false),
        (AuthType::Icognito, true),
    ];
    for (credential, expected) in credentials {
        let kagi = Kagi::new(credential);
        match kagi.search("rust", 5, Some(AuthType::Token("t".to_string()))) {
            Step::Continue(_, Command::OpenPage { private }) => assert_eq!(private, expected),
            other => panic!("unexpected first step: {:?}", other),
        }
    }
}

#[test]
fn closing_twice_does_nothing_the_second_time() {
    let mut kagi = Kagi::new(AuthType::Icognito);
    assert!(!kagi.is_closed());
    assert!(kagi.close());
    assert!(kagi.shut(Ok(())).is_ok());
    assert!(kagi.is_closed());
    assert!(!kagi.close());
    assert!(kagi.is_closed());
    assert!(!kagi.close());
}

#[test]
fn close_that_failed_can_be_tried_again() {
    let mut kagi = Kagi::new(AuthType::Icognito);
    assert!(kagi.close());
    assert!(matches!(kagi.shut(Err(CdpError::Timeout)), Err(Error::CdpError(CdpError::Timeout))));
    assert!(!kagi.is_closed());
    assert!(kagi.close());
    assert!(matches!(kagi.search("rust", 5, None), Step::Continue(_, _)));
    assert!(kagi.shut(Ok(())).is_ok());
    assert!(kagi.is_closed());
    assert!(!kagi.close());
}

#[test]
fn closed_session_starts_no_search() {
    let mut kagi = Kagi::new(AuthType::Token("t".to_string()));
    kagi.shut(Ok(())).unwrap();
    match kagi.search("rust", 5, None) {
        Step::Finished(Err(Error::BrowserError(message))) => assert_eq!(message, "Browser closed"),
        other => panic!("expected a browser error, got {:?}", other),
    }
}

#[test]
fn default_setup() {
    let config = Config::default();
    assert_eq!(config.host, "https://kagi.com");
    assert_eq!(config.max_retries, 5);
    assert_eq!(config.retry_interval, 1000);
    assert_eq!(config.max_signin_rounds, 5);
    assert_eq!(kagisearch::consts::HOST, "https://kagi.com");
    assert_eq!(kagisearch::consts::MAX_RETRIES, 5);
    assert_eq!(kagisearch::consts::RETRY_TIMEOUT, 1000);
}

#[test]
fn launch_options_are_fixed() {
    let options = Kagi::launch_options();
    assert_eq!(options.width, 1920);
    assert_eq!(options.height, 1080);
    assert!(options.incognito);
    assert!(options.stealth);
    assert_eq!(
        options.args,
        vec![
            "--disable-blink-features=AutomationControlled",
            "--disable-features=IsolateOrigins,site-per-process",
            "--disable-site-isolation-trials",
            "--no-sandbox",
            "--disable-setuid-sandbox",
            "--disable-dev-shm-usage",
            "--disable-accelerated-2d-canvas",
            "--no-first-run",
            "--no-zygote",
            "--disable-gpu",
            "--hide-scrollbars",
            "--mute-audio",
            "--disable-background-networking",
            "--disable-background-timer-throttling",
            "--disable-backgrounding-occluded-windows",
            "--disable-breakpad",
            "--disable-component-extensions-with-background-pages",
            "--disable-extensions",
            "--disable-features=TranslateUI",
            "--disable-ipc-flooding-protection",
            "--disable-renderer-backgrounding",
            "--enable-features=NetworkService,NetworkServiceInProcess",
            "--force-color-profile=srgb",
            "--metrics-recording-only",
        ]
    );
}

#[test]
fn only_a_cookie_credential_seeds_cookies() {
    let cookies = vec![CookieParam::new("a", "1"), CookieParam::new("b", "2"), CookieParam::new("a", "3")];
    let kagi = Kagi::new(AuthType::Cookies(cookies.clone()));
    assert_eq!(kagi.cookies_to_seed(), Some(&cookies));
    assert_eq!(Kagi::new(AuthType::Cookies(Vec::new())).cookies_to_seed(), Some(&Vec::new()));
    assert!(Kagi::new(AuthType::Icognito).cookies_to_seed().is_none());
    assert!(Kagi::new(AuthType::Token("t".to_string())).cookies_to_seed().is_none());
    assert!(Kagi::new(AuthType::Login("e".to_string(), "p".to_string(), None)).cookies_to_seed().is_none());
}

#[test]
fn failed_seeding_is_an_auth_error() {
    let kagi = Kagi::new(AuthType::Cookies(vec![CookieParam::new("a", "1")]));
    match kagi.seeded(Err("no such browser".to_string())) {
        Err(Error::AuthError(message)) => assert_eq!(message, "no such browser"),
        other => panic!("expected an authentication error, got {:?}", other),
    }
    let kagi = Kagi::new(AuthType::Cookies(vec![CookieParam::new("a", "1")]));
    assert!(kagi.seeded(Ok(())).is_ok());
}

#[test]
fn event_loop_ends_when_the_browser_has_closed() {
    assert!(ends_event_loop("Browser closed"));
    assert!(ends_event_loop("ws error: Browser closed unexpectedly"));
    assert!(!ends_event_loop("browser closed"));
    assert!(!ends_event_loop("Browser  closed"));
    assert!(!ends_event_loop("Request timed out."));
    assert!(!ends_event_loop(""));
}

#[test]
fn selectors_match_the_markup_of_the_service() {
    assert_eq!(Selector::ResultsBox.as_str(), ".results-box");
    assert_eq!(Selector::ResultNode.as_str(), ".search-result");
    assert_eq!(Selector::Title.as_str(), ".__sri-title");
    assert_eq!(Selector::Link.as_str(), ".__sri-url-box a[href]");
    assert_eq!(Selector::Snippet.as_str(), ".__sri-desc");
    assert_eq!(Selector::SignInForm.as_str(), "#signInForm");
    assert_eq!(Selector::EmailInput.as_str(), "input[name=email]");
    assert_eq!(Selector::PasswordInput.as_str(), "input[name=password]");
    assert_eq!(Selector::CodeInput.as_str(), "input[name=code]");
    assert_eq!(Selector::SubmitButton.as_str(), "button[type=submit]");
    assert_eq!(HREF, "href");
}

#[test]
fn error_constructors_keep_their_message() {
    assert!(matches!(Error::auth("a"), Error::AuthError(m) if m == "a"));
    assert!(matches!(Error::element("b"), Error::ElementNotFound(m) if m == "b"));
    assert!(matches!(Error::browser("c"), Error::BrowserError(m) if m == "c"));
    assert!(matches!(Error::spawner("d"), Error::SpawnerError(m) if m == "d"));
    assert!(matches!(Error::unexpected(), Error::BrowserError(m) if m == "unexpected reply"));
}

#[test]
fn fault_after_closing_is_the_closed_browser() {
    let mut kagi = Kagi::new(AuthType::Icognito);
    assert!(matches!(kagi.conclude(Err(Error::CdpError(CdpError::NoResponse))), Err(Error::CdpError(_))));
    assert!(matches!(kagi.conclude(Ok(None)), Ok(None)));
    kagi.shut(Ok(())).unwrap();
    assert!(matches!(
        kagi.conclude(Err(Error::CdpError(CdpError::NoResponse))),
        Err(Error::BrowserError(m)) if m == "Browser closed"
    ));
    assert!(matches!(kagi.conclude(Err(Error::auth("login failed"))), Err(Error::AuthError(m)) if m == "login failed"));
    assert!(matches!(kagi.conclude(Ok(Some(Vec::new()))), Ok(Some(list)) if list.is_empty()));
    assert!(matches!(kagi.conclude(Ok(None)), Ok(None)));
}

fn cookie(name: &str, value: &str) -> Cookie {
    Cookie {
        name: name.to_string(),
        value: value.to_string(),
        domain: "kagi.com".to_string(),
        path: "/".to_string(),
        expires: 1893456000.0,
        size: 12,
        http_only: true,
        secure: true,
        session: false,
        same_site: None,
        priority: CookiePriority::Medium,
        source_scheme: CookieSourceScheme::Secure,
        source_port: 443,
        partition_key: None,
        partition_key_opaque: None,
    }
}

#[test]
fn cookies_are_passed_on_whole() {
    let jar = vec![cookie("kagi_session", "abc"), cookie("theme", "dark"), cookie("kagi_session", "old")];
    let mut kagi = Kagi::new(AuthType::Icognito);
    assert_eq!(kagi.cookies(Ok(jar.clone())).unwrap(), jar);
    assert_eq!(kagi.cookies(Ok(Vec::new())).unwrap(), Vec::new());
    assert!(matches!(kagi.cookies(Err(CdpError::Timeout)), Err(Error::CdpError(CdpError::Timeout))));
    kagi.shut(Ok(())).unwrap();
    assert_eq!(kagi.cookies(Ok(jar.clone())).unwrap(), jar);
    assert!(matches!(kagi.cookies(Err(CdpError::Timeout)), Err(Error::BrowserError(m)) if m == "Browser closed"));
    assert!(matches!(kagi.fault(CdpError::NotFound), Error::BrowserError(m) if m == "Browser closed"));
}

#[test]
fn failed_search_of_an_element_is_told_apart() {
    let found = Reply::found(Ok(Handle { id: 3 }));
    assert!(matches!(found, Reply::Element(Some(Handle { id: 3 }))));
    for fault in [CdpError::Timeout, CdpError::NoResponse, CdpError::NotFound, CdpError::msg("x")] {
        assert!(matches!(Reply::found(Err(fault)), Reply::Fault(_)));
    }
    let refusal = chromiumoxide::types::Error { code: -32000, message: "Could not find node with given id".into() };
    assert!(matches!(Reply::found(Err(CdpError::Chrome(refusal))), Reply::Element(None)));
    assert!(matches!(Reply::sought(Err(CdpError::Timeout), true), Reply::Element(None)));
    assert!(matches!(Reply::sought(Err(CdpError::Timeout), false), Reply::Fault(CdpError::Timeout)));
    assert!(matches!(Reply::sought(Ok(Handle { id: 1 }), true), Reply::Element(Some(Handle { id: 1 }))));
    assert!(matches!(Reply::sought(Ok(Handle { id: 1 }), false), Reply::Element(Some(Handle { id: 1 }))));
}
