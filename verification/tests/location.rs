use kagisearch::location::{address, location_path, same_text, search_url, token_url, within};
use kagisearch::{handle_token, token_landed, token_reply, Command, Error, Reply, UrlFailure};

#[test]
fn search_address_carries_the_encoded_query() {
    assert_eq!(search_url("https://kagi.com", "rust").unwrap(), "https://kagi.com/search?q=rust");
    assert_eq!(
        search_url("https://kagi.com", "What is Kagi Search").unwrap(),
        "https://kagi.com/search?q=What+is+Kagi+Search"
    );
    assert_eq!(search_url("https://kagi.com", "a&b=c/d?e").unwrap(), "https://kagi.com/search?q=a%26b%3Dc%2Fd%3Fe");
    assert_eq!(search_url("https://kagi.com", "").unwrap(), "https://kagi.com/search?q=");
    assert_eq!(search_url("http://localhost:8080", "x").unwrap(), "http://localhost:8080/search?q=x");
}

#[test]
fn token_address_carries_the_encoded_token() {
    assert_eq!(token_url("https://kagi.com", "abc.DEF-123").unwrap(), "https://kagi.com/search?token=abc.DEF-123");
    assert_eq!(token_url("https://kagi.com", "a b+c").unwrap(), "https://kagi.com/search?token=a+b%2Bc");
}

#[test]
fn address_of_a_bad_host_is_a_url_error() {
    assert!(matches!(search_url("kagi", "x"), Err(Error::UrlError(UrlFailure::Parse(url::ParseError::RelativeUrlWithoutBase)))));
    assert!(matches!(token_url("https://kagi.com:abc", "x"), Err(Error::UrlError(UrlFailure::Parse(url::ParseError::InvalidPort)))));
}

#[test]
fn path_is_read_without_query_and_fragment() {
    assert_eq!(location_path("https://kagi.com/search?q=rust#top").unwrap(), "/search");
    assert_eq!(location_path("https://kagi.com/signin").unwrap(), "/signin");
    assert_eq!(location_path("https://kagi.com").unwrap(), "/");
    assert_eq!(location_path("https://kagi.com/").unwrap(), "/");
    assert_eq!(location_path("https://kagi.com/a%20b/c").unwrap(), "/a%20b/c");
    assert_eq!(location_path("about:blank").unwrap(), "blank");
    assert!(matches!(location_path("signin"), Err(Error::UrlError(UrlFailure::Parse(url::ParseError::RelativeUrlWithoutBase)))));
    assert!(matches!(location_path("https://kagi.com:99999/"), Err(Error::UrlError(UrlFailure::Parse(url::ParseError::InvalidPort)))));
}

#[test]
fn texts_are_compared_whole() {
    assert!(same_text("/signin", "/signin"));
    assert!(same_text("", ""));
    assert!(!same_text("/signin", "/signin/"));
    assert!(!same_text("/Signin", "/signin"));
    assert!(!same_text("/", ""));
}

#[test]
fn token_handler_loads_the_token_address() {
    match handle_token("https://kagi.com", "t0k3n") {
        Ok(Command::Navigate(address)) => assert_eq!(address, "https://kagi.com/search?token=t0k3n"),
        other => panic!("expected a navigation, got {:?}", other),
    }
    assert!(matches!(handle_token("nowhere", "t0k3n"), Err(Error::UrlError(_))));
}

#[test]
fn token_is_good_only_on_the_home_page() {
    assert!(token_landed(Ok("/".to_string())).is_ok());
    for path in ["/search", "/signin", "", "//", "/home", "/ "] {
        match token_landed(Ok(path.to_string())) {
            Err(Error::AuthError(message)) => assert_eq!(message, "invalid token"),
            other => panic!("expected an authentication error for {:?}, got {:?}", path, other),
        }
    }
    assert!(matches!(token_landed(Err(Error::browser("x"))), Err(Error::BrowserError(m)) if m == "x"));
}

#[test]
fn token_is_judged_by_the_reported_location() {
    assert!(token_reply(Reply::Location(Some("https://kagi.com/".to_string()))).is_ok());
    assert!(token_reply(Reply::Location(Some("https://kagi.com".to_string()))).is_ok());
    assert!(matches!(
        token_reply(Reply::Location(Some("https://kagi.com/search?token=x".to_string()))),
        Err(Error::AuthError(m)) if m == "invalid token"
    ));
    assert!(matches!(token_reply(Reply::Location(None)), Err(Error::BrowserError(m)) if m == "Failed to get URL"));
    assert!(matches!(token_reply(Reply::Location(Some("nonsense".to_string()))), Err(Error::UrlError(_))));
    assert!(matches!(token_reply(Reply::Done), Err(Error::BrowserError(m)) if m == "unexpected reply"));
}

#[test]
fn texts_that_do_not_fit_are_refused_as_too_long() {
    let limit = kagisearch::consts::MAX_ADDRESS_LENGTH;
    assert_eq!(limit, 1_048_576);
    let host = "https://kagi.com";
    let longest = limit - host.len() - "/search".len() - "q".len();
    assert!(search_url(host, &"a".repeat(longest)).is_ok());
    assert!(matches!(search_url(host, &"a".repeat(longest + 1)), Err(Error::UrlError(UrlFailure::TooLong))));
    let longest = limit - host.len() - "/search".len() - "token".len();
    assert!(token_url(host, &"t".repeat(longest)).is_ok());
    assert!(matches!(token_url(host, &"t".repeat(longest + 1)), Err(Error::UrlError(UrlFailure::TooLong))));
    assert!(matches!(handle_token(host, &"t".repeat(limit)), Err(Error::UrlError(UrlFailure::TooLong))));
    assert!(matches!(search_url(&"h".repeat(limit), "x"), Err(Error::UrlError(UrlFailure::TooLong))));
    assert!(matches!(address("https://kagi.com/", &"k".repeat(limit), ""), Err(Error::UrlError(UrlFailure::TooLong))));
    assert_eq!(address("https://kagi.com/#top", "a b", "c&d").unwrap(), "https://kagi.com/?a+b=c%26d#top");
}

#[test]
fn length_is_counted_in_characters() {
    assert!(within("", 0));
    assert!(within("abc", 3));
    assert!(!within("abcd", 3));
    assert!(within("\u{e4}\u{f6}\u{fc}", 3));
    let limit = kagisearch::consts::MAX_ADDRESS_LENGTH;
    let host = "https://kagi.com";
    let longest = limit - host.len() - "/search".len() - "q".len();
    let address = search_url(host, &"\u{20ac}".repeat(longest)).unwrap();
    assert_eq!(address.len(), host.len() + "/search?q=".len() + 9 * longest);
}

#[test]
fn location_that_is_too_long_is_refused() {
    let limit = kagisearch::consts::MAX_ADDRESS_LENGTH;
    let start = "https://kagi.com/";
    let location = format!("{}{}", start, "a".repeat(limit - start.len()));
    assert_eq!(location_path(&location).unwrap().len(), limit - start.len() + 1);
    let location = format!("{}{}", start, "a".repeat(limit - start.len() + 1));
    assert!(matches!(location_path(&location), Err(Error::UrlError(UrlFailure::TooLong))));
    assert!(matches!(
        token_reply(Reply::Location(Some(location))),
        Err(Error::UrlError(UrlFailure::TooLong))
    ));
}
