use url_shortener::config::Configuration;
use url_shortener::error::{
    AppError, STATUS_BAD_REQUEST, STATUS_NOT_FOUND, STATUS_OK, STATUS_UNAUTHORIZED,
};
use url_shortener::server::{
    handle_error, post_url, prepare_save, redirect_url, request_check, save_reply, save_url,
    AppState,
    MiddlewareFailure, ResponseStatus, UrlRequest,
};
use url_shortener::storage::MemoryStorage;

fn state() -> AppState<MemoryStorage> {
    AppState::new(MemoryStorage::new(), &Configuration::default())
}

fn creds(user: &str, password: Option<&str>) -> Option<(String, Option<String>)> {
    Some((user.to_string(), password.map(|p| p.to_string())))
}

fn request(url: &str, alias: Option<&str>) -> UrlRequest {
    UrlRequest { url: url.to_string(), alias: alias.map(|a| a.to_string()) }
}

#[test]
fn test_save_url() {
    let mut st = state();
    let body = request("https://google.com", None);
    let (status, _) = save_reply(post_url(&mut st, &creds("test", Some("test")), body.clone()));
    assert_eq!(status, STATUS_OK);
    let (status, _) = save_reply(post_url(&mut st, &None, body));
    assert_eq!(status, STATUS_UNAUTHORIZED);
    let body = request("google.com", None);
    let (status, _) = save_reply(post_url(&mut st, &creds("test", Some("test")), body));
    assert_eq!(status, STATUS_BAD_REQUEST);
}

#[test]
fn generated_alias_redirects_to_saved_url() {
    let mut st = state();
    let r = post_url(&mut st, &creds("test", Some("test")), request("https://google.com", None));
    let (status, resp) = save_reply(r);
    assert_eq!(status, 200);
    assert_eq!(resp.status, ResponseStatus::Success);
    assert_eq!(resp.error, None);
    let alias = resp.alias.expect("alias reported");
    assert_eq!(alias.chars().count(), 6);
    assert!(alias.chars().all(|c| c.is_ascii_alphanumeric()));
    assert_eq!(redirect_url(&st, &alias), Ok("https://google.com".to_string()));
}

#[test]
fn short_alias_reports_length_error() {
    let mut st = state();
    let r = post_url(&mut st, &creds("test", Some("test")), request("https://a.com", Some("ab")));
    assert_eq!(r, Err(AppError::ToShortAlias));
    let (status, resp) = save_reply(r);
    assert_eq!(status, 400);
    assert_eq!(resp.status, ResponseStatus::Error);
    assert_eq!(resp.error, Some("alias length must be greater than 4".to_string()));
    assert_eq!(resp.alias, None);
    assert_eq!(redirect_url(&st, "ab"), Err(AppError::UrlNotFound));
}

#[test]
fn alias_of_minimum_length_is_accepted() {
    let mut st = state();
    let r = save_url(&mut st, request("https://a.com", Some("abc")));
    assert_eq!(r, Err(AppError::ToShortAlias));
    let r = save_url(&mut st, request("https://a.com", Some("abcd"))).unwrap();
    assert_eq!(r.alias, Some("abcd".to_string()));
    assert_eq!(redirect_url(&st, "abcd"), Ok("https://a.com".to_string()));
}

#[test]
fn save_then_redirect_returns_url_unchanged() {
    let mut st = state();
    let url = "https://example.com/some/path?q=1#frag";
    let r = save_url(&mut st, request(url, Some("mine"))).unwrap();
    assert_eq!(r.status, ResponseStatus::Success);
    assert_eq!(redirect_url(&st, "mine"), Ok(url.to_string()));
    let plain = "https://google.com";
    save_url(&mut st, request(plain, Some("goog"))).unwrap();
    assert_eq!(redirect_url(&st, "goog"), Ok(plain.to_string()));
}

#[test]
fn same_alias_twice_is_refused_the_second_time() {
    let mut st = state();
    let first = save_url(&mut st, request("https://a.com", Some("same")));
    assert!(first.is_ok());
    let second = save_url(&mut st, request("https://b.com", Some("same")));
    assert_eq!(second, Err(AppError::UrlExists));
    let (status, resp) = save_reply(second);
    assert_eq!(status, 400);
    assert_eq!(resp.error, Some("alias already exists".to_string()));
    assert_eq!(redirect_url(&st, "same"), Ok("https://a.com".to_string()));
}

#[test]
fn malformed_url_is_refused() {
    let mut st = state();
    let r = save_url(&mut st, request("google.com", Some("goog")));
    assert_eq!(r, Err(AppError::UrlError));
    let (status, resp) = save_reply(r);
    assert_eq!(status, 400);
    assert_eq!(resp.error, Some("incorrect url".to_string()));
    assert_eq!(redirect_url(&st, "goog"), Err(AppError::UrlNotFound));
    // The URL is checked before the alias length.
    let r = save_url(&mut st, request("google.com", Some("ab")));
    assert_eq!(r, Err(AppError::UrlError));
}

#[test]
fn unknown_alias_is_not_found() {
    let mut st = state();
    save_url(&mut st, request("https://a.com", Some("known"))).unwrap();
    let r = redirect_url(&st, "unknown");
    assert_eq!(r, Err(AppError::UrlNotFound));
    assert_eq!(AppError::UrlNotFound.status_code(), STATUS_NOT_FOUND);
}

#[test]
fn bad_credentials_are_unauthorized() {
    let mut st = state();
    let body = request("https://a.com", Some("abcd"));
    for auth in [
        None,
        creds("test", None),
        creds("test", Some("wrong")),
        creds("other", Some("test")),
    ] {
        let r = post_url(&mut st, &auth, body.clone());
        assert_eq!(r, Err(AppError::Unauthorized));
        assert_eq!(save_reply(r).0, 401);
    }
    assert_eq!(redirect_url(&st, "abcd"), Err(AppError::UrlNotFound));
    assert!(post_url(&mut st, &creds("test", Some("test")), body).is_ok());
    assert_eq!(redirect_url(&st, "abcd"), Ok("https://a.com".to_string()));
}

#[test]
fn prepare_save_keeps_url_and_alias() {
    let st = state();
    let r = prepare_save(&st.generator, request("https://a.com", Some("abcd")));
    assert_eq!(r, Ok(("https://a.com".to_string(), "abcd".to_string())));
    let (url, alias) = prepare_save(&st.generator, request("https://a.com", None)).unwrap();
    assert_eq!(url, "https://a.com");
    assert_eq!(alias.len(), 6);
    assert_eq!(
        prepare_save(&st.generator, request("not a url", None)),
        Err(AppError::UrlError)
    );
}

#[test]
fn short_generated_alias_is_refused() {
    let mut config = Configuration::default();
    config.alias_length = 3;
    let mut st = AppState::new(MemoryStorage::new(), &config);
    let r = save_url(&mut st, request("https://a.com", None));
    assert_eq!(r, Err(AppError::ToShortAlias));
}

#[test]
fn middleware_failures_map_to_statuses() {
    assert_eq!(handle_error(MiddlewareFailure::Timeout), (408, "request timed out".to_string()));
    assert_eq!(
        handle_error(MiddlewareFailure::Overloaded),
        (503, "service is overloaded, try again later".to_string())
    );
    assert_eq!(
        handle_error(MiddlewareFailure::Other),
        (500, "Unhandled internal error: ".to_string())
    );
}

#[test]
fn request_check_decides_in_order() {
    assert_eq!(request_check(false, 10), Some(AppError::UrlError));
    assert_eq!(request_check(false, 0), Some(AppError::UrlError));
    assert_eq!(request_check(true, 3), Some(AppError::ToShortAlias));
    assert_eq!(request_check(true, 0), Some(AppError::ToShortAlias));
    assert_eq!(request_check(true, 4), None);
    assert_eq!(request_check(true, 100), None);
}

#[test]
fn alias_length_counts_bytes() {
    let mut st = state();
    // Three characters, six bytes.
    let r = save_url(&mut st, request("https://a.com", Some("\u{e9}\u{e9}\u{e9}")));
    assert!(r.is_ok());
    assert_eq!(redirect_url(&st, "\u{e9}\u{e9}\u{e9}"), Ok("https://a.com".to_string()));
    // One character, two bytes.
    let r = save_url(&mut st, request("https://a.com", Some("\u{e9}")));
    assert_eq!(r, Err(AppError::ToShortAlias));
}
