use vstd::prelude::*;

use crate::config::Configuration;
use crate::error::{
    AppError, STATUS_INTERNAL_SERVER_ERROR, STATUS_OK, STATUS_REQUEST_TIMEOUT,
    STATUS_SERVICE_UNAVAILABLE, status_of, message_of,
};
use crate::gen_alias::{Generator, configured_length, is_alphanumeric_text};
use crate::storage::{Repository, lookup_outcome};
use crate::url_check::{parse_url, url_parses};
use vstd::utf8::{encode_utf8, is_ascii_chars, is_ascii_chars_encode_utf8};

verus! {

/// Aliases shorter than this are refused.
pub const MIN_ALIAS_LENGTH: usize = 4;

/// Whether a request succeeded.
#[derive(Debug, Clone, Copy, PartialEq, Eq, Structural)]
pub enum ResponseStatus {
    Success,
    Error,
}

/// The body of a request to shorten a URL.
#[derive(Debug, Clone, PartialEq, Eq)]
pub struct UrlRequest {
    pub url: String,
    /// The alias to use; one is generated when absent.
    pub alias: Option<String>,
}

/// The body answering a request to shorten a URL.
#[derive(Debug, Clone, PartialEq, Eq)]
pub struct UrlResponse {
    pub status: ResponseStatus,
    pub error: Option<String>,
    pub alias: Option<String>,
}

/// The length of a text in bytes, as UTF-8.
pub open spec fn byte_len(s: Seq<char>) -> nat {
    encode_utf8(s).len()
}

/// The first thing wrong with a request whose URL did (`url_ok`) or did not
/// parse and whose alias is `alias_len` bytes long: the URL is checked first,
/// then the alias length.
pub open spec fn check_outcome(url_ok: bool, alias_len: nat) -> Option<AppError> {
    if !url_ok {
        Some(AppError::UrlError)
    } else if alias_len < MIN_ALIAS_LENGTH {
        Some(AppError::ToShortAlias)
    } else {
        None
    }
}

/// The first thing wrong with a request to map an alias of `alias_len` bytes
/// to `url`.
pub open spec fn request_error(url: Seq<char>, alias_len: nat) -> Option<AppError> {
    check_outcome(url_parses(url), alias_len)
}

/// The length in bytes of the alias a request ends up with: the one it names,
/// or a generated one of `generated_len` ASCII characters.
pub open spec fn effective_alias_len(body: UrlRequest, generated_len: nat) -> nat {
    match body.alias {
        Some(a) => byte_len(a@),
        None => generated_len,
    }
}

/// The body that reports a saved alias.
pub open spec fn is_saved_response(resp: UrlResponse, alias: Seq<char>) -> bool {
    &&& resp.status == ResponseStatus::Success
    &&& resp.error is None
    &&& resp.alias is Some
    &&& resp.alias->Some_0@ == alias
}

/// What a save of `alias` for `url`, on a store holding `before`, answers and
/// leaves behind once the request passed validation.
pub open spec fn store_outcome(
    before: Map<Seq<char>, Seq<char>>,
    after: Map<Seq<char>, Seq<char>>,
    url: Seq<char>,
    alias: Seq<char>,
    r: Result<UrlResponse, AppError>,
) -> bool {
    match r {
        Ok(resp) => is_saved_response(resp, alias) && !before.contains_key(alias) && after
            == before.insert(alias, url),
        Err(e) => after == before && if before.contains_key(alias) {
            e == AppError::UrlExists
        } else {
            e == AppError::DatabaseError
        },
    }
}

/// What the save handler answers and leaves behind, for a generator of
/// aliases of `generated_len` characters. An invalid request touches nothing;
/// a generated alias is some text of letters and digits of that length.
pub open spec fn save_url_outcome(
    generated_len: nat,
    before: Map<Seq<char>, Seq<char>>,
    after: Map<Seq<char>, Seq<char>>,
    body: UrlRequest,
    r: Result<UrlResponse, AppError>,
) -> bool {
    match request_error(body.url@, effective_alias_len(body, generated_len)) {
        Some(e) => r == Err::<UrlResponse, AppError>(e) && after == before,
        None => match body.alias {
            Some(a) => store_outcome(before, after, body.url@, a@, r),
            None => exists|a: Seq<char>|
                is_alphanumeric_text(a, generated_len) && #[trigger] store_outcome(
                    before,
                    after,
                    body.url@,
                    a,
                    r,
                ),
        },
    }
}

/// Whether basic-auth credentials (user, password) match the configured ones.
pub open spec fn authorized(config: Configuration, auth: Option<(String, Option<String>)>) -> bool {
    match auth {
        Some((user, password)) => user@ == config.http_server.user@ && password is Some
            && password->Some_0@ == config.http_server.password@,
        None => false,
    }
}

/// What every request handler shares.
pub struct AppState<R> {
    pub generator: Generator,
    pub storage: R,
    pub config: Configuration,
}

impl<R: Repository> AppState<R> {
    pub fn new(storage: R, config: &Configuration) -> (r: AppState<R>)
        ensures
            r.generator.length() == configured_length(*config),
            r.storage == storage,
            r.config == *config,
    {
        let generator = Generator::new(config);
        AppState { generator, storage, config: config.duplicate() }
    }
}

/// The body that reports `alias` as saved.
pub fn saved_response(alias: String) -> (r: UrlResponse)
    ensures
        is_saved_response(r, alias@),
{
    UrlResponse { status: ResponseStatus::Success, error: None, alias: Some(alias) }
}

/// Validates a request to shorten a URL and settles its alias, generating one
/// when the request names none. Returns the URL and the alias to store.
pub fn prepare_save(generator: &Generator, body: UrlRequest) -> (r: Result<(String, String), AppError>)
    ensures
        ({
            let len = effective_alias_len(body, generator.length());
            match r {
                Ok((url, alias)) => {
                    &&& request_error(body.url@, len) is None
                    &&& url@ == body.url@
                    &&& body.alias is Some ==> alias@ == body.alias->Some_0@
                    &&& body.alias is None ==> is_alphanumeric_text(alias@, generator.length())
                },
                Err(e) => request_error(body.url@, len) == Some(e),
            }
        }),
{
    let url_ok = parse_url(body.url.as_str());
    // A URL that does not parse is refused whatever the alias, so no alias
    // is generated for it.
    let alias = match body.alias {
        Some(a) => a,
        None => if url_ok {
            generator.generate_alias()
        } else {
            String::new()
        },
    };
    let alias_len = alias.as_str().as_bytes().len();
    proof {
        if body.alias is None && url_ok {
            assert(is_ascii_chars(alias@));
            is_ascii_chars_encode_utf8(alias@);
        }
    }
    match request_check(url_ok, alias_len) {
        Some(e) => Err(e),
        None => Ok((body.url, alias)),
    }
}

/// Decides whether a request may be stored, from whether its URL parsed and
/// from its alias length in bytes.
pub fn request_check(url_ok: bool, alias_len: usize) -> (r: Option<AppError>)
    ensures
        r == check_outcome(url_ok, alias_len as nat),
{
    if !url_ok {
        Some(AppError::UrlError)
    } else if alias_len < MIN_ALIAS_LENGTH {
        Some(AppError::ToShortAlias)
    } else {
        None
    }
}

/// Stores a validated request and builds the answer.
fn store_prepared<R: Repository>(storage: &mut R, url: String, alias: String) -> (r: Result<
    UrlResponse,
    AppError,
>)
    requires
        old(storage).well_formed(),
    ensures
        final(storage).well_formed(),
        store_outcome(old(storage).mappings(), final(storage).mappings(), url@, alias@, r),
{
    match storage.save_url(url.as_str(), alias.as_str()) {
        Ok(_id) => Ok(saved_response(alias)),
        Err(e) => Err(e),
    }
}

/// Handles a request to shorten a URL: validates it, settles the alias and
/// stores the mapping. Only the store decides whether an alias is taken.
pub fn save_url<R: Repository>(state: &mut AppState<R>, body: UrlRequest) -> (r: Result<
    UrlResponse,
    AppError,
>)
    requires
        old(state).storage.well_formed(),
    ensures
        final(state).storage.well_formed(),
        final(state).generator == old(state).generator,
        final(state).config == old(state).config,
        save_url_outcome(
            old(state).generator.length(),
            old(state).storage.mappings(),
            final(state).storage.mappings(),
            body,
            r,
        ),
{
    let ghost request = body;
    match prepare_save(&state.generator, body) {
        Err(e) => Err(e),
        Ok((url, alias)) => {
            let r = store_prepared(&mut state.storage, url, alias);
            proof {
                if request.alias is None {
                    assert(store_outcome(
                        old(state).storage.mappings(),
                        state.storage.mappings(),
                        request.url@,
                        alias@,
                        r,
                    ));
                }
            }
            r
        },
    }
}

/// Checks basic-auth credentials (user, password) against the configured ones.
pub fn check_auth(config: &Configuration, auth: &Option<(String, Option<String>)>) -> (r: Result<
    (),
    AppError,
>)
    ensures
        r is Ok <==> authorized(*config, *auth),
        r is Err ==> r->Err_0 == AppError::Unauthorized,
{
    match auth {
        Some((user, password)) => {
            if *user == config.http_server.user {
                match password {
                    Some(p) => {
                        if *p == config.http_server.password {
                            return Ok(());
                        }
                    },
                    None => {},
                }
            }
            Err(AppError::Unauthorized)
        },
        None => Err(AppError::Unauthorized),
    }
}

/// Handles `POST /url`: credentials first, then the save. Without valid
/// credentials nothing is generated or stored.
pub fn post_url<R: Repository>(
    state: &mut AppState<R>,
    auth: &Option<(String, Option<String>)>,
    body: UrlRequest,
) -> (r: Result<UrlResponse, AppError>)
    requires
        old(state).storage.well_formed(),
    ensures
        final(state).storage.well_formed(),
        final(state).generator == old(state).generator,
        final(state).config == old(state).config,
        !authorized(old(state).config, *auth) ==> r == Err::<UrlResponse, AppError>(
            AppError::Unauthorized,
        ) && final(state).storage.mappings() == old(state).storage.mappings(),
        authorized(old(state).config, *auth) ==> save_url_outcome(
            old(state).generator.length(),
            old(state).storage.mappings(),
            final(state).storage.mappings(),
            body,
            r,
        ),
{
    match check_auth(&state.config, auth) {
        Err(e) => Err(e),
        Ok(()) => save_url(state, body),
    }
}

/// Handles `GET /:alias`: the URL to redirect to.
pub fn redirect_url<R: Repository>(state: &AppState<R>, alias: &str) -> (r: Result<String, AppError>)
    requires
        state.storage.well_formed(),
    ensures
        lookup_outcome(state.storage.mappings(), alias@, r),
{
    state.storage.get_url(alias)
}

/// The status and body answering the save handler's result.
pub fn save_reply(r: Result<UrlResponse, AppError>) -> (reply: (u16, UrlResponse))
    ensures
        match r {
            Ok(resp) => reply == (STATUS_OK, resp),
            Err(e) => {
                &&& reply.0 == status_of(e)
                &&& reply.1.status == ResponseStatus::Error
                &&& reply.1.error is Some
                &&& reply.1.error->Some_0@ == message_of(e)
                &&& reply.1.alias is None
            },
        },
{
    match r {
        Ok(resp) => (STATUS_OK, resp),
        Err(e) => e.into_response(),
    }
}

/// Failures raised by the request-limiting layers, before any handler runs.
#[derive(Debug, Clone, Copy, PartialEq, Eq, Structural)]
pub enum MiddlewareFailure {
    /// The request took longer than the configured timeout.
    Timeout,
    /// Too many requests were in flight.
    Overloaded,
    /// Anything else.
    Other,
}

/// The status and text answering each middleware failure.
pub open spec fn middleware_reply(f: MiddlewareFailure) -> (u16, Seq<char>) {
    match f {
        MiddlewareFailure::Timeout => (STATUS_REQUEST_TIMEOUT, "request timed out"@),
        MiddlewareFailure::Overloaded => (
            STATUS_SERVICE_UNAVAILABLE,
            "service is overloaded, try again later"@,
        ),
        MiddlewareFailure::Other => (STATUS_INTERNAL_SERVER_ERROR, "Unhandled internal error: "@),
    }
}

/// Answers a failure of the request-limiting layers.
pub fn handle_error(f: MiddlewareFailure) -> (r: (u16, String))
    ensures
        r.0 == middleware_reply(f).0,
        r.1@ == middleware_reply(f).1,
{
    match f {
        MiddlewareFailure::Timeout => (STATUS_REQUEST_TIMEOUT, String::from_str("request timed out")),
        MiddlewareFailure::Overloaded => (
            STATUS_SERVICE_UNAVAILABLE,
            String::from_str("service is overloaded, try again later"),
        ),
        MiddlewareFailure::Other => (
            STATUS_INTERNAL_SERVER_ERROR,
            String::from_str("Unhandled internal error: "),
        ),
    }
}

/// A valid URL saved under a free alias of at least the minimum length is
/// either refused by a failing store, leaving the alias unknown, or saved,
/// and then the alias redirects to exactly that URL.
pub proof fn lemma_save_then_redirect(
    generated_len: nat,
    before: Map<Seq<char>, Seq<char>>,
    after: Map<Seq<char>, Seq<char>>,
    body: UrlRequest,
    r: Result<UrlResponse, AppError>,
    g: Result<String, AppError>,
)
    requires
        url_parses(body.url@),
        body.alias is Some,
        byte_len(body.alias->Some_0@) >= MIN_ALIAS_LENGTH,
        !before.contains_key(body.alias->Some_0@),
        save_url_outcome(generated_len, before, after, body, r),
        lookup_outcome(after, body.alias->Some_0@, g),
    ensures
        r is Ok ==> g is Ok && g->Ok_0@ == body.url@,
        r is Err ==> r == Err::<UrlResponse, AppError>(AppError::DatabaseError) && g
            == Err::<String, AppError>(AppError::UrlNotFound),
{
}

/// When a request names no alias and the generator makes aliases of at least
/// the minimum length, a successful save reports a generated alias of that
/// length, and that alias redirects to exactly the saved URL.
pub proof fn lemma_generated_alias_redirects(
    generated_len: nat,
    before: Map<Seq<char>, Seq<char>>,
    after: Map<Seq<char>, Seq<char>>,
    body: UrlRequest,
    r: Result<UrlResponse, AppError>,
    g: Result<String, AppError>,
)
    requires
        url_parses(body.url@),
        body.alias is None,
        generated_len >= MIN_ALIAS_LENGTH,
        save_url_outcome(generated_len, before, after, body, r),
        r is Ok,
        r->Ok_0.alias is Some,
        lookup_outcome(after, r->Ok_0.alias->Some_0@, g),
    ensures
        is_alphanumeric_text(r->Ok_0.alias->Some_0@, generated_len),
        g is Ok && g->Ok_0@ == body.url@,
{
    let a = choose|a: Seq<char>|
        is_alphanumeric_text(a, generated_len) && #[trigger] store_outcome(
            before,
            after,
            body.url@,
            a,
            r,
        );
    assert(r->Ok_0.alias->Some_0@ == a);
}

/// Saving the same alias twice: the first save succeeds unless the store
/// fails, and after it succeeded the second is refused with `UrlExists` and
/// changes nothing, whatever URL it carries.
pub proof fn lemma_alias_saved_once(
    generated_len: nat,
    m0: Map<Seq<char>, Seq<char>>,
    m1: Map<Seq<char>, Seq<char>>,
    m2: Map<Seq<char>, Seq<char>>,
    first: UrlRequest,
    second: UrlRequest,
    r1: Result<UrlResponse, AppError>,
    r2: Result<UrlResponse, AppError>,
)
    requires
        url_parses(first.url@),
        url_parses(second.url@),
        first.alias is Some,
        second.alias is Some,
        first.alias->Some_0@ == second.alias->Some_0@,
        byte_len(first.alias->Some_0@) >= MIN_ALIAS_LENGTH,
        !m0.contains_key(first.alias->Some_0@),
        save_url_outcome(generated_len, m0, m1, first, r1),
        save_url_outcome(generated_len, m1, m2, second, r2),
    ensures
        r1 is Ok || r1 == Err::<UrlResponse, AppError>(AppError::DatabaseError),
        r1 is Ok ==> r2 == Err::<UrlResponse, AppError>(AppError::UrlExists) && m2 == m1,
{
}

/// A valid URL with an alias shorter than the minimum is refused for the
/// alias length, and the store is left as it was.
pub proof fn lemma_short_alias_refused(
    generated_len: nat,
    before: Map<Seq<char>, Seq<char>>,
    after: Map<Seq<char>, Seq<char>>,
    body: UrlRequest,
    r: Result<UrlResponse, AppError>,
)
    requires
        url_parses(body.url@),
        effective_alias_len(body, generated_len) < MIN_ALIAS_LENGTH,
        save_url_outcome(generated_len, before, after, body, r),
    ensures
        r == Err::<UrlResponse, AppError>(AppError::ToShortAlias),
        after == before,
{
}

/// A text that is not an absolute URL is refused as an incorrect URL, and the
/// store is left as it was.
pub proof fn lemma_malformed_url_refused(
    generated_len: nat,
    before: Map<Seq<char>, Seq<char>>,
    after: Map<Seq<char>, Seq<char>>,
    body: UrlRequest,
    r: Result<UrlResponse, AppError>,
)
    requires
        !url_parses(body.url@),
        save_url_outcome(generated_len, before, after, body, r),
    ensures
        r == Err::<UrlResponse, AppError>(AppError::UrlError),
        after == before,
{
}

/// An alias that was never saved stays unknown when another alias is saved,
/// and redirecting it fails with `UrlNotFound`.
pub proof fn lemma_unsaved_alias_not_found(
    generated_len: nat,
    before: Map<Seq<char>, Seq<char>>,
    after: Map<Seq<char>, Seq<char>>,
    body: UrlRequest,
    r: Result<UrlResponse, AppError>,
    alias: Seq<char>,
    g: Result<String, AppError>,
)
    requires
        !before.contains_key(alias),
        body.alias is Some,
        body.alias->Some_0@ != alias,
        save_url_outcome(generated_len, before, after, body, r),
        lookup_outcome(after, alias, g),
    ensures
        !after.contains_key(alias),
        g == Err::<String, AppError>(AppError::UrlNotFound),
{
}

} // verus!
