//! Baidu translation: the access-token cache, the client-credentials
//! exchange, and the request and response shapes of the four endpoints.
//!
//! Sending requests is the caller's business. A caller that needs a token
//! reports [`TokenEvent::Start`] to [`get_access_token`], performs the
//! [`TokenAction`] it gets back, reports the outcome as the next event, and
//! goes on until the action is [`TokenAction::Ready`] or
//! [`TokenAction::Fail`]. With the token it builds a request by one of the
//! `*_request` functions, sends it, and hands the answer to the matching
//! `*_result` function.

use crate::encoding::{base64_encode, base64_encoded, percent_encode, percent_encoded};
use crate::error::{AppError, ErrorView};
use crate::json::{
    as_array, as_str, as_u64, empty_object, get, integer_value, json_model, json_models,
    json_pointer, json_text, list_value, pointer, set_member, text_value, to_text, JsonModel,
    JsonNumber,
};
use crate::settings::types::ApiKeysForm;
use crate::text::{decimal_i32, join_lines, joined, signed_decimal, views};
use std::time::{Duration, SystemTime, SystemTimeError, UNIX_EPOCH};
use vstd::prelude::*;
use vstd::string::*;
use vstd::utf8::*;

verus! {

/// Where an access token is obtained.
pub const BAIDU_OAUTH_URL: &'static str = "https://aip.baidubce.com/oauth/2.0/token";

/// Where a text is translated.
pub const BAIDU_TEXTTRANS_URL: &'static str = "https://aip.baidubce.com/rpc/2.0/mt/texttrans/v1";

/// Where a document is submitted for translation.
pub const BAIDU_DOC_CREATE_URL: &'static str =
    "https://aip.baidubce.com/rpc/2.0/mt/v2/doc-translation/create";

/// Where the state of a submitted document is asked.
pub const BAIDU_DOC_QUERY_URL: &'static str =
    "https://aip.baidubce.com/rpc/2.0/mt/v2/doc-translation/query";

/// Where a picture is translated.
pub const BAIDU_PICTRANS_URL: &'static str = "https://aip.baidubce.com/file/2.0/mt/pictrans/v1";

/// The content type announced with every JSON body.
pub const JSON_CONTENT_TYPE: &'static str = "application/json;charset=utf-8";

/// Seconds taken off a token's advertised expiry, so that a token is renewed
/// a day before the upstream would reject it.
pub const TOKEN_REFRESH_SAFETY_WINDOW: u64 = 86_400;

/// Lifetime assumed for a token whose grant does not state one: thirty days.
pub const DEFAULT_TOKEN_LIFETIME: u64 = 2_592_000;

/// `std::time::SystemTime`, an instant of the system clock; nothing inside
/// it is visible to proofs.
#[verifier::external_type_specification]
#[verifier::external_body]
pub struct ExSystemTime(SystemTime);

/// `std::time::SystemTimeError`; nothing inside it is visible to proofs.
#[verifier::external_type_specification]
#[verifier::external_body]
pub struct ExSystemTimeError(SystemTimeError);

/// `SystemTime::now`: the system clock; nothing is promised of what it shows.
pub assume_specification[ SystemTime::now ]() -> (now: SystemTime)
;

/// `SystemTime::duration_since` measured from `UNIX_EPOCH`: the time elapsed
/// since the epoch, or an error when the instant lies before it; nothing is
/// promised of either.
#[verifier::external_body]
fn since_unix_epoch(instant: &SystemTime) -> (elapsed: Result<Duration, SystemTimeError>) {
    instant.duration_since(UNIX_EPOCH)
}

/// `Duration::as_secs`: the whole seconds of a duration; nothing is promised
/// of their number.
pub assume_specification[ Duration::as_secs ](elapsed: &Duration) -> (seconds: u64)
;

/// Seconds since the Unix epoch by the system clock; zero if the clock is set
/// before the epoch. Nothing can be said of the number itself: whatever the
/// clock shows, it is the one that [`seconds_since_epoch`] makes of it.
pub fn unix_now() -> u64 {
    let elapsed = match since_unix_epoch(&SystemTime::now()) {
        Ok(elapsed) => Some(elapsed.as_secs()),
        Err(_) => None,
    };
    seconds_since_epoch(elapsed)
}

/// The time that a reading of the clock stands for: the whole seconds elapsed
/// since the Unix epoch, and zero when the clock is set before the epoch.
pub open spec fn epoch_seconds(elapsed: Option<u64>) -> u64 {
    match elapsed {
        Some(seconds) => seconds,
        None => 0,
    }
}

/// Turns a reading of the clock into seconds since the Unix epoch. `elapsed`
/// is the time since the epoch in whole seconds, or nothing when the clock is
/// set before the epoch.
pub fn seconds_since_epoch(elapsed: Option<u64>) -> (seconds: u64)
    ensures
        seconds == epoch_seconds(elapsed),
{
    match elapsed {
        Some(seconds) => seconds,
        None => 0,
    }
}

/// A bearer token with the instant, in seconds since the Unix epoch, at
/// which the upstream stops honouring it.
pub struct CachedToken {
    access_token: String,
    expires_at_unix: u64,
}

/// The token cache: at most one token, held in memory only and replaced
/// wholesale when a new one is granted.
pub struct BaiduTokenState {
    inner: Option<CachedToken>,
}

impl View for BaiduTokenState {
    type V = Option<(Seq<char>, u64)>;

    /// The cached token and its expiry, if a token is cached.
    closed spec fn view(&self) -> Option<(Seq<char>, u64)> {
        match self.inner {
            Some(cached) => Some((cached.access_token@, cached.expires_at_unix)),
            None => None,
        }
    }
}

/// The instant from which a token expiring at `expires_at` is no longer
/// handed out: the safety window before its expiry, and never before zero.
pub open spec fn safe_expiry(expires_at: u64) -> u64 {
    if expires_at >= TOKEN_REFRESH_SAFETY_WINDOW {
        (expires_at - TOKEN_REFRESH_SAFETY_WINDOW) as u64
    } else {
        0
    }
}

/// The token that a cache hands out at time `now`: the cached one while `now`
/// lies before its safe expiry, none otherwise.
pub open spec fn fresh_token(cache: Option<(Seq<char>, u64)>, now: u64) -> Option<Seq<char>> {
    match cache {
        Some((token, expires_at)) => if now < safe_expiry(expires_at) {
            Some(token)
        } else {
            None
        },
        None => None,
    }
}

/// The characters of an optional string.
pub open spec fn text_view(text: Option<String>) -> Option<Seq<char>> {
    match text {
        Some(s) => Some(s@),
        None => None,
    }
}

impl BaiduTokenState {
    /// A cached token is never the empty string.
    #[verifier::type_invariant]
    spec fn well_formed(self) -> bool {
        self.inner matches Some(cached) ==> cached.access_token@.len() > 0
    }

    /// An empty cache.
    pub fn new() -> (state: Self)
        ensures
            state@ is None,
    {
        BaiduTokenState { inner: None }
    }

    /// The token to use at time `now` without asking the upstream, if the
    /// cache holds one that is still inside its safe lifetime.
    pub fn cached_token_at(&self, now: u64) -> (token: Option<String>)
        ensures
            text_view(token) == fresh_token(self@, now),
            token matches Some(t) ==> t@.len() > 0,
    {
        proof {
            use_type_invariant(self);
        }
        match &self.inner {
            Some(cached) => {
                let safe_expire = if cached.expires_at_unix >= TOKEN_REFRESH_SAFETY_WINDOW {
                    cached.expires_at_unix - TOKEN_REFRESH_SAFETY_WINDOW
                } else {
                    0
                };
                if now < safe_expire {
                    Some(cached.access_token.clone())
                } else {
                    None
                }
            },
            None => None,
        }
    }

    /// Replaces whatever is cached by a token and its absolute expiry.
    pub fn store(&mut self, access_token: String, expires_at_unix: u64)
        requires
            access_token@.len() > 0,
        ensures
            final(self)@ == Some((access_token@, expires_at_unix)),
    {
        self.inner = Some(CachedToken { access_token, expires_at_unix });
    }

    /// Empties the cache.
    pub fn clear(&mut self)
        ensures
            final(self)@ is None,
    {
        self.inner = None;
    }
}

impl Default for BaiduTokenState {
    fn default() -> (state: Self)
        ensures
            state@ is None,
    {
        BaiduTokenState::new()
    }
}

/// The cached token if the system clock shows a time inside its safe
/// lifetime. Whatever the clock shows, the answer is the one that
/// [`BaiduTokenState::cached_token_at`] gives for that time.
pub fn try_get_cached_token(token_state: &BaiduTokenState) -> (token: Option<String>)
    ensures
        exists|now: u64| text_view(token) == #[trigger] fresh_token(token_state@, now),
{
    token_state.cached_token_at(unix_now())
}

/// Reported when the stored Baidu credentials are incomplete.
pub const MISSING_CREDENTIALS: &'static str = "Baidu API Key/Secret 为空，请先在设置里填写";

/// The address of the client-credentials exchange for a pair of credentials,
/// each percent-encoded.
pub open spec fn oauth_url(client_id: Seq<char>, client_secret: Seq<char>) -> Seq<char> {
    BAIDU_OAUTH_URL@ + "?grant_type=client_credentials&client_id="@ + percent_encoded(
        encode_utf8(client_id),
    ) + "&client_secret="@ + percent_encoded(encode_utf8(client_secret))
}

/// Builds the address of the client-credentials exchange.
pub fn token_exchange_url(client_id: &str, client_secret: &str) -> (url: String)
    ensures
        url@ == oauth_url(client_id@, client_secret@),
{
    let mut url = String::from_str(BAIDU_OAUTH_URL);
    url.append("?grant_type=client_credentials&client_id=");
    url.append(percent_encode(client_id).as_str());
    url.append("&client_secret=");
    url.append(percent_encode(client_secret).as_str());
    url
}

/// What a successful exchange grants: the token and its lifetime in seconds.
#[derive(Debug, Clone, PartialEq, Eq)]
pub struct TokenGrant {
    pub access_token: String,
    pub expires_in: u64,
}

/// The grant made of the two fields of an exchange response: a missing
/// lifetime counts as thirty days, a missing or empty token is no grant.
pub open spec fn grant_of(access_token: Option<Seq<char>>, expires_in: Option<u64>) -> Option<
    (Seq<char>, u64),
> {
    let token = match access_token {
        Some(t) => t,
        None => Seq::empty(),
    };
    let lifetime = match expires_in {
        Some(n) => n,
        None => DEFAULT_TOKEN_LIFETIME,
    };
    if token.len() == 0 {
        None
    } else {
        Some((token, lifetime))
    }
}

/// The grant that an exchange response carries: `access_token` when it is a
/// string, `expires_in` when it is a non-negative integer.
pub open spec fn granted(doc: JsonModel) -> Option<(Seq<char>, u64)> {
    grant_of(
        match doc.member("access_token"@) {
            Some(node) => node.as_text(),
            None => None,
        },
        match doc.member("expires_in"@) {
            Some(node) => node.as_natural(),
            None => None,
        },
    )
}

/// The characters of an optional string slice.
pub open spec fn str_view(text: Option<&str>) -> Option<Seq<char>> {
    match text {
        Some(s) => Some(s@),
        None => None,
    }
}

/// The mathematical content of an optional grant.
pub open spec fn grant_view(grant: Option<TokenGrant>) -> Option<(Seq<char>, u64)> {
    match grant {
        Some(g) => Some((g.access_token@, g.expires_in)),
        None => None,
    }
}

/// Makes a grant of the two fields read from an exchange response.
pub fn token_grant(access_token: Option<&str>, expires_in: Option<u64>) -> (grant: Option<
    TokenGrant,
>)
    ensures
        grant_view(grant) == grant_of(str_view(access_token), expires_in),
{
    let token = match access_token {
        Some(t) => t,
        None => "",
    };
    let lifetime = match expires_in {
        Some(n) => n,
        None => DEFAULT_TOKEN_LIFETIME,
    };
    proof {
        reveal_strlit("");
    }
    if token.is_empty() {
        None
    } else {
        Some(TokenGrant { access_token: token.to_owned(), expires_in: lifetime })
    }
}

/// The error reported for an exchange response that grants nothing: it
/// quotes the whole response.
pub open spec fn oauth_failure(response_text: Seq<char>) -> ErrorView {
    ErrorView::Message("Baidu oauth failed: "@ + response_text)
}

/// Reads the grant out of an exchange response.
pub fn parse_token_response(raw: &serde_json::Value) -> (outcome: Result<TokenGrant, AppError>)
    ensures
        match granted(json_model(*raw)) {
            Some(grant) => outcome matches Ok(g) && grant_view(Some(g)) == Some(grant),
            None => outcome matches Err(e) && e@ == oauth_failure(json_text(*raw)),
        },
{
    let access_token = match get(raw, "access_token") {
        Some(node) => as_str(node),
        None => None,
    };
    let expires_in = match get(raw, "expires_in") {
        Some(node) => as_u64(node),
        None => None,
    };
    match token_grant(access_token, expires_in) {
        Some(grant) => Ok(grant),
        None => {
            let mut message = String::from_str("Baidu oauth failed: ");
            message.append(to_text(raw).as_str());
            Err(AppError::Message(message))
        },
    }
}

/// What the caller reports to the token procedure.
#[derive(Debug)]
pub enum TokenEvent {
    /// A command needs a token.
    Start,
    /// The stored credentials were read; `None` when nothing is stored.
    Keys(Option<ApiKeysForm>),
    /// The upstream answered the exchange with this document.
    Response(serde_json::Value),
}

/// What the token procedure asks of the caller.
#[derive(Debug, Clone, PartialEq, Eq)]
pub enum TokenAction {
    /// Use this token; the procedure is over.
    Ready(String),
    /// Read the stored credentials and report them.
    LoadKeys,
    /// Perform one exchange at this address and report the response.
    Exchange(String),
    /// Give up with this error; the procedure is over.
    Fail(AppError),
}

/// The mathematical content of a [`TokenAction`].
pub enum ActionView {
    Ready(Seq<char>),
    LoadKeys,
    Exchange(Seq<char>),
    Fail(ErrorView),
}

impl View for TokenAction {
    type V = ActionView;

    open spec fn view(&self) -> ActionView {
        match *self {
            TokenAction::Ready(token) => ActionView::Ready(token@),
            TokenAction::LoadKeys => ActionView::LoadKeys,
            TokenAction::Exchange(url) => ActionView::Exchange(url@),
            TokenAction::Fail(error) => ActionView::Fail(error@),
        }
    }
}

/// The Baidu client id and secret among the stored credentials; both empty
/// when nothing is stored.
pub open spec fn baidu_credentials(keys: Option<ApiKeysForm>) -> (Seq<char>, Seq<char>) {
    match keys {
        Some(form) => (form.translation.baidu.app_id@, form.translation.baidu.app_secret@),
        None => (Seq::empty(), Seq::empty()),
    }
}

/// The first move: a fresh cached token ends the procedure at once, anything
/// else sends the caller for the credentials.
pub open spec fn on_start(cache: Option<(Seq<char>, u64)>, now: u64) -> ActionView {
    match fresh_token(cache, now) {
        Some(token) => ActionView::Ready(token),
        None => ActionView::LoadKeys,
    }
}

/// The move after the credentials were read: one exchange, unless either
/// credential is empty.
pub open spec fn on_keys(client_id: Seq<char>, client_secret: Seq<char>) -> ActionView {
    if client_id.len() == 0 || client_secret.len() == 0 {
        ActionView::Fail(ErrorView::Message(MISSING_CREDENTIALS@))
    } else {
        ActionView::Exchange(oauth_url(client_id, client_secret))
    }
}

/// The move after the upstream answered: the granted token, or the failure
/// that quotes the response.
pub open spec fn on_response(doc: JsonModel, response_text: Seq<char>) -> ActionView {
    match granted(doc) {
        Some((token, lifetime)) => ActionView::Ready(token),
        None => ActionView::Fail(oauth_failure(response_text)),
    }
}

/// The cache after the upstream answered at time `now`. A grant replaces what
/// was cached and expires `lifetime` seconds after `now`; a grant whose
/// expiry does not fit in 64 bits is handed out but not kept. A response that
/// grants nothing leaves the cache as it was.
pub open spec fn cache_after_response(
    cache: Option<(Seq<char>, u64)>,
    doc: JsonModel,
    now: u64,
) -> Option<(Seq<char>, u64)> {
    match granted(doc) {
        Some((token, lifetime)) => if now + lifetime <= u64::MAX {
            Some((token, (now + lifetime) as u64))
        } else {
            None
        },
        None => cache,
    }
}

/// One step of the token procedure at time `now`: the action asked of the
/// caller and the cache afterwards.
pub open spec fn token_step(cache: Option<(Seq<char>, u64)>, event: TokenEvent, now: u64) -> (
    ActionView,
    Option<(Seq<char>, u64)>,
) {
    match event {
        TokenEvent::Start => (on_start(cache, now), cache),
        TokenEvent::Keys(keys) => (
            on_keys(baidu_credentials(keys).0, baidu_credentials(keys).1),
            cache,
        ),
        TokenEvent::Response(raw) => (
            on_response(json_model(raw), json_text(raw)),
            cache_after_response(cache, json_model(raw), now),
        ),
    }
}

/// One step of the token procedure, with the time given by the caller.
pub fn access_token_step(token_state: &mut BaiduTokenState, event: TokenEvent, now: u64) -> (action:
    TokenAction)
    ensures
        (action@, final(token_state)@) == token_step(old(token_state)@, event, now),
{
    match event {
        TokenEvent::Start => match token_state.cached_token_at(now) {
            Some(token) => TokenAction::Ready(token),
            None => TokenAction::LoadKeys,
        },
        TokenEvent::Keys(keys) => {
            let form = match keys {
                Some(form) => form,
                None => ApiKeysForm::default(),
            };
            let client_id = form.translation.baidu.app_id;
            let client_secret = form.translation.baidu.app_secret;
            if client_id.as_str().is_empty() || client_secret.as_str().is_empty() {
                TokenAction::Fail(AppError::msg(MISSING_CREDENTIALS))
            } else {
                TokenAction::Exchange(
                    token_exchange_url(client_id.as_str(), client_secret.as_str()),
                )
            }
        },
        TokenEvent::Response(raw) => match parse_token_response(&raw) {
            Ok(grant) => {
                match now.checked_add(grant.expires_in) {
                    Some(expires_at) => token_state.store(grant.access_token.clone(), expires_at),
                    None => token_state.clear(),
                }
                TokenAction::Ready(grant.access_token)
            },
            Err(error) => TokenAction::Fail(error),
        },
    }
}

/// One step of the token procedure, with the time read from the system clock.
/// Whatever the clock shows, the step is the one that [`access_token_step`]
/// takes at that time.
pub fn get_access_token(token_state: &mut BaiduTokenState, event: TokenEvent) -> (action:
    TokenAction)
    ensures
        exists|now: u64|
            (action@, final(token_state)@) == #[trigger] token_step(old(token_state)@, event, now),
{
    let now = unix_now();
    access_token_step(token_state, event, now)
}

/// A cached token is handed out again, with no exchange and no change to the
/// cache, at every time before its expiry less the safety window.
pub proof fn law_fresh_token_is_reused(token: Seq<char>, expires_at: u64, now: u64)
    requires
        now < expires_at - TOKEN_REFRESH_SAFETY_WINDOW,
    ensures
        token_step(Some((token, expires_at)), TokenEvent::Start, now) == (
            ActionView::Ready(token),
            Some((token, expires_at)),
        ),
{
}

/// A token granted at `fetched_at` for `lifetime` seconds is handed out again,
/// identical and with no exchange, at every time before its expiry less the
/// safety window, whatever was cached before it.
pub proof fn law_granted_token_is_reused(
    cache: Option<(Seq<char>, u64)>,
    response: serde_json::Value,
    fetched_at: u64,
    token: Seq<char>,
    lifetime: u64,
    now: u64,
)
    requires
        granted(json_model(response)) == Some((token, lifetime)),
        fetched_at + lifetime <= u64::MAX,
        now < fetched_at + lifetime - TOKEN_REFRESH_SAFETY_WINDOW,
    ensures
        token_step(
            token_step(cache, TokenEvent::Response(response), fetched_at).1,
            TokenEvent::Start,
            now,
        ).0 == ActionView::Ready(token),
{
}

/// From its expiry less the safety window on, a cached token is no longer
/// handed out: the procedure asks for the credentials, then for exactly one
/// exchange, and ends with the token that the exchange grants.
pub proof fn law_stale_token_is_refreshed_once(
    token: Seq<char>,
    expires_at: u64,
    now: u64,
    keys: ApiKeysForm,
    response: serde_json::Value,
    answered_at: u64,
    new_token: Seq<char>,
    lifetime: u64,
)
    requires
        now >= expires_at - TOKEN_REFRESH_SAFETY_WINDOW,
        keys.translation.baidu.app_id@.len() > 0,
        keys.translation.baidu.app_secret@.len() > 0,
        granted(json_model(response)) == Some((new_token, lifetime)),
    ensures
        token_step(Some((token, expires_at)), TokenEvent::Start, now).0 == ActionView::LoadKeys,
        token_step(Some((token, expires_at)), TokenEvent::Keys(Some(keys)), now).0
            == ActionView::Exchange(
            oauth_url(keys.translation.baidu.app_id@, keys.translation.baidu.app_secret@),
        ),
        token_step(Some((token, expires_at)), TokenEvent::Response(response), answered_at).0
            == ActionView::Ready(new_token),
{
}

/// A POST request that carries a JSON document.
#[derive(Debug)]
pub struct JsonRequest {
    pub url: String,
    pub content_type: String,
    pub body: serde_json::Value,
}

/// An endpoint address with the bearer token attached as a query parameter.
/// The token goes in as it is.
pub open spec fn endpoint_url(endpoint: Seq<char>, token: Seq<char>) -> Seq<char> {
    endpoint + "?access_token="@ + token
}

/// Attaches the bearer token to an endpoint address.
pub fn endpoint_with_token(endpoint: &str, token: &str) -> (url: String)
    ensures
        url@ == endpoint_url(endpoint@, token@),
{
    let mut url = String::from_str(endpoint);
    url.append("?access_token=");
    url.append(token);
    url
}

/// The text at a JSON Pointer: the string found there, and the empty text
/// when nothing is there or what is there is not a string.
pub open spec fn text_at(doc: JsonModel, path: Seq<char>) -> Seq<char> {
    match json_pointer(doc, path) {
        Some(node) => match node.as_text() {
            Some(text) => text,
            None => Seq::empty(),
        },
        None => Seq::empty(),
    }
}

/// The given text, or the empty text when there is none.
pub fn text_or_empty(text: Option<&str>) -> (owned: String)
    ensures
        owned@ == match text {
            Some(t) => t@,
            None => Seq::empty(),
        },
{
    match text {
        Some(t) => t.to_owned(),
        None => String::new(),
    }
}

fn read_text_at(raw: &serde_json::Value, path: &str) -> (text: String)
    ensures
        text@ == text_at(json_model(*raw), path@),
{
    let found = match pointer(raw, path) {
        Some(node) => as_str(node),
        None => None,
    };
    text_or_empty(found)
}

/// What the user interface sends to translate a text.
#[derive(Debug, Clone, PartialEq, Eq)]
pub struct TextTranslatePayload {
    pub q: String,
    /// Source language; `auto` lets the upstream detect it.
    pub from: String,
    pub to: String,
    pub term_ids: Option<String>,
}

/// What the user interface receives for a translated text. `raw` is the
/// upstream's answer as it came.
#[derive(Debug)]
pub struct TextTranslateResult {
    pub from: String,
    pub to: String,
    /// The translated paragraphs, one per line.
    pub dst: String,
    pub raw: serde_json::Value,
}

/// The body of a text translation request: `q`, `from`, `to`, and `termIds`
/// only when term ids were given.
pub open spec fn text_translate_body(payload: TextTranslatePayload) -> JsonModel {
    let body = JsonModel::empty_object().with_member("q"@, JsonModel::Text(payload.q@)).with_member(
        "from"@,
        JsonModel::Text(payload.from@),
    ).with_member("to"@, JsonModel::Text(payload.to@));
    match payload.term_ids {
        Some(ids) => body.with_member("termIds"@, JsonModel::Text(ids@)),
        None => body,
    }
}

/// Builds the request that translates a text.
pub fn baidu_text_translate_request(token: &str, payload: &TextTranslatePayload) -> (request:
    JsonRequest)
    ensures
        request.url@ == endpoint_url(BAIDU_TEXTTRANS_URL@, token@),
        request.content_type@ == JSON_CONTENT_TYPE@,
        json_model(request.body) == text_translate_body(*payload),
{
    let mut body = empty_object();
    set_member(&mut body, "q", text_value(payload.q.as_str()));
    set_member(&mut body, "from", text_value(payload.from.as_str()));
    set_member(&mut body, "to", text_value(payload.to.as_str()));
    match &payload.term_ids {
        Some(ids) => {
            set_member(&mut body, "termIds", text_value(ids.as_str()));
        },
        None => {},
    }
    JsonRequest {
        url: endpoint_with_token(BAIDU_TEXTTRANS_URL, token),
        content_type: String::from_str(JSON_CONTENT_TYPE),
        body,
    }
}

/// The translated paragraph that one element of the upstream's result list
/// carries: its `dst` member, when that is a string.
pub open spec fn segment(item: JsonModel) -> Option<Seq<char>> {
    match item.member("dst"@) {
        Some(node) => node.as_text(),
        None => None,
    }
}

/// The translated paragraphs of a result list, in order; elements without
/// one are passed over.
pub open spec fn segments(items: Seq<JsonModel>) -> Seq<Seq<char>>
    decreases items.len(),
{
    if items.len() == 0 {
        Seq::empty()
    } else {
        let earlier = segments(items.drop_last());
        match segment(items.last()) {
            Some(text) => earlier.push(text),
            None => earlier,
        }
    }
}

/// The translation that an answer carries: the paragraphs of the list at
/// `/result/trans_result`, one per line; empty when there is no such list.
pub open spec fn translated_text(doc: JsonModel) -> Seq<char> {
    match json_pointer(doc, "/result/trans_result"@) {
        Some(node) => match node.as_list() {
            Some(items) => joined(segments(items), seq!['\n']),
            None => Seq::empty(),
        },
        None => Seq::empty(),
    }
}

/// Collects the translated paragraphs of a result list, in order, passing
/// over the elements that carry none.
pub fn read_segments(items: &Vec<serde_json::Value>) -> (parts: Vec<String>)
    ensures
        views(parts@) == segments(json_models(items@)),
{
    let mut parts: Vec<String> = Vec::new();
    let mut i: usize = 0;
    while i < items.len()
        invariant
            i <= items.len(),
            views(parts@) == segments(json_models(items@).take(i as int)),
        decreases items.len() - i,
    {
        proof {
            let models = json_models(items@);
            assert(models.take(i + 1).drop_last() =~= models.take(i as int));
        }
        let found = match get(&items[i], "dst") {
            Some(node) => as_str(node),
            None => None,
        };
        match found {
            Some(text) => {
                parts.push(text.to_owned());
            },
            None => {},
        }
        i += 1;
    }
    assert(json_models(items@).take(items.len() as int) =~= json_models(items@));
    parts
}

/// Reshapes the upstream's answer to a text translation request.
pub fn baidu_text_translate_result(raw: serde_json::Value) -> (result: TextTranslateResult)
    ensures
        result.from@ == text_at(json_model(raw), "/result/from"@),
        result.to@ == text_at(json_model(raw), "/result/to"@),
        result.dst@ == translated_text(json_model(raw)),
        result.raw == raw,
{
    let from = read_text_at(&raw, "/result/from");
    let to = read_text_at(&raw, "/result/to");
    let list = match pointer(&raw, "/result/trans_result") {
        Some(node) => as_array(node),
        None => None,
    };
    let dst = match list {
        Some(items) => join_lines(&read_segments(items)),
        None => String::new(),
    };
    TextTranslateResult { from, to, dst, raw }
}

/// What the user interface sends to translate a picture.
#[derive(Debug, Clone, PartialEq, Eq)]
pub struct PicTranslatePayload {
    /// The picture file.
    pub image: Vec<u8>,
    /// Its media type, in lower case, such as `image/png`.
    pub mime: String,
    pub from: String,
    pub to: String,
    /// How the translation is pasted onto the picture: 0, 1 or 2.
    pub paste: Option<i32>,
}

/// What the user interface receives for a translated picture.
#[derive(Debug)]
pub struct PicTranslateResult {
    pub raw: serde_json::Value,
}

/// A POST request that carries a multipart form: one file part followed by
/// text fields in the given order.
#[derive(Debug, Clone, PartialEq, Eq)]
pub struct MultipartRequest {
    pub url: String,
    /// Name of the file part.
    pub file_field: String,
    /// File name announced for the file part.
    pub file_name: String,
    /// Media type announced for the file part.
    pub file_mime: String,
    pub file: Vec<u8>,
    /// Text fields as name and value.
    pub fields: Vec<(String, String)>,
}

/// The names and values of a sequence of text fields.
pub open spec fn field_views(fields: Seq<(String, String)>) -> Seq<(Seq<char>, Seq<char>)> {
    Seq::new(fields.len(), |i: int| (fields[i].0@, fields[i].1@))
}

/// The text fields of a picture translation request: `from`, `to`, the fixed
/// version `3`, and `paste` in decimal only when it was given.
pub open spec fn pic_translate_fields(payload: PicTranslatePayload) -> Seq<
    (Seq<char>, Seq<char>),
> {
    let fixed = seq![("from"@, payload.from@), ("to"@, payload.to@), ("v"@, "3"@)];
    match payload.paste {
        Some(paste) => fixed.push(("paste"@, signed_decimal(paste as int))),
        None => fixed,
    }
}

/// Builds the request that translates a picture.
pub fn baidu_pic_translate_request(token: &str, payload: PicTranslatePayload) -> (request:
    MultipartRequest)
    ensures
        request.url@ == endpoint_url(BAIDU_PICTRANS_URL@, token@),
        request.file_field@ == "image"@,
        request.file_name@ == "image"@,
        request.file_mime@ == payload.mime@,
        request.file@ == payload.image@,
        field_views(request.fields@) == pic_translate_fields(payload),
{
    let mut fields: Vec<(String, String)> = Vec::new();
    fields.push((String::from_str("from"), payload.from));
    fields.push((String::from_str("to"), payload.to));
    fields.push((String::from_str("v"), String::from_str("3")));
    match payload.paste {
        Some(paste) => {
            fields.push((String::from_str("paste"), decimal_i32(paste)));
        },
        None => {},
    }
    MultipartRequest {
        url: endpoint_with_token(BAIDU_PICTRANS_URL, token),
        file_field: String::from_str("image"),
        file_name: String::from_str("image"),
        file_mime: payload.mime,
        file: payload.image,
        fields,
    }
}

/// What the user interface sends to have a document translated.
#[derive(Debug, Clone, PartialEq, Eq)]
pub struct DocCreatePayload {
    pub from: String,
    pub to: String,
    /// The document file.
    pub file: Vec<u8>,
    /// Its type, such as `pdf` or `docx`.
    pub format: String,
    pub filename: Option<String>,
    /// Whether pictures inside the document are translated too: 0 or 1.
    pub trans_image: Option<i32>,
    /// The type wanted for the translated document.
    pub output_format: Option<String>,
    pub filename_prefix: Option<String>,
}

/// What the user interface receives once a document translation was
/// accepted: the task id and the upstream's answer as it came.
#[derive(Debug)]
pub struct DocCreateResult {
    pub id: String,
    pub raw: serde_json::Value,
}

/// The `input` member of a document translation request: the file in base64
/// and its type, then the file name and the picture switch when given.
pub open spec fn doc_input(payload: DocCreatePayload) -> JsonModel {
    doc_input_with(base64_encoded(payload.file@), payload)
}

/// The `input` member of a document translation request whose file, once
/// encoded, reads `content`.
pub open spec fn doc_input_with(content: Seq<char>, payload: DocCreatePayload) -> JsonModel {
    let required = JsonModel::empty_object().with_member(
        "content"@,
        JsonModel::Text(content),
    ).with_member("format"@, JsonModel::Text(payload.format@));
    let named = match payload.filename {
        Some(name) => required.with_member("filename"@, JsonModel::Text(name@)),
        None => required,
    };
    match payload.trans_image {
        Some(flag) => named.with_member(
            "trans_image"@,
            JsonModel::Number(JsonNumber::Integer(flag as int)),
        ),
        None => named,
    }
}

/// The `output` member of a document translation request: `formats` as a
/// list of the one wanted type, and `filename_prefix`, each only when given.
pub open spec fn doc_output(payload: DocCreatePayload) -> JsonModel {
    let formats = match payload.output_format {
        Some(format) => JsonModel::empty_object().with_member(
            "formats"@,
            JsonModel::List(seq![JsonModel::Text(format@)]),
        ),
        None => JsonModel::empty_object(),
    };
    match payload.filename_prefix {
        Some(prefix) => formats.with_member("filename_prefix"@, JsonModel::Text(prefix@)),
        None => formats,
    }
}

/// The body of a document translation request: `from`, `to`, `input`, and
/// `output` only when an output type or a file name prefix was given.
pub open spec fn doc_create_body(payload: DocCreatePayload) -> JsonModel {
    doc_create_body_with(base64_encoded(payload.file@), payload)
}

/// The body of a document translation request whose file, once encoded,
/// reads `content`.
pub open spec fn doc_create_body_with(content: Seq<char>, payload: DocCreatePayload) -> JsonModel {
    let body = JsonModel::empty_object().with_member(
        "from"@,
        JsonModel::Text(payload.from@),
    ).with_member("to"@, JsonModel::Text(payload.to@)).with_member(
        "input"@,
        doc_input_with(content, payload),
    );
    if payload.output_format is Some || payload.filename_prefix is Some {
        body.with_member("output"@, doc_output(payload))
    } else {
        body
    }
}

fn build_doc_input(content: &str, payload: &DocCreatePayload) -> (input: serde_json::Value)
    ensures
        json_model(input) == doc_input_with(content@, *payload),
{
    let mut input = empty_object();
    set_member(&mut input, "content", text_value(content));
    set_member(&mut input, "format", text_value(payload.format.as_str()));
    match &payload.filename {
        Some(name) => {
            set_member(&mut input, "filename", text_value(name.as_str()));
        },
        None => {},
    }
    match payload.trans_image {
        Some(flag) => {
            set_member(&mut input, "trans_image", integer_value(flag));
        },
        None => {},
    }
    input
}

fn build_doc_output(payload: &DocCreatePayload) -> (output: serde_json::Value)
    ensures
        json_model(output) == doc_output(*payload),
{
    let mut output = empty_object();
    match &payload.output_format {
        Some(format) => {
            let mut formats: Vec<serde_json::Value> = Vec::new();
            formats.push(text_value(format.as_str()));
            assert(json_models(formats@) =~= seq![JsonModel::Text(format@)]);
            set_member(&mut output, "formats", list_value(formats));
        },
        None => {},
    }
    match &payload.filename_prefix {
        Some(prefix) => {
            set_member(&mut output, "filename_prefix", text_value(prefix.as_str()));
        },
        None => {},
    }
    output
}

/// Builds the body of a document translation request, given the file in
/// base64.
pub fn doc_create_request_body(content: &str, payload: &DocCreatePayload) -> (body:
    serde_json::Value)
    ensures
        json_model(body) == doc_create_body_with(content@, *payload),
{
    let mut body = empty_object();
    set_member(&mut body, "from", text_value(payload.from.as_str()));
    set_member(&mut body, "to", text_value(payload.to.as_str()));
    set_member(&mut body, "input", build_doc_input(content, payload));
    if payload.output_format.is_some() || payload.filename_prefix.is_some() {
        set_member(&mut body, "output", build_doc_output(payload));
    }
    body
}

/// Builds the request that submits a document for translation.
pub fn baidu_doc_translate_create_request(token: &str, payload: &DocCreatePayload) -> (request:
    JsonRequest)
    ensures
        request.url@ == endpoint_url(BAIDU_DOC_CREATE_URL@, token@),
        request.content_type@ == JSON_CONTENT_TYPE@,
        json_model(request.body) == doc_create_body(*payload),
{
    let content = base64_encode(payload.file.as_slice());
    JsonRequest {
        url: endpoint_with_token(BAIDU_DOC_CREATE_URL, token),
        content_type: String::from_str(JSON_CONTENT_TYPE),
        body: doc_create_request_body(content.as_str(), payload),
    }
}

/// The error reported when the upstream accepted no document: it quotes the
/// whole answer, which names the upstream's own error code and message.
pub open spec fn doc_create_failure(response_text: Seq<char>) -> ErrorView {
    ErrorView::Message("Baidu doc create failed: "@ + response_text)
}

/// What a task id and the answer it was read from amount to: an accepted
/// document when the id is not empty, otherwise the failure that quotes the
/// answer.
pub open spec fn doc_created(id: Seq<char>, response_text: Seq<char>) -> Result<
    Seq<char>,
    ErrorView,
> {
    if id.len() == 0 {
        Err(doc_create_failure(response_text))
    } else {
        Ok(id)
    }
}

/// Decides what a document submission came to, given the task id read from
/// the answer (empty when the answer holds none) and the answer itself.
pub fn doc_create_outcome(id: String, raw: serde_json::Value) -> (outcome: Result<
    DocCreateResult,
    AppError,
>)
    ensures
        match outcome {
            Ok(result) => {
                &&& doc_created(id@, json_text(raw)) == Ok::<Seq<char>, ErrorView>(result.id@)
                &&& result.id == id
                &&& result.raw == raw
            },
            Err(error) => doc_created(id@, json_text(raw)) == Err::<Seq<char>, ErrorView>(
                error@,
            ),
        },
{
    if id.as_str().is_empty() {
        let mut message = String::from_str("Baidu doc create failed: ");
        message.append(to_text(&raw).as_str());
        Err(AppError::Message(message))
    } else {
        Ok(DocCreateResult { id, raw })
    }
}

/// Reshapes the upstream's answer to a document submission. The task id is
/// the string at `/result/id`; an answer without one is an error.
pub fn baidu_doc_translate_create_result(raw: serde_json::Value) -> (outcome: Result<
    DocCreateResult,
    AppError,
>)
    ensures
        match outcome {
            Ok(result) => {
                &&& result.id@.len() > 0
                &&& result.id@ == text_at(json_model(raw), "/result/id"@)
                &&& result.raw == raw
            },
            Err(error) => {
                &&& text_at(json_model(raw), "/result/id"@).len() == 0
                &&& error@ == doc_create_failure(json_text(raw))
            },
        },
{
    let id = read_text_at(&raw, "/result/id");
    doc_create_outcome(id, raw)
}

/// What the user interface sends to ask after a submitted document.
#[derive(Debug, Clone, PartialEq, Eq)]
pub struct DocQueryPayload {
    pub id: String,
}

/// What the user interface receives about a submitted document.
#[derive(Debug)]
pub struct DocQueryResult {
    pub raw: serde_json::Value,
}

/// The body of a document status request: the task id alone.
pub open spec fn doc_query_body(payload: DocQueryPayload) -> JsonModel {
    JsonModel::empty_object().with_member("id"@, JsonModel::Text(payload.id@))
}

/// Builds the request that asks after a submitted document.
pub fn baidu_doc_translate_query_request(token: &str, payload: &DocQueryPayload) -> (request:
    JsonRequest)
    ensures
        request.url@ == endpoint_url(BAIDU_DOC_QUERY_URL@, token@),
        request.content_type@ == JSON_CONTENT_TYPE@,
        json_model(request.body) == doc_query_body(*payload),
{
    let mut body = empty_object();
    set_member(&mut body, "id", text_value(payload.id.as_str()));
    JsonRequest {
        url: endpoint_with_token(BAIDU_DOC_QUERY_URL, token),
        content_type: String::from_str(JSON_CONTENT_TYPE),
        body,
    }
}

} // verus!
