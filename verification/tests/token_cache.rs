use adui_tools::commands::baidu_translate::{
    access_token_step, get_access_token, parse_token_response, seconds_since_epoch,
    token_exchange_url, token_grant, try_get_cached_token, unix_now, BaiduTokenState,
    TokenAction, TokenEvent, TokenGrant, BAIDU_OAUTH_URL, DEFAULT_TOKEN_LIFETIME,
    MISSING_CREDENTIALS, TOKEN_REFRESH_SAFETY_WINDOW,
};
use adui_tools::error::AppError;
use adui_tools::settings::types::ApiKeysForm;

fn json(text: &str) -> serde_json::Value {
    serde_json::from_str(text).unwrap()
}

fn keys(app_id: &str, app_secret: &str) -> ApiKeysForm {
    let mut form = ApiKeysForm::default();
    form.translation.baidu.app_id = app_id.to_string();
    form.translation.baidu.app_secret = app_secret.to_string();
    form
}

fn state_with(token: &str, expires_in: u64, fetched_at: u64) -> BaiduTokenState {
    let mut state = BaiduTokenState::new();
    let response = json(&format!(
        "{{\"access_token\":\"{}\",\"expires_in\":{}}}",
        token, expires_in
    ));
    let action = access_token_step(&mut state, TokenEvent::Response(response), fetched_at);
    assert_eq!(action, TokenAction::Ready(token.to_string()));
    state
}

#[test]
fn constants_have_their_documented_values() {
    assert_eq!(TOKEN_REFRESH_SAFETY_WINDOW, 60 * 60 * 24);
    assert_eq!(DEFAULT_TOKEN_LIFETIME, 60 * 60 * 24 * 30);
    assert_eq!(BAIDU_OAUTH_URL, "https://aip.baidubce.com/oauth/2.0/token");
}

#[test]
fn empty_cache_asks_for_credentials() {
    let mut state = BaiduTokenState::default();
    assert_eq!(state.cached_token_at(0), None);
    assert_eq!(
        access_token_step(&mut state, TokenEvent::Start, 12345),
        TokenAction::LoadKeys
    );
}

#[test]
fn fresh_token_is_returned_without_exchange() {
    // Expiry E = 1_000 + 200_000 = 201_000, window W = 86_400, E - W = 114_600.
    let mut state = state_with("tok-1", 200_000, 1_000);
    assert_eq!(state.cached_token_at(1_000), Some("tok-1".to_string()));
    assert_eq!(state.cached_token_at(114_599), Some("tok-1".to_string()));
    assert_eq!(
        access_token_step(&mut state, TokenEvent::Start, 114_599),
        TokenAction::Ready("tok-1".to_string())
    );
    // The cache is untouched by the lookup.
    assert_eq!(state.cached_token_at(50_000), Some("tok-1".to_string()));
}

#[test]
fn token_is_stale_from_the_safe_expiry_on() {
    let mut state = state_with("tok-1", 200_000, 1_000);
    assert_eq!(state.cached_token_at(114_600), None);
    assert_eq!(state.cached_token_at(201_000), None);
    assert_eq!(state.cached_token_at(u64::MAX), None);
    assert_eq!(
        access_token_step(&mut state, TokenEvent::Start, 114_600),
        TokenAction::LoadKeys
    );
}

#[test]
fn stale_token_is_refreshed_with_one_exchange() {
    let mut state = state_with("old", 100_000, 0);
    let now = 50_000;
    assert_eq!(
        access_token_step(&mut state, TokenEvent::Start, now),
        TokenAction::LoadKeys
    );
    let action = access_token_step(&mut state, TokenEvent::Keys(Some(keys("id", "secret"))), now);
    let url = match action {
        TokenAction::Exchange(url) => url,
        other => panic!("expected one exchange, got {:?}", other),
    };
    assert_eq!(
        url,
        "https://aip.baidubce.com/oauth/2.0/token?grant_type=client_credentials&client_id=id&client_secret=secret"
    );
    let response = json("{\"access_token\":\"new\",\"expires_in\":2592000}");
    assert_eq!(
        access_token_step(&mut state, TokenEvent::Response(response), now),
        TokenAction::Ready("new".to_string())
    );
    // The next call reuses the new token.
    assert_eq!(
        access_token_step(&mut state, TokenEvent::Start, now + 1),
        TokenAction::Ready("new".to_string())
    );
}

#[test]
fn expiry_inside_the_safety_window_is_never_fresh() {
    let state = state_with("short", 86_399, 0);
    assert_eq!(state.cached_token_at(0), None);
    let state = state_with("short", 86_400, 0);
    assert_eq!(state.cached_token_at(0), None);
    let state = state_with("short", 86_401, 0);
    assert_eq!(state.cached_token_at(0), Some("short".to_string()));
    assert_eq!(state.cached_token_at(1), None);
}

#[test]
fn missing_lifetime_counts_as_thirty_days() {
    let mut state = BaiduTokenState::new();
    let response = json("{\"access_token\":\"t\"}");
    assert_eq!(
        access_token_step(&mut state, TokenEvent::Response(response), 1_000),
        TokenAction::Ready("t".to_string())
    );
    let safe_expiry = 1_000 + 2_592_000 - 86_400;
    assert_eq!(state.cached_token_at(safe_expiry - 1), Some("t".to_string()));
    assert_eq!(state.cached_token_at(safe_expiry), None);
}

#[test]
fn lifetime_that_is_no_natural_number_counts_as_thirty_days() {
    for text in [
        "{\"access_token\":\"t\",\"expires_in\":\"100\"}",
        "{\"access_token\":\"t\",\"expires_in\":-5}",
        "{\"access_token\":\"t\",\"expires_in\":1.5}",
        "{\"access_token\":\"t\",\"expires_in\":null}",
    ] {
        let grant = parse_token_response(&json(text)).unwrap();
        assert_eq!(
            grant,
            TokenGrant { access_token: "t".to_string(), expires_in: 2_592_000 }
        );
    }
}

#[test]
fn grant_whose_expiry_overflows_is_returned_but_not_cached() {
    let mut state = state_with("old", 1_000_000, 0);
    let response = json("{\"access_token\":\"t\",\"expires_in\":10}");
    assert_eq!(
        access_token_step(&mut state, TokenEvent::Response(response), u64::MAX - 5),
        TokenAction::Ready("t".to_string())
    );
    assert_eq!(state.cached_token_at(0), None);
    assert_eq!(state.cached_token_at(u64::MAX - 5), None);
}

#[test]
fn expiry_at_the_largest_instant_is_cached() {
    let mut state = BaiduTokenState::new();
    let response = json("{\"access_token\":\"t\",\"expires_in\":5}");
    access_token_step(&mut state, TokenEvent::Response(response), u64::MAX - 5);
    assert_eq!(state.cached_token_at(u64::MAX - 86_401), Some("t".to_string()));
    assert_eq!(state.cached_token_at(u64::MAX - 86_400), None);
}

#[test]
fn empty_credentials_are_a_configuration_error() {
    let mut state = BaiduTokenState::new();
    let expected = TokenAction::Fail(AppError::Message(MISSING_CREDENTIALS.to_string()));
    assert_eq!(
        access_token_step(&mut state, TokenEvent::Keys(None), 0),
        expected
    );
    assert_eq!(
        access_token_step(&mut state, TokenEvent::Keys(Some(ApiKeysForm::default())), 0),
        expected
    );
    assert_eq!(
        access_token_step(&mut state, TokenEvent::Keys(Some(keys("", "secret"))), 0),
        expected
    );
    assert_eq!(
        access_token_step(&mut state, TokenEvent::Keys(Some(keys("id", ""))), 0),
        expected
    );
    assert_eq!(MISSING_CREDENTIALS, "Baidu API Key/Secret 为空，请先在设置里填写");
}

#[test]
fn api_key_field_is_not_the_client_id() {
    let mut form = ApiKeysForm::default();
    form.translation.baidu.api_key = "only-the-api-key".to_string();
    let mut state = BaiduTokenState::new();
    assert_eq!(
        access_token_step(&mut state, TokenEvent::Keys(Some(form)), 0),
        TokenAction::Fail(AppError::Message(MISSING_CREDENTIALS.to_string()))
    );
}

#[test]
fn credentials_are_percent_encoded_in_the_exchange_url() {
    assert_eq!(
        token_exchange_url("ab c", "s/1+2=3&4"),
        "https://aip.baidubce.com/oauth/2.0/token?grant_type=client_credentials&client_id=ab%20c&client_secret=s%2F1%2B2%3D3%264"
    );
    assert_eq!(
        token_exchange_url("A-z_0.9~", "é"),
        "https://aip.baidubce.com/oauth/2.0/token?grant_type=client_credentials&client_id=A-z_0.9~&client_secret=%C3%A9"
    );
}

#[test]
fn response_without_token_is_a_business_error_quoting_the_response() {
    let mut state = state_with("kept", 1_000_000, 0);
    let response = json("{\"error\":\"invalid_client\",\"error_description\":\"unknown client id\"}");
    assert_eq!(
        access_token_step(&mut state, TokenEvent::Response(response), 10),
        TokenAction::Fail(AppError::Message(
            "Baidu oauth failed: {\"error\":\"invalid_client\",\"error_description\":\"unknown client id\"}"
                .to_string()
        ))
    );
    // A failed exchange leaves the cache as it was.
    assert_eq!(state.cached_token_at(10), Some("kept".to_string()));
}

#[test]
fn empty_or_non_string_token_is_no_grant() {
    for text in [
        "{\"access_token\":\"\",\"expires_in\":100}",
        "{\"access_token\":17,\"expires_in\":100}",
        "{\"expires_in\":100}",
        "[]",
        "\"access_token\"",
    ] {
        let error = parse_token_response(&json(text)).unwrap_err();
        assert_eq!(
            error,
            AppError::Message(format!("Baidu oauth failed: {}", json(text)))
        );
    }
}

#[test]
fn token_grant_on_plain_values() {
    assert_eq!(
        token_grant(Some("abc"), Some(7)),
        Some(TokenGrant { access_token: "abc".to_string(), expires_in: 7 })
    );
    assert_eq!(
        token_grant(Some("abc"), None),
        Some(TokenGrant { access_token: "abc".to_string(), expires_in: 2_592_000 })
    );
    assert_eq!(token_grant(Some(""), Some(7)), None);
    assert_eq!(token_grant(None, Some(7)), None);
    assert_eq!(token_grant(None, None), None);
}

#[test]
fn parse_token_response_reads_both_fields() {
    let grant = parse_token_response(&json(
        "{\"access_token\":\"24.abc\",\"expires_in\":123,\"scope\":\"public\"}",
    ))
    .unwrap();
    assert_eq!(grant.access_token, "24.abc");
    assert_eq!(grant.expires_in, 123);
}

#[test]
fn store_and_clear_replace_the_slot() {
    let mut state = BaiduTokenState::new();
    state.store("a".to_string(), 1_000_000);
    assert_eq!(state.cached_token_at(0), Some("a".to_string()));
    state.store("b".to_string(), 2_000_000);
    assert_eq!(state.cached_token_at(0), Some("b".to_string()));
    assert_eq!(state.cached_token_at(2_000_000 - 86_400 - 1), Some("b".to_string()));
    state.clear();
    assert_eq!(state.cached_token_at(0), None);
}

#[test]
fn clock_reading_steps_follow_the_same_rules() {
    assert!(unix_now() > 1_600_000_000);
    let mut state = BaiduTokenState::new();
    assert_eq!(try_get_cached_token(&state), None);
    assert_eq!(get_access_token(&mut state, TokenEvent::Start), TokenAction::LoadKeys);
    let response = json("{\"access_token\":\"live\",\"expires_in\":2592000}");
    assert_eq!(
        get_access_token(&mut state, TokenEvent::Response(response)),
        TokenAction::Ready("live".to_string())
    );
    assert_eq!(try_get_cached_token(&state), Some("live".to_string()));
    assert_eq!(
        get_access_token(&mut state, TokenEvent::Start),
        TokenAction::Ready("live".to_string())
    );
    let response = json("{\"access_token\":\"brief\",\"expires_in\":60}");
    get_access_token(&mut state, TokenEvent::Response(response));
    assert_eq!(try_get_cached_token(&state), None);
}

#[test]
fn reading_the_credentials_leaves_the_cache_alone() {
    let mut state = state_with("kept", 1_000_000, 0);
    access_token_step(&mut state, TokenEvent::Keys(Some(keys("id", "secret"))), 5);
    access_token_step(&mut state, TokenEvent::Keys(None), 5);
    assert_eq!(state.cached_token_at(5), Some("kept".to_string()));
}

#[test]
fn freshness_is_decided_by_the_safe_expiry_alone() {
    for expires_at in [0u64, 1, 86_399, 86_400, 86_401, 100_000, 5_000_000, u64::MAX] {
        let mut state = BaiduTokenState::new();
        state.store("t".to_string(), expires_at);
        let safe_expiry = expires_at.saturating_sub(TOKEN_REFRESH_SAFETY_WINDOW);
        for now in [0u64, 1, 13_600, 13_601, 86_400, 4_913_599, 4_913_600, u64::MAX - 86_401, u64::MAX] {
            let expected = if now < safe_expiry { Some("t".to_string()) } else { None };
            assert_eq!(state.cached_token_at(now), expected);
        }
    }
}

#[test]
fn every_byte_but_the_unreserved_ones_is_percent_encoded() {
    let mut text = String::new();
    let mut expected = String::new();
    for code in 0u32..0x2500 {
        let Some(c) = char::from_u32(code) else { continue };
        text.push(c);
        let mut buffer = [0u8; 4];
        for byte in c.encode_utf8(&mut buffer).bytes() {
            let unreserved = byte.is_ascii_alphanumeric() || b"-._~".contains(&byte);
            if unreserved {
                expected.push(char::from(byte));
            } else {
                expected.push('%');
                expected.push(char::from(b"0123456789ABCDEF"[usize::from(byte / 16)]));
                expected.push(char::from(b"0123456789ABCDEF"[usize::from(byte % 16)]));
            }
        }
    }
    let url = token_exchange_url(&text, "s");
    let prefix = format!("{}?grant_type=client_credentials&client_id=", BAIDU_OAUTH_URL);
    assert_eq!(url, format!("{}{}&client_secret=s", prefix, expected));
}

#[test]
fn largest_lifetimes() {
    let grant = parse_token_response(&json(
        "{\"access_token\":\"t\",\"expires_in\":18446744073709551615}",
    ))
    .unwrap();
    assert_eq!(grant.expires_in, u64::MAX);
    let grant = parse_token_response(&json(
        "{\"access_token\":\"t\",\"expires_in\":18446744073709551616}",
    ))
    .unwrap();
    assert_eq!(grant.expires_in, DEFAULT_TOKEN_LIFETIME);

    let mut state = BaiduTokenState::new();
    let response = json("{\"access_token\":\"t\",\"expires_in\":18446744073709551615}");
    access_token_step(&mut state, TokenEvent::Response(response), 0);
    assert_eq!(state.cached_token_at(u64::MAX - 86_401), Some("t".to_string()));
    let response = json("{\"access_token\":\"t\",\"expires_in\":18446744073709551615}");
    access_token_step(&mut state, TokenEvent::Response(response), 1);
    assert_eq!(state.cached_token_at(0), None);
}

#[test]
fn clock_before_the_epoch_counts_as_zero() {
    assert_eq!(seconds_since_epoch(None), 0);
    assert_eq!(seconds_since_epoch(Some(0)), 0);
    assert_eq!(seconds_since_epoch(Some(1_700_000_000)), 1_700_000_000);
    assert_eq!(seconds_since_epoch(Some(u64::MAX)), u64::MAX);
}
