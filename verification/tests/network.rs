use abc_chatter_bot::errors::network_error::{NetworkError, NetworkErrorType};
use abc_chatter_bot::network::network_models::{
    AccessTokenResponse, BearerToken, MAX_INSTANT_NANOS, MAX_SPAN_SECONDS, MIN_INSTANT_NANOS,
    NANOS_PER_SECOND,
};
use chrono::{DateTime, Utc};
use abc_chatter_bot::network::open_ai_models::{ChatMessage, ChatRequest, Role};
use abc_chatter_bot::network::requests::{
    generator_status_outcome, igdb_status_outcome, open_ai_status_outcome, request_url,
    token_request_params, StatusOutcome,
};
use abc_chatter_bot::network::stable_diffusion_models::StableDiffusionTextRequest;

#[test]
fn network_error_messages() {
    let e = NetworkError::new(NetworkErrorType::TokenQuotaReached, None);
    assert_eq!(e.error_type, NetworkErrorType::TokenQuotaReached);
    assert!(e.internal_error.is_none());
    assert_eq!(e.message(), "Token quota was reached.");
    assert_eq!(
        NetworkError::new(NetworkErrorType::Unauthorized, None).message(),
        "Unauthorized or access token has expired."
    );
    assert_eq!(NetworkError::new(NetworkErrorType::Unknown, None).message(), "A network error occurred.");
}

#[test]
fn transport_error_becomes_unknown() {
    let transport = reqwest::Client::new().get("not a url").build().unwrap_err();
    let e: NetworkError = NetworkError::from(transport);
    assert_eq!(e.error_type, NetworkErrorType::Unknown);
    assert!(e.internal_error.is_some());
}

#[test]
fn chat_message_roles() {
    assert_eq!(ChatMessage::new(Role::System, "s".to_string()).role, "system");
    assert_eq!(ChatMessage::new(Role::User, "u".to_string()).role, "user");
    let m = ChatMessage::new(Role::Assistant, "hello".to_string());
    assert_eq!(m.role, "assistant");
    assert_eq!(m.content, "hello");
}

#[test]
fn chat_request_starts_with_system_message() {
    let existing = vec![
        ChatMessage::new(Role::User, "hi".to_string()),
        ChatMessage::new(Role::Assistant, "hey".to_string()),
    ];
    let r = ChatRequest::new(existing, "gpt-test".to_string(), "be nice".to_string());
    assert_eq!(r.model, "gpt-test");
    assert_eq!(r.messages.len(), 3);
    assert_eq!(r.messages[0].role, "system");
    assert_eq!(r.messages[0].content, "be nice");
    assert_eq!(r.messages[1].role, "user");
    assert_eq!(r.messages[1].content, "hi");
    assert_eq!(r.messages[2].role, "assistant");
    assert_eq!(r.messages[2].content, "hey");
}

#[test]
fn image_request_fields() {
    let r = StableDiffusionTextRequest::new("a cat".to_string(), 20);
    assert_eq!(r.prompt, "a cat");
    assert_eq!(r.steps, 20);
}

#[test]
fn bearer_token_expiry() {
    let t = BearerToken::new("abc".to_string(), 100);
    assert_eq!(t.display_text(), "abc");
    assert!(!t.is_expired(99));
    assert!(!t.is_expired(100));
    assert!(t.is_expired(101));
}

#[test]
fn token_from_access_token() {
    let resp = AccessTokenResponse {
        access_token: "tok".to_string(),
        expires_in: 3600,
        token_type: "bearer".to_string(),
    };
    let t = BearerToken::from_access_token(resp, 1_000).unwrap();
    assert_eq!(t.token, "tok");
    assert_eq!(t.expiration, 1_000 + 3_600 * NANOS_PER_SECOND);
    assert!(!t.is_expired(1_000 + 3_600 * NANOS_PER_SECOND));
    assert!(t.is_expired(1_000 + 3_600 * NANOS_PER_SECOND + 1));
    let far = AccessTokenResponse {
        access_token: "tok".to_string(),
        expires_in: MAX_SPAN_SECONDS,
        token_type: "bearer".to_string(),
    };
    assert!(BearerToken::from_access_token(far, MAX_INSTANT_NANOS - 10).is_none());
    let early = AccessTokenResponse {
        access_token: "tok".to_string(),
        expires_in: -1,
        token_type: "bearer".to_string(),
    };
    assert!(BearerToken::from_access_token(early, MIN_INSTANT_NANOS).is_none());
}

fn nanos_of(t: DateTime<Utc>) -> i128 {
    (t.timestamp() as i128) * NANOS_PER_SECOND + (t.timestamp_subsec_nanos() as i128)
}

#[test]
fn instant_bounds_match_utc_date_times() {
    assert_eq!(nanos_of(DateTime::<Utc>::MIN_UTC), MIN_INSTANT_NANOS);
    assert_eq!(nanos_of(DateTime::<Utc>::MAX_UTC), MAX_INSTANT_NANOS);
    assert_eq!(chrono::Duration::seconds(MAX_SPAN_SECONDS).num_seconds(), MAX_SPAN_SECONDS);
}

#[test]
fn token_expires_within_a_second() {
    let t = BearerToken::new("abc".to_string(), 5 * NANOS_PER_SECOND);
    assert!(!t.is_expired(5 * NANOS_PER_SECOND));
    assert!(t.is_expired(5 * NANOS_PER_SECOND + 1));
}

#[test]
fn urls_and_status_outcomes() {
    assert_eq!(
        request_url(&"https://api.example.com/v1".to_string(), &"chat/completions".to_string()),
        "https://api.example.com/v1/chat/completions"
    );
    assert_eq!(open_ai_status_outcome(200), StatusOutcome::ParseBody);
    assert_eq!(
        open_ai_status_outcome(429),
        StatusOutcome::Fail(NetworkErrorType::TokenQuotaReached)
    );
    assert_eq!(open_ai_status_outcome(401), StatusOutcome::Unexpected);
    assert_eq!(igdb_status_outcome(200), StatusOutcome::ParseBody);
    assert_eq!(igdb_status_outcome(401), StatusOutcome::Fail(NetworkErrorType::Unauthorized));
    assert_eq!(igdb_status_outcome(429), StatusOutcome::Unexpected);
    assert_eq!(generator_status_outcome(200), StatusOutcome::ParseBody);
    assert_eq!(generator_status_outcome(500), StatusOutcome::Unexpected);
}

#[test]
fn token_request_query() {
    let p = token_request_params("id".to_string(), "secret".to_string());
    assert_eq!(
        p,
        vec![
            ("client_id".to_string(), "id".to_string()),
            ("client_secret".to_string(), "secret".to_string()),
            ("grant_type".to_string(), "client_credentials".to_string()),
        ]
    );
}

#[test]
fn expired_token_stays_expired() {
    let t = BearerToken::new("abc".to_string(), -5);
    for now in [-4i128, 0, 1, i128::MAX] {
        assert!(t.is_expired(now));
    }
}
