use hub::auth::{token_at, AuthActor, SESSION_TTL_SECS, SWEEP_INTERVAL_SECS};
use hub::errors::AuthError;
use hub::messages::{Login, Logout, VerifyToken};
use hub::signals::{LoginRequest, LogoutRequest};

fn login(username: &str, password: &str) -> Login {
    Login { username: username.to_string(), password: password.to_string() }
}

fn verify(token: &str) -> VerifyToken {
    VerifyToken { token: token.to_string() }
}

#[test]
fn login_with_demo_credentials_opens_a_session() {
    let mut auth = AuthActor::new();
    let now = 1_700_000_000;
    let (reply, signal) = auth.login_at(&login("demo", "password"), now);
    let result = reply.expect("the demo user logs in");
    assert_eq!(result.user_id, "user_1");
    assert_eq!(result.token, "token_user_1_1700000000");
    assert_eq!(result.expires_at, now + 3600);
    assert_eq!(auth.session_count(), 1);
    let signal = signal.expect("a login is announced");
    assert!(signal.is_authenticated);
    assert_eq!(signal.user_id.as_deref(), Some("user_1"));
}

#[test]
fn login_with_wrong_password_creates_no_session() {
    let mut auth = AuthActor::new();
    let (reply, signal) = auth.login_at(&login("demo", "wrong"), 1_700_000_000);
    assert_eq!(reply.err(), Some(AuthError::InvalidCredentials));
    assert!(signal.is_none());
    assert_eq!(auth.session_count(), 0);
}

#[test]
fn login_with_unknown_user_is_refused() {
    let mut auth = AuthActor::new();
    let (reply, _) = auth.login_at(&login("admin", "password"), 5);
    assert_eq!(reply.err(), Some(AuthError::InvalidCredentials));
    let (reply, _) = auth.login_at(&login("", ""), 5);
    assert_eq!(reply.err(), Some(AuthError::InvalidCredentials));
}

#[test]
fn session_ttl_is_one_hour_and_sweep_runs_every_minute() {
    assert_eq!(SESSION_TTL_SECS, 3600);
    assert_eq!(SWEEP_INTERVAL_SECS, 60);
}

#[test]
fn verify_succeeds_only_before_the_expiry() {
    let mut auth = AuthActor::new();
    let (reply, _) = auth.login_at(&login("demo", "password"), 100);
    let token = reply.unwrap().token;
    assert_eq!(auth.verify_at(&verify(&token), 100).ok().as_deref(), Some("user_1"));
    assert_eq!(auth.verify_at(&verify(&token), 3699).ok().as_deref(), Some("user_1"));
    assert_eq!(auth.verify_at(&verify(&token), 3700).err(), Some(AuthError::Expired));
    assert_eq!(auth.verify_at(&verify(&token), 9999).err(), Some(AuthError::Expired));
}

#[test]
fn verify_of_an_unknown_token_is_not_found() {
    let auth = AuthActor::new();
    assert_eq!(auth.verify_at(&verify("token_user_1_1"), 0).err(), Some(AuthError::NotFound));
}

#[test]
fn sweep_evicts_expired_sessions_and_announces_each() {
    let mut auth = AuthActor::new();
    let (first, _) = auth.login_at(&login("demo", "password"), 10);
    let (second, _) = auth.login_at(&login("demo", "password"), 20);
    let (third, _) = auth.login_at(&login("demo", "password"), 5000);
    let first = first.unwrap().token;
    let second = second.unwrap().token;
    let third = third.unwrap().token;
    assert_eq!(auth.session_count(), 3);

    let signals = auth.check_expired_tokens_at(3625);
    assert_eq!(signals.len(), 2);
    for signal in &signals {
        assert!(!signal.is_authenticated);
        assert_eq!(signal.user_id.as_deref(), Some("user_1"));
    }
    assert_eq!(auth.session_count(), 1);
    assert_eq!(auth.verify_at(&verify(&first), 3625).err(), Some(AuthError::NotFound));
    assert_eq!(auth.verify_at(&verify(&second), 3625).err(), Some(AuthError::NotFound));
    assert_eq!(auth.verify_at(&verify(&third), 5001).ok().as_deref(), Some("user_1"));
}

#[test]
fn sweep_at_the_expiry_keeps_the_session_and_the_next_sweep_removes_it() {
    let mut auth = AuthActor::new();
    let (reply, _) = auth.login_at(&login("demo", "password"), 0);
    let token = reply.unwrap().token;
    let expiry = 3600;

    assert!(auth.check_expired_tokens_at(expiry).is_empty());
    assert_eq!(auth.session_count(), 1);
    assert_eq!(auth.verify_at(&verify(&token), expiry).err(), Some(AuthError::Expired));

    let signals = auth.check_expired_tokens_at(expiry + SWEEP_INTERVAL_SECS);
    assert_eq!(signals.len(), 1);
    assert_eq!(auth.session_count(), 0);
    assert_eq!(
        auth.verify_at(&verify(&token), expiry + SWEEP_INTERVAL_SECS).err(),
        Some(AuthError::NotFound)
    );
}

#[test]
fn sweep_of_an_empty_table_emits_nothing() {
    let mut auth = AuthActor::new();
    assert!(auth.check_expired_tokens_at(u64::MAX).is_empty());
    assert_eq!(auth.session_count(), 0);
}

#[test]
fn two_logins_in_one_second_share_one_session() {
    let mut auth = AuthActor::new();
    let (a, _) = auth.login_at(&login("demo", "password"), 42);
    let (b, _) = auth.login_at(&login("demo", "password"), 42);
    assert_eq!(a.unwrap().token, b.unwrap().token);
    assert_eq!(auth.session_count(), 1);
}

#[test]
fn logout_closes_the_session_and_announces_it() {
    let mut auth = AuthActor::new();
    let (reply, _) = auth.login_at(&login("demo", "password"), 7);
    let token = reply.unwrap().token;
    let (reply, signal) = auth.logout(&Logout { user_id: "user_1".to_string(), token: token.clone() });
    assert_eq!(reply, Ok(()));
    let signal = signal.unwrap();
    assert!(!signal.is_authenticated);
    assert_eq!(signal.user_id.as_deref(), Some("user_1"));
    assert_eq!(auth.session_count(), 0);
    assert_eq!(auth.verify_at(&verify(&token), 8).err(), Some(AuthError::NotFound));
}

#[test]
fn logout_of_an_unknown_token_fails() {
    let mut auth = AuthActor::new();
    let (_, _) = auth.login_at(&login("demo", "password"), 7);
    let (reply, signal) = auth.logout(&Logout { user_id: "user_1".to_string(), token: "nope".to_string() });
    assert_eq!(reply, Err(AuthError::NoSession));
    assert_eq!(reply.unwrap_err().message(), "Invalid or expired token");
    assert!(signal.is_none());
    assert_eq!(auth.session_count(), 1);
}

#[test]
fn login_request_reports_success() {
    let mut auth = AuthActor::new();
    let request = LoginRequest { username: "demo".to_string(), password: "password".to_string() };
    let (response, signal) = auth.login_request_at(request, 1234);
    assert!(response.success);
    assert_eq!(response.user_id.as_deref(), Some("user_1"));
    assert_eq!(response.token.as_deref(), Some("token_user_1_1234"));
    assert_eq!(response.error, None);
    assert!(signal.unwrap().is_authenticated);
}

#[test]
fn login_request_reports_failure_with_its_text() {
    let mut auth = AuthActor::new();
    let request = LoginRequest { username: "demo".to_string(), password: "wrong".to_string() };
    let (response, signal) = auth.login_request_at(request, 1234);
    assert!(!response.success);
    assert_eq!(response.user_id, None);
    assert_eq!(response.token, None);
    assert_eq!(response.error.as_deref(), Some("Invalid username or password"));
    assert!(signal.is_none());
    assert_eq!(auth.session_count(), 0);
}

#[test]
fn logout_request_closes_the_first_session_of_the_user() {
    let mut auth = AuthActor::new();
    let (a, _) = auth.login_at(&login("demo", "password"), 1);
    let (b, _) = auth.login_at(&login("demo", "password"), 2);
    let a = a.unwrap().token;
    let b = b.unwrap().token;
    let (response, signal) = auth.logout_request(LogoutRequest { user_id: "user_1".to_string() });
    assert!(response.success);
    assert_eq!(signal.unwrap().user_id.as_deref(), Some("user_1"));
    assert_eq!(auth.verify_at(&verify(&a), 3).err(), Some(AuthError::NotFound));
    assert_eq!(auth.verify_at(&verify(&b), 3).ok().as_deref(), Some("user_1"));
}

#[test]
fn logout_request_of_a_user_without_session_fails() {
    let mut auth = AuthActor::new();
    let (_, _) = auth.login_at(&login("demo", "password"), 1);
    let (response, signal) = auth.logout_request(LogoutRequest { user_id: "user_2".to_string() });
    assert!(!response.success);
    assert!(signal.is_none());
    assert_eq!(auth.session_count(), 1);
}

#[test]
fn token_text_holds_user_and_time() {
    assert_eq!(token_at("user_1", 0), "token_user_1_0");
    assert_eq!(token_at("alice", 18446744073709551615), "token_alice_18446744073709551615");
}

#[test]
fn auth_error_texts() {
    assert_eq!(AuthError::InvalidCredentials.message(), "Invalid username or password");
    assert_eq!(AuthError::Expired.message(), "Token expired");
    assert_eq!(AuthError::NotFound.message(), "Invalid token");
    assert_eq!(AuthError::NoSession.message(), "Invalid or expired token");
}


#[test]
fn the_clock_shows_a_time_after_the_year_2020() {
    let auth = AuthActor::new();
    let now = auth.get_current_timestamp();
    assert!(now > 1_577_836_800);
    assert!(now <= i64::MAX as u64);
}

#[test]
fn login_by_the_clock_expires_an_hour_after_the_reading() {
    let mut auth = AuthActor::new();
    let before = auth.get_current_timestamp();
    let (reply, _) = auth.login(&login("demo", "password"));
    let after = auth.get_current_timestamp();
    let result = reply.unwrap();
    assert!(before + 3600 <= result.expires_at && result.expires_at <= after + 3600);
    let stamp = result.expires_at - 3600;
    assert_eq!(result.token, format!("token_user_1_{}", stamp));
    assert_eq!(auth.verify(&verify(&result.token)).ok().as_deref(), Some("user_1"));
    assert!(auth.check_expired_tokens().is_empty());
    assert!(auth.generate_token("u").starts_with("token_u_"));
}

#[test]
fn login_request_by_the_clock_succeeds_for_the_demo_user() {
    let mut auth = AuthActor::new();
    let request = LoginRequest { username: "demo".to_string(), password: "password".to_string() };
    let (response, _) = auth.login_request(request);
    assert!(response.success);
    assert_eq!(auth.session_count(), 1);
}
