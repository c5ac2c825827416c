use hub::errors::{AuthError, UserError};
use hub::messages::{
    ActorAddress, AuthResult, GetProfile, Login, UpdateProfile, UpdateProfileCache, UserEvent,
    UserPreferences, UserProfile,
};
use hub::signals::{GetUserProfileRequest, UpdatePreferencesRequest};
use hub::user::{profile_response, UserManagerActor, UserProfileActor, UserSignal};

fn get(user: &str) -> GetProfile {
    GetProfile { user_id: user.to_string() }
}

fn custom(user: &str) -> UserProfile {
    UserProfile {
        user_id: user.to_string(),
        name: "Ada".to_string(),
        email: "ada@example.org".to_string(),
        avatar_url: Some("https://img/ada.png".to_string()),
        preferences: UserPreferences {
            theme: "dark".to_string(),
            notifications_enabled: false,
            language: "de".to_string(),
        },
    }
}

fn assert_default(p: &UserProfile, user: &str) {
    assert_eq!(p.user_id, user);
    assert_eq!(p.name, format!("User {}", user));
    assert_eq!(p.email, format!("user{}@example.com", user));
    assert_eq!(p.avatar_url, None);
    assert_eq!(p.preferences.theme, "light");
    assert!(p.preferences.notifications_enabled);
    assert_eq!(p.preferences.language, "en");
}

#[test]
fn default_profile_is_made_up_from_the_user_id() {
    let actor = UserProfileActor::new("user_1".to_string());
    let p = actor.create_default_profile();
    assert_eq!(p.user_id, "user_1");
    assert_eq!(p.name, "User user_1");
    assert_eq!(p.email, "useruser_1@example.com");
    assert_eq!(p.avatar_url, None);
    assert_eq!(p.preferences.theme, "light");
    assert!(p.preferences.notifications_enabled);
    assert_eq!(p.preferences.language, "en");
}

#[test]
fn profile_actor_holds_the_default_after_the_first_request() {
    let mut actor = UserProfileActor::new("u7".to_string());
    let first = actor.get_profile(&get("u7")).unwrap();
    assert_default(&first, "u7");
    let second = actor.get_profile(&get("u7")).unwrap();
    assert_default(&second, "u7");
}

#[test]
fn profile_actor_holds_what_it_is_given() {
    let mut actor = UserProfileActor::new("u".to_string());
    assert!(actor
        .update_profile(UpdateProfile { user_id: "u".to_string(), profile: custom("u") })
        .is_ok());
    let p = actor.get_profile(&get("u")).unwrap();
    assert_eq!(p.name, "Ada");
    assert_eq!(p.avatar_url.as_deref(), Some("https://img/ada.png"));
    let mut other = custom("u");
    other.name = "Grace".to_string();
    actor.update_profile_cache(UpdateProfileCache(other));
    assert_eq!(actor.get_profile(&get("u")).unwrap().name, "Grace");
}

#[test]
fn manager_makes_a_profile_actor_on_first_access() {
    let mut users = UserManagerActor::new(ActorAddress { id: 2 });
    assert_eq!(users.auth_actor(), ActorAddress { id: 2 });
    assert!(!users.has_profile_actor(&"a".to_string()));
    users.get_or_create_profile_actor(&"a".to_string());
    assert!(users.has_profile_actor(&"a".to_string()));
    users.get_or_create_profile_actor(&"a".to_string());
    assert!(users.has_profile_actor(&"a".to_string()));
    assert!(!users.has_profile_actor(&"b".to_string()));
}

#[test]
fn manager_answers_with_the_default_profile_of_an_unknown_user() {
    let mut users = UserManagerActor::new(ActorAddress { id: 2 });
    let p = users.get_profile(&get("nobody")).unwrap();
    assert_default(&p, "nobody");
    assert!(users.has_profile_actor(&"nobody".to_string()));
}

#[test]
fn manager_replaces_a_profile_and_announces_it() {
    let mut users = UserManagerActor::new(ActorAddress { id: 2 });
    let (reply, signal) =
        users.update_profile(UpdateProfile { user_id: "u".to_string(), profile: custom("u") });
    assert!(reply.is_ok());
    let signal = signal.unwrap();
    assert_eq!(signal.user_id, "u");
    assert_eq!(signal.profile.name, "Ada");
    let p = users.get_profile(&get("u")).unwrap();
    assert_eq!(p.email, "ada@example.org");
    assert_eq!(p.preferences.language, "de");
}

#[test]
fn login_goes_to_the_auth_actor_unchanged() {
    let users = UserManagerActor::new(ActorAddress { id: 2 });
    let (to, msg) =
        users.forward_login(Login { username: "demo".to_string(), password: "pw".to_string() });
    assert_eq!(to, ActorAddress { id: 2 });
    assert_eq!(msg.username, "demo");
    assert_eq!(msg.password, "pw");
}

#[test]
fn a_successful_login_makes_the_profile_actor() {
    let mut users = UserManagerActor::new(ActorAddress { id: 2 });
    let reply = users.login_reply(Ok(AuthResult {
        user_id: "user_1".to_string(),
        token: "t".to_string(),
        expires_at: 1,
    }));
    let auth = reply.unwrap();
    assert_eq!(auth.user_id, "user_1");
    assert_eq!(auth.token, "t");
    assert_eq!(auth.expires_at, 1);
    assert!(users.has_profile_actor(&"user_1".to_string()));
}

#[test]
fn a_failed_login_is_passed_on_and_makes_nothing() {
    let mut users = UserManagerActor::new(ActorAddress { id: 2 });
    let reply = users.login_reply(Err(UserError::Auth(AuthError::InvalidCredentials)));
    assert!(matches!(reply, Err(UserError::Auth(AuthError::InvalidCredentials))));
    assert!(!users.has_profile_actor(&"user_1".to_string()));
}

#[test]
fn profile_updated_event_reaches_a_known_user_only() {
    let mut users = UserManagerActor::new(ActorAddress { id: 2 });
    users.get_or_create_profile_actor(&"known".to_string());
    let signal = users.notify(UserEvent::ProfileUpdated("known".to_string(), custom("known")));
    match signal {
        Some(UserSignal::ProfileUpdated(s)) => {
            assert_eq!(s.user_id, "known");
            assert_eq!(s.profile.name, "Ada");
        }
        other => panic!("unexpected signal {:?}", other),
    }
    assert_eq!(users.get_profile(&get("known")).unwrap().name, "Ada");

    let signal = users.notify(UserEvent::ProfileUpdated("new".to_string(), custom("new")));
    assert!(matches!(signal, Some(UserSignal::ProfileUpdated(_))));
    assert!(!users.has_profile_actor(&"new".to_string()));
}

#[test]
fn preferences_changed_event_is_announced() {
    let mut users = UserManagerActor::new(ActorAddress { id: 2 });
    let prefs = UserPreferences {
        theme: "dark".to_string(),
        notifications_enabled: false,
        language: "fr".to_string(),
    };
    match users.notify(UserEvent::PreferencesChanged("u".to_string(), prefs)) {
        Some(UserSignal::PreferencesUpdated(s)) => {
            assert_eq!(s.user_id, "u");
            assert_eq!(s.preferences.theme, "dark");
            assert!(!s.preferences.notifications_enabled);
            assert_eq!(s.preferences.language, "fr");
        }
        other => panic!("unexpected signal {:?}", other),
    }
}

#[test]
fn logged_out_event_removes_the_profile_actor() {
    let mut users = UserManagerActor::new(ActorAddress { id: 2 });
    users.get_or_create_profile_actor(&"u".to_string());
    assert!(users.notify(UserEvent::LoggedIn("u".to_string())).is_none());
    assert!(users.has_profile_actor(&"u".to_string()));
    assert!(users.notify(UserEvent::LoggedOut("u".to_string())).is_none());
    assert!(!users.has_profile_actor(&"u".to_string()));
}

#[test]
fn profile_request_is_answered_with_the_profile() {
    let mut users = UserManagerActor::new(ActorAddress { id: 2 });
    let response = users.get_user_profile(GetUserProfileRequest { user_id: "u".to_string() });
    assert_eq!(response.error, None);
    assert_default(&response.profile.unwrap(), "u");
}

#[test]
fn preferences_request_changes_only_what_it_names() {
    let mut users = UserManagerActor::new(ActorAddress { id: 2 });
    let signal = users
        .update_preferences(UpdatePreferencesRequest {
            user_id: "u".to_string(),
            theme: Some("dark".to_string()),
            notifications_enabled: None,
            language: None,
        })
        .unwrap();
    assert_eq!(signal.user_id, "u");
    assert_eq!(signal.profile.preferences.theme, "dark");
    assert!(signal.profile.preferences.notifications_enabled);
    assert_eq!(signal.profile.preferences.language, "en");
    assert_eq!(signal.profile.name, "User u");

    let signal = users
        .update_preferences(UpdatePreferencesRequest {
            user_id: "u".to_string(),
            theme: None,
            notifications_enabled: Some(false),
            language: Some("ko".to_string()),
        })
        .unwrap();
    assert_eq!(signal.profile.preferences.theme, "dark");
    assert!(!signal.profile.preferences.notifications_enabled);
    assert_eq!(signal.profile.preferences.language, "ko");
    let held = users.get_profile(&get("u")).unwrap();
    assert_eq!(held.preferences.theme, "dark");
    assert_eq!(held.preferences.language, "ko");
}

#[test]
fn a_profile_response_reports_the_profile_or_the_failure() {
    let ok = profile_response(Ok(custom("u")));
    assert_eq!(ok.error, None);
    assert_eq!(ok.profile.unwrap().name, "Ada");
    let lost = profile_response(Err(UserError::Disconnected));
    assert!(lost.profile.is_none());
    assert_eq!(lost.error.as_deref(), Some("Actor disconnected"));
}
