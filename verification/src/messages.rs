//! The messages that actors exchange.

use vstd::prelude::*;

verus! {

/// The identifier of a user.
pub type UserId = String;

/// A handle to one actor's mailbox. Whoever holds it can send that actor
/// messages; it gives no access to the actor's state. Two handles name the
/// same mailbox exactly when their `id`s are equal.
#[derive(Debug, Clone, Copy, PartialEq, Eq, Structural)]
pub struct ActorAddress {
    pub id: u64,
}

/// Asks the authentication actor to open a session.
#[derive(Debug, Clone)]
pub struct Login {
    pub username: String,
    pub password: String,
}

/// Asks the authentication actor to close the session held under `token`.
#[derive(Debug, Clone)]
pub struct Logout {
    pub user_id: UserId,
    pub token: String,
}

/// Asks the authentication actor whose session `token` is.
#[derive(Debug, Clone)]
pub struct VerifyToken {
    pub token: String,
}

/// Asks the supervisor to log a user in and to load what a session shows.
#[derive(Debug, Clone)]
pub struct ProcessLogin {
    pub username: String,
    pub password: String,
}

/// A session that was opened.
#[derive(Debug, Clone)]
pub struct AuthResult {
    pub user_id: UserId,
    pub token: String,
    pub expires_at: u64,
}

/// Asks for the bytes stored under `key`.
#[derive(Debug, Clone)]
pub struct FetchData {
    pub key: String,
    pub user_id: Option<UserId>,
}

/// Asks to store `data` under `key`, cached for `ttl` seconds (for good
/// where `ttl` is `None`).
#[derive(Debug, Clone)]
pub struct StoreData {
    pub key: String,
    pub data: Vec<u8>,
    pub user_id: Option<UserId>,
    pub ttl: Option<u64>,
}

/// Asks the cache to hold `data` under `key` for `ttl` seconds (for good
/// where `ttl` is `None`).
#[derive(Debug, Clone)]
pub struct CacheData {
    pub key: String,
    pub data: Vec<u8>,
    pub ttl: Option<u64>,
}

/// Asks for a user's most recent items, at most `limit` of them.
#[derive(Debug, Clone)]
pub struct FetchRecentData {
    pub user_id: UserId,
    pub limit: Option<usize>,
}

/// A user's items.
#[derive(Debug, Clone)]
pub struct UserData {
    pub user_id: UserId,
    pub items: Vec<DataItem>,
    pub last_updated: u64,
}

/// One item of user data.
#[derive(Debug, Clone)]
pub struct DataItem {
    pub id: String,
    pub title: String,
    pub content: String,
    pub created_at: u64,
    pub updated_at: u64,
}

/// Tells the data manager the address of the network manager to use from
/// now on.
#[derive(Debug, Clone)]
pub struct UpdateNetworkDependency(pub ActorAddress);

/// What is known of a user.
#[derive(Debug, Clone)]
pub struct UserProfile {
    pub user_id: UserId,
    pub name: String,
    pub email: String,
    pub avatar_url: Option<String>,
    pub preferences: UserPreferences,
}

/// How a user wants the application to behave.
#[derive(Debug, Clone)]
pub struct UserPreferences {
    pub theme: String,
    pub notifications_enabled: bool,
    pub language: String,
}

/// Asks for a user's profile.
#[derive(Debug, Clone)]
pub struct GetProfile {
    pub user_id: UserId,
}

/// Asks to replace a user's profile.
#[derive(Debug, Clone)]
pub struct UpdateProfile {
    pub user_id: UserId,
    pub profile: UserProfile,
}

/// Something that happened to a user.
#[derive(Debug, Clone)]
pub enum UserEvent {
    ProfileUpdated(UserId, UserProfile),
    PreferencesChanged(UserId, UserPreferences),
    LoggedIn(UserId),
    LoggedOut(UserId),
}

/// Tells a profile actor the profile to hold from now on.
#[derive(Debug, Clone)]
pub struct UpdateProfileCache(pub UserProfile);

impl UserPreferences {
    /// A copy with the same fields.
    pub fn duplicate(&self) -> (copy: Self)
        ensures
            copy == *self,
    {
        UserPreferences {
            theme: self.theme.clone(),
            notifications_enabled: self.notifications_enabled,
            language: self.language.clone(),
        }
    }
}

impl UserProfile {
    /// A copy with the same fields.
    pub fn duplicate(&self) -> (copy: Self)
        ensures
            copy == *self,
    {
        let avatar_url = match &self.avatar_url {
            Some(url) => Some(url.clone()),
            None => None,
        };
        UserProfile {
            user_id: self.user_id.clone(),
            name: self.name.clone(),
            email: self.email.clone(),
            avatar_url,
            preferences: self.preferences.duplicate(),
        }
    }
}

} // verus!
