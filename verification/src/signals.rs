//! The signals that cross the boundary to the user interface: requests that
//! come in, and responses and events that go out.

use vstd::prelude::*;
use crate::messages::{DataItem, UserId, UserPreferences, UserProfile};

verus! {

/// Request: initialise the application.
#[derive(Debug)]
pub struct InitializeAppRequest {
    pub reset_state: bool,
}

/// Event: the application is initialised.
#[derive(Debug)]
pub struct AppInitializedSignal {
    pub success: bool,
    pub version: String,
    pub initialized_at: u64,
}

/// Request: some state of the user interface changed.
#[derive(Debug)]
pub struct StateChangedSignal {
    pub state_type: String,
    pub state_json: String,
}

/// Request: build the actor tree.
#[derive(Debug)]
pub struct CreateActorsRequest {
    pub initialize_all: bool,
}

/// Event: the actor tree stands.
#[derive(Debug)]
pub struct ActorsCreatedSignal {
    pub actor_count: usize,
    pub initialized_actors: Vec<String>,
}

/// Request: log in.
#[derive(Debug)]
pub struct LoginRequest {
    pub username: String,
    pub password: String,
}

/// Response to a login.
#[derive(Debug)]
pub struct LoginResponse {
    pub success: bool,
    pub user_id: Option<UserId>,
    pub token: Option<String>,
    pub error: Option<String>,
}

/// Request: log a user out.
#[derive(Debug)]
pub struct LogoutRequest {
    pub user_id: UserId,
}

/// Response to a logout.
#[derive(Debug)]
pub struct LogoutResponse {
    pub success: bool,
}

/// Event: a user's authentication state changed.
#[derive(Debug)]
pub struct AuthStateChanged {
    pub is_authenticated: bool,
    pub user_id: Option<UserId>,
}

/// Request: a user's recent items.
#[derive(Debug)]
pub struct FetchUserDataRequest {
    pub user_id: UserId,
    pub limit: Option<usize>,
}

/// Response with a user's items, or with the reason why there are none.
#[derive(Debug)]
pub struct UserDataResponse {
    pub user_id: UserId,
    pub items: Vec<DataItem>,
    pub last_updated: u64,
    pub error: Option<String>,
}

/// Request: create an item.
#[derive(Debug)]
pub struct CreateDataItemRequest {
    pub user_id: UserId,
    pub title: String,
    pub content: String,
}

/// Event: an item was created.
#[derive(Debug)]
pub struct DataItemCreatedSignal {
    pub user_id: UserId,
    pub item: DataItem,
}

/// Request: change an item's title or content.
#[derive(Debug)]
pub struct UpdateDataItemRequest {
    pub user_id: UserId,
    pub item_id: String,
    pub title: Option<String>,
    pub content: Option<String>,
}

/// Event: an item was changed.
#[derive(Debug)]
pub struct DataItemUpdatedSignal {
    pub user_id: UserId,
    pub item: DataItem,
}

/// Request: delete an item.
#[derive(Debug)]
pub struct DeleteDataItemRequest {
    pub user_id: UserId,
    pub item_id: String,
}

/// Event: an item was deleted.
#[derive(Debug)]
pub struct DataItemDeletedSignal {
    pub user_id: UserId,
    pub item_id: String,
}

/// Request: a user's profile.
#[derive(Debug)]
pub struct GetUserProfileRequest {
    pub user_id: UserId,
}

/// Response with a profile, or with the reason why there is none.
#[derive(Debug)]
pub struct UserProfileResponse {
    pub profile: Option<UserProfile>,
    pub error: Option<String>,
}

/// Request: change parts of a user's profile.
#[derive(Debug)]
pub struct UpdateUserProfileRequest {
    pub user_id: UserId,
    pub name: Option<String>,
    pub email: Option<String>,
    pub avatar_url: Option<String>,
}

/// Event: a profile was replaced.
#[derive(Debug)]
pub struct ProfileUpdatedSignal {
    pub user_id: UserId,
    pub profile: UserProfile,
}

/// Request: change some of a user's preferences.
#[derive(Debug)]
pub struct UpdatePreferencesRequest {
    pub user_id: UserId,
    pub theme: Option<String>,
    pub notifications_enabled: Option<bool>,
    pub language: Option<String>,
}

/// Event: a user's preferences changed.
#[derive(Debug)]
pub struct PreferencesUpdatedSignal {
    pub user_id: UserId,
    pub preferences: UserPreferences,
}

} // verus!
