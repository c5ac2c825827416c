//! The failures that handlers report, each with the text shown to a user.

use vstd::prelude::*;
use vstd::string::StringExecFns;

verus! {

/// Why an authentication request failed.
#[derive(Debug, Clone, Copy, PartialEq, Eq, Structural)]
pub enum AuthError {
    /// The user name and password do not match.
    InvalidCredentials,
    /// The token is known but its session has reached its expiry.
    Expired,
    /// No session is held under the token.
    NotFound,
    /// There is no session to close under the token: it was never opened,
    /// or it is gone already.
    NoSession,
}

impl AuthError {
    /// The text of the failure.
    pub open spec fn text(self) -> Seq<char> {
        match self {
            AuthError::InvalidCredentials => "Invalid username or password"@,
            AuthError::Expired => "Token expired"@,
            AuthError::NotFound => "Invalid token"@,
            AuthError::NoSession => "Invalid or expired token"@,
        }
    }

    /// The text of the failure, as a string.
    pub fn message(&self) -> (s: String)
        ensures
            s@ == self.text(),
    {
        match self {
            AuthError::InvalidCredentials => String::from_str("Invalid username or password"),
            AuthError::Expired => String::from_str("Token expired"),
            AuthError::NotFound => String::from_str("Invalid token"),
            AuthError::NoSession => String::from_str("Invalid or expired token"),
        }
    }
}

/// Why the key-value store could not serve a request.
#[derive(Debug)]
pub enum StorageError {
    /// Nothing is stored under the key, which the variant carries.
    KeyNotFound(String),
    /// No backend is attached.
    Unavailable,
}

impl StorageError {
    /// The text of the failure.
    pub open spec fn text(self) -> Seq<char> {
        match self {
            StorageError::KeyNotFound(key) => "Key not found: "@ + key@,
            StorageError::Unavailable => "Storage implementation not available"@,
        }
    }

    /// The text of the failure, as a string.
    pub fn message(&self) -> (s: String)
        ensures
            s@ == self.text(),
    {
        match self {
            StorageError::KeyNotFound(key) => {
                let mut s = String::from_str("Key not found: ");
                s.append(key.as_str());
                s
            },
            StorageError::Unavailable => String::from_str("Storage implementation not available"),
        }
    }
}

/// Why the network manager turned a request away before any transport
/// attempt, or could not prepare one.
#[derive(Debug)]
pub enum NetworkError {
    /// The domain, which the variant carries, already has as many requests
    /// in flight as the ceiling allows.
    TooManyConnections(String),
    /// The HTTP client could not be built; the variant carries the cause.
    ClientBuild(String),
}

impl NetworkError {
    /// The text of the failure.
    pub open spec fn text(self) -> Seq<char> {
        match self {
            NetworkError::TooManyConnections(domain) => "Too many connections to domain: "@
                + domain@,
            NetworkError::ClientBuild(cause) => "Network error: Failed to build HTTP client: "@
                + cause@,
        }
    }

    /// The text of the failure, as a string.
    pub fn message(&self) -> (s: String)
        ensures
            s@ == self.text(),
    {
        match self {
            NetworkError::TooManyConnections(domain) => {
                let mut s = String::from_str("Too many connections to domain: ");
                s.append(domain.as_str());
                s
            },
            NetworkError::ClientBuild(cause) => {
                let mut s = String::from_str("Network error: Failed to build HTTP client: ");
                s.append(cause.as_str());
                s
            },
        }
    }
}

/// Why a user-facing request failed.
#[derive(Debug)]
pub enum UserError {
    /// Neither the cache nor the store holds the key.
    NotFound,
    /// The cache holds nothing under the key.
    CacheMiss,
    /// The cache held the key, but the entry had expired and was removed.
    CacheExpired,
    /// The store failed.
    Storage(StorageError),
    /// Authentication failed.
    Auth(AuthError),
    /// The actor that was asked has gone.
    Disconnected,
    /// The clock reads too early for the time span that was asked for.
    TimeRange,
}

impl UserError {
    /// The text of the failure.
    pub open spec fn text(self) -> Seq<char> {
        match self {
            UserError::NotFound => "Data not found"@,
            UserError::CacheMiss => "Cache miss"@,
            UserError::CacheExpired => "Cache entry expired"@,
            UserError::Storage(e) => e.text(),
            UserError::Auth(e) => e.text(),
            UserError::Disconnected => "Actor disconnected"@,
            UserError::TimeRange => "Time out of range"@,
        }
    }

    /// The text of the failure, as a string.
    pub fn message(&self) -> (s: String)
        ensures
            s@ == self.text(),
    {
        match self {
            UserError::NotFound => String::from_str("Data not found"),
            UserError::CacheMiss => String::from_str("Cache miss"),
            UserError::CacheExpired => String::from_str("Cache entry expired"),
            UserError::Storage(e) => e.message(),
            UserError::Auth(e) => e.message(),
            UserError::Disconnected => String::from_str("Actor disconnected"),
            UserError::TimeRange => String::from_str("Time out of range"),
        }
    }
}

} // verus!
