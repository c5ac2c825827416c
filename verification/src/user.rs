//! The user manager and the profile actors it owns, one per user.
//!
//! A profile actor is made when its user is first seen, and makes up a
//! default profile when it is first asked for one.

use vstd::hash_map::StringHashMap;
use vstd::prelude::*;
use vstd::string::StringExecFns;
use crate::errors::UserError;
use crate::messages::{
    ActorAddress,
    AuthResult,
    GetProfile,
    Login,
    UpdateProfile,
    UpdateProfileCache,
    UserEvent,
    UserId,
    UserPreferences,
    UserProfile,
};
use crate::signals::{
    GetUserProfileRequest,
    PreferencesUpdatedSignal,
    ProfileUpdatedSignal,
    UpdatePreferencesRequest,
    UserProfileResponse,
};

verus! {

/// The profile made up for user `user_id` who has none yet.
pub open spec fn is_default_profile(p: UserProfile, user_id: Seq<char>) -> bool {
    &&& p.user_id@ == user_id
    &&& p.name@ == "User "@ + user_id
    &&& p.email@ == "user"@ + user_id + "@example.com"@
    &&& p.avatar_url is None
    &&& p.preferences.theme@ == "light"@
    &&& p.preferences.notifications_enabled
    &&& p.preferences.language@ == "en"@
}

/// The actor that holds one user's profile.
#[derive(Debug)]
pub struct UserProfileActor {
    user_id: UserId,
    profile: Option<UserProfile>,
}

impl UserProfileActor {
    /// The user whose profile this is.
    pub closed spec fn owner(&self) -> Seq<char> {
        self.user_id@
    }

    /// The profile held, if any.
    pub closed spec fn held(&self) -> Option<UserProfile> {
        self.profile
    }

    /// An actor for `user_id` that holds no profile yet.
    pub fn new(user_id: UserId) -> (actor: Self)
        ensures
            actor.owner() == user_id@,
            actor.held() is None,
    {
        Self { user_id, profile: None }
    }

    /// A copy that belongs to the same user and holds the same profile.
    pub fn duplicate(&self) -> (copy: Self)
        ensures
            copy == *self,
    {
        let profile = match &self.profile {
            Some(p) => Some(p.duplicate()),
            None => None,
        };
        Self { user_id: self.user_id.clone(), profile }
    }

    /// The profile made up for a user who has none.
    pub fn create_default_profile(&self) -> (p: UserProfile)
        ensures
            is_default_profile(p, self.owner()),
    {
        let mut name = String::from_str("User ");
        name.append(self.user_id.as_str());
        let mut email = String::from_str("user");
        email.append(self.user_id.as_str());
        email.append("@example.com");
        UserProfile {
            user_id: self.user_id.clone(),
            name,
            email,
            avatar_url: None,
            preferences: UserPreferences {
                theme: String::from_str("light"),
                notifications_enabled: true,
                language: String::from_str("en"),
            },
        }
    }

    /// Answers with the profile held; where none is held yet, the default
    /// profile is made up, held from now on, and answered.
    pub fn get_profile(&mut self, msg: &GetProfile) -> (r: Result<UserProfile, UserError>)
        ensures
            r is Ok,
            final(self).owner() == old(self).owner(),
            final(self).held() == Some(r->Ok_0),
            match old(self).held() {
                Some(p) => r->Ok_0 == p,
                None => is_default_profile(r->Ok_0, old(self).owner()),
            },
    {
        let held = match &self.profile {
            Some(p) => Some(p.duplicate()),
            None => None,
        };
        match held {
            Some(p) => Ok(p),
            None => {
                let p = self.create_default_profile();
                let copy = p.duplicate();
                self.profile = Some(p);
                Ok(copy)
            },
        }
    }

    /// Holds `msg.profile` from now on.
    pub fn update_profile(&mut self, msg: UpdateProfile) -> (r: Result<(), UserError>)
        ensures
            r is Ok,
            final(self).owner() == old(self).owner(),
            final(self).held() == Some(msg.profile),
    {
        self.profile = Some(msg.profile);
        Ok(())
    }

    /// Holds the profile of `msg` from now on.
    pub fn update_profile_cache(&mut self, msg: UpdateProfileCache)
        ensures
            final(self).owner() == old(self).owner(),
            final(self).held() == Some(msg.0),
    {
        self.profile = Some(msg.0);
    }
}

/// A signal that the user manager sends to the user interface.
#[derive(Debug)]
pub enum UserSignal {
    ProfileUpdated(ProfileUpdatedSignal),
    PreferencesUpdated(PreferencesUpdatedSignal),
}

/// The profile held for `user`, if the user has an actor and the actor holds
/// one.
pub open spec fn held_profile(profiles: Map<Seq<char>, Option<UserProfile>>, user: Seq<char>)
    -> Option<UserProfile> {
    if profiles.contains_key(user) {
        profiles[user]
    } else {
        None
    }
}

/// The profiles after user `user` was seen: a user not known before has an
/// actor that holds no profile yet.
pub open spec fn with_user(profiles: Map<Seq<char>, Option<UserProfile>>, user: Seq<char>) -> Map<
    Seq<char>,
    Option<UserProfile>,
> {
    if profiles.contains_key(user) {
        profiles
    } else {
        profiles.insert(user, None)
    }
}

/// The preferences `p` with each part that a request names put in place of
/// the old one.
pub open spec fn preferences_with(
    p: UserPreferences,
    theme: Option<String>,
    notifications_enabled: Option<bool>,
    language: Option<String>,
) -> UserPreferences {
    UserPreferences {
        theme: match theme {
            Some(t) => t,
            None => p.theme,
        },
        notifications_enabled: match notifications_enabled {
            Some(n) => n,
            None => p.notifications_enabled,
        },
        language: match language {
            Some(l) => l,
            None => p.language,
        },
    }
}

/// The profile `p` is what a request to change preferences makes of the
/// profile held for its user (of the default profile where none is held):
/// each part of the preferences that the request names is put in place of
/// the old one, and nothing else changes.
pub open spec fn preferences_update_post(
    held: Option<UserProfile>,
    msg: UpdatePreferencesRequest,
    p: UserProfile,
) -> bool {
    match held {
        Some(base) => p == (UserProfile {
            preferences: preferences_with(
                base.preferences,
                msg.theme,
                msg.notifications_enabled,
                msg.language,
            ),
            ..base
        }),
        None => {
            &&& p.user_id@ == msg.user_id@
            &&& p.name@ == "User "@ + msg.user_id@
            &&& p.email@ == "user"@ + msg.user_id@ + "@example.com"@
            &&& p.avatar_url is None
            &&& p.preferences.theme@ == match msg.theme {
                Some(t) => t@,
                None => "light"@,
            }
            &&& p.preferences.notifications_enabled == match msg.notifications_enabled {
                Some(n) => n,
                None => true,
            }
            &&& p.preferences.language@ == match msg.language {
                Some(l) => l@,
                None => "en"@,
            }
        },
    }
}

/// The response that reports the answer to a request for a profile: the
/// profile, or the text of the failure.
pub open spec fn reports_profile(reply: Result<UserProfile, UserError>, r: UserProfileResponse)
    -> bool {
    match reply {
        Ok(profile) => r.profile == Some(profile) && r.error is None,
        Err(e) => r.profile is None && r.error is Some && r.error->0@ == e.text(),
    }
}

/// Reports the answer to a request for a profile.
pub fn profile_response(reply: Result<UserProfile, UserError>) -> (r: UserProfileResponse)
    ensures
        reports_profile(reply, r),
{
    match reply {
        Ok(profile) => UserProfileResponse { profile: Some(profile), error: None },
        Err(e) => UserProfileResponse { profile: None, error: Some(e.message()) },
    }
}

/// The user manager.
pub struct UserManagerActor {
    auth_actor: ActorAddress,
    profile_actors: StringHashMap<UserProfileActor>,
}

impl UserManagerActor {
    /// The address of the authentication actor in use.
    pub closed spec fn auth(&self) -> ActorAddress {
        self.auth_actor
    }

    /// The users that have a profile actor, each with the profile that its
    /// actor holds.
    pub closed spec fn profiles(&self) -> Map<Seq<char>, Option<UserProfile>> {
        self.profile_actors@.map_values(|a: UserProfileActor| a.held())
    }

    /// Every profile actor stands under the user it belongs to.
    pub closed spec fn wf(&self) -> bool {
        forall|k: Seq<char>| #[trigger]
            self.profile_actors@.contains_key(k) ==> self.profile_actors@[k].owner() == k
    }

    /// A user manager without profile actors that uses the authentication
    /// actor at `auth_actor`.
    pub fn new(auth_actor: ActorAddress) -> (actor: Self)
        ensures
            actor.wf(),
            actor.auth() == auth_actor,
            actor.profiles() == Map::<Seq<char>, Option<UserProfile>>::empty(),
    {
        let actor = Self { auth_actor, profile_actors: StringHashMap::new() };
        assert(actor.profiles() =~= Map::<Seq<char>, Option<UserProfile>>::empty());
        actor
    }

    /// The address of the authentication actor in use.
    pub fn auth_actor(&self) -> (a: ActorAddress)
        ensures
            a == self.auth(),
    {
        self.auth_actor
    }

    /// Whether `user_id` has a profile actor.
    pub fn has_profile_actor(&self, user_id: &UserId) -> (b: bool)
        ensures
            b == self.profiles().contains_key(user_id@),
    {
        self.profile_actors.contains_key(user_id.as_str())
    }

    /// Makes sure that `user_id` has a profile actor: a user not known
    /// before gets one that holds no profile yet.
    pub fn get_or_create_profile_actor(&mut self, user_id: &UserId)
        requires
            old(self).wf(),
        ensures
            final(self).wf(),
            final(self).auth() == old(self).auth(),
            final(self).profiles() == with_user(old(self).profiles(), user_id@),
    {
        let ghost before = self.profiles();
        if !self.profile_actors.contains_key(user_id.as_str()) {
            let actor = UserProfileActor::new(user_id.clone());
            self.profile_actors.insert(user_id.clone(), actor);
            assert(self.profiles() =~= before.insert(user_id@, None));
        }
    }

    /// Where a login goes: to the authentication actor, unchanged.
    pub fn forward_login(&self, msg: Login) -> (r: (ActorAddress, Login))
        ensures
            r.0 == self.auth(),
            r.1 == msg,
    {
        (self.auth_actor, msg)
    }

    /// Takes the authentication actor's answer to a login: a user who was
    /// logged in has a profile actor from now on; the answer is passed on.
    pub fn login_reply(&mut self, reply: Result<AuthResult, UserError>) -> (r: Result<
        AuthResult,
        UserError,
    >)
        requires
            old(self).wf(),
        ensures
            final(self).wf(),
            final(self).auth() == old(self).auth(),
            r == reply,
            final(self).profiles() == match reply {
                Ok(auth) => with_user(old(self).profiles(), auth.user_id@),
                Err(_) => old(self).profiles(),
            },
    {
        match reply {
            Ok(auth) => {
                self.get_or_create_profile_actor(&auth.user_id);
                Ok(auth)
            },
            Err(e) => Err(e),
        }
    }

    /// Answers with the profile of `msg.user_id`: the one held, or the
    /// default profile, which is held from now on.
    pub fn get_profile(&mut self, msg: &GetProfile) -> (r: Result<UserProfile, UserError>)
        requires
            old(self).wf(),
        ensures
            final(self).wf(),
            final(self).auth() == old(self).auth(),
            r is Ok,
            final(self).profiles() == old(self).profiles().insert(msg.user_id@, Some(r->Ok_0)),
            if held_profile(old(self).profiles(), msg.user_id@) is Some {
                r->Ok_0 == held_profile(old(self).profiles(), msg.user_id@)->0
            } else {
                is_default_profile(r->Ok_0, msg.user_id@)
            },
    {
        let ghost before = self.profiles();
        let mut actor = match self.profile_actors.get(msg.user_id.as_str()) {
            Some(a) => a.duplicate(),
            None => UserProfileActor::new(msg.user_id.clone()),
        };
        let r = actor.get_profile(msg);
        self.profile_actors.insert(msg.user_id.clone(), actor);
        assert(self.profiles() =~= before.insert(msg.user_id@, Some(r->Ok_0)));
        r
    }

    /// Replaces the profile of `msg.user_id` and announces the new one.
    pub fn update_profile(&mut self, msg: UpdateProfile) -> (r: (
        Result<(), UserError>,
        Option<ProfileUpdatedSignal>,
    ))
        requires
            old(self).wf(),
        ensures
            final(self).wf(),
            final(self).auth() == old(self).auth(),
            r.0 is Ok,
            final(self).profiles() == old(self).profiles().insert(
                msg.user_id@,
                Some(msg.profile),
            ),
            r.1 is Some,
            r.1->0.user_id == msg.user_id,
            r.1->0.profile == msg.profile,
    {
        let ghost before = self.profiles();
        let user_id = msg.user_id.clone();
        let profile = msg.profile.duplicate();
        let mut actor = match self.profile_actors.get(msg.user_id.as_str()) {
            Some(a) => a.duplicate(),
            None => UserProfileActor::new(msg.user_id.clone()),
        };
        let key = msg.user_id.clone();
        let r = actor.update_profile(msg);
        self.profile_actors.insert(key, actor);
        assert(self.profiles() =~= before.insert(user_id@, Some(profile)));
        (r, Some(ProfileUpdatedSignal { user_id, profile }))
    }

    /// The profiles after `event`: an updated profile replaces the one that
    /// a known user's actor holds; a user who logged out loses the actor;
    /// nothing else changes.
    pub open spec fn profiles_after(
        profiles: Map<Seq<char>, Option<UserProfile>>,
        event: UserEvent,
    ) -> Map<Seq<char>, Option<UserProfile>> {
        match event {
            UserEvent::ProfileUpdated(user_id, profile) => if profiles.contains_key(user_id@) {
                profiles.insert(user_id@, Some(profile))
            } else {
                profiles
            },
            UserEvent::PreferencesChanged(_, _) => profiles,
            UserEvent::LoggedIn(_) => profiles,
            UserEvent::LoggedOut(user_id) => profiles.remove(user_id@),
        }
    }

    /// The signal that `event` sends to the user interface, if any.
    pub open spec fn signal_for(event: UserEvent) -> Option<UserSignal> {
        match event {
            UserEvent::ProfileUpdated(user_id, profile) => Some(
                UserSignal::ProfileUpdated(ProfileUpdatedSignal { user_id, profile }),
            ),
            UserEvent::PreferencesChanged(user_id, preferences) => Some(
                UserSignal::PreferencesUpdated(PreferencesUpdatedSignal { user_id, preferences }),
            ),
            UserEvent::LoggedIn(_) => None,
            UserEvent::LoggedOut(_) => None,
        }
    }

    /// Takes note of something that happened to a user.
    pub fn notify(&mut self, event: UserEvent) -> (signal: Option<UserSignal>)
        requires
            old(self).wf(),
        ensures
            final(self).wf(),
            final(self).auth() == old(self).auth(),
            final(self).profiles() == Self::profiles_after(old(self).profiles(), event),
            signal == Self::signal_for(event),
    {
        let ghost before = self.profiles();
        match event {
            UserEvent::ProfileUpdated(user_id, profile) => {
                match self.profile_actors.get(user_id.as_str()) {
                    Some(a) => {
                        let mut actor = a.duplicate();
                        actor.update_profile_cache(UpdateProfileCache(profile.duplicate()));
                        self.profile_actors.insert(user_id.clone(), actor);
                        assert(self.profiles() =~= before.insert(user_id@, Some(profile)));
                    },
                    None => {
                        assert(self.profiles() =~= before);
                    },
                }
                Some(UserSignal::ProfileUpdated(ProfileUpdatedSignal { user_id, profile }))
            },
            UserEvent::PreferencesChanged(user_id, preferences) => Some(
                UserSignal::PreferencesUpdated(PreferencesUpdatedSignal { user_id, preferences }),
            ),
            UserEvent::LoggedIn(_) => None,
            UserEvent::LoggedOut(user_id) => {
                self.profile_actors.remove(user_id.as_str());
                assert(self.profiles() =~= before.remove(user_id@));
                None
            },
        }
    }

    /// Handles a request of the user interface for a profile and reports
    /// it.
    pub fn get_user_profile(&mut self, msg: GetUserProfileRequest) -> (r: UserProfileResponse)
        requires
            old(self).wf(),
        ensures
            final(self).wf(),
            final(self).auth() == old(self).auth(),
            r.error is None,
            r.profile is Some,
            final(self).profiles() == old(self).profiles().insert(msg.user_id@, r.profile),
            if held_profile(old(self).profiles(), msg.user_id@) is Some {
                r.profile == held_profile(old(self).profiles(), msg.user_id@)
            } else {
                is_default_profile(r.profile->0, msg.user_id@)
            },
    {
        let request = GetProfile { user_id: msg.user_id };
        profile_response(self.get_profile(&request))
    }

    /// Handles a request of the user interface to change preferences: the
    /// user's profile, with each part that the request names put in place,
    /// replaces the old one and is announced.
    pub fn update_preferences(&mut self, msg: UpdatePreferencesRequest) -> (signal: Option<
        ProfileUpdatedSignal,
    >)
        requires
            old(self).wf(),
        ensures
            final(self).wf(),
            final(self).auth() == old(self).auth(),
            signal is Some,
            signal->0.user_id == msg.user_id,
            final(self).profiles() == old(self).profiles().insert(
                msg.user_id@,
                Some(signal->0.profile),
            ),
            preferences_update_post(
                held_profile(old(self).profiles(), msg.user_id@),
                msg,
                signal->0.profile,
            ),
    {
        let ghost before = self.profiles();
        let request = GetProfile { user_id: msg.user_id.clone() };
        let mut profile = self.get_profile(&request).unwrap();
        match msg.theme {
            Some(theme) => {
                profile.preferences.theme = theme;
            },
            None => {},
        }
        match msg.notifications_enabled {
            Some(on) => {
                profile.preferences.notifications_enabled = on;
            },
            None => {},
        }
        match msg.language {
            Some(language) => {
                profile.preferences.language = language;
            },
            None => {},
        }
        let (_, signal) = self.update_profile(UpdateProfile { user_id: msg.user_id, profile });
        assert(self.profiles() =~= before.insert(msg.user_id@, Some(profile)));
        signal
    }
}

} // verus!
