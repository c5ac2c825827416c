//! The supervisor: it plans the actor tree in dependency order, replaces an
//! actor that failed and rewires whoever depended on it, and steers the
//! login flow across the actors it supervises.
//!
//! The supervisor holds addresses only. What it decides comes out as a list
//! of `SupervisorAction`s, which the runtime carries out in order.

use vstd::prelude::*;
use crate::clock::{latest_reading, unix_now};
use crate::messages::{
    ActorAddress,
    AuthResult,
    FetchRecentData,
    GetProfile,
    Login,
    ProcessLogin,
    UpdateNetworkDependency,
    UserData,
    UserProfile,
};
use crate::errors::UserError;
use crate::signals::{
    ActorsCreatedSignal,
    AppInitializedSignal,
    CreateActorsRequest,
    InitializeAppRequest,
};

verus! {

/// The kinds of actor that the supervisor looks after.
#[derive(Debug, Clone, Copy, PartialEq, Eq, Structural)]
pub enum ActorType {
    Auth,
    User,
    Data,
    Network,
}

/// What a successful login hands to the user interface.
#[derive(Debug)]
pub struct UserSession {
    pub token: String,
    pub profile: UserProfile,
    pub recent_data: UserData,
}

/// One thing for the runtime to do on the supervisor's behalf.
#[derive(Debug, Clone, Copy, PartialEq, Eq, Structural)]
pub enum SupervisorAction {
    /// Start a network manager behind `address`.
    SpawnNetwork { address: ActorAddress },
    /// Start a data manager behind `address` that uses `network_manager`.
    SpawnData { address: ActorAddress, network_manager: ActorAddress },
    /// Start an authentication actor behind `address`.
    SpawnAuth { address: ActorAddress },
    /// Start a user manager behind `address` that uses `auth_actor`.
    SpawnUser { address: ActorAddress, auth_actor: ActorAddress },
    /// Tell the data manager at `target` to use `network_manager` from now on.
    RewireNetwork { target: ActorAddress, network_manager: ActorAddress },
    /// Run the start-up work of the supervisor at `supervisor`.
    InitializeSystem { supervisor: ActorAddress },
}

impl SupervisorAction {
    /// The data manager that this action rewires and the message that does
    /// it, if the action is a rewiring.
    pub open spec fn rewiring(self) -> Option<(ActorAddress, UpdateNetworkDependency)> {
        match self {
            SupervisorAction::RewireNetwork { target, network_manager } => Some(
                (target, UpdateNetworkDependency(network_manager)),
            ),
            _ => None,
        }
    }

    /// The data manager to notify and the message for it, if this action is
    /// a rewiring.
    pub fn network_update(&self) -> (r: Option<(ActorAddress, UpdateNetworkDependency)>)
        ensures
            r == self.rewiring(),
    {
        match self {
            SupervisorAction::RewireNetwork { target, network_manager } => Some(
                (*target, UpdateNetworkDependency(*network_manager)),
            ),
            _ => None,
        }
    }
}

/// Why the supervisor did not replace an actor.
#[derive(Debug, Clone, Copy, PartialEq, Eq, Structural)]
pub enum RecoveryError {
    /// The authentication actor is never replaced: its failure is final and
    /// has to be shown.
    AuthIsTerminal,
    /// Every address has been handed out.
    AddressesExhausted,
}

/// The number of recent items loaded for a session.
pub const SESSION_ITEM_LIMIT: usize = 5;

/// The number of actors that make up the tree, the supervisor among them.
pub const ACTOR_COUNT: usize = 5;

/// The supervisor's state: the addresses of the actors it started, and the
/// next address to hand out.
#[derive(Debug)]
pub struct AppSupervisor {
    user_manager: ActorAddress,
    data_manager: ActorAddress,
    network_manager: ActorAddress,
    auth_actor: ActorAddress,
    next_id: u64,
}

/// The supervisor's state as plain values.
pub struct SupervisorView {
    pub user_manager: ActorAddress,
    pub data_manager: ActorAddress,
    pub network_manager: ActorAddress,
    pub auth_actor: ActorAddress,
    pub next_id: nat,
}

impl SupervisorView {
    /// Every address held was handed out before.
    pub open spec fn wf(self) -> bool {
        &&& self.user_manager.id < self.next_id
        &&& self.data_manager.id < self.next_id
        &&& self.network_manager.id < self.next_id
        &&& self.auth_actor.id < self.next_id
        &&& self.next_id <= u64::MAX
    }

    /// The address that the next actor gets.
    pub open spec fn fresh(self) -> ActorAddress {
        ActorAddress { id: self.next_id as u64 }
    }

    /// Whether the supervisor replaces an actor of kind `kind`.
    pub open spec fn recovery_error(self, kind: ActorType) -> Option<RecoveryError> {
        if kind == ActorType::Auth {
            Some(RecoveryError::AuthIsTerminal)
        } else if self.next_id >= u64::MAX {
            Some(RecoveryError::AddressesExhausted)
        } else {
            None
        }
    }

    /// The state after the actor of kind `kind` was replaced: the fresh
    /// address stands in place of the old one.
    pub open spec fn replaced(self, kind: ActorType) -> SupervisorView {
        if self.recovery_error(kind) is Some {
            self
        } else {
            let next_id = self.next_id + 1;
            match kind {
                ActorType::Network => SupervisorView {
                    network_manager: self.fresh(),
                    next_id,
                    ..self
                },
                ActorType::Data => SupervisorView { data_manager: self.fresh(), next_id, ..self },
                ActorType::User => SupervisorView { user_manager: self.fresh(), next_id, ..self },
                ActorType::Auth => self,
            }
        }
    }

    /// What the runtime has to do to replace the actor of kind `kind`: start
    /// the new instance with the addresses it depends on, and tell each actor
    /// that depended on the old instance the new address.
    pub open spec fn recovery_actions(self, kind: ActorType) -> Seq<SupervisorAction> {
        if self.recovery_error(kind) is Some {
            Seq::empty()
        } else {
            match kind {
                ActorType::Network => seq![
                    SupervisorAction::SpawnNetwork { address: self.fresh() },
                    SupervisorAction::RewireNetwork {
                        target: self.data_manager,
                        network_manager: self.fresh(),
                    },
                ],
                ActorType::Data => seq![
                    SupervisorAction::SpawnData {
                        address: self.fresh(),
                        network_manager: self.network_manager,
                    },
                ],
                ActorType::User => seq![
                    SupervisorAction::SpawnUser {
                        address: self.fresh(),
                        auth_actor: self.auth_actor,
                    },
                ],
                ActorType::Auth => Seq::empty(),
            }
        }
    }
}

/// The state of a supervisor that has just planned its tree.
pub open spec fn initial_view() -> SupervisorView {
    SupervisorView {
        network_manager: ActorAddress { id: 0 },
        data_manager: ActorAddress { id: 1 },
        auth_actor: ActorAddress { id: 2 },
        user_manager: ActorAddress { id: 3 },
        next_id: 4,
    }
}

/// The plan for the tree, in dependency order: the network manager, the data
/// manager that uses it, the authentication actor, the user manager that
/// uses that; and at the end the start-up work, if it was asked for.
pub open spec fn startup_plan(self_addr: ActorAddress, initialize_all: bool) -> Seq<
    SupervisorAction,
> {
    let v = initial_view();
    let spawns = seq![
        SupervisorAction::SpawnNetwork { address: v.network_manager },
        SupervisorAction::SpawnData {
            address: v.data_manager,
            network_manager: v.network_manager,
        },
        SupervisorAction::SpawnAuth { address: v.auth_actor },
        SupervisorAction::SpawnUser { address: v.user_manager, auth_actor: v.auth_actor },
    ];
    if initialize_all {
        spawns.push(SupervisorAction::InitializeSystem { supervisor: self_addr })
    } else {
        spawns
    }
}

/// Where the login flow stands, with what it has gathered so far.
#[derive(Debug)]
pub enum LoginEvent {
    /// A login was asked for.
    Start(ProcessLogin),
    /// The user manager answered the login.
    Authenticated(Result<AuthResult, UserError>),
    /// The user manager answered the request for the profile.
    ProfileLoaded { auth: AuthResult, profile: Result<UserProfile, UserError> },
    /// The data manager answered the request for the recent items.
    DataLoaded { auth: AuthResult, profile: UserProfile, data: Result<UserData, UserError> },
}

/// What the login flow does next.
#[derive(Debug)]
pub enum LoginStep {
    /// Ask the actor at `to` to log the user in.
    AskLogin { to: ActorAddress, request: Login },
    /// Ask the actor at `to` for the profile; `auth` comes back with the
    /// answer.
    AskProfile { to: ActorAddress, request: GetProfile, auth: AuthResult },
    /// Ask the actor at `to` for the recent items; `auth` and `profile` come
    /// back with the answer.
    AskData { to: ActorAddress, request: FetchRecentData, auth: AuthResult, profile: UserProfile },
    /// The flow is over.
    Done(Result<UserSession, UserError>),
}

/// The next step of the login flow: log in at the user manager, load the
/// profile there, load the recent items at the data manager, and hand out
/// the session; the first failure ends the flow.
pub open spec fn login_step_spec(v: SupervisorView, event: LoginEvent) -> LoginStep {
    match event {
        LoginEvent::Start(msg) => LoginStep::AskLogin {
            to: v.user_manager,
            request: Login { username: msg.username, password: msg.password },
        },
        LoginEvent::Authenticated(Ok(auth)) => LoginStep::AskProfile {
            to: v.user_manager,
            request: GetProfile { user_id: auth.user_id },
            auth,
        },
        LoginEvent::Authenticated(Err(e)) => LoginStep::Done(Err(e)),
        LoginEvent::ProfileLoaded { auth, profile: Ok(profile) } => LoginStep::AskData {
            to: v.data_manager,
            request: FetchRecentData {
                user_id: auth.user_id,
                limit: Some(SESSION_ITEM_LIMIT),
            },
            auth,
            profile,
        },
        LoginEvent::ProfileLoaded { auth, profile: Err(e) } => LoginStep::Done(Err(e)),
        LoginEvent::DataLoaded { auth, profile, data: Ok(data) } => LoginStep::Done(
            Ok(UserSession { token: auth.token, profile, recent_data: data }),
        ),
        LoginEvent::DataLoaded { auth, profile, data: Err(e) } => LoginStep::Done(Err(e)),
    }
}

impl View for AppSupervisor {
    type V = SupervisorView;

    closed spec fn view(&self) -> SupervisorView {
        SupervisorView {
            user_manager: self.user_manager,
            data_manager: self.data_manager,
            network_manager: self.network_manager,
            auth_actor: self.auth_actor,
            next_id: self.next_id as nat,
        }
    }
}

impl AppSupervisor {
    /// Plans the tree and returns the supervisor that holds its addresses
    /// together with the plan.
    pub fn new(self_addr: ActorAddress, initialize_all: bool) -> (r: (Self, Vec<SupervisorAction>))
        ensures
            r.0@ == initial_view(),
            r.0@.wf(),
            r.1@ == startup_plan(self_addr, initialize_all),
    {
        let network_addr = ActorAddress { id: 0 };
        let data_addr = ActorAddress { id: 1 };
        let auth_addr = ActorAddress { id: 2 };
        let user_addr = ActorAddress { id: 3 };
        let mut plan: Vec<SupervisorAction> = Vec::new();
        plan.push(SupervisorAction::SpawnNetwork { address: network_addr });
        plan.push(
            SupervisorAction::SpawnData { address: data_addr, network_manager: network_addr },
        );
        plan.push(SupervisorAction::SpawnAuth { address: auth_addr });
        plan.push(SupervisorAction::SpawnUser { address: user_addr, auth_actor: auth_addr });
        if initialize_all {
            plan.push(SupervisorAction::InitializeSystem { supervisor: self_addr });
        }
        let supervisor = Self {
            user_manager: user_addr,
            data_manager: data_addr,
            network_manager: network_addr,
            auth_actor: auth_addr,
            next_id: 4,
        };
        assert(plan@ =~= startup_plan(self_addr, initialize_all));
        (supervisor, plan)
    }

    /// The address of the user manager in use.
    pub fn user_manager(&self) -> (a: ActorAddress)
        ensures
            a == self@.user_manager,
    {
        self.user_manager
    }

    /// The address of the data manager in use.
    pub fn data_manager(&self) -> (a: ActorAddress)
        ensures
            a == self@.data_manager,
    {
        self.data_manager
    }

    /// The address of the network manager in use.
    pub fn network_manager(&self) -> (a: ActorAddress)
        ensures
            a == self@.network_manager,
    {
        self.network_manager
    }

    /// The address of the authentication actor.
    pub fn auth_actor(&self) -> (a: ActorAddress)
        ensures
            a == self@.auth_actor,
    {
        self.auth_actor
    }

    /// Replaces the failed actor of kind `actor_type` by a fresh instance
    /// behind a fresh address, and returns what the runtime has to do for
    /// it. The authentication actor is not replaced.
    pub fn handle_actor_failure(&mut self, actor_type: ActorType) -> (r: Result<
        Vec<SupervisorAction>,
        RecoveryError,
    >)
        requires
            old(self)@.wf(),
        ensures
            final(self)@.wf(),
            final(self)@ == old(self)@.replaced(actor_type),
            match r {
                Ok(actions) => old(self)@.recovery_error(actor_type) is None && actions@ == old(
                    self,
                )@.recovery_actions(actor_type),
                Err(e) => old(self)@.recovery_error(actor_type) == Some(e),
            },
    {
        match actor_type {
            ActorType::Auth => Err(RecoveryError::AuthIsTerminal),
            _ => {
                if self.next_id == u64::MAX {
                    return Err(RecoveryError::AddressesExhausted);
                }
                let fresh = ActorAddress { id: self.next_id };
                let ghost before = self@;
                self.next_id = self.next_id + 1;
                let mut actions: Vec<SupervisorAction> = Vec::new();
                match actor_type {
                    ActorType::Network => {
                        self.network_manager = fresh;
                        actions.push(SupervisorAction::SpawnNetwork { address: fresh });
                        actions.push(
                            SupervisorAction::RewireNetwork {
                                target: self.data_manager,
                                network_manager: fresh,
                            },
                        );
                    },
                    ActorType::Data => {
                        self.data_manager = fresh;
                        actions.push(
                            SupervisorAction::SpawnData {
                                address: fresh,
                                network_manager: self.network_manager,
                            },
                        );
                    },
                    ActorType::User => {
                        self.user_manager = fresh;
                        actions.push(
                            SupervisorAction::SpawnUser {
                                address: fresh,
                                auth_actor: self.auth_actor,
                            },
                        );
                    },
                    ActorType::Auth => {},
                }
                assert(actions@ =~= before.recovery_actions(actor_type));
                Ok(actions)
            },
        }
    }

    /// The next step of the login flow after `event`.
    pub fn login_step(&self, event: LoginEvent) -> (step: LoginStep)
        ensures
            step == login_step_spec(self@, event),
    {
        match event {
            LoginEvent::Start(msg) => LoginStep::AskLogin {
                to: self.user_manager,
                request: Login { username: msg.username, password: msg.password },
            },
            LoginEvent::Authenticated(reply) => match reply {
                Ok(auth) => {
                    let user_id = auth.user_id.clone();
                    LoginStep::AskProfile {
                        to: self.user_manager,
                        request: GetProfile { user_id },
                        auth,
                    }
                },
                Err(e) => LoginStep::Done(Err(e)),
            },
            LoginEvent::ProfileLoaded { auth, profile } => match profile {
                Ok(profile) => {
                    let user_id = auth.user_id.clone();
                    LoginStep::AskData {
                        to: self.data_manager,
                        request: FetchRecentData { user_id, limit: Some(SESSION_ITEM_LIMIT) },
                        auth,
                        profile,
                    }
                },
                Err(e) => LoginStep::Done(Err(e)),
            },
            LoginEvent::DataLoaded { auth, profile, data } => match data {
                Ok(data) => LoginStep::Done(
                    Ok(UserSession { token: auth.token, profile, recent_data: data }),
                ),
                Err(e) => LoginStep::Done(Err(e)),
            },
        }
    }

    /// Answers the request to initialise the application at time `now`.
    pub fn initialize_app_at(&self, msg: &InitializeAppRequest, version: String, now: u64) -> (s:
        AppInitializedSignal)
        ensures
            s.success,
            s.version == version,
            s.initialized_at == now,
    {
        AppInitializedSignal { success: true, version, initialized_at: now }
    }

    /// Answers the request to initialise the application, stamped with the
    /// time that the clock shows.
    pub fn initialize_app(&self, msg: &InitializeAppRequest, version: String) -> (s:
        AppInitializedSignal)
        ensures
            s.success,
            s.version == version,
            s.initialized_at <= latest_reading(),
    {
        let now: u64 = unix_now();
        self.initialize_app_at(msg, version, now)
    }
}

/// The address of the network manager that the data manager at `target`
/// uses once `actions` have been carried out in order, if it used `held`
/// before: each rewiring addressed to it is delivered as its message, which
/// puts the new address in place of the one held.
pub open spec fn network_after(
    held: ActorAddress,
    actions: Seq<SupervisorAction>,
    target: ActorAddress,
) -> ActorAddress
    decreases actions.len(),
{
    if actions.len() == 0 {
        held
    } else {
        let before = network_after(held, actions.drop_last(), target);
        match actions.last().rewiring() {
            Some((to, message)) => if to == target {
                message.0
            } else {
                before
            },
            None => before,
        }
    }
}

/// Replacing the network manager rewires the data manager: once the actions
/// are carried out, the data manager uses the address that the supervisor
/// holds, which is the fresh one, whatever it used before.
pub proof fn lemma_replace_network_rewires(v: SupervisorView, held: ActorAddress)
    requires
        v.wf(),
        v.recovery_error(ActorType::Network) is None,
    ensures
        v.replaced(ActorType::Network).wf(),
        v.replaced(ActorType::Network).network_manager == v.fresh(),
        v.replaced(ActorType::Network).data_manager == v.data_manager,
        v.fresh() != v.network_manager,
        network_after(held, v.recovery_actions(ActorType::Network), v.data_manager) == v.fresh(),
{
    let actions = v.recovery_actions(ActorType::Network);
    reveal_with_fuel(network_after, 3);
    assert(actions.drop_last() =~= seq![SupervisorAction::SpawnNetwork { address: v.fresh() }]);
    assert(actions.drop_last().drop_last() =~= Seq::<SupervisorAction>::empty());
}

/// Replacing the network manager twice in a row leaves the data manager
/// with one address, the one handed out last: the second replacement
/// overwrites what the first put there, and the supervisor holds the same
/// address.
pub proof fn lemma_replace_network_twice(v: SupervisorView, held: ActorAddress)
    requires
        v.wf(),
        v.next_id + 2 <= u64::MAX,
    ensures
        ({
            let once = v.replaced(ActorType::Network);
            let twice = once.replaced(ActorType::Network);
            let first = v.recovery_actions(ActorType::Network);
            let second = once.recovery_actions(ActorType::Network);
            let after_first = network_after(held, first, v.data_manager);
            let after_second = network_after(after_first, second, v.data_manager);
            &&& twice.wf()
            &&& after_first == once.network_manager
            &&& after_second == twice.network_manager
            &&& after_second == network_after(held, first + second, v.data_manager)
            &&& twice.network_manager != once.network_manager
            &&& twice.network_manager != v.network_manager
            &&& twice.data_manager == v.data_manager
            &&& twice.user_manager == v.user_manager
            &&& twice.auth_actor == v.auth_actor
        }),
{
    let once = v.replaced(ActorType::Network);
    let first = v.recovery_actions(ActorType::Network);
    let second = once.recovery_actions(ActorType::Network);
    lemma_replace_network_rewires(v, held);
    lemma_replace_network_rewires(once, network_after(held, first, v.data_manager));
    lemma_network_after_concat(held, first, second, v.data_manager);
}

/// Carrying out two lists of actions one after the other is carrying out
/// their concatenation.
pub proof fn lemma_network_after_concat(
    held: ActorAddress,
    first: Seq<SupervisorAction>,
    second: Seq<SupervisorAction>,
    target: ActorAddress,
)
    ensures
        network_after(held, first + second, target) == network_after(
            network_after(held, first, target),
            second,
            target,
        ),
    decreases second.len(),
{
    if second.len() == 0 {
        assert(first + second =~= first);
    } else {
        lemma_network_after_concat(held, first, second.drop_last(), target);
        assert((first + second).drop_last() =~= first + second.drop_last());
        assert((first + second).last() == second.last());
    }
}

/// The names of the actors of the tree, as reported once it stands.
pub open spec fn actor_names() -> Seq<Seq<char>> {
    seq![
        "AppSupervisor"@,
        "UserManagerActor"@,
        "DataManagerActor"@,
        "NetworkManagerActor"@,
        "AuthActor"@,
    ]
}

/// Builds the actor tree on request: the supervisor behind `supervisor_addr`
/// with its plan, and the signal that reports the tree.
pub fn create_actors(request: &CreateActorsRequest, supervisor_addr: ActorAddress) -> (r: (
    AppSupervisor,
    Vec<SupervisorAction>,
    ActorsCreatedSignal,
))
    ensures
        r.0@ == initial_view(),
        r.0@.wf(),
        r.1@ == startup_plan(supervisor_addr, request.initialize_all),
        r.2.actor_count == ACTOR_COUNT,
        r.2.initialized_actors@.len() == ACTOR_COUNT,
        forall|i: int|
            0 <= i < ACTOR_COUNT ==> (#[trigger] r.2.initialized_actors@[i])@ == actor_names()[i],
{
    let (supervisor, plan) = AppSupervisor::new(supervisor_addr, request.initialize_all);
    let mut names: Vec<String> = Vec::new();
    names.push("AppSupervisor".to_owned());
    names.push("UserManagerActor".to_owned());
    names.push("DataManagerActor".to_owned());
    names.push("NetworkManagerActor".to_owned());
    names.push("AuthActor".to_owned());
    let signal = ActorsCreatedSignal { actor_count: ACTOR_COUNT, initialized_actors: names };
    (supervisor, plan, signal)
}

} // verus!
