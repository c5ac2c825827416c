use hub::data::DataManagerActor;
use hub::errors::{AuthError, UserError};
use hub::messages::{
    ActorAddress, AuthResult, ProcessLogin, UserData, UserPreferences, UserProfile,
};
use hub::signals::{CreateActorsRequest, InitializeAppRequest};
use hub::supervisor::{
    create_actors, ActorType, AppSupervisor, LoginEvent, LoginStep, RecoveryError,
    SupervisorAction, ACTOR_COUNT, SESSION_ITEM_LIMIT,
};

fn addr(id: u64) -> ActorAddress {
    ActorAddress { id }
}

fn auth_result() -> AuthResult {
    AuthResult { user_id: "user_1".to_string(), token: "token_user_1_9".to_string(), expires_at: 3609 }
}

fn profile() -> UserProfile {
    UserProfile {
        user_id: "user_1".to_string(),
        name: "User user_1".to_string(),
        email: "useruser_1@example.com".to_string(),
        avatar_url: None,
        preferences: UserPreferences {
            theme: "light".to_string(),
            notifications_enabled: true,
            language: "en".to_string(),
        },
    }
}

#[test]
fn the_tree_is_planned_in_dependency_order() {
    let (supervisor, plan) = AppSupervisor::new(addr(100), false);
    assert_eq!(
        plan,
        vec![
            SupervisorAction::SpawnNetwork { address: addr(0) },
            SupervisorAction::SpawnData { address: addr(1), network_manager: addr(0) },
            SupervisorAction::SpawnAuth { address: addr(2) },
            SupervisorAction::SpawnUser { address: addr(3), auth_actor: addr(2) },
        ]
    );
    assert_eq!(supervisor.network_manager(), addr(0));
    assert_eq!(supervisor.data_manager(), addr(1));
    assert_eq!(supervisor.auth_actor(), addr(2));
    assert_eq!(supervisor.user_manager(), addr(3));
}

#[test]
fn start_up_work_is_planned_last_when_asked_for() {
    let (_, plan) = AppSupervisor::new(addr(100), true);
    assert_eq!(plan.len(), 5);
    assert_eq!(plan[4], SupervisorAction::InitializeSystem { supervisor: addr(100) });
}

#[test]
fn replacing_the_network_manager_rewires_the_data_manager() {
    let (mut supervisor, _) = AppSupervisor::new(addr(100), false);
    let actions = supervisor.handle_actor_failure(ActorType::Network).unwrap();
    assert_eq!(
        actions,
        vec![
            SupervisorAction::SpawnNetwork { address: addr(4) },
            SupervisorAction::RewireNetwork { target: addr(1), network_manager: addr(4) },
        ]
    );
    assert_eq!(supervisor.network_manager(), addr(4));
    assert_eq!(supervisor.data_manager(), addr(1));
}

#[test]
fn replacing_the_network_manager_twice_leaves_one_address() {
    let (mut supervisor, plan) = AppSupervisor::new(addr(100), false);
    let mut data = match plan[1] {
        SupervisorAction::SpawnData { network_manager, .. } => DataManagerActor::new(network_manager),
        other => panic!("unexpected action {:?}", other),
    };
    assert_eq!(data.network_manager(), addr(0));
    for _ in 0..2 {
        for action in supervisor.handle_actor_failure(ActorType::Network).unwrap() {
            if let Some((target, message)) = action.network_update() {
                assert_eq!(target, supervisor.data_manager());
                data.update_network_dependency(message);
            }
        }
    }
    assert_eq!(supervisor.network_manager(), addr(5));
    assert_eq!(data.network_manager(), addr(5));
}

#[test]
fn only_a_rewiring_carries_a_message() {
    let spawn = SupervisorAction::SpawnNetwork { address: addr(4) };
    assert!(spawn.network_update().is_none());
    let rewire = SupervisorAction::RewireNetwork { target: addr(1), network_manager: addr(4) };
    let (target, message) = rewire.network_update().unwrap();
    assert_eq!(target, addr(1));
    assert_eq!(message.0, addr(4));
}

#[test]
fn replacing_the_data_manager_wires_the_current_network_manager() {
    let (mut supervisor, _) = AppSupervisor::new(addr(100), false);
    supervisor.handle_actor_failure(ActorType::Network).unwrap();
    let actions = supervisor.handle_actor_failure(ActorType::Data).unwrap();
    assert_eq!(
        actions,
        vec![SupervisorAction::SpawnData { address: addr(5), network_manager: addr(4) }]
    );
    assert_eq!(supervisor.data_manager(), addr(5));
    let actions = supervisor.handle_actor_failure(ActorType::Network).unwrap();
    assert_eq!(
        actions[1],
        SupervisorAction::RewireNetwork { target: addr(5), network_manager: addr(6) }
    );
}

#[test]
fn replacing_the_user_manager_wires_the_auth_actor() {
    let (mut supervisor, _) = AppSupervisor::new(addr(100), false);
    let actions = supervisor.handle_actor_failure(ActorType::User).unwrap();
    assert_eq!(
        actions,
        vec![SupervisorAction::SpawnUser { address: addr(4), auth_actor: addr(2) }]
    );
    assert_eq!(supervisor.user_manager(), addr(4));
    assert_eq!(supervisor.auth_actor(), addr(2));
}

#[test]
fn the_auth_actor_is_never_replaced() {
    let (mut supervisor, _) = AppSupervisor::new(addr(100), false);
    assert_eq!(
        supervisor.handle_actor_failure(ActorType::Auth),
        Err(RecoveryError::AuthIsTerminal)
    );
    assert_eq!(supervisor.auth_actor(), addr(2));
    let actions = supervisor.handle_actor_failure(ActorType::Data).unwrap();
    assert_eq!(
        actions,
        vec![SupervisorAction::SpawnData { address: addr(4), network_manager: addr(0) }]
    );
}

#[test]
fn login_starts_at_the_user_manager() {
    let (supervisor, _) = AppSupervisor::new(addr(100), false);
    let step = supervisor.login_step(LoginEvent::Start(ProcessLogin {
        username: "demo".to_string(),
        password: "password".to_string(),
    }));
    match step {
        LoginStep::AskLogin { to, request } => {
            assert_eq!(to, addr(3));
            assert_eq!(request.username, "demo");
            assert_eq!(request.password, "password");
        }
        other => panic!("unexpected step {:?}", other),
    }
}

#[test]
fn login_loads_profile_and_then_five_recent_items() {
    let (supervisor, _) = AppSupervisor::new(addr(100), false);
    match supervisor.login_step(LoginEvent::Authenticated(Ok(auth_result()))) {
        LoginStep::AskProfile { to, request, auth } => {
            assert_eq!(to, addr(3));
            assert_eq!(request.user_id, "user_1");
            assert_eq!(auth.token, "token_user_1_9");
        }
        other => panic!("unexpected step {:?}", other),
    }
    match supervisor
        .login_step(LoginEvent::ProfileLoaded { auth: auth_result(), profile: Ok(profile()) })
    {
        LoginStep::AskData { to, request, auth, profile } => {
            assert_eq!(to, addr(1));
            assert_eq!(request.user_id, "user_1");
            assert_eq!(request.limit, Some(5));
            assert_eq!(SESSION_ITEM_LIMIT, 5);
            assert_eq!(auth.user_id, "user_1");
            assert_eq!(profile.name, "User user_1");
        }
        other => panic!("unexpected step {:?}", other),
    }
}

#[test]
fn login_ends_with_the_session() {
    let (supervisor, _) = AppSupervisor::new(addr(100), false);
    let data = UserData { user_id: "user_1".to_string(), items: Vec::new(), last_updated: 9 };
    match supervisor.login_step(LoginEvent::DataLoaded {
        auth: auth_result(),
        profile: profile(),
        data: Ok(data),
    }) {
        LoginStep::Done(Ok(session)) => {
            assert_eq!(session.token, "token_user_1_9");
            assert_eq!(session.profile.email, "useruser_1@example.com");
            assert_eq!(session.recent_data.last_updated, 9);
        }
        other => panic!("unexpected step {:?}", other),
    }
}

#[test]
fn the_first_failure_ends_the_login() {
    let (supervisor, _) = AppSupervisor::new(addr(100), false);
    let step = supervisor.login_step(LoginEvent::Authenticated(Err(UserError::Auth(
        AuthError::InvalidCredentials,
    ))));
    assert!(matches!(
        step,
        LoginStep::Done(Err(UserError::Auth(AuthError::InvalidCredentials)))
    ));
    let step = supervisor.login_step(LoginEvent::ProfileLoaded {
        auth: auth_result(),
        profile: Err(UserError::Disconnected),
    });
    assert!(matches!(step, LoginStep::Done(Err(UserError::Disconnected))));
    let step = supervisor.login_step(LoginEvent::DataLoaded {
        auth: auth_result(),
        profile: profile(),
        data: Err(UserError::TimeRange),
    });
    assert!(matches!(step, LoginStep::Done(Err(UserError::TimeRange))));
}

#[test]
fn after_a_replacement_the_login_goes_to_the_new_actors() {
    let (mut supervisor, _) = AppSupervisor::new(addr(100), false);
    supervisor.handle_actor_failure(ActorType::User).unwrap();
    supervisor.handle_actor_failure(ActorType::Data).unwrap();
    match supervisor.login_step(LoginEvent::Authenticated(Ok(auth_result()))) {
        LoginStep::AskProfile { to, .. } => assert_eq!(to, addr(4)),
        other => panic!("unexpected step {:?}", other),
    }
    match supervisor
        .login_step(LoginEvent::ProfileLoaded { auth: auth_result(), profile: Ok(profile()) })
    {
        LoginStep::AskData { to, .. } => assert_eq!(to, addr(5)),
        other => panic!("unexpected step {:?}", other),
    }
}

#[test]
fn created_actors_are_reported_by_name() {
    let (supervisor, plan, signal) =
        create_actors(&CreateActorsRequest { initialize_all: true }, addr(50));
    assert_eq!(plan.len(), 5);
    assert_eq!(plan[4], SupervisorAction::InitializeSystem { supervisor: addr(50) });
    assert_eq!(supervisor.network_manager(), addr(0));
    assert_eq!(signal.actor_count, 5);
    assert_eq!(ACTOR_COUNT, 5);
    assert_eq!(
        signal.initialized_actors,
        vec![
            "AppSupervisor",
            "UserManagerActor",
            "DataManagerActor",
            "NetworkManagerActor",
            "AuthActor"
        ]
    );
    let (_, plan, _) = create_actors(&CreateActorsRequest { initialize_all: false }, addr(50));
    assert_eq!(plan.len(), 4);
}

#[test]
fn app_initialisation_is_stamped() {
    let (supervisor, _) = AppSupervisor::new(addr(100), false);
    let signal = supervisor.initialize_app_at(
        &InitializeAppRequest { reset_state: true },
        "0.1.0".to_string(),
        77,
    );
    assert!(signal.success);
    assert_eq!(signal.version, "0.1.0");
    assert_eq!(signal.initialized_at, 77);
    let signal =
        supervisor.initialize_app(&InitializeAppRequest { reset_state: false }, "1".to_string());
    assert!(signal.success);
    assert!(signal.initialized_at > 1_577_836_800);
}
