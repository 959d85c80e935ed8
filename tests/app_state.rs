use desktop_node::{
    desktop_node_manager_options, make_node_manager, AppError, AppState, CliState, FactoryFailure,
    FactoryStep, MemoryModelStateRepository, ModelState, ModelStateRepository, NodeError,
    NodeManager, NodeManagerOptions, OutletStatus, RepositoryError, NODE_NAME,
};

type App = AppState<MemoryModelStateRepository>;

fn all_steps_succeed(_o: &NodeManagerOptions, _s: FactoryStep) -> bool {
    true
}

fn manager() -> NodeManager {
    let options = desktop_node_manager_options(CliState::fresh("/id".to_string()));
    make_node_manager(&options, all_steps_succeed).unwrap()
}

fn outlet(alias: &str, socket_addr: &str) -> OutletStatus {
    OutletStatus::new(socket_addr.to_string(), format!("outlet-{}", alias), alias.to_string())
}

fn add_outlet(alias: &'static str, socket_addr: &'static str) -> impl FnOnce(ModelState) -> ModelState {
    move |mut m: ModelState| {
        m.add_tcp_outlet(outlet(alias, socket_addr));
        m
    }
}

#[test]
fn cold_start_on_empty_disk() {
    let app = App::new(CliState::fresh("/state/identities".to_string()), all_steps_succeed).unwrap();
    assert!(!app.is_enrolled());
    assert!(app.tcp_outlet_list().unwrap().is_empty());
    let model = app.model(|s: &ModelState| s.duplicate());
    assert!(model.get_tcp_outlets().is_empty());
    assert!(app.global_args().quiet);
    assert!(app.options().quiet_terminal);
}

#[test]
fn bootstrap_without_identity_path_fails() {
    let r = App::new(CliState::new(None, None), all_steps_succeed);
    assert!(matches!(r, Err(AppError::MissingIdentityPath)));
}

#[test]
fn outlet_added_then_restart_replays_it() {
    let state = CliState::fresh("/state/identities".to_string());
    let mut app = App::new(state.duplicate(), all_steps_succeed).unwrap();
    assert_eq!(app.model_mut(add_outlet("my-outlet", "127.0.0.1:5000")), Ok(()));
    // the outlet is only declared; the running node is unchanged
    assert!(app.tcp_outlet_list().unwrap().is_empty());
    let repository = app.into_repository();
    let restarted = App::bootstrap(state, repository, manager()).unwrap();
    let outlets = restarted.tcp_outlet_list().unwrap();
    assert_eq!(outlets.len(), 1);
    assert_eq!(outlets[0].alias, "my-outlet");
    assert_eq!(outlets[0].socket_addr, "127.0.0.1:5000");
    let model = restarted.model(|s: &ModelState| s.get_tcp_outlets().len());
    assert_eq!(model, 1);
}

#[test]
fn reset_after_outlet_add() {
    let state = CliState::fresh("/state/identities".to_string());
    let mut app = App::new(state.duplicate(), all_steps_succeed).unwrap();
    app.model_mut(add_outlet("my-outlet", "127.0.0.1:5000")).unwrap();
    let mut app = App::bootstrap(state, app.into_repository(), manager()).unwrap();
    assert_eq!(app.tcp_outlet_list().unwrap().len(), 1);

    let refreshed = CliState::fresh("/state/identities-2".to_string());
    assert_eq!(app.reset(true, Some(refreshed), all_steps_succeed), Ok(()));
    assert!(app.tcp_outlet_list().unwrap().is_empty());
    assert_eq!(app.model(|s: &ModelState| s.get_tcp_outlets().len()), 0);
    assert_eq!(
        app.state().identities_repository_path,
        Some("/state/identities-2".to_string())
    );
    assert!(!app.is_enrolled());
}

#[test]
fn reset_fails_when_cli_reset_failed() {
    let mut state = CliState::fresh("/state/identities".to_string());
    state.set_default_project("default".to_string());
    let mut app = App::new(state, all_steps_succeed).unwrap();
    assert!(app.is_enrolled());
    assert_eq!(app.reset(true, None, all_steps_succeed), Err(AppError::StateResetFailed));
    assert_eq!(app.state().default_project, Some("default".to_string()));
    assert!(matches!(app.tcp_outlet_list(), Err(AppError::NodeManagerAbsent)));
}

#[test]
fn reset_without_identity_path_fails() {
    let mut app = App::new(CliState::fresh("/state/identities".to_string()), all_steps_succeed).unwrap();
    assert_eq!(app.reset(true, Some(CliState::new(None, None)), all_steps_succeed), Err(AppError::MissingIdentityPath));
}

#[test]
fn enrolled_once_a_default_project_exists() {
    let mut app = App::new(CliState::fresh("/state/identities".to_string()), all_steps_succeed).unwrap();
    assert!(!app.is_enrolled());
    let mut enrolled = CliState::fresh("/state/identities".to_string());
    enrolled.set_default_project("default".to_string());
    app.reset(true, Some(enrolled), all_steps_succeed).unwrap();
    assert!(app.is_enrolled());
}

#[test]
fn model_mut_commits_every_change() {
    let mut app = App::new(CliState::fresh("/state/identities".to_string()), all_steps_succeed).unwrap();
    app.model_mut(add_outlet("a", "127.0.0.1:5001")).unwrap();
    app.model_mut(add_outlet("b", "127.0.0.1:5002")).unwrap();
    app.model_mut(|mut m: ModelState| {
        m.delete_tcp_outlet(&"a".to_string());
        m
    })
    .unwrap();
    let repository = app.into_repository();
    let loaded = repository.load().unwrap().unwrap();
    assert_eq!(loaded.get_tcp_outlets().len(), 1);
    assert_eq!(loaded.get_tcp_outlets()[0].alias, "b");
}

#[test]
fn duplicate_stored_alias_fails_replay() {
    let mut model = ModelState::new();
    model.add_tcp_outlet(outlet("x", "127.0.0.1:6000"));
    model.add_tcp_outlet(outlet("x", "127.0.0.1:6001"));
    let repository = MemoryModelStateRepository::holding(&"/id".to_string(), &model);
    let r = App::bootstrap(CliState::fresh("/id".to_string()), repository, manager());
    assert!(matches!(r, Err(AppError::Replay(NodeError::AliasTaken))));
}

#[test]
fn node_manager_refuses_taken_alias() {
    let mut nm = manager();
    assert_eq!(nm.node_name(), NODE_NAME);
    assert_eq!(nm.create_outlet(outlet("x", "127.0.0.1:7000")), Ok(()));
    assert_eq!(nm.create_outlet(outlet("x", "127.0.0.1:7001")), Err(NodeError::AliasTaken));
    assert_eq!(nm.list_outlets().len(), 1);
    assert!(nm.has_outlet(&"x".to_string()));
    assert!(!nm.has_outlet(&"y".to_string()));
}

#[test]
fn desktop_options_bind_loopback_ephemeral() {
    let o = desktop_node_manager_options(CliState::fresh("/id".to_string()));
    assert_eq!(o.state.identities_repository_path, Some("/id".to_string()));
    assert_eq!(o.node_name, "default");
    assert_eq!(o.listen_address.ip, (127, 0, 0, 1));
    assert_eq!(o.listen_address.port, 0);
    assert!(o.trust.authority_identity.is_none());
    assert!(o.trust.credential_name.is_none());
}

#[test]
fn delete_outlet_keeps_others_in_order() {
    let mut m = ModelState::default();
    m.add_tcp_outlet(outlet("a", "127.0.0.1:1"));
    m.add_tcp_outlet(outlet("b", "127.0.0.1:2"));
    m.add_tcp_outlet(outlet("a", "127.0.0.1:3"));
    m.add_tcp_outlet(outlet("c", "127.0.0.1:4"));
    m.delete_tcp_outlet(&"a".to_string());
    let aliases: Vec<&str> = m.get_tcp_outlets().iter().map(|o| o.alias.as_str()).collect();
    assert_eq!(aliases, vec!["b", "c"]);
}

#[test]
fn memory_repository_opens_empty_and_keeps_last_store() {
    let mut repo = MemoryModelStateRepository::open(&"/id".to_string()).unwrap();
    assert!(repo.load().unwrap().is_none());
    let mut m = ModelState::new();
    m.add_tcp_outlet(outlet("a", "127.0.0.1:1"));
    assert_eq!(repo.store(&m), Ok(()));
    m.add_tcp_outlet(outlet("b", "127.0.0.1:2"));
    assert_eq!(repo.store(&m), Ok::<(), RepositoryError>(()));
    assert_eq!(repo.load().unwrap().unwrap().get_tcp_outlets().len(), 2);
}

#[test]
fn reset_aborts_when_old_manager_did_not_stop() {
    let mut app = App::new(CliState::fresh("/state/identities".to_string()), all_steps_succeed).unwrap();
    app.model_mut(add_outlet("a", "127.0.0.1:5001")).unwrap();
    let r = app.reset(false, Some(CliState::fresh("/other".to_string())), all_steps_succeed);
    assert_eq!(r, Err(AppError::StopFailed));
    assert_eq!(app.state().identities_repository_path, Some("/state/identities".to_string()));
    assert_eq!(app.model(|s: &ModelState| s.get_tcp_outlets().len()), 1);
}

#[test]
fn failed_commit_keeps_the_change_in_memory() {
    let state = CliState::fresh("/id".to_string());
    let repository = MemoryModelStateRepository::read_only(&"/id".to_string());
    let mut app = App::bootstrap(state, repository, manager()).unwrap();
    let r = app.model_mut(add_outlet("kept", "127.0.0.1:5000"));
    assert_eq!(r, Err(RepositoryError::Storage));
    assert_eq!(app.model(|s: &ModelState| s.get_tcp_outlets().len()), 1);
    assert!(app.into_repository().load().unwrap().is_none());
}

#[test]
fn replay_of_nothing_starts_empty() {
    let mut nm = manager();
    let m = desktop_node::replay_model_state(None, &mut nm).unwrap();
    assert!(m.get_tcp_outlets().is_empty());
    assert!(nm.list_outlets().is_empty());
}

#[test]
fn reset_with_failed_rebuild_leaves_no_manager() {
    let mut app = App::new(CliState::fresh("/state/identities".to_string()), all_steps_succeed).unwrap();
    let refreshed = CliState::fresh("/state/identities-2".to_string());
    let r = app.reset(true, Some(refreshed), |_o: &NodeManagerOptions, s: FactoryStep| s != FactoryStep::Listen);
    assert_eq!(r, Err(AppError::Build(FactoryFailure::Listen)));
    assert!(matches!(app.tcp_outlet_list(), Err(AppError::NodeManagerAbsent)));
}

#[test]
fn factory_stops_at_first_failed_step() {
    let seen = std::cell::RefCell::new(Vec::new());
    let options = desktop_node_manager_options(CliState::fresh("/id".to_string()));
    let r = make_node_manager(&options, |_o, s: FactoryStep| {
        seen.borrow_mut().push(s);
        s != FactoryStep::Listen
    });
    assert!(matches!(r, Err(FactoryFailure::Listen)));
    assert_eq!(
        seen.into_inner(),
        vec![FactoryStep::InitNodeState, FactoryStep::CreateTransport, FactoryStep::Listen]
    );
    let nm = manager();
    assert_eq!(nm.node_name(), NODE_NAME);
    assert!(nm.list_outlets().is_empty());
}

#[test]
fn bootstrap_fails_when_the_manager_cannot_be_built() {
    let r = App::new(CliState::fresh("/id".to_string()), |_o: &NodeManagerOptions, s: FactoryStep| {
        s != FactoryStep::InitNodeState
    });
    assert!(matches!(r, Err(AppError::Build(FactoryFailure::NodeState))));
}

#[test]
fn reset_builds_the_manager_over_the_refreshed_state() {
    let mut app = App::new(CliState::fresh("/old".to_string()), all_steps_succeed).unwrap();
    let seen = std::cell::RefCell::new(Vec::new());
    let r = app.reset(true, Some(CliState::fresh("/new".to_string())), |o: &NodeManagerOptions, _s: FactoryStep| {
        seen.borrow_mut().push(o.state.identities_repository_path.clone());
        true
    });
    assert_eq!(r, Ok(()));
    let seen = seen.into_inner();
    assert_eq!(seen.len(), 4);
    assert!(seen.iter().all(|p| p.as_deref() == Some("/new")));
}
