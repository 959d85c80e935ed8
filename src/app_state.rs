use vstd::prelude::*;
use crate::cli_state::{CliState, CommandGlobalOpts, GlobalArgs};
use crate::model_state::{ModelState, OutletStatus};
use crate::node::{
    aliases_fresh, desktop_node_manager_options, factory_failed_with, factory_steps_succeeded,
    make_node_manager, FactoryFailure, FactoryStep, NodeError, NodeManager, NodeManagerOptions,
    NODE_NAME,
};
use crate::repository::{
    model_option_view, stored_or_default, ModelStateRepository, RepositoryError,
};

verus! {

/// Why a bootstrap or a reset of the application state failed.
#[derive(Debug, PartialEq, Eq)]
pub enum AppError {
    /// The CLI state names no identities directory to put the store beside.
    MissingIdentityPath,
    /// The model-state store could not be opened or read.
    Repository(RepositoryError),
    /// A stored outlet could not be re-created in the node.
    Replay(NodeError),
    /// The old node manager could not be stopped.
    StopFailed,
    /// The new node manager could not be built.
    Build(FactoryFailure),
    /// The on-disk CLI state could not be reset.
    StateResetFailed,
    /// No node manager is in place: a reset failed after the old one stopped.
    NodeManagerAbsent,
}

/// Starts from `loaded`, or from the empty state when nothing was stored, and
/// re-creates each of its outlets in `node_manager`.
pub fn replay_model_state(loaded: Option<ModelState>, node_manager: &mut NodeManager) -> (r: Result<ModelState, NodeError>)
    ensures
        final(node_manager).spec_node_name() == old(node_manager).spec_node_name(),
        r is Ok <==> aliases_fresh(old(node_manager).spec_outlets(), stored_or_default(model_option_view(loaded))),
        r matches Ok(m) ==> m@ == stored_or_default(model_option_view(loaded))
            && final(node_manager).spec_outlets() == old(node_manager).spec_outlets() + m@,
{
    let model_state = match loaded {
        Some(m) => m,
        None => ModelState::new(),
    };
    match node_manager.replay(&model_state) {
        Ok(()) => Ok(model_state),
        Err(e) => Err(e),
    }
}

/// Loads the stored model state from `repository` and replays it into
/// `node_manager`.
fn load_model_state<R: ModelStateRepository>(repository: &R, node_manager: &mut NodeManager) -> (r: Result<ModelState, AppError>)
    ensures
        final(node_manager).spec_node_name() == old(node_manager).spec_node_name(),
        r matches Ok(m) ==> m@ == stored_or_default(repository.stored())
            && final(node_manager).spec_outlets() == old(node_manager).spec_outlets() + m@,
        r is Ok ==> aliases_fresh(old(node_manager).spec_outlets(), stored_or_default(repository.stored())),
        r matches Err(AppError::Replay(_)) ==> !aliases_fresh(old(node_manager).spec_outlets(), stored_or_default(repository.stored())),
        r matches Err(e) ==> e is Repository || e is Replay,
{
    match repository.load() {
        Ok(loaded) => match replay_model_state(loaded, node_manager) {
            Ok(m) => Ok(m),
            Err(e) => Err(AppError::Replay(e)),
        },
        Err(e) => Err(AppError::Repository(e)),
    }
}

/// The outlets that the node manager in `slot` runs; none while the slot is
/// empty.
pub open spec fn outlets_of(slot: Option<NodeManager>) -> Seq<OutletStatus> {
    match slot {
        Some(nm) => nm.spec_outlets(),
        None => Seq::empty(),
    }
}

/// `o` are the desktop node's options over `state`: node `default`, a
/// listener on loopback with an ephemeral port, no authority identity and no
/// credential name.
pub open spec fn is_desktop_options(o: NodeManagerOptions, state: CliState) -> bool {
    &&& o.state == state
    &&& o.node_name@ == NODE_NAME@
    &&& o.listen_address.ip == (127u8, 0u8, 0u8, 1u8)
    &&& o.listen_address.port == 0
    &&& o.trust.authority_identity is None
    &&& o.trust.credential_name is None
}

/// A manager just built for the `default` node, running no outlet.
pub open spec fn is_new_default_manager(nm: NodeManager) -> bool {
    nm.spec_node_name() == NODE_NAME@ && nm.spec_outlets().len() == 0
}

/// The state of the desktop application: its flags, the CLI state, the node
/// manager of the embedded node (absent while a reset replaces it), the model
/// state and the store it is persisted to.
pub struct AppState<R: ModelStateRepository> {
    global_args: GlobalArgs,
    state: CliState,
    node_manager: Option<NodeManager>,
    model_state: ModelState,
    model_state_repository: R,
}

impl<R: ModelStateRepository> AppState<R> {
    pub closed spec fn spec_global_args(&self) -> GlobalArgs {
        self.global_args
    }

    pub closed spec fn spec_state(&self) -> CliState {
        self.state
    }

    pub closed spec fn spec_node_manager(&self) -> Option<NodeManager> {
        self.node_manager
    }

    pub closed spec fn spec_model_state(&self) -> ModelState {
        self.model_state
    }

    pub closed spec fn spec_repository(&self) -> R {
        self.model_state_repository
    }

    /// The store sits beside the identities of the CLI state, a node manager
    /// of the `default` node is in place, and it runs exactly the outlets of
    /// the model state, which is the stored one.
    pub open spec fn in_sync(&self) -> bool {
        &&& self.spec_state().identities_repository_path matches Some(p)
            && self.spec_repository().location() == p@
        &&& self.spec_node_manager() matches Some(nm) && nm.spec_node_name() == NODE_NAME@
        &&& self.spec_model_state()@ == stored_or_default(self.spec_repository().stored())
        &&& outlets_of(self.spec_node_manager()) == self.spec_model_state()@
    }

    /// After a successful bootstrap or reset the node runs exactly the outlets
    /// of the model state; when the store held nothing, both are empty.
    pub proof fn lemma_outlets_follow_model(&self)
        requires
            self.in_sync(),
        ensures
            outlets_of(self.spec_node_manager()) == self.spec_model_state()@,
            self.spec_repository().stored() is None ==> self.spec_model_state()@.len() == 0
                && outlets_of(self.spec_node_manager()).len() == 0,
    {
    }

    /// Bootstraps the application over `state`: builds the node manager of
    /// the `default` node (`perform` does each build step's outside work),
    /// opens the store beside the identities, loads the stored model state
    /// (or the empty one) and re-creates its outlets. Any failure fails the
    /// whole bootstrap.
    pub fn new<F: Fn(&NodeManagerOptions, FactoryStep) -> bool>(state: CliState, perform: F) -> (r: Result<AppState<R>, AppError>)
        requires
            forall|o: &NodeManagerOptions, s: FactoryStep| call_requires(perform, (o, s)),
        ensures
            r matches Err(AppError::Build(f)) ==> exists|o: NodeManagerOptions|
                #![trigger factory_failed_with(perform, &o, f)]
                is_desktop_options(o, state) && factory_failed_with(perform, &o, f),
            r is Ok ==> exists|o: NodeManagerOptions|
                #![trigger factory_steps_succeeded(perform, &o, 4)]
                is_desktop_options(o, state) && factory_steps_succeeded(perform, &o, 4),
            r is Err && r->Err_0 == AppError::MissingIdentityPath ==> state.identities_repository_path is None,
            state.identities_repository_path is None ==> r is Err && (r->Err_0 == AppError::MissingIdentityPath
                || r->Err_0 is Build),
            r matches Ok(app) ==> app.in_sync() && app.spec_state() == state && app.spec_global_args().quiet
                && aliases_fresh(Seq::empty(), app.spec_model_state()@),
            r matches Err(e) ==> e is Build || e is MissingIdentityPath || e is Repository || e is Replay,
            r matches Err(AppError::Replay(_)) ==> state.identities_repository_path is Some,
            r matches Err(AppError::Repository(_)) ==> state.identities_repository_path is Some,
    {
        let options = desktop_node_manager_options(state.duplicate());
        let node_manager = match make_node_manager(&options, perform) {
            Ok(nm) => nm,
            Err(f) => return Err(AppError::Build(f)),
        };
        let repository = match &state.identities_repository_path {
            Some(path) => match R::open(path) {
                Ok(repo) => repo,
                Err(e) => return Err(AppError::Repository(e)),
            },
            None => return Err(AppError::MissingIdentityPath),
        };
        Self::bootstrap(state, repository, node_manager)
    }

    /// Bootstraps the application over `state`, a store that is already open
    /// and the freshly built `node_manager`: loads the stored model state (or
    /// the empty one) and re-creates its outlets.
    pub fn bootstrap(state: CliState, repository: R, node_manager: NodeManager) -> (r: Result<AppState<R>, AppError>)
        requires
            is_new_default_manager(node_manager),
        ensures
            r matches Ok(app) ==> app.spec_state() == state && app.spec_repository() == repository
                && app.spec_global_args().quiet
                && app.spec_node_manager() is Some
                && app.spec_node_manager()->Some_0.spec_node_name() == NODE_NAME@
                && app.spec_model_state()@ == stored_or_default(repository.stored())
                && outlets_of(app.spec_node_manager()) == app.spec_model_state()@,
            r is Ok && state.identities_repository_path is Some
                && repository.location() == state.identities_repository_path->Some_0@ ==> r->Ok_0.in_sync(),
            r is Ok ==> aliases_fresh(Seq::empty(), stored_or_default(repository.stored())),
            r matches Err(AppError::Replay(_)) ==> !aliases_fresh(Seq::empty(), stored_or_default(repository.stored())),
            r matches Err(e) ==> e is Repository || e is Replay,
    {
        let global_args = GlobalArgs::new().set_quiet();
        let mut node_manager = node_manager;
        let model_state = match load_model_state(&repository, &mut node_manager) {
            Ok(m) => m,
            Err(e) => return Err(e),
        };
        assert(node_manager.spec_outlets() =~= model_state@);
        Ok(AppState {
            global_args,
            state,
            node_manager: Some(node_manager),
            model_state,
            model_state_repository: repository,
        })
    }

    /// Gives up the application state, keeping only its store.
    pub fn into_repository(self) -> (r: R)
        ensures
            r == self.spec_repository(),
    {
        self.model_state_repository
    }

    /// Replaces the embedded node. `stopped` says whether the old node
    /// manager was stopped; if it was not, nothing changes and the reset
    /// fails. Otherwise the old manager leaves its slot. `refreshed` is the
    /// CLI state that the on-disk reset returned, or `None` when that reset
    /// failed, which fails the reset with the slot left empty. Then a new node
    /// manager is built over the new state (`perform` does each build step's
    /// outside work); a failed build is returned and leaves the slot empty.
    /// The new manager takes the slot, the store is reopened beside the new
    /// identities, and the model state is reloaded from it and replayed. A
    /// failure before the store is reopened keeps the old store and model
    /// state.
    pub fn reset<F: Fn(&NodeManagerOptions, FactoryStep) -> bool>(&mut self, stopped: bool, refreshed: Option<CliState>, perform: F) -> (r: Result<(), AppError>)
        requires
            forall|o: &NodeManagerOptions, s: FactoryStep| call_requires(perform, (o, s)),
        ensures
            final(self).spec_global_args() == old(self).spec_global_args(),
            !stopped ==> r == Err::<(), AppError>(AppError::StopFailed) && *final(self) == *old(self),
            r matches Err(AppError::StopFailed) ==> !stopped,
            stopped && refreshed is None ==> r == Err::<(), AppError>(AppError::StateResetFailed)
                && final(self).spec_state() == old(self).spec_state()
                && final(self).spec_node_manager() is None,
            r matches Err(AppError::StateResetFailed) ==> stopped && refreshed is None,
            stopped && refreshed is Some ==> final(self).spec_state() == refreshed->Some_0,
            r matches Err(AppError::Build(f)) ==> stopped && refreshed is Some
                && final(self).spec_node_manager() is None
                && exists|o: NodeManagerOptions|
                    #![trigger factory_failed_with(perform, &o, f)]
                    is_desktop_options(o, final(self).spec_state()) && factory_failed_with(perform, &o, f),
            r is Ok || (r is Err && (r->Err_0 is Repository || r->Err_0 is Replay
                || r->Err_0 == AppError::MissingIdentityPath)) ==> exists|o: NodeManagerOptions|
                #![trigger factory_steps_succeeded(perform, &o, 4)]
                is_desktop_options(o, final(self).spec_state()) && factory_steps_succeeded(perform, &o, 4),
            r is Err && (r->Err_0 is StopFailed || r->Err_0 is StateResetFailed || r->Err_0 is Build
                || r->Err_0 == AppError::MissingIdentityPath) ==>
                final(self).spec_repository() == old(self).spec_repository()
                && final(self).spec_model_state() == old(self).spec_model_state(),
            r is Err && r->Err_0 == AppError::MissingIdentityPath ==> stopped && refreshed is Some
                && final(self).spec_state().identities_repository_path is None,
            stopped && refreshed is Some && final(self).spec_state().identities_repository_path is None ==> r is Err
                && (r->Err_0 == AppError::MissingIdentityPath || r->Err_0 is Build),
            r matches Err(AppError::Repository(_)) ==> stopped && refreshed is Some
                && final(self).spec_state().identities_repository_path is Some
                && final(self).spec_model_state() == old(self).spec_model_state(),
            r is Ok ==> final(self).in_sync() && aliases_fresh(Seq::empty(), final(self).spec_model_state()@),
            r matches Err(AppError::Replay(_)) ==> final(self).spec_state().identities_repository_path is Some
                && !aliases_fresh(Seq::empty(), stored_or_default(final(self).spec_repository().stored())),
            r matches Err(e) ==> !(e is NodeManagerAbsent),
            stopped && refreshed is Some && refreshed->Some_0.identities_repository_path is Some && r is Err
                ==> r->Err_0 is Build || r->Err_0 is Repository || r->Err_0 is Replay,
    {
        if !stopped {
            return Err(AppError::StopFailed);
        }
        self.node_manager = None;
        match refreshed {
            Some(s) => {
                self.state = s;
            },
            None => {
                return Err(AppError::StateResetFailed);
            },
        }
        let options = desktop_node_manager_options(self.state.duplicate());
        let mut node_manager = match make_node_manager(&options, perform) {
            Ok(nm) => nm,
            Err(f) => return Err(AppError::Build(f)),
        };
        let repository = match &self.state.identities_repository_path {
            Some(path) => match R::open(path) {
                Ok(repo) => repo,
                Err(e) => {
                    self.node_manager = Some(node_manager);
                    return Err(AppError::Repository(e));
                },
            },
            None => {
                self.node_manager = Some(node_manager);
                return Err(AppError::MissingIdentityPath);
            },
        };
        self.model_state_repository = repository;
        let loaded = load_model_state(&self.model_state_repository, &mut node_manager);
        self.node_manager = Some(node_manager);
        match loaded {
            Ok(m) => {
                self.model_state = m;
                Ok(())
            },
            Err(e) => Err(e),
        }
    }

    /// The flags the application runs under.
    pub fn global_args(&self) -> (r: GlobalArgs)
        ensures
            r == self.spec_global_args(),
    {
        self.global_args
    }

    /// A copy of the CLI state.
    pub fn state(&self) -> (r: CliState)
        ensures
            r == self.spec_state(),
    {
        self.state.duplicate()
    }

    /// The command options: the application's flags, a copy of the CLI state
    /// and a quiet terminal.
    pub fn options(&self) -> (r: CommandGlobalOpts)
        ensures
            r.global_args == self.spec_global_args(),
            r.state == self.spec_state(),
            r.quiet_terminal,
    {
        CommandGlobalOpts { global_args: self.global_args, state: self.state(), quiet_terminal: true }
    }

    /// Whether the user is enrolled: the CLI state has a default project.
    pub fn is_enrolled(&self) -> (r: bool)
        ensures
            r == self.spec_state().default_project is Some,
    {
        self.state.default_project.is_some()
    }

    /// The outlets the node runs.
    /// Fails while no node manager is in place.
    pub fn tcp_outlet_list(&self) -> (r: Result<Vec<OutletStatus>, AppError>)
        ensures
            r is Err <==> self.spec_node_manager() is None,
            r matches Err(e) ==> e == AppError::NodeManagerAbsent,
            r matches Ok(v) ==> v@ == self.spec_node_manager()->Some_0.spec_outlets(),
    {
        match &self.node_manager {
            Some(nm) => Ok(nm.list_outlets()),
            None => Err(AppError::NodeManagerAbsent),
        }
    }

    /// Replaces the model state by what `f` makes of it, then commits the
    /// result to the store. When the commit fails the new model state is kept
    /// in memory and the store's error is returned.
    pub fn model_mut<F: FnOnce(ModelState) -> ModelState>(&mut self, f: F) -> (r: Result<(), RepositoryError>)
        requires
            call_requires(f, (old(self).spec_model_state(),)),
        ensures
            call_ensures(f, (old(self).spec_model_state(),), final(self).spec_model_state()),
            final(self).spec_global_args() == old(self).spec_global_args(),
            final(self).spec_state() == old(self).spec_state(),
            final(self).spec_node_manager() == old(self).spec_node_manager(),
            final(self).spec_repository().location() == old(self).spec_repository().location(),
            r is Ok ==> final(self).spec_repository().stored() == Some(final(self).spec_model_state()@),
            r is Err ==> final(self).spec_repository().stored() == old(self).spec_repository().stored(),
    {
        let mut current = ModelState::new();
        std::mem::swap(&mut current, &mut self.model_state);
        self.model_state = f(current);
        self.model_state_repository.store(&self.model_state)
    }

    /// What `f` makes of the model state.
    pub fn model<T, F: FnOnce(&ModelState) -> T>(&self, f: F) -> (r: T)
        requires
            call_requires(f, (&self.spec_model_state(),)),
        ensures
            call_ensures(f, (&self.spec_model_state(),), r),
    {
        f(&self.model_state)
    }
}

} // verus!
