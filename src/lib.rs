//! The verified core of a desktop node: the persisted model of user-declared
//! outlets, its repository, the node's outlet registry, the application
//! state with its bootstrap and reset, the ABAC policy storage contract, and
//! the step logic of the project-show command.
pub mod app_state;
pub mod cli_state;
pub mod memory_policy;
pub mod model_state;
pub mod node;
pub mod policy;
pub mod repository;
pub mod show;

pub use app_state::{replay_model_state, AppError, AppState};
pub use cli_state::{CliState, CommandGlobalOpts, GlobalArgs};
pub use memory_policy::MemoryPolicyStorage;
pub use model_state::{ModelState, OutletStatus};
pub use node::{
    desktop_node_manager_options, make_node_manager, FactoryFailure, FactoryStep, ListenAddress,
    NodeError, NodeManager, NodeManagerOptions,
    TrustContextConfig, NODE_NAME, PROJECT_NAME,
};
pub use policy::{Action, Expr, PolicyError, PolicyStorage, Resource};
pub use repository::{MemoryModelStateRepository, ModelStateRepository, RepositoryError};
pub use show::{show_next, show_outcome, show_start, ShowCommand, ShowFailure, ShowStep};
