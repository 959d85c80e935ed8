use vstd::prelude::*;

verus! {

/// What the application reads of the on-disk CLI state: where the identities
/// live and which project is the default one.
#[derive(Debug)]
pub struct CliState {
    pub identities_repository_path: Option<String>,
    pub default_project: Option<String>,
}

impl CliState {
    pub fn new(identities_repository_path: Option<String>, default_project: Option<String>) -> (r: CliState)
        ensures
            r.identities_repository_path == identities_repository_path,
            r.default_project == default_project,
    {
        CliState { identities_repository_path, default_project }
    }

    /// A state as a reset leaves it: identities at `identities_repository_path`,
    /// no project.
    pub fn fresh(identities_repository_path: String) -> (r: CliState)
        ensures
            r.identities_repository_path == Some(identities_repository_path),
            r.default_project is None,
    {
        CliState { identities_repository_path: Some(identities_repository_path), default_project: None }
    }

    /// A field-by-field copy.
    pub fn duplicate(&self) -> (r: CliState)
        ensures
            r == *self,
    {
        CliState {
            identities_repository_path: match &self.identities_repository_path {
                Some(p) => Some(p.clone()),
                None => None,
            },
            default_project: match &self.default_project {
                Some(p) => Some(p.clone()),
                None => None,
            },
        }
    }

    /// Makes `project` the default project.
    pub fn set_default_project(&mut self, project: String)
        ensures
            final(self).default_project == Some(project),
            final(self).identities_repository_path == old(self).identities_repository_path,
    {
        self.default_project = Some(project);
    }
}

/// The command-line flags that the application runs under.
#[derive(Debug, Clone, Copy, PartialEq, Eq)]
pub struct GlobalArgs {
    pub quiet: bool,
    pub no_color: bool,
}

impl GlobalArgs {
    /// No flag set.
    pub fn new() -> (r: GlobalArgs)
        ensures
            !r.quiet,
            !r.no_color,
    {
        GlobalArgs { quiet: false, no_color: false }
    }

    /// The same flags with `quiet` set.
    pub fn set_quiet(self) -> (r: GlobalArgs)
        ensures
            r.quiet,
            r.no_color == self.no_color,
    {
        GlobalArgs { quiet: true, ..self }
    }
}

/// The options a command runs with: flags, a CLI state and a terminal.
#[derive(Debug)]
pub struct CommandGlobalOpts {
    pub global_args: GlobalArgs,
    pub state: CliState,
    /// Whether the terminal prints nothing.
    pub quiet_terminal: bool,
}

} // verus!
