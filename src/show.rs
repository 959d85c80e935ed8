use vstd::prelude::*;

verus! {

/// The arguments of the project-show command.
#[derive(Debug)]
pub struct ShowCommand {
    /// Id of the space.
    pub space_id: String,
    /// Id of the project.
    pub project_id: String,
    /// The multi-address of the cloud node to ask.
    pub address: String,
    /// Whether an existing identity is replaced by a new one.
    pub overwrite: bool,
}

impl ShowCommand {
    pub fn new(space_id: String, project_id: String, address: String, overwrite: bool) -> (r: ShowCommand)
        ensures
            r.space_id == space_id,
            r.project_id == project_id,
            r.address == address,
            r.overwrite == overwrite,
    {
        ShowCommand { space_id, project_id, address, overwrite }
    }
}

/// Why the command failed.
#[derive(Debug, Clone, Copy, PartialEq, Eq)]
pub enum ShowFailure {
    Transport,
    Identity,
    ParseAddress,
    Client,
    Request,
    Print,
    StopContext,
}

impl ShowFailure {
    /// The diagnostic printed for the failure.
    pub fn message(&self) -> (r: &'static str)
        ensures
            *self == ShowFailure::ParseAddress ==> r@ == "failed to parse address"@,
    {
        match self {
            ShowFailure::Transport => "failed to create the TCP transport",
            ShowFailure::Identity => "failed to load or create the identity",
            ShowFailure::ParseAddress => "failed to parse address",
            ShowFailure::Client => "failed to open the messaging client",
            ShowFailure::Request => "failed to get the project",
            ShowFailure::Print => "failed to print the project",
            ShowFailure::StopContext => "failed to stop the node",
        }
    }
}

/// Where the one-shot node of the command stands. Each step but the two
/// last ones is a piece of outside work that the driver performs and
/// reports back as succeeded or failed.
#[derive(Debug, Clone, Copy, PartialEq, Eq)]
pub enum ShowStep {
    /// Create a TCP transport over the node's context.
    CreateTransport,
    /// Load the identity, or create it (anew when `overwrite` is set).
    LoadIdentity,
    /// Turn the multi-address into a route.
    ResolveRoute,
    /// Open a messaging client on that route.
    OpenClient,
    /// Ask for the project by space, project and key id.
    GetProject,
    /// Print the response in its debug form.
    PrintResponse,
    /// Stop the context after success.
    StopContext,
    /// Stop the context after a failure, keeping that failure.
    StopAfterFailure(ShowFailure),
    /// The command succeeded and the context is stopped.
    Done,
    /// The command failed and the context is stopped.
    Failed(ShowFailure),
}

/// The step that follows a successful `s`, for the steps of the happy path.
pub open spec fn following(s: ShowStep) -> ShowStep {
    match s {
        ShowStep::CreateTransport => ShowStep::LoadIdentity,
        ShowStep::LoadIdentity => ShowStep::ResolveRoute,
        ShowStep::ResolveRoute => ShowStep::OpenClient,
        ShowStep::OpenClient => ShowStep::GetProject,
        ShowStep::GetProject => ShowStep::PrintResponse,
        ShowStep::PrintResponse => ShowStep::StopContext,
        _ => ShowStep::Done,
    }
}

/// The failure that a failed work step of the happy path stands for.
pub open spec fn failure_of(s: ShowStep) -> ShowFailure {
    match s {
        ShowStep::CreateTransport => ShowFailure::Transport,
        ShowStep::LoadIdentity => ShowFailure::Identity,
        ShowStep::ResolveRoute => ShowFailure::ParseAddress,
        ShowStep::OpenClient => ShowFailure::Client,
        ShowStep::GetProject => ShowFailure::Request,
        _ => ShowFailure::Print,
    }
}

/// A step of the happy path before the context is stopped.
pub open spec fn is_work(s: ShowStep) -> bool {
    s is CreateTransport || s is LoadIdentity || s is ResolveRoute || s is OpenClient
        || s is GetProject || s is PrintResponse
}

/// The command has ended; its context no longer runs.
pub open spec fn is_finished(s: ShowStep) -> bool {
    s is Done || s is Failed
}

/// The step after `s`, given whether its work succeeded.
pub open spec fn next_step(s: ShowStep, succeeded: bool) -> ShowStep {
    if is_work(s) {
        if succeeded {
            following(s)
        } else {
            ShowStep::StopAfterFailure(failure_of(s))
        }
    } else {
        match s {
            ShowStep::StopContext => if succeeded {
                ShowStep::Done
            } else {
                ShowStep::Failed(ShowFailure::StopContext)
            },
            ShowStep::StopAfterFailure(f) => ShowStep::Failed(f),
            _ => s,
        }
    }
}

/// Where the command stands after steps with the outcomes `outcomes`,
/// starting at `s`.
pub open spec fn run_show(s: ShowStep, outcomes: Seq<bool>) -> ShowStep
    decreases outcomes.len(),
{
    if outcomes.len() == 0 {
        s
    } else {
        run_show(next_step(s, outcomes[0]), outcomes.drop_first())
    }
}

/// How many steps at most are left before the command ends.
pub open spec fn steps_left(s: ShowStep) -> nat {
    match s {
        ShowStep::CreateTransport => 7,
        ShowStep::LoadIdentity => 6,
        ShowStep::ResolveRoute => 5,
        ShowStep::OpenClient => 4,
        ShowStep::GetProject => 3,
        ShowStep::PrintResponse => 2,
        ShowStep::StopContext => 1,
        ShowStep::StopAfterFailure(_) => 1,
        _ => 0,
    }
}

/// The command ends only from a step that stops its context, so no run
/// leaves the context running.
pub proof fn lemma_show_ends_only_by_stopping(s: ShowStep, succeeded: bool)
    requires
        !is_finished(s),
        is_finished(next_step(s, succeeded)),
    ensures
        s is StopContext || s is StopAfterFailure,
{
}

/// Whatever the outcomes of its steps, the command has ended, with its
/// context stopped, after at most seven of them.
pub proof fn lemma_show_always_ends(s: ShowStep, outcomes: Seq<bool>)
    requires
        outcomes.len() >= steps_left(s),
    ensures
        is_finished(run_show(s, outcomes)),
    decreases outcomes.len(),
{
    if outcomes.len() > 0 {
        lemma_show_always_ends(next_step(s, outcomes[0]), outcomes.drop_first());
    }
}

/// One more step on top of a run is one more transition.
pub proof fn lemma_run_show_push(s: ShowStep, outcomes: Seq<bool>, last: bool)
    ensures
        run_show(s, outcomes.push(last)) == next_step(run_show(s, outcomes), last),
    decreases outcomes.len(),
{
    if outcomes.len() > 0 {
        assert(outcomes.push(last).drop_first() =~= outcomes.drop_first().push(last));
        assert(outcomes.push(last)[0] == outcomes[0]);
        lemma_run_show_push(next_step(s, outcomes[0]), outcomes.drop_first(), last);
    } else {
        assert(outcomes.push(last).drop_first() =~= Seq::<bool>::empty());
        assert(run_show(next_step(s, last), Seq::<bool>::empty()) == next_step(s, last));
    }
}

/// One more outcome taken from a run is one more transition.
proof fn lemma_run_show_take(s: ShowStep, outcomes: Seq<bool>, k: int)
    requires
        0 <= k < outcomes.len(),
    ensures
        run_show(s, outcomes.take(k + 1)) == next_step(run_show(s, outcomes.take(k)), outcomes[k]),
{
    assert(outcomes.take(k + 1) =~= outcomes.take(k).push(outcomes[k]));
    lemma_run_show_push(s, outcomes.take(k), outcomes[k]);
}

/// When every step succeeds, the command asks for the project, prints the
/// response, stops the context and ends in success.
pub proof fn lemma_show_happy_path(outcomes: Seq<bool>)
    requires
        outcomes.len() == 7,
        forall|i: int| 0 <= i < 7 ==> #[trigger] outcomes[i],
    ensures
        run_show(ShowStep::CreateTransport, outcomes.take(4)) == ShowStep::GetProject,
        run_show(ShowStep::CreateTransport, outcomes.take(5)) == ShowStep::PrintResponse,
        run_show(ShowStep::CreateTransport, outcomes.take(6)) == ShowStep::StopContext,
        run_show(ShowStep::CreateTransport, outcomes) == ShowStep::Done,
        outcome_of(run_show(ShowStep::CreateTransport, outcomes)) == Ok::<(), ShowFailure>(()),
{
    let s = ShowStep::CreateTransport;
    assert(outcomes.take(0) =~= Seq::<bool>::empty());
    lemma_run_show_take(s, outcomes, 0);
    lemma_run_show_take(s, outcomes, 1);
    lemma_run_show_take(s, outcomes, 2);
    lemma_run_show_take(s, outcomes, 3);
    lemma_run_show_take(s, outcomes, 4);
    lemma_run_show_take(s, outcomes, 5);
    lemma_run_show_take(s, outcomes, 6);
    assert(outcomes.take(7) =~= outcomes);
}

/// When the address cannot be turned into a route, the command never opens
/// a client, asks for the project or prints; it stops the context and ends
/// with the address failure.
pub proof fn lemma_show_bad_address(outcomes: Seq<bool>)
    requires
        outcomes.len() >= 4,
        outcomes[0],
        outcomes[1],
        !outcomes[2],
    ensures
        run_show(ShowStep::CreateTransport, outcomes.take(3)) == ShowStep::StopAfterFailure(ShowFailure::ParseAddress),
        forall|k: int| 4 <= k <= outcomes.len() ==> #[trigger] run_show(ShowStep::CreateTransport, outcomes.take(k))
            == ShowStep::Failed(ShowFailure::ParseAddress),
        forall|k: int| 0 <= k <= outcomes.len() ==> !(#[trigger] run_show(ShowStep::CreateTransport, outcomes.take(k)) is OpenClient
            || run_show(ShowStep::CreateTransport, outcomes.take(k)) is GetProject
            || run_show(ShowStep::CreateTransport, outcomes.take(k)) is PrintResponse),
        outcome_of(run_show(ShowStep::CreateTransport, outcomes)) == Err::<(), ShowFailure>(ShowFailure::ParseAddress),
{
    let s = ShowStep::CreateTransport;
    assert(outcomes.take(0) =~= Seq::<bool>::empty());
    lemma_run_show_take(s, outcomes, 0);
    lemma_run_show_take(s, outcomes, 1);
    lemma_run_show_take(s, outcomes, 2);
    lemma_run_show_take(s, outcomes, 3);
    assert forall|k: int| 4 <= k <= outcomes.len() implies #[trigger] run_show(s, outcomes.take(k))
        == ShowStep::Failed(ShowFailure::ParseAddress) by {
        lemma_finished_run_stays(s, outcomes, 4, k);
    }
    assert(outcomes.take(outcomes.len() as int) =~= outcomes);
}

/// A run that has ended stays where it ended, whatever comes after.
proof fn lemma_finished_run_stays(s: ShowStep, outcomes: Seq<bool>, from: int, k: int)
    requires
        0 <= from <= k <= outcomes.len(),
        is_finished(run_show(s, outcomes.take(from))),
    ensures
        run_show(s, outcomes.take(k)) == run_show(s, outcomes.take(from)),
    decreases k - from,
{
    if k > from {
        lemma_finished_run_stays(s, outcomes, from, k - 1);
        lemma_run_show_take(s, outcomes, k - 1);
    }
}

/// The result that a finished step stands for.
pub open spec fn outcome_of(s: ShowStep) -> Result<(), ShowFailure> {
    match s {
        ShowStep::Failed(f) => Err(f),
        _ => Ok(()),
    }
}

/// The steps of a run with outcomes `outcomes` were handed to `perform`, in
/// order, and each returned its outcome.
pub open spec fn performed<F: Fn(&ShowCommand, ShowStep) -> bool>(
    perform: F,
    command: &ShowCommand,
    outcomes: Seq<bool>,
) -> bool {
    forall|k: int|
        0 <= k < outcomes.len() ==> call_ensures(
            perform,
            (command, run_show(ShowStep::CreateTransport, outcomes.take(k))),
            #[trigger] outcomes[k],
        )
}

impl ShowStep {
    /// Whether the command has ended.
    pub fn finished(&self) -> (r: bool)
        ensures
            r == is_finished(*self),
    {
        match self {
            ShowStep::Done => true,
            ShowStep::Failed(_) => true,
            _ => false,
        }
    }
}

impl ShowCommand {
    /// Runs the command to its end: hands each step to `perform`, which does
    /// the outside work and says whether it succeeded, and returns the
    /// command's result. The context is stopped whatever happens.
    pub fn run<F: Fn(&ShowCommand, ShowStep) -> bool>(command: &ShowCommand, perform: F) -> (r: Result<(), ShowFailure>)
        requires
            forall|s: ShowStep| call_requires(perform, (command, s)),
        ensures
            exists|outcomes: Seq<bool>|
                outcomes.len() <= 7 && performed(perform, command, outcomes)
                    && is_finished(#[trigger] run_show(ShowStep::CreateTransport, outcomes))
                    && r == outcome_of(run_show(ShowStep::CreateTransport, outcomes)),
    {
        let mut step = show_start();
        let ghost mut outcomes: Seq<bool> = Seq::empty();
        while !step.finished()
            invariant
                forall|s: ShowStep| call_requires(perform, (command, s)),
                step == run_show(ShowStep::CreateTransport, outcomes),
                outcomes.len() + steps_left(step) <= 7,
                performed(perform, command, outcomes),
            decreases steps_left(step),
        {
            let ok = perform(command, step);
            proof {
                lemma_run_show_push(ShowStep::CreateTransport, outcomes, ok);
                let longer = outcomes.push(ok);
                assert(longer.take(outcomes.len() as int) =~= outcomes);
                assert forall|k: int| 0 <= k < longer.len() implies call_ensures(
                    perform,
                    (command, run_show(ShowStep::CreateTransport, longer.take(k))),
                    #[trigger] longer[k],
                ) by {
                    if k < outcomes.len() {
                        assert(longer.take(k) =~= outcomes.take(k));
                        assert(longer[k] == outcomes[k]);
                    }
                }
                outcomes = longer;
            }
            step = show_next(step, ok);
        }
        match step {
            ShowStep::Failed(f) => Err(f),
            _ => Ok(()),
        }
    }
}

/// The first step of the command.
pub fn show_start() -> (r: ShowStep)
    ensures
        r == ShowStep::CreateTransport,
{
    ShowStep::CreateTransport
}

/// The step after `step`, given whether its work succeeded. A failure stops
/// the context and ends the command with that one failure.
pub fn show_next(step: ShowStep, succeeded: bool) -> (r: ShowStep)
    ensures
        r == next_step(step, succeeded),
{
    match step {
        ShowStep::CreateTransport => if succeeded {
            ShowStep::LoadIdentity
        } else {
            ShowStep::StopAfterFailure(ShowFailure::Transport)
        },
        ShowStep::LoadIdentity => if succeeded {
            ShowStep::ResolveRoute
        } else {
            ShowStep::StopAfterFailure(ShowFailure::Identity)
        },
        ShowStep::ResolveRoute => if succeeded {
            ShowStep::OpenClient
        } else {
            ShowStep::StopAfterFailure(ShowFailure::ParseAddress)
        },
        ShowStep::OpenClient => if succeeded {
            ShowStep::GetProject
        } else {
            ShowStep::StopAfterFailure(ShowFailure::Client)
        },
        ShowStep::GetProject => if succeeded {
            ShowStep::PrintResponse
        } else {
            ShowStep::StopAfterFailure(ShowFailure::Request)
        },
        ShowStep::PrintResponse => if succeeded {
            ShowStep::StopContext
        } else {
            ShowStep::StopAfterFailure(ShowFailure::Print)
        },
        ShowStep::StopContext => if succeeded {
            ShowStep::Done
        } else {
            ShowStep::Failed(ShowFailure::StopContext)
        },
        ShowStep::StopAfterFailure(f) => ShowStep::Failed(f),
        ShowStep::Done => ShowStep::Done,
        ShowStep::Failed(f) => ShowStep::Failed(f),
    }
}

/// Whether the command has ended, and with what result.
pub fn show_outcome(step: ShowStep) -> (r: Option<Result<(), ShowFailure>>)
    ensures
        step is Done ==> r == Some(Ok::<(), ShowFailure>(())),
        step matches ShowStep::Failed(f) ==> r == Some(Err::<(), ShowFailure>(f)),
        !is_finished(step) ==> r is None,
{
    match step {
        ShowStep::Done => Some(Ok(())),
        ShowStep::Failed(f) => Some(Err(f)),
        _ => None,
    }
}

} // verus!
