use vstd::prelude::*;
use crate::cli_state::CliState;
use crate::model_state::{copy_outlets, has_alias, ModelState, OutletStatus};

verus! {

/// The name of the node that the application embeds.
pub const NODE_NAME: &'static str = "default";

/// The name of the project that enrollment creates.
pub const PROJECT_NAME: &'static str = "default";

/// An IPv4 socket address.
#[derive(Debug, Clone, Copy, PartialEq, Eq)]
pub struct ListenAddress {
    pub ip: (u8, u8, u8, u8),
    pub port: u16,
}

impl ListenAddress {
    /// Loopback with port 0: the operating system picks a free port.
    pub fn loopback_ephemeral() -> (r: ListenAddress)
        ensures
            r.ip == (127u8, 0u8, 0u8, 1u8),
            r.port == 0,
    {
        ListenAddress { ip: (127, 0, 0, 1), port: 0 }
    }
}

/// The authority a node trusts to issue credentials.
#[derive(Debug)]
pub struct TrustContextConfig {
    pub authority_identity: Option<String>,
    pub credential_name: Option<String>,
}

/// What a node manager is built from: the CLI state it works on, the node
/// whose identity state is initialised, where its TCP listener binds, and its
/// trust context.
#[derive(Debug)]
pub struct NodeManagerOptions {
    pub state: CliState,
    pub node_name: String,
    pub listen_address: ListenAddress,
    pub trust: TrustContextConfig,
}

/// The options of the desktop node over `state`: node `default`, a listener
/// on loopback with an ephemeral port, and a trust context with no authority
/// identity and no credential name.
pub fn desktop_node_manager_options(state: CliState) -> (r: NodeManagerOptions)
    ensures
        r.state == state,
        r.node_name@ == NODE_NAME@,
        r.listen_address.ip == (127u8, 0u8, 0u8, 1u8),
        r.listen_address.port == 0,
        r.trust.authority_identity is None,
        r.trust.credential_name is None,
{
    NodeManagerOptions {
        state,
        node_name: NODE_NAME.to_string(),
        listen_address: ListenAddress::loopback_ephemeral(),
        trust: TrustContextConfig { authority_identity: None, credential_name: None },
    }
}

/// A step of building a node manager; each is outside work on the node's
/// context.
#[derive(Debug, Clone, Copy, PartialEq, Eq)]
pub enum FactoryStep {
    /// Make sure the node has an identity directory, creating one if absent.
    InitNodeState,
    /// Create a TCP transport over the context.
    CreateTransport,
    /// Bind the transport's listener to the options' address.
    Listen,
    /// Hand the general, transport and trust options to the manager.
    CreateManager,
}

/// Why building a node manager failed.
#[derive(Debug, Clone, Copy, PartialEq, Eq)]
pub enum FactoryFailure {
    NodeState,
    Transport,
    Listen,
    Manager,
}

/// The steps of building a node manager, in order.
pub open spec fn factory_steps() -> Seq<FactoryStep> {
    seq![FactoryStep::InitNodeState, FactoryStep::CreateTransport, FactoryStep::Listen, FactoryStep::CreateManager]
}

pub open spec fn factory_failure(s: FactoryStep) -> FactoryFailure {
    match s {
        FactoryStep::InitNodeState => FactoryFailure::NodeState,
        FactoryStep::CreateTransport => FactoryFailure::Transport,
        FactoryStep::Listen => FactoryFailure::Listen,
        FactoryStep::CreateManager => FactoryFailure::Manager,
    }
}

/// The first `n` steps were handed to `perform` and succeeded.
pub open spec fn factory_steps_succeeded<F: Fn(&NodeManagerOptions, FactoryStep) -> bool>(
    perform: F,
    options: &NodeManagerOptions,
    n: int,
) -> bool {
    forall|i: int| 0 <= i < n ==> call_ensures(perform, (options, #[trigger] factory_steps()[i]), true)
}

/// The build over `options` failed with `f`: the steps before one step
/// succeeded, that step failed, and `f` names it.
pub open spec fn factory_failed_with<F: Fn(&NodeManagerOptions, FactoryStep) -> bool>(
    perform: F,
    options: &NodeManagerOptions,
    f: FactoryFailure,
) -> bool {
    exists|i: int|
        0 <= i < 4 && factory_steps_succeeded(perform, options, i)
            && call_ensures(perform, (options, #[trigger] factory_steps()[i]), false)
            && f == factory_failure(factory_steps()[i])
}

/// Builds the node manager for `options`. `perform` does each step's outside
/// work and says whether it succeeded. The first failure aborts the build
/// and is returned; no manager comes out of a partial build.
pub fn make_node_manager<F: Fn(&NodeManagerOptions, FactoryStep) -> bool>(
    options: &NodeManagerOptions,
    perform: F,
) -> (r: Result<NodeManager, FactoryFailure>)
    requires
        forall|s: FactoryStep| call_requires(perform, (options, s)),
    ensures
        r matches Ok(nm) ==> factory_steps_succeeded(perform, options, 4)
            && nm.spec_node_name() == options.node_name@
            && nm.spec_outlets().len() == 0,
        r matches Err(f) ==> factory_failed_with(perform, options, f),
{
    let ok = perform(options, FactoryStep::InitNodeState);
    if !ok {
        assert(factory_steps()[0] == FactoryStep::InitNodeState);
        return Err(FactoryFailure::NodeState);
    }
    let ok = perform(options, FactoryStep::CreateTransport);
    if !ok {
        assert(factory_steps()[1] == FactoryStep::CreateTransport);
        assert(factory_steps_succeeded(perform, options, 1));
        return Err(FactoryFailure::Transport);
    }
    let ok = perform(options, FactoryStep::Listen);
    if !ok {
        assert(factory_steps()[2] == FactoryStep::Listen);
        assert(factory_steps_succeeded(perform, options, 2));
        return Err(FactoryFailure::Listen);
    }
    let ok = perform(options, FactoryStep::CreateManager);
    if !ok {
        assert(factory_steps()[3] == FactoryStep::CreateManager);
        assert(factory_steps_succeeded(perform, options, 3));
        return Err(FactoryFailure::Manager);
    }
    assert(factory_steps_succeeded(perform, options, 4));
    Ok(NodeManager::new(options))
}

/// Why the node manager refused a request.
#[derive(Debug, PartialEq, Eq)]
pub enum NodeError {
    /// An outlet with this alias already runs.
    AliasTaken,
}

/// Each outlet of `added`, taken in order, has an alias that neither `existing`
/// nor an earlier outlet of `added` holds.
pub open spec fn aliases_fresh(existing: Seq<OutletStatus>, added: Seq<OutletStatus>) -> bool {
    forall|i: int| 0 <= i < added.len() ==> !has_alias(existing + added.subrange(0, i), (#[trigger] added[i]).alias@)
}

/// The outlets that a node runs, by alias.
#[derive(Debug)]
pub struct NodeManager {
    node_name: String,
    outlets: Vec<OutletStatus>,
}

impl NodeManager {
    pub closed spec fn spec_node_name(&self) -> Seq<char> {
        self.node_name@
    }

    /// The running outlets, in order of creation.
    pub closed spec fn spec_outlets(&self) -> Seq<OutletStatus> {
        self.outlets@
    }

    /// A manager for the node named in `options`, running no outlet.
    pub fn new(options: &NodeManagerOptions) -> (r: NodeManager)
        ensures
            r.spec_node_name() == options.node_name@,
            r.spec_outlets() == Seq::<OutletStatus>::empty(),
    {
        NodeManager { node_name: options.node_name.clone(), outlets: Vec::new() }
    }

    pub fn node_name(&self) -> (r: &String)
        ensures
            r@ == self.spec_node_name(),
    {
        &self.node_name
    }

    /// Whether an outlet named `alias` runs.
    pub fn has_outlet(&self, alias: &String) -> (r: bool)
        ensures
            r == has_alias(self.spec_outlets(), alias@),
    {
        let mut i: usize = 0;
        while i < self.outlets.len()
            invariant
                i <= self.outlets@.len(),
                forall|j: int| 0 <= j < i ==> (#[trigger] self.outlets@[j]).alias@ != alias@,
            decreases self.outlets.len() - i,
        {
            if self.outlets[i].alias == *alias {
                return true;
            }
            i = i + 1;
        }
        false
    }

    /// Records a new outlet; an alias that already runs is refused.
    pub fn create_outlet(&mut self, outlet: OutletStatus) -> (r: Result<(), NodeError>)
        ensures
            final(self).spec_node_name() == old(self).spec_node_name(),
            r is Ok <==> !has_alias(old(self).spec_outlets(), outlet.alias@),
            r is Ok ==> final(self).spec_outlets() == old(self).spec_outlets().push(outlet),
            r is Err ==> final(self).spec_outlets() == old(self).spec_outlets(),
    {
        if self.has_outlet(&outlet.alias) {
            Err(NodeError::AliasTaken)
        } else {
            self.outlets.push(outlet);
            Ok(())
        }
    }

    /// The running outlets.
    pub fn list_outlets(&self) -> (r: Vec<OutletStatus>)
        ensures
            r@ == self.spec_outlets(),
    {
        copy_outlets(&self.outlets)
    }

    /// Re-creates every outlet of `model`, in order. It fails as a whole when
    /// one of them cannot be created.
    pub fn replay(&mut self, model: &ModelState) -> (r: Result<(), NodeError>)
        ensures
            final(self).spec_node_name() == old(self).spec_node_name(),
            r is Ok <==> aliases_fresh(old(self).spec_outlets(), model@),
            r is Ok ==> final(self).spec_outlets() == old(self).spec_outlets() + model@,
    {
        let ghost start = self.outlets@;
        let outlets = model.get_tcp_outlets();
        let mut i: usize = 0;
        while i < outlets.len()
            invariant
                outlets@ == model@,
                start == old(self).outlets@,
                i <= outlets@.len(),
                self.node_name@ == old(self).node_name@,
                self.outlets@ == start + outlets@.subrange(0, i as int),
                aliases_fresh(start, outlets@.subrange(0, i as int)),
            decreases outlets.len() - i,
        {
            let ghost done = outlets@.subrange(0, i as int);
            let next_outlet = outlets[i].duplicate();
            match self.create_outlet(next_outlet) {
                Ok(()) => {
                    proof {
                        let next = outlets@.subrange(0, i + 1);
                        assert(next =~= done.push(outlets@[i as int]));
                        assert(self.outlets@ =~= start + next);
                        assert forall|j: int| 0 <= j < next.len() implies !has_alias(
                            start + next.subrange(0, j),
                            (#[trigger] next[j]).alias@,
                        ) by {
                            if j < i {
                                assert(next.subrange(0, j) =~= done.subrange(0, j));
                                assert(next[j] == done[j]);
                            } else {
                                assert(next.subrange(0, j) =~= done);
                            }
                        }
                    }
                },
                Err(e) => {
                    proof {
                        assert(done =~= model@.subrange(0, i as int));
                        assert(has_alias(self.outlets@, next_outlet.alias@));
                        assert(next_outlet.alias@ == model@[i as int].alias@);
                        assert(has_alias(start + model@.subrange(0, i as int), model@[i as int].alias@));
                        assert(!aliases_fresh(start, model@));
                    }
                    return Err(e);
                },
            }
            i = i + 1;
        }
        proof {
            assert(outlets@.subrange(0, i as int) =~= model@);
        }
        Ok(())
    }
}

} // verus!
