use vstd::prelude::*;
use crate::model_state::{ModelState, OutletStatus};

verus! {

/// Why the repository could not be opened, read or written.
#[derive(Debug, PartialEq, Eq)]
pub enum RepositoryError {
    /// The store could not be opened at the given path.
    Open,
    /// A read or a write of the store failed.
    Storage,
    /// What the store holds is not a model state.
    Decode,
}

pub open spec fn model_option_view(o: Option<ModelState>) -> Option<Seq<OutletStatus>> {
    match o {
        Some(m) => Some(m@),
        None => None,
    }
}

/// The model state that a bootstrap starts from: the stored one, or the empty
/// one when none was ever stored.
pub open spec fn stored_or_default(o: Option<Seq<OutletStatus>>) -> Seq<OutletStatus> {
    match o {
        Some(s) => s,
        None => Seq::empty(),
    }
}

/// Durable storage of the model state, colocated with the identities.
pub trait ModelStateRepository: Sized {
    /// The directory of the identities that the store sits beside.
    spec fn location(&self) -> Seq<char>;

    /// The model state last committed to the store, if any.
    spec fn stored(&self) -> Option<Seq<OutletStatus>>;

    /// Opens, or creates, the store beside the identities at `identity_path`.
    fn open(identity_path: &String) -> (r: Result<Self, RepositoryError>)
        ensures
            r matches Ok(repo) ==> repo.location() == identity_path@;

    /// The last committed model state, or `None` if none was ever stored.
    fn load(&self) -> (r: Result<Option<ModelState>, RepositoryError>)
        ensures
            r matches Ok(o) ==> model_option_view(o) == self.stored();

    /// Commits `state` as a whole: a later load sees either the previous value
    /// or this one.
    fn store(&mut self, state: &ModelState) -> (r: Result<(), RepositoryError>)
        ensures
            final(self).location() == old(self).location(),
            r is Ok ==> final(self).stored() == Some(state@),
            r is Err ==> final(self).stored() == old(self).stored(),
    ;
}

/// A model-state store held in memory; opening one at a path starts it empty
/// and writable. It is not durable: what it holds lives as long as the value,
/// so a restart that keeps it hands the value itself to `bootstrap`.
#[derive(Debug)]
pub struct MemoryModelStateRepository {
    location: String,
    slot: Option<ModelState>,
    writable: bool,
}

impl MemoryModelStateRepository {
    /// Whether commits are accepted.
    pub closed spec fn spec_writable(&self) -> bool {
        self.writable
    }

    /// A writable store at `identity_path` that already holds `state`.
    pub fn holding(identity_path: &String, state: &ModelState) -> (r: MemoryModelStateRepository)
        ensures
            r.location() == identity_path@,
            r.stored() == Some(state@),
            r.spec_writable(),
    {
        MemoryModelStateRepository {
            location: identity_path.clone(),
            slot: Some(state.duplicate()),
            writable: true,
        }
    }

    /// An empty store at `identity_path` that refuses every commit.
    pub fn read_only(identity_path: &String) -> (r: MemoryModelStateRepository)
        ensures
            r.location() == identity_path@,
            r.stored() is None,
            !r.spec_writable(),
    {
        MemoryModelStateRepository { location: identity_path.clone(), slot: None, writable: false }
    }
}

impl ModelStateRepository for MemoryModelStateRepository {
    closed spec fn location(&self) -> Seq<char> {
        self.location@
    }

    closed spec fn stored(&self) -> Option<Seq<OutletStatus>> {
        model_option_view(self.slot)
    }

    fn open(identity_path: &String) -> (r: Result<MemoryModelStateRepository, RepositoryError>)
        ensures
            r is Ok && r->Ok_0.stored() is None && r->Ok_0.spec_writable(),
    {
        Ok(MemoryModelStateRepository { location: identity_path.clone(), slot: None, writable: true })
    }

    fn load(&self) -> (r: Result<Option<ModelState>, RepositoryError>)
        ensures
            r is Ok,
    {
        match &self.slot {
            Some(m) => Ok(Some(m.duplicate())),
            None => Ok(None),
        }
    }

    fn store(&mut self, state: &ModelState) -> (r: Result<(), RepositoryError>)
        ensures
            r is Ok <==> old(self).spec_writable(),
            final(self).spec_writable() == old(self).spec_writable(),
    {
        if self.writable {
            self.slot = Some(state.duplicate());
            Ok(())
        } else {
            Err(RepositoryError::Storage)
        }
    }
}

} // verus!
