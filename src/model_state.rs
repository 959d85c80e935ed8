use vstd::prelude::*;

verus! {

/// A user-declared outlet: a named forwarder exposing a local TCP service.
#[derive(Debug)]
pub struct OutletStatus {
    /// The local service address, for example `127.0.0.1:5000`.
    pub socket_addr: String,
    /// The address of the worker that serves the outlet inside the node.
    pub worker_addr: String,
    /// The name the user gave the outlet.
    pub alias: String,
}

impl OutletStatus {
    pub fn new(socket_addr: String, worker_addr: String, alias: String) -> (r: OutletStatus)
        ensures
            r.socket_addr == socket_addr,
            r.worker_addr == worker_addr,
            r.alias == alias,
    {
        OutletStatus { socket_addr, worker_addr, alias }
    }

    /// A field-by-field copy.
    pub fn duplicate(&self) -> (r: OutletStatus)
        ensures
            r == *self,
    {
        OutletStatus {
            socket_addr: self.socket_addr.clone(),
            worker_addr: self.worker_addr.clone(),
            alias: self.alias.clone(),
        }
    }
}

/// Copies every outlet of `v`, in order.
pub fn copy_outlets(v: &Vec<OutletStatus>) -> (r: Vec<OutletStatus>)
    ensures
        r@ == v@,
{
    let mut r: Vec<OutletStatus> = Vec::new();
    let mut i: usize = 0;
    while i < v.len()
        invariant
            i <= v.len(),
            r@ == v@.subrange(0, i as int),
        decreases v.len() - i,
    {
        r.push(v[i].duplicate());
        i = i + 1;
    }
    assert(r@ =~= v@);
    r
}

/// Whether some outlet of `s` is named `alias`.
pub open spec fn has_alias(s: Seq<OutletStatus>, alias: Seq<char>) -> bool {
    exists|i: int| 0 <= i < s.len() && (#[trigger] s[i]).alias@ == alias
}

/// The outlets of `s` that are not named `alias`, in order.
pub open spec fn without_alias(s: Seq<OutletStatus>, alias: Seq<char>) -> Seq<OutletStatus> {
    s.filter(|o: OutletStatus| o.alias@ != alias)
}

/// The user-visible configuration of the node: the outlets the user declared.
/// It carries no behaviour and holds no resources.
#[derive(Debug)]
pub struct ModelState {
    pub tcp_outlets: Vec<OutletStatus>,
}

impl View for ModelState {
    type V = Seq<OutletStatus>;

    open spec fn view(&self) -> Seq<OutletStatus> {
        self.tcp_outlets@
    }
}

impl Default for ModelState {
    fn default() -> (r: ModelState)
        ensures
            r@ == Seq::<OutletStatus>::empty(),
    {
        ModelState { tcp_outlets: Vec::new() }
    }
}

impl ModelState {
    /// The empty model state.
    pub fn new() -> (r: ModelState)
        ensures
            r@ == Seq::<OutletStatus>::empty(),
    {
        ModelState { tcp_outlets: Vec::new() }
    }

    /// A deep copy.
    pub fn duplicate(&self) -> (r: ModelState)
        ensures
            r@ == self@,
    {
        ModelState { tcp_outlets: copy_outlets(&self.tcp_outlets) }
    }

    /// Appends an outlet.
    pub fn add_tcp_outlet(&mut self, status: OutletStatus)
        ensures
            final(self)@ == old(self)@.push(status),
    {
        self.tcp_outlets.push(status);
    }

    /// Removes every outlet named `alias`, keeping the others in order.
    pub fn delete_tcp_outlet(&mut self, alias: &String)
        ensures
            final(self)@ == without_alias(old(self)@, alias@),
    {
        let mut kept: Vec<OutletStatus> = Vec::new();
        let mut i: usize = 0;
        while i < self.tcp_outlets.len()
            invariant
                i <= self.tcp_outlets.len(),
                self.tcp_outlets@ == old(self).tcp_outlets@,
                kept@ == without_alias(self.tcp_outlets@.subrange(0, i as int), alias@),
            decreases self.tcp_outlets.len() - i,
        {
            let ghost before = self.tcp_outlets@.subrange(0, i as int);
            let ghost next = self.tcp_outlets@[i as int];
            assert(self.tcp_outlets@.subrange(0, i + 1) =~= before.push(next));
            assert(before.push(next).drop_last() =~= before);
            reveal(Seq::filter);
            if self.tcp_outlets[i].alias != *alias {
                kept.push(self.tcp_outlets[i].duplicate());
            }
            i = i + 1;
        }
        assert(self.tcp_outlets@.subrange(0, i as int) =~= old(self)@);
        self.tcp_outlets = kept;
    }

    /// The declared outlets, in order.
    pub fn get_tcp_outlets(&self) -> (r: &Vec<OutletStatus>)
        ensures
            r@ == self@,
    {
        &self.tcp_outlets
    }
}

} // verus!
