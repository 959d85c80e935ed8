use vstd::prelude::*;

verus! {

/// The resource half of a policy key.
#[derive(Debug)]
pub struct Resource(pub String);

/// The action half of a policy key.
#[derive(Debug)]
pub struct Action(pub String);

/// An ABAC policy expression, kept by storage as an opaque value.
#[derive(Debug)]
pub struct Expr(pub String);

impl View for Resource {
    type V = Seq<char>;

    open spec fn view(&self) -> Seq<char> {
        self.0@
    }
}

impl View for Action {
    type V = Seq<char>;

    open spec fn view(&self) -> Seq<char> {
        self.0@
    }
}

impl View for Expr {
    type V = Seq<char>;

    open spec fn view(&self) -> Seq<char> {
        self.0@
    }
}

impl Resource {
    pub fn new(name: &str) -> (r: Resource)
        ensures
            r@ == name@,
    {
        Resource(name.to_string())
    }
}

impl Action {
    pub fn new(name: &str) -> (r: Action)
        ensures
            r@ == name@,
    {
        Action(name.to_string())
    }

    pub fn duplicate(&self) -> (r: Action)
        ensures
            r@ == self@,
    {
        Action(self.0.clone())
    }
}

impl Expr {
    pub fn new(text: &str) -> (r: Expr)
        ensures
            r@ == text@,
    {
        Expr(text.to_string())
    }

    pub fn duplicate(&self) -> (r: Expr)
        ensures
            r@ == self@,
    {
        Expr(self.0.clone())
    }
}

/// A storage-level failure (I/O, corruption).
#[derive(Debug, PartialEq, Eq)]
pub enum PolicyError {
    Storage,
}

/// A binding key: resource and action.
pub type PolicyKey = (Seq<char>, Seq<char>);

/// The expression bound to `(r, a)` in `m`, if any.
pub open spec fn lookup(m: Map<PolicyKey, Seq<char>>, r: Seq<char>, a: Seq<char>) -> Option<Seq<char>> {
    if m.contains_key((r, a)) {
        Some(m[(r, a)])
    } else {
        None
    }
}

pub open spec fn expr_option_view(o: Option<Expr>) -> Option<Seq<char>> {
    match o {
        Some(e) => Some(e@),
        None => None,
    }
}

/// `v` lists the bindings of resource `r` in `m`: each pair once, in some order.
pub open spec fn lists_exactly(v: Seq<(Action, Expr)>, m: Map<PolicyKey, Seq<char>>, r: Seq<char>) -> bool {
    &&& forall|i: int| 0 <= i < v.len() ==> lookup(m, r, (#[trigger] v[i]).0@) == Some(v[i].1@)
    &&& forall|a: Seq<char>| #[trigger] m.contains_key((r, a)) ==> exists|i: int| 0 <= i < v.len() && (#[trigger] v[i]).0@ == a
    &&& forall|i: int, j: int| 0 <= i < v.len() && 0 <= j < v.len() && i != j ==> (#[trigger] v[i]).0@ != (#[trigger] v[j]).0@
}

/// Storage of ABAC policies keyed by resource and action.
/// Any operation may fail with a storage-level error; when it succeeds it
/// behaves as a map from keys to expressions.
pub trait PolicyStorage {
    /// The bindings held.
    spec fn policy_map(&self) -> Map<PolicyKey, Seq<char>>;

    /// The expression bound to `(r, a)`, or `None`.
    fn get_policy(&self, r: &Resource, a: &Action) -> (res: Result<Option<Expr>, PolicyError>)
        ensures
            res matches Ok(o) ==> expr_option_view(o) == lookup(self.policy_map(), r@, a@);

    /// Binds `c` to `(r, a)`, replacing any earlier binding.
    fn set_policy(&mut self, r: &Resource, a: &Action, c: &Expr) -> (res: Result<(), PolicyError>)
        ensures
            res is Ok ==> final(self).policy_map() == old(self).policy_map().insert((r@, a@), c@);

    /// Removes the binding of `(r, a)`; removing an absent one succeeds.
    fn del_policy(&mut self, r: &Resource, a: &Action) -> (res: Result<(), PolicyError>)
        ensures
            res is Ok ==> final(self).policy_map() == old(self).policy_map().remove((r@, a@));

    /// Every `(action, expression)` bound for resource `r`.
    fn policies(&self, r: &Resource) -> (res: Result<Vec<(Action, Expr)>, PolicyError>)
        ensures
            res matches Ok(v) ==> lists_exactly(v@, self.policy_map(), r@);
}

/// One write to a policy storage.
pub enum PolicyWrite {
    Bind(Seq<char>, Seq<char>, Seq<char>),
    Unbind(Seq<char>, Seq<char>),
}

/// The bindings after the successful writes `ws`, applied in order to `m`.
pub open spec fn apply_writes(m: Map<PolicyKey, Seq<char>>, ws: Seq<PolicyWrite>) -> Map<PolicyKey, Seq<char>>
    decreases ws.len(),
{
    if ws.len() == 0 {
        m
    } else {
        let before = apply_writes(m, ws.drop_last());
        match ws.last() {
            PolicyWrite::Bind(r, a, e) => before.insert((r, a), e),
            PolicyWrite::Unbind(r, a) => before.remove((r, a)),
        }
    }
}

/// What the last write to `(r, a)` in `ws` left there: its expression if it
/// was a `set`, nothing if it was a `delete` or if there was none.
pub open spec fn last_write(ws: Seq<PolicyWrite>, r: Seq<char>, a: Seq<char>) -> Option<Seq<char>>
    decreases ws.len(),
{
    if ws.len() == 0 {
        None
    } else {
        match ws.last() {
            PolicyWrite::Bind(r2, a2, e) => if r2 == r && a2 == a {
                Some(e)
            } else {
                last_write(ws.drop_last(), r, a)
            },
            PolicyWrite::Unbind(r2, a2) => if r2 == r && a2 == a {
                None
            } else {
                last_write(ws.drop_last(), r, a)
            },
        }
    }
}

/// `set` then `get` of the same key returns the stored expression.
pub proof fn lemma_set_then_get(m: Map<PolicyKey, Seq<char>>, r: Seq<char>, a: Seq<char>, e: Seq<char>)
    ensures
        lookup(m.insert((r, a), e), r, a) == Some(e),
{
}

/// `set`, then `delete`, then `get` of the same key returns nothing.
pub proof fn lemma_set_delete_then_get(m: Map<PolicyKey, Seq<char>>, r: Seq<char>, a: Seq<char>, e: Seq<char>)
    ensures
        lookup(m.insert((r, a), e).remove((r, a)), r, a) is None,
{
}

/// From an empty storage, after any successful writes, `get` returns what the
/// last write to that key left.
pub proof fn lemma_get_after_writes(ws: Seq<PolicyWrite>, r: Seq<char>, a: Seq<char>)
    ensures
        lookup(apply_writes(Map::empty(), ws), r, a) == last_write(ws, r, a),
    decreases ws.len(),
{
    if ws.len() > 0 {
        lemma_get_after_writes(ws.drop_last(), r, a);
    }
}

/// From an empty storage, after any successful writes, a listing of resource
/// `r` holds `(a, e)` exactly when the last write to `(r, a)` set `e`.
pub proof fn lemma_list_after_writes(ws: Seq<PolicyWrite>, r: Seq<char>, v: Seq<(Action, Expr)>)
    requires
        lists_exactly(v, apply_writes(Map::empty(), ws), r),
    ensures
        forall|a: Seq<char>, e: Seq<char>|
            (exists|i: int| 0 <= i < v.len() && (#[trigger] v[i]).0@ == a && v[i].1@ == e)
                <==> last_write(ws, r, a) == Some(e),
{
    let m = apply_writes(Map::empty(), ws);
    assert forall|a: Seq<char>, e: Seq<char>|
        (exists|i: int| 0 <= i < v.len() && (#[trigger] v[i]).0@ == a && v[i].1@ == e)
            <==> last_write(ws, r, a) == Some(e) by {
        lemma_get_after_writes(ws, r, a);
        if last_write(ws, r, a) == Some(e) {
            assert(m.contains_key((r, a)));
            let i = choose|i: int| 0 <= i < v.len() && (#[trigger] v[i]).0@ == a;
            assert(lookup(m, r, v[i].0@) == Some(v[i].1@));
        }
        if exists|i: int| 0 <= i < v.len() && (#[trigger] v[i]).0@ == a && v[i].1@ == e {
            let i = choose|i: int| 0 <= i < v.len() && (#[trigger] v[i]).0@ == a && v[i].1@ == e;
            assert(lookup(m, r, v[i].0@) == Some(v[i].1@));
        }
    }
}

} // verus!
