use desktop_node::{Action, Expr, MemoryPolicyStorage, PolicyStorage, Resource};

#[test]
fn policy_roundtrip() {
    let mut s = MemoryPolicyStorage::new();
    let r1 = Resource::new("R1");
    let read = Action::new("read");
    let e = Expr::new("(= subject.role \"admin\")");
    s.set_policy(&r1, &read, &e).unwrap();
    assert_eq!(s.get_policy(&r1, &read).unwrap().map(|x| x.0), Some(e.0.clone()));
    let listed = s.policies(&r1).unwrap();
    assert_eq!(listed.len(), 1);
    assert_eq!(listed[0].0 .0, "read");
    assert_eq!(listed[0].1 .0, e.0);
    s.del_policy(&r1, &read).unwrap();
    assert!(s.get_policy(&r1, &read).unwrap().is_none());
}

#[test]
fn set_replaces_earlier_binding() {
    let mut s = MemoryPolicyStorage::new();
    let r = Resource::new("R1");
    let a = Action::new("write");
    s.set_policy(&r, &a, &Expr::new("true")).unwrap();
    s.set_policy(&r, &a, &Expr::new("false")).unwrap();
    assert_eq!(s.get_policy(&r, &a).unwrap().map(|x| x.0), Some("false".to_string()));
    assert_eq!(s.policies(&r).unwrap().len(), 1);
}

#[test]
fn deleting_a_missing_binding_succeeds() {
    let mut s = MemoryPolicyStorage::new();
    assert!(s.del_policy(&Resource::new("R"), &Action::new("read")).is_ok());
    assert!(s.get_policy(&Resource::new("R"), &Action::new("read")).unwrap().is_none());
}

#[test]
fn list_holds_only_live_bindings_of_the_resource() {
    let mut s = MemoryPolicyStorage::new();
    let r1 = Resource::new("R1");
    let r2 = Resource::new("R2");
    s.set_policy(&r1, &Action::new("read"), &Expr::new("a")).unwrap();
    s.set_policy(&r1, &Action::new("write"), &Expr::new("b")).unwrap();
    s.set_policy(&r2, &Action::new("read"), &Expr::new("c")).unwrap();
    s.del_policy(&r1, &Action::new("read")).unwrap();
    let listed = s.policies(&r1).unwrap();
    let pairs: Vec<(String, String)> = listed.into_iter().map(|(a, e)| (a.0, e.0)).collect();
    assert_eq!(pairs, vec![("write".to_string(), "b".to_string())]);
    assert_eq!(s.policies(&r2).unwrap().len(), 1);
    assert!(s.policies(&Resource::new("R3")).unwrap().is_empty());
}
