use exo_class_file::testlang::compile::{VarAllocator, VarScoper, VarType};

fn local(v: Option<VarType>) -> Option<usize> {
    match v {
        Some(VarType::Local(n)) => Some(n),
        _ => None,
    }
}

#[test]
fn allocator_counts_up() {
    let mut a = VarAllocator::new();
    assert_eq!(a.alloc_var(), 0);
    assert_eq!(a.alloc_var(), 1);
    assert_eq!(a.alloc_var(), 2);
}

#[test]
fn allocator_reuses_freed_slot_last_first() {
    let mut a = VarAllocator::new();
    let x = a.alloc_var();
    let y = a.alloc_var();
    a.free_var(x);
    a.free_var(y);
    assert_eq!(a.alloc_var(), y);
    assert_eq!(a.alloc_var(), x);
    assert_eq!(a.alloc_var(), 2);
}

#[test]
fn scoper_finds_declared() {
    let mut s = VarScoper::new();
    let v = s.declare_var("x".to_string());
    assert_eq!(local(Some(v)), Some(0));
    assert_eq!(local(s.find_var("x")), Some(0));
    assert!(s.find_var("y").is_none());
}

#[test]
fn scoper_inner_scope_shadows_and_exits() {
    let mut s = VarScoper::new();
    s.declare_var("x".to_string());
    s.enter_new_scope();
    s.declare_var("x".to_string());
    assert_eq!(local(s.find_var("x")), Some(1));
    s.exit_scope();
    assert_eq!(local(s.find_var("x")), Some(0));
    // The inner slot was freed and is handed out again.
    let v = s.declare_var("z".to_string());
    assert_eq!(local(Some(v)), Some(1));
}

#[test]
fn scoper_declare_general_replaces() {
    let mut s = VarScoper::default();
    s.declare_general("g".to_string(), VarType::Global(7));
    match s.find_var("g") {
        Some(VarType::Global(7)) => {}
        _ => panic!("expected the global"),
    }
    s.declare_general("g".to_string(), VarType::Global(9));
    match s.find_var("g") {
        Some(VarType::Global(9)) => {}
        _ => panic!("expected the new global"),
    }
    assert_eq!(s.stack[0].items.len(), 1);
}

#[test]
fn scoper_exit_frees_locals_in_order() {
    let mut s = VarScoper::new();
    s.enter_new_scope();
    s.declare_var("a".to_string());
    s.declare_var("b".to_string());
    s.declare_general("c".to_string(), VarType::Global(3));
    s.exit_scope();
    // b was freed last, so it comes back first.
    let first = s.declare_var("p".to_string());
    let second = s.declare_var("q".to_string());
    assert_eq!(local(Some(first)), Some(1));
    assert_eq!(local(Some(second)), Some(0));
}
