use saraswati::scope::{ScopeKind, ScopeStack};

/// Entering and leaving scopes moves the depth as the tree-walk nesting
/// does, ending balanced at zero.
#[test]
fn enter_exit_balance() {
    let mut st = ScopeStack::new();
    assert_eq!(st.depth(), 0);
    st.enter_scope(ScopeKind::Function);
    assert_eq!(st.depth(), 1);
    st.enter_scope(ScopeKind::Block);
    assert_eq!(st.depth(), 2);
    st.exit_scope();
    assert_eq!(st.depth(), 1);
    st.exit_scope();
    assert_eq!(st.depth(), 0);
}

/// The walk stands inside a function exactly while some frame on the stack
/// is a function body.
#[test]
fn in_function_tracks_frames() {
    let mut st = ScopeStack::new();
    assert!(!st.in_function());
    st.enter_scope(ScopeKind::Block);
    assert!(!st.in_function());
    st.enter_scope(ScopeKind::Function);
    assert!(st.in_function());
    st.enter_scope(ScopeKind::Block);
    assert!(st.in_function());
    st.exit_scope();
    st.exit_scope();
    assert!(!st.in_function());
}

/// Lookup walks from innermost to outermost and answers with the nearest
/// frame holding the binding.
#[test]
fn lookup_finds_nearest_binding() {
    let mut st = ScopeStack::new();
    st.enter_scope(ScopeKind::Function);
    st.declare("x".to_string());
    st.declare("y".to_string());
    st.enter_scope(ScopeKind::Block);
    st.declare("x".to_string());
    assert_eq!(st.lookup(&"x".to_string()), Some(1));
    assert_eq!(st.lookup(&"y".to_string()), Some(0));
    assert_eq!(st.lookup(&"z".to_string()), None);
    st.exit_scope();
    assert_eq!(st.lookup(&"x".to_string()), Some(0));
}

/// A binding dies with its frame.
#[test]
fn binding_dropped_on_exit() {
    let mut st = ScopeStack::new();
    st.enter_scope(ScopeKind::Block);
    st.enter_scope(ScopeKind::Block);
    st.declare("inner".to_string());
    assert_eq!(st.lookup(&"inner".to_string()), Some(1));
    st.exit_scope();
    assert_eq!(st.lookup(&"inner".to_string()), None);
}
