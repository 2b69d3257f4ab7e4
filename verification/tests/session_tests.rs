use easymacros::session::{ContextState, SessionModel};

#[test]
fn one_context_lives_and_dies_in_order() {
    let mut s = SessionModel::open();
    assert!(s.connected);
    assert_eq!(s.ctx, ContextState::Absent);
    s.create_context();
    assert_eq!(s.ctx, ContextState::Created);
    s.enable_context();
    assert_eq!(s.ctx, ContextState::Enabled);
    s.disable_context();
    assert_eq!(s.ctx, ContextState::Disabled);
    s.free_context();
    assert_eq!(s.ctx, ContextState::Absent);
    s.close();
}

#[test]
fn context_can_be_recreated_after_free() {
    let mut s = SessionModel::open();
    s.create_context();
    s.enable_context();
    s.disable_context();
    s.free_context();
    s.create_context();
    assert_eq!(s.ctx, ContextState::Created);
}
