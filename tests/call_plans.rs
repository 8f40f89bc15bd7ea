use gmod::calls::{
    dereference_releases, from_reference_pushes, function_slot, is_registry_reference, plan_function_ref,
    plan_resolved_call, plan_stacked_call, resume_error, resume_succeeded, CallStep,
};
use gmod::consts::{LUA_ERRERR, LUA_ERRMEM, LUA_ERRRUN, LUA_NOREF, LUA_OK, LUA_REFNIL, LUA_YIELD};

#[test]
fn sentinel_references_are_no_ops_every_time() {
    for _ in 0..3 {
        assert!(!dereference_releases(LUA_REFNIL));
        assert!(!dereference_releases(LUA_NOREF));
        assert!(!from_reference_pushes(LUA_REFNIL));
        assert!(!from_reference_pushes(LUA_NOREF));
    }
}

#[test]
fn other_references_are_released_and_resolved() {
    for token in [0, 1, 7, 4096, -3] {
        assert!(is_registry_reference(token));
        assert!(dereference_releases(token));
        assert!(from_reference_pushes(token));
    }
}

#[test]
fn calling_through_a_sentinel_drops_the_arguments() {
    assert_eq!(plan_function_ref(LUA_NOREF, 2), Some(CallStep::Discard(2)));
    assert_eq!(plan_function_ref(LUA_REFNIL, 0), Some(CallStep::Discard(0)));
    assert_eq!(plan_function_ref(5, 2), None);
}

#[test]
fn resolved_values_that_are_not_functions_are_dropped() {
    assert_eq!(plan_resolved_call(false, 2), CallStep::Discard(3));
    assert_eq!(plan_resolved_call(false, 0), CallStep::Discard(1));
}

#[test]
fn resolved_functions_move_below_their_arguments() {
    assert_eq!(plan_resolved_call(true, 2), CallStep::Call(Some(-3)));
    assert_eq!(plan_resolved_call(true, 0), CallStep::Call(None));
}

#[test]
fn stacked_calls() {
    assert_eq!(function_slot(0), -1);
    assert_eq!(function_slot(3), -4);
    assert_eq!(plan_stacked_call(false, 3), CallStep::Discard(4));
    assert_eq!(plan_stacked_call(false, 0), CallStep::Discard(1));
    assert_eq!(plan_stacked_call(true, 3), CallStep::Call(None));
}

#[test]
fn resume_errors() {
    assert_eq!(resume_error(LUA_OK, None), None);
    assert_eq!(resume_error(LUA_YIELD, Some("ignored".to_string())), None);
    assert_eq!(resume_error(LUA_ERRRUN, Some("bad".to_string())), Some("bad".to_string()));
    assert_eq!(resume_error(LUA_ERRRUN, None), Some("Unknown error".to_string()));
    assert_eq!(resume_error(LUA_ERRMEM, None), Some("Out of memory".to_string()));
    assert_eq!(resume_error(LUA_ERRERR, None), Some("Unknown internal Lua error".to_string()));
}

#[test]
fn resume_success_covers_return_and_yield() {
    assert!(resume_succeeded(LUA_OK));
    assert!(resume_succeeded(LUA_YIELD));
    assert!(!resume_succeeded(LUA_ERRRUN));
}
