use overrun::exit::{child_exit_code, relay_exit_code, FAILURE, SPAWN_FAILURE};

#[test]
fn child_code_in_range_is_kept() {
    assert_eq!(child_exit_code(Some(0)), 0);
    assert_eq!(child_exit_code(Some(3)), 3);
    assert_eq!(child_exit_code(Some(255)), 255);
}

#[test]
fn child_code_out_of_range_falls_back() {
    assert_eq!(child_exit_code(Some(256)), FAILURE);
    assert_eq!(child_exit_code(Some(-1)), FAILURE);
    assert_eq!(child_exit_code(None), FAILURE);
}

#[test]
fn relay_code_is_forwarded() {
    assert_eq!(relay_exit_code(Some(42)), 42);
    assert_eq!(relay_exit_code(Some(0)), 0);
    assert_eq!(relay_exit_code(Some(300)), 44);
    assert_eq!(relay_exit_code(None), FAILURE);
}

#[test]
fn sentinels_are_distinct() {
    assert_eq!(FAILURE, 1);
    assert_eq!(SPAWN_FAILURE, 127);
}
