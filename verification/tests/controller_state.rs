use gc_input_viewer::ControllerState;

/// The default state: every digital button false, both sticks at (128, 128),
/// both triggers at zero.
#[test]
fn default_state_is_neutral() {
    let s = ControllerState::default();
    assert!(!s.a);
    assert!(!s.b);
    assert!(!s.x);
    assert!(!s.y);
    assert!(!s.up);
    assert!(!s.down);
    assert!(!s.left);
    assert!(!s.right);
    assert!(!s.start);
    assert!(!s.l_digital);
    assert!(!s.r_digital);
    assert!(!s.z);
    assert_eq!(s.analog, (128, 128));
    assert_eq!(s.c, (128, 128));
    assert_eq!(s.l_analog, 0);
    assert_eq!(s.r_analog, 0);
}

#[test]
fn states_copy_by_value() {
    let mut a = ControllerState::default();
    let b = a;
    a.a = true;
    a.analog = (3, 4);
    assert!(!b.a);
    assert_eq!(b.analog, (128, 128));
}
