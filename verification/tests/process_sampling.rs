use gc_input_viewer::input_reader::process_reader::{
    i32_from_le_bytes, u32_from_le_bytes, ProcessId, ProcessIterator,
};
use gc_input_viewer::input_reader::sa2_reader::{
    get_controller_state, matches_target, Sa2Reader, Sa2Sample,
};
use gc_input_viewer::ControllerState;

fn neutral_sample() -> Sa2Sample {
    Sa2Sample { buttons: 0, joy_x: 0, joy_y: 0, c_x: 0, c_y: 0, l_analog: 0, r_analog: 0 }
}

#[test]
fn button_bitfield_positions() {
    let mut sample = neutral_sample();
    sample.buttons = 0x0001 | 0x0008 | 0x0040 | 0x0100 | 0x1000;
    let s = get_controller_state(&sample);
    assert!(s.left && s.up && s.l_digital && s.a && s.start);
    assert!(!s.right && !s.down && !s.r_digital && !s.b && !s.x && !s.y && !s.z);

    sample.buttons = 0x0002 | 0x0004 | 0x0020 | 0x0200 | 0x0400 | 0x0800;
    let s = get_controller_state(&sample);
    assert!(s.right && s.down && s.r_digital && s.b && s.x && s.y);
    assert!(!s.left && !s.up && !s.l_digital && !s.a && !s.start && !s.z);
}

#[test]
fn stick_axes_take_fixed_offset() {
    let mut sample = neutral_sample();
    sample.joy_x = 0;
    sample.joy_y = -128;
    sample.c_x = 127;
    sample.c_y = 100;
    let s = get_controller_state(&sample);
    assert_eq!(s.analog, (128, 0));
    assert_eq!(s.c, (255, 228));
}

#[test]
fn stick_axes_wrap_like_byte_narrowing() {
    let mut sample = neutral_sample();
    sample.joy_x = 200;
    sample.joy_y = -300;
    let s = get_controller_state(&sample);
    // (200 + 128) mod 256 and (-300 + 128) mod 256
    assert_eq!(s.analog, (72, 84));
}

#[test]
fn triggers_narrow_without_offset() {
    let mut sample = neutral_sample();
    sample.l_analog = 255;
    sample.r_analog = 256;
    let s = get_controller_state(&sample);
    assert_eq!(s.l_analog, 255);
    assert_eq!(s.r_analog, 0);
    sample.r_analog = -1;
    let s = get_controller_state(&sample);
    assert_eq!(s.r_analog, 255);
}

/// A failed memory read mid-poll detaches the source; the immediately
/// following poll (target still unreachable) returns the default state and
/// raises no error.
#[test]
fn read_failure_recovers_to_default() {
    let mut reader = Sa2Reader::new(None, true);
    assert!(reader.is_attached());
    let s = reader.poll_attached(None);
    assert_eq!(s, ControllerState::default());
    assert!(!reader.is_attached());
    let s = reader.poll_detached(false);
    assert_eq!(s, ControllerState::default());
    assert!(!reader.is_attached());
}

#[test]
fn reattach_resumes_sampling() {
    let mut reader = Sa2Reader::new(None, false);
    let s = reader.poll_detached(true);
    // The re-attach poll itself still reports neutral.
    assert_eq!(s, ControllerState::default());
    assert!(reader.is_attached());
    let mut sample = neutral_sample();
    sample.buttons = 0x0100;
    let s = reader.poll_attached(Some(sample));
    assert!(s.a);
    assert!(reader.is_attached());
}

#[test]
fn target_name_override_is_exact() {
    let over = Some(String::from("MyGame.exe"));
    assert!(matches_target(&String::from("MyGame.exe"), &over));
    assert!(!matches_target(&String::from("mygame.exe"), &over));
}

#[test]
fn default_target_name_ignores_case() {
    assert!(matches_target(&String::from("sonic2app.exe"), &None));
    assert!(matches_target(&String::from("Sonic2App.EXE"), &None));
    assert!(!matches_target(&String::from("other.exe"), &None));
}

#[test]
fn process_iterator_walks_snapshot() {
    let mut it = ProcessIterator::new(vec![3, 1, 4]);
    assert_eq!(it.next(), Some(ProcessId(3)));
    assert_eq!(it.next(), Some(ProcessId(1)));
    assert_eq!(it.next(), Some(ProcessId(4)));
    assert_eq!(it.next(), None);
    assert_eq!(it.next(), None);
}

#[test]
fn little_endian_assembly() {
    assert_eq!(u32_from_le_bytes(0x78, 0x56, 0x34, 0x12), 0x1234_5678);
    assert_eq!(u32_from_le_bytes(0xff, 0xff, 0xff, 0xff), u32::MAX);
    assert_eq!(i32_from_le_bytes(0xff, 0xff, 0xff, 0xff), -1);
    assert_eq!(i32_from_le_bytes(0x00, 0x00, 0x00, 0x80), i32::MIN);
    assert_eq!(i32_from_le_bytes(0x2a, 0x00, 0x00, 0x00), 42);
}
