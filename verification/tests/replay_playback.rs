use gc_input_viewer::error::Error;
use gc_input_viewer::input_reader::dtm_reader::{DtmReader, ReplayFrame};

fn frame(analog_x: u8) -> ReplayFrame {
    ReplayFrame {
        a: false,
        b: false,
        x: false,
        y: false,
        up: false,
        down: false,
        left: false,
        right: false,
        start: false,
        analog_x,
        analog_y: 128,
        c_x: 128,
        c_y: 128,
        l_pressure: 0,
        r_pressure: 0,
        l: false,
        r: false,
        z: false,
    }
}

#[test]
fn frame_fields_map_one_to_one() {
    let f = ReplayFrame {
        a: true,
        b: false,
        x: true,
        y: false,
        up: true,
        down: false,
        left: true,
        right: false,
        start: true,
        analog_x: 1,
        analog_y: 2,
        c_x: 3,
        c_y: 4,
        l_pressure: 5,
        r_pressure: 6,
        l: true,
        r: false,
        z: true,
    };
    let s = f.to_controller_state();
    assert!(s.a && s.x && s.up && s.left && s.start && s.l_digital && s.z);
    assert!(!s.b && !s.y && !s.down && !s.right && !s.r_digital);
    assert_eq!(s.analog, (1, 2));
    assert_eq!(s.c, (3, 4));
    assert_eq!(s.l_analog, 5);
    assert_eq!(s.r_analog, 6);
}

#[test]
fn empty_replay_fails_at_construction() {
    match DtmReader::new(Vec::new()) {
        Err(Error::ReplayDecode) => {},
        other => panic!("an empty replay must fail to construct, got {:?}", other.is_ok()),
    }
}

/// A 3-frame replay: the 4th and all later polls return exactly the 3rd
/// frame's state, never erroring.
#[test]
fn replay_freezes_on_final_frame() {
    let frames = vec![frame(10), frame(20), frame(30)];
    let mut reader = DtmReader::new(frames).expect("a nonempty replay constructs");
    let (_, s1) = reader.read_next_input(0);
    let (_, s2) = reader.read_next_input(0);
    let (_, s3) = reader.read_next_input(0);
    assert_eq!(s1.analog.0, 10);
    assert_eq!(s2.analog.0, 20);
    assert_eq!(s3.analog.0, 30);
    for _ in 0..10 {
        let (_, s) = reader.read_next_input(0);
        assert_eq!(s, s3);
    }
}

/// A 2-frame replay polled twice with no delay: the second frame's deadline
/// stands a full sixtieth of a second after the first call's epoch.
#[test]
fn replay_paces_second_frame() {
    let frames = vec![frame(1), frame(2)];
    let mut reader = DtmReader::new(frames).expect("a nonempty replay constructs");
    let epoch = 5_000_000;
    let (d1, _) = reader.read_next_input(epoch);
    let (d2, _) = reader.read_next_input(epoch);
    assert_eq!(d1, epoch);
    assert_eq!(d2, epoch + 16666);
}

/// The epoch is set by the first poll and kept thereafter: a later clock
/// reading does not move the deadlines.
#[test]
fn replay_epoch_is_lazy_and_sticky() {
    let frames = vec![frame(1), frame(2), frame(3)];
    let mut reader = DtmReader::new(frames).expect("a nonempty replay constructs");
    let (d1, _) = reader.read_next_input(1_000);
    let (d2, _) = reader.read_next_input(999_999_999);
    assert_eq!(d1, 1_000);
    assert_eq!(d2, 1_000 + 16666);
}
