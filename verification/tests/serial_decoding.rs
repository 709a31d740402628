use gc_input_viewer::error::Error;
use gc_input_viewer::input_reader::serial_reader::{
    decode_line, encode_state, StateReader, LINE_BITS,
};
use gc_input_viewer::ControllerState;

fn chars_of(s: &str) -> Vec<char> {
    s.chars().collect()
}

/// Layout: 3 reserved, Start, Y, X, B, A, 1 reserved, L, R, Z, Up, Down,
/// Right, Left, then analog X/Y, C X/Y, L pressure, R pressure, 8 bits each.
fn line_for(
    buttons: &str,
    analog_x: &str,
    analog_y: &str,
    c_x: &str,
    c_y: &str,
    l: &str,
    r: &str,
) -> String {
    let mut s = String::new();
    s.push_str(buttons);
    s.push_str(analog_x);
    s.push_str(analog_y);
    s.push_str(c_x);
    s.push_str(c_y);
    s.push_str(l);
    s.push_str(r);
    s
}

#[test]
fn byte_decode_one() {
    let mut reader = StateReader::new(chars_of("00000001"));
    assert_eq!(reader.read_byte(), Some(1));
}

#[test]
fn byte_decode_msb() {
    let mut reader = StateReader::new(chars_of("10000000"));
    assert_eq!(reader.read_byte(), Some(128));
}

#[test]
fn byte_decode_all_ones() {
    let mut reader = StateReader::new(chars_of("11111111"));
    assert_eq!(reader.read_byte(), Some(255));
}

#[test]
fn byte_decode_short_input() {
    let mut reader = StateReader::new(chars_of("1010101"));
    assert_eq!(reader.read_byte(), None);
}

#[test]
fn bool_reads_bits_only() {
    let mut reader = StateReader::new(chars_of("10x"));
    assert_eq!(reader.read_bool(), Some(true));
    assert_eq!(reader.read_bool(), Some(false));
    assert_eq!(reader.read_bool(), None);
}

#[test]
fn decode_full_line_layout() {
    // Start, A, L-digital, Up and Left pressed; analog (1, 128); C stick
    // (255, 0); L pressure 2, R pressure 3.
    let line = line_for(
        "0001000101011001",
        "00000001",
        "10000000",
        "11111111",
        "00000000",
        "00000010",
        "00000011",
    );
    let mut reader = StateReader::new(chars_of(&line));
    let s = reader.read_state().expect("well-formed line must decode");
    assert!(s.start);
    assert!(!s.y);
    assert!(!s.x);
    assert!(!s.b);
    assert!(s.a);
    assert!(s.l_digital);
    assert!(!s.r_digital);
    assert!(s.z);
    assert!(s.up);
    assert!(!s.down);
    assert!(!s.right);
    assert!(s.left);
    assert_eq!(s.analog, (1, 128));
    assert_eq!(s.c, (255, 0));
    assert_eq!(s.l_analog, 2);
    assert_eq!(s.r_analog, 3);
}

#[test]
fn decode_trailing_newline_ignored() {
    let mut line = "0".repeat(LINE_BITS);
    line.push('\n');
    let mut reader = StateReader::new(chars_of(&line));
    let s = reader.read_state().expect("the record stops at the fixed width");
    assert_eq!(s.analog, (0, 0));
    assert_eq!(s.l_analog, 0);
}

#[test]
fn short_line_is_malformed() {
    // A line shorter than the fixed width yields no partial state.
    let line = "1".repeat(LINE_BITS - 1);
    assert_eq!(decode_line(chars_of(&line)), Err(Error::MalformedRecord));
}

#[test]
fn empty_line_is_malformed() {
    assert_eq!(decode_line(Vec::new()), Err(Error::MalformedRecord));
}

#[test]
fn non_bit_character_is_malformed() {
    let mut line = "0".repeat(LINE_BITS);
    line.replace_range(20..21, "x");
    assert_eq!(decode_line(chars_of(&line)), Err(Error::MalformedRecord));
}

#[test]
fn decode_then_encode_reproduces_line() {
    let line = line_for(
        "0001100100110101",
        "10100101",
        "01011010",
        "11110000",
        "00001111",
        "11000011",
        "00111100",
    );
    let state = decode_line(chars_of(&line)).expect("well-formed line must decode");
    let encoded: String = encode_state(&state).into_iter().collect();
    assert_eq!(encoded, line);
}

#[test]
fn encode_then_decode_reproduces_state() {
    let state = ControllerState {
        a: true,
        b: false,
        x: true,
        y: false,
        up: true,
        down: false,
        left: true,
        right: false,
        start: true,
        analog: (7, 250),
        c: (128, 1),
        l_analog: 33,
        r_analog: 200,
        l_digital: false,
        r_digital: true,
        z: false,
    };
    let encoded = encode_state(&state);
    assert_eq!(encoded.len(), LINE_BITS);
    let decoded = decode_line(encoded).expect("every encoded record decodes");
    assert_eq!(decoded, state);
}
