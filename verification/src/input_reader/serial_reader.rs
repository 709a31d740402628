//! Decoder and encoder for the line-oriented serial bit-protocol.
//!
//! One record arrives per newline-delimited line of ASCII `'0'`/`'1'`
//! characters. The fixed layout, left to right: three reserved bits, one bit
//! each for Start, Y, X, B, A, one reserved bit, L-digital, R-digital, Z, Up,
//! Down, Right, Left, then six eight-bit fields, each most-significant-bit
//! first: analog X, analog Y, C-stick X, C-stick Y, L pressure, R pressure.
//! Decoding is whole-line-atomic: a short or malformed line yields no partial
//! state.

use vstd::prelude::*;

use crate::controller_state::ControllerState;
use crate::error::Error;

verus! {

/// Number of characters a record occupies: 16 button/reserved bits followed
/// by six 8-bit fields.
pub const LINE_BITS: usize = 64;

/// The characters that may stand in a bit position.
pub open spec fn is_bit_char(c: char) -> bool {
    c == '0' || c == '1'
}

/// The button value a bit character denotes.
pub open spec fn bit_of(c: char) -> bool {
    c == '1'
}

/// The numeric value of a bit character.
pub open spec fn bit_val(c: char) -> u8 {
    if c == '1' {
        1
    } else {
        0
    }
}

/// The character that denotes a button value.
pub open spec fn bit_char(b: bool) -> char {
    if b {
        '1'
    } else {
        '0'
    }
}

/// Positions `i..i + n` of `s` exist and hold bit characters.
pub open spec fn bits_from(s: Seq<char>, i: int, n: int) -> bool {
    &&& 0 <= i
    &&& i + n <= s.len()
    &&& forall|j: int| i <= j < i + n ==> is_bit_char(#[trigger] s[j])
}

/// A line long enough for one record whose first `LINE_BITS` characters are
/// all bit characters.
pub open spec fn line_well_formed(s: Seq<char>) -> bool {
    bits_from(s, 0, LINE_BITS as int)
}

/// The unsigned byte encoded most-significant-bit first by the eight bit
/// characters starting at position `i`.
pub open spec fn byte_at(s: Seq<char>, i: int) -> u8 {
    (128 * bit_val(s[i]) + 64 * bit_val(s[i + 1]) + 32 * bit_val(s[i + 2]) + 16 * bit_val(
        s[i + 3],
    ) + 8 * bit_val(s[i + 4]) + 4 * bit_val(s[i + 5]) + 2 * bit_val(s[i + 6]) + bit_val(
        s[i + 7],
    )) as u8
}

/// The controller state a well-formed line denotes, per the fixed layout.
pub open spec fn decoded_state(s: Seq<char>) -> ControllerState {
    ControllerState {
        start: bit_of(s[3]),
        y: bit_of(s[4]),
        x: bit_of(s[5]),
        b: bit_of(s[6]),
        a: bit_of(s[7]),
        l_digital: bit_of(s[9]),
        r_digital: bit_of(s[10]),
        z: bit_of(s[11]),
        up: bit_of(s[12]),
        down: bit_of(s[13]),
        right: bit_of(s[14]),
        left: bit_of(s[15]),
        analog: (byte_at(s, 16), byte_at(s, 24)),
        c: (byte_at(s, 32), byte_at(s, 40)),
        l_analog: byte_at(s, 48),
        r_analog: byte_at(s, 56),
    }
}

/// Whether bit `j` (counting from the most significant) of `v` is set.
pub open spec fn byte_bit(v: u8, j: int) -> bool {
    (v >> ((7 - j) as u8)) & 1 == 1
}

/// The eight bit characters that encode `v`, most significant bit first.
pub open spec fn encoded_byte(v: u8) -> Seq<char> {
    Seq::new(8, |j: int| bit_char(byte_bit(v, j)))
}

/// The sixteen leading characters of a record: reserved bits as `'0'`, each
/// button as its bit character, in the fixed layout order.
pub open spec fn encoded_buttons(s: ControllerState) -> Seq<char> {
    seq![
        '0',
        '0',
        '0',
        bit_char(s.start),
        bit_char(s.y),
        bit_char(s.x),
        bit_char(s.b),
        bit_char(s.a),
        '0',
        bit_char(s.l_digital),
        bit_char(s.r_digital),
        bit_char(s.z),
        bit_char(s.up),
        bit_char(s.down),
        bit_char(s.right),
        bit_char(s.left),
    ]
}

/// The full record that encodes `s`: buttons, then the six byte fields.
pub open spec fn encoded_state(s: ControllerState) -> Seq<char> {
    encoded_buttons(s) + encoded_byte(s.analog.0) + encoded_byte(s.analog.1) + encoded_byte(
        s.c.0,
    ) + encoded_byte(s.c.1) + encoded_byte(s.l_analog) + encoded_byte(s.r_analog)
}

/// Reads buttons and byte fields off one line of bit characters.
pub struct StateReader {
    chars: Vec<char>,
    pos: usize,
}

impl StateReader {
    /// The characters the reader walks over.
    pub closed spec fn line(self) -> Seq<char> {
        self.chars@
    }

    /// The position of the next character to read.
    pub closed spec fn position(self) -> int {
        self.pos as int
    }

    pub fn new(chars: Vec<char>) -> (r: StateReader)
        ensures
            r.line() == chars@,
            r.position() == 0,
    {
        StateReader { chars, pos: 0 }
    }

    /// Reads one bit position as a button value; fails on a character other
    /// than `'0'` or `'1'` and on the end of the line.
    pub fn read_bool(&mut self) -> (r: Option<bool>)
        ensures
            final(self).line() == old(self).line(),
            r is Some <==> old(self).position() < old(self).line().len() && is_bit_char(
                old(self).line()[old(self).position()],
            ),
            r is Some ==> final(self).position() == old(self).position() + 1 && r->Some_0 == bit_of(
                old(self).line()[old(self).position()],
            ),
            r is None ==> final(self).position() == old(self).position(),
    {
        if self.pos < self.chars.len() {
            let c = self.chars[self.pos];
            if c == '0' || c == '1' {
                self.pos = self.pos + 1;
                Some(c == '1')
            } else {
                None
            }
        } else {
            None
        }
    }

    /// Reads eight bit positions as one unsigned byte, most significant
    /// bit first.
    pub fn read_byte(&mut self) -> (r: Option<u8>)
        ensures
            final(self).line() == old(self).line(),
            r is Some <==> bits_from(old(self).line(), old(self).position(), 8),
            r is Some ==> final(self).position() == old(self).position() + 8 && r->Some_0
                == byte_at(old(self).line(), old(self).position()),
    {
        let b0 = match self.read_bool() {
            Some(b) => b,
            None => {
                return None;
            },
        };
        let b1 = match self.read_bool() {
            Some(b) => b,
            None => {
                return None;
            },
        };
        let b2 = match self.read_bool() {
            Some(b) => b,
            None => {
                return None;
            },
        };
        let b3 = match self.read_bool() {
            Some(b) => b,
            None => {
                return None;
            },
        };
        let b4 = match self.read_bool() {
            Some(b) => b,
            None => {
                return None;
            },
        };
        let b5 = match self.read_bool() {
            Some(b) => b,
            None => {
                return None;
            },
        };
        let b6 = match self.read_bool() {
            Some(b) => b,
            None => {
                return None;
            },
        };
        let b7 = match self.read_bool() {
            Some(b) => b,
            None => {
                return None;
            },
        };
        let mut value: u8 = if b0 {
            128
        } else {
            0
        };
        value = value + if b1 {
            64
        } else {
            0
        };
        value = value + if b2 {
            32
        } else {
            0
        };
        value = value + if b3 {
            16
        } else {
            0
        };
        value = value + if b4 {
            8
        } else {
            0
        };
        value = value + if b5 {
            4
        } else {
            0
        };
        value = value + if b6 {
            2
        } else {
            0
        };
        value = value + if b7 {
            1
        } else {
            0
        };
        Some(value)
    }

    /// Reads one whole record from the start of the line: every button, the
    /// two stick pairs and the two trigger pressures, in the fixed layout
    /// order. Yields nothing unless all `LINE_BITS` leading positions are
    /// bit characters.
    pub fn read_state(&mut self) -> (r: Option<ControllerState>)
        requires
            old(self).position() == 0,
        ensures
            r is Some <==> line_well_formed(old(self).line()),
            r is Some ==> r->Some_0 == decoded_state(old(self).line()),
    {
        let mut state = ControllerState::default();
        // Three reserved bits lead the record.
        if self.read_bool().is_none() {
            return None;
        }
        if self.read_bool().is_none() {
            return None;
        }
        if self.read_bool().is_none() {
            return None;
        }
        state.start = match self.read_bool() {
            Some(b) => b,
            None => {
                return None;
            },
        };
        state.y = match self.read_bool() {
            Some(b) => b,
            None => {
                return None;
            },
        };
        state.x = match self.read_bool() {
            Some(b) => b,
            None => {
                return None;
            },
        };
        state.b = match self.read_bool() {
            Some(b) => b,
            None => {
                return None;
            },
        };
        state.a = match self.read_bool() {
            Some(b) => b,
            None => {
                return None;
            },
        };
        // One reserved bit stands between the face buttons and the rest.
        if self.read_bool().is_none() {
            return None;
        }
        state.l_digital = match self.read_bool() {
            Some(b) => b,
            None => {
                return None;
            },
        };
        state.r_digital = match self.read_bool() {
            Some(b) => b,
            None => {
                return None;
            },
        };
        state.z = match self.read_bool() {
            Some(b) => b,
            None => {
                return None;
            },
        };
        state.up = match self.read_bool() {
            Some(b) => b,
            None => {
                return None;
            },
        };
        state.down = match self.read_bool() {
            Some(b) => b,
            None => {
                return None;
            },
        };
        state.right = match self.read_bool() {
            Some(b) => b,
            None => {
                return None;
            },
        };
        state.left = match self.read_bool() {
            Some(b) => b,
            None => {
                return None;
            },
        };
        let analog_x = match self.read_byte() {
            Some(v) => v,
            None => {
                return None;
            },
        };
        let analog_y = match self.read_byte() {
            Some(v) => v,
            None => {
                return None;
            },
        };
        state.analog = (analog_x, analog_y);
        let c_x = match self.read_byte() {
            Some(v) => v,
            None => {
                return None;
            },
        };
        let c_y = match self.read_byte() {
            Some(v) => v,
            None => {
                return None;
            },
        };
        state.c = (c_x, c_y);
        state.l_analog = match self.read_byte() {
            Some(v) => v,
            None => {
                return None;
            },
        };
        state.r_analog = match self.read_byte() {
            Some(v) => v,
            None => {
                return None;
            },
        };
        Some(state)
    }
}

/// Decodes one line of serial text. A line below the fixed bit width, or one
/// with a character other than `'0'` or `'1'` in a bit position, is rejected
/// whole: the caller re-reads the next line.
pub fn decode_line(chars: Vec<char>) -> (r: Result<ControllerState, Error>)
    ensures
        line_well_formed(chars@) ==> r == Ok::<ControllerState, Error>(decoded_state(chars@)),
        !line_well_formed(chars@) ==> r == Err::<ControllerState, Error>(Error::MalformedRecord),
{
    let mut reader = StateReader::new(chars);
    match reader.read_state() {
        Some(state) => Ok(state),
        None => Err(Error::MalformedRecord),
    }
}

/// Encodes one byte field as eight bit characters, most significant first.
pub fn encode_byte(v: u8) -> (r: Vec<char>)
    ensures
        r@ == encoded_byte(v),
{
    let mut r: Vec<char> = Vec::new();
    r.push(if (v >> 7u8) & 1 == 1 {
        '1'
    } else {
        '0'
    });
    r.push(if (v >> 6u8) & 1 == 1 {
        '1'
    } else {
        '0'
    });
    r.push(if (v >> 5u8) & 1 == 1 {
        '1'
    } else {
        '0'
    });
    r.push(if (v >> 4u8) & 1 == 1 {
        '1'
    } else {
        '0'
    });
    r.push(if (v >> 3u8) & 1 == 1 {
        '1'
    } else {
        '0'
    });
    r.push(if (v >> 2u8) & 1 == 1 {
        '1'
    } else {
        '0'
    });
    r.push(if (v >> 1u8) & 1 == 1 {
        '1'
    } else {
        '0'
    });
    r.push(if (v >> 0u8) & 1 == 1 {
        '1'
    } else {
        '0'
    });
    proof {
        assert(r@[0] == bit_char(byte_bit(v, 0)));
        assert(r@[1] == bit_char(byte_bit(v, 1)));
        assert(r@[2] == bit_char(byte_bit(v, 2)));
        assert(r@[3] == bit_char(byte_bit(v, 3)));
        assert(r@[4] == bit_char(byte_bit(v, 4)));
        assert(r@[5] == bit_char(byte_bit(v, 5)));
        assert(r@[6] == bit_char(byte_bit(v, 6)));
        assert(r@[7] == bit_char(byte_bit(v, 7)));
        assert(r@ =~= encoded_byte(v));
    }
    r
}

/// Encodes a controller state as one record of bit characters, the exact
/// inverse of [`decoded_state`] on well-formed lines with zero reserved bits.
#[verifier::rlimit(50)]
pub fn encode_state(state: &ControllerState) -> (r: Vec<char>)
    ensures
        r@ == encoded_state(*state),
{
    let mut r: Vec<char> = Vec::new();
    r.push('0');
    r.push('0');
    r.push('0');
    r.push(if state.start {
        '1'
    } else {
        '0'
    });
    r.push(if state.y {
        '1'
    } else {
        '0'
    });
    r.push(if state.x {
        '1'
    } else {
        '0'
    });
    r.push(if state.b {
        '1'
    } else {
        '0'
    });
    r.push(if state.a {
        '1'
    } else {
        '0'
    });
    r.push('0');
    r.push(if state.l_digital {
        '1'
    } else {
        '0'
    });
    r.push(if state.r_digital {
        '1'
    } else {
        '0'
    });
    r.push(if state.z {
        '1'
    } else {
        '0'
    });
    r.push(if state.up {
        '1'
    } else {
        '0'
    });
    r.push(if state.down {
        '1'
    } else {
        '0'
    });
    r.push(if state.right {
        '1'
    } else {
        '0'
    });
    r.push(if state.left {
        '1'
    } else {
        '0'
    });
    proof {
        assert(r@ =~= encoded_buttons(*state));
    }
    let mut field = encode_byte(state.analog.0);
    r.append(&mut field);
    let mut field = encode_byte(state.analog.1);
    r.append(&mut field);
    let mut field = encode_byte(state.c.0);
    r.append(&mut field);
    let mut field = encode_byte(state.c.1);
    r.append(&mut field);
    let mut field = encode_byte(state.l_analog);
    r.append(&mut field);
    let mut field = encode_byte(state.r_analog);
    r.append(&mut field);
    proof {
        assert(r@ =~= encoded_state(*state));
    }
    r
}

/// A shifted-out bit is zero or one.
proof fn lemma_bit01(v: u8, k: u8)
    by (bit_vector)
    requires
        k < 8,
    ensures
        ((v >> k) & 1) == 0 || ((v >> k) & 1) == 1,
{
}

/// A byte is the weighted sum of its eight bits, most significant first.
proof fn lemma_byte_decomposition(v: u8)
    by (bit_vector)
    ensures
        v == 128 * ((v >> 7u8) & 1) + 64 * ((v >> 6u8) & 1) + 32 * ((v >> 5u8) & 1) + 16 * ((v
            >> 4u8) & 1) + 8 * ((v >> 3u8) & 1) + 4 * ((v >> 2u8) & 1) + 2 * ((v >> 1u8) & 1) + ((v
            >> 0u8) & 1),
{
}

/// Shifting the weighted sum of eight bits recovers each bit.
proof fn lemma_byte_recomposition(b0: u8, b1: u8, b2: u8, b3: u8, b4: u8, b5: u8, b6: u8, b7: u8)
    by (bit_vector)
    requires
        b0 <= 1,
        b1 <= 1,
        b2 <= 1,
        b3 <= 1,
        b4 <= 1,
        b5 <= 1,
        b6 <= 1,
        b7 <= 1,
    ensures
        ((((128 * b0 + 64 * b1 + 32 * b2 + 16 * b3 + 8 * b4 + 4 * b5 + 2 * b6 + b7) as u8) >> 7u8)
            & 1) == b0,
        ((((128 * b0 + 64 * b1 + 32 * b2 + 16 * b3 + 8 * b4 + 4 * b5 + 2 * b6 + b7) as u8) >> 6u8)
            & 1) == b1,
        ((((128 * b0 + 64 * b1 + 32 * b2 + 16 * b3 + 8 * b4 + 4 * b5 + 2 * b6 + b7) as u8) >> 5u8)
            & 1) == b2,
        ((((128 * b0 + 64 * b1 + 32 * b2 + 16 * b3 + 8 * b4 + 4 * b5 + 2 * b6 + b7) as u8) >> 4u8)
            & 1) == b3,
        ((((128 * b0 + 64 * b1 + 32 * b2 + 16 * b3 + 8 * b4 + 4 * b5 + 2 * b6 + b7) as u8) >> 3u8)
            & 1) == b4,
        ((((128 * b0 + 64 * b1 + 32 * b2 + 16 * b3 + 8 * b4 + 4 * b5 + 2 * b6 + b7) as u8) >> 2u8)
            & 1) == b5,
        ((((128 * b0 + 64 * b1 + 32 * b2 + 16 * b3 + 8 * b4 + 4 * b5 + 2 * b6 + b7) as u8) >> 1u8)
            & 1) == b6,
        ((((128 * b0 + 64 * b1 + 32 * b2 + 16 * b3 + 8 * b4 + 4 * b5 + 2 * b6 + b7) as u8) >> 0u8)
            & 1) == b7,
{
}

/// Decoding the eight characters that encode `v` yields `v` back.
proof fn lemma_byte_round_trip(v: u8)
    ensures
        bits_from(encoded_byte(v), 0, 8),
        byte_at(encoded_byte(v), 0) == v,
{
    let s = encoded_byte(v);
    assert forall|j: int| 0 <= j < 8 implies is_bit_char(#[trigger] s[j]) by {
        assert(s[j] == bit_char(byte_bit(v, j)));
    }
    lemma_bit01(v, 7);
    lemma_bit01(v, 6);
    lemma_bit01(v, 5);
    lemma_bit01(v, 4);
    lemma_bit01(v, 3);
    lemma_bit01(v, 2);
    lemma_bit01(v, 1);
    lemma_bit01(v, 0);
    assert(bit_val(s[0]) == (v >> 7u8) & 1);
    assert(bit_val(s[1]) == (v >> 6u8) & 1);
    assert(bit_val(s[2]) == (v >> 5u8) & 1);
    assert(bit_val(s[3]) == (v >> 4u8) & 1);
    assert(bit_val(s[4]) == (v >> 3u8) & 1);
    assert(bit_val(s[5]) == (v >> 2u8) & 1);
    assert(bit_val(s[6]) == (v >> 1u8) & 1);
    assert(bit_val(s[7]) == (v >> 0u8) & 1);
    lemma_byte_decomposition(v);
}

/// Encoding the byte decoded from eight bit characters reproduces them.
proof fn lemma_bits_round_trip(s: Seq<char>, i: int)
    requires
        bits_from(s, i, 8),
    ensures
        encoded_byte(byte_at(s, i)) == s.subrange(i, i + 8),
{
    let b0 = bit_val(s[i]);
    let b1 = bit_val(s[i + 1]);
    let b2 = bit_val(s[i + 2]);
    let b3 = bit_val(s[i + 3]);
    let b4 = bit_val(s[i + 4]);
    let b5 = bit_val(s[i + 5]);
    let b6 = bit_val(s[i + 6]);
    let b7 = bit_val(s[i + 7]);
    lemma_byte_recomposition(b0, b1, b2, b3, b4, b5, b6, b7);
    let v = byte_at(s, i);
    assert(encoded_byte(v) =~= s.subrange(i, i + 8)) by {
        assert(byte_bit(v, 0) == bit_of(s[i]));
        assert(byte_bit(v, 1) == bit_of(s[i + 1]));
        assert(byte_bit(v, 2) == bit_of(s[i + 2]));
        assert(byte_bit(v, 3) == bit_of(s[i + 3]));
        assert(byte_bit(v, 4) == bit_of(s[i + 4]));
        assert(byte_bit(v, 5) == bit_of(s[i + 5]));
        assert(byte_bit(v, 6) == bit_of(s[i + 6]));
        assert(byte_bit(v, 7) == bit_of(s[i + 7]));
    }
}

/// Law: every encoded record is a well-formed line, and decoding it yields
/// the state that was encoded.
#[verifier::rlimit(60)]
pub proof fn lemma_encode_decode(s: ControllerState)
    ensures
        line_well_formed(encoded_state(s)),
        decoded_state(encoded_state(s)) == s,
{
    let e = encoded_state(s);
    assert(e.len() == 64);
    lemma_byte_round_trip(s.analog.0);
    lemma_byte_round_trip(s.analog.1);
    lemma_byte_round_trip(s.c.0);
    lemma_byte_round_trip(s.c.1);
    lemma_byte_round_trip(s.l_analog);
    lemma_byte_round_trip(s.r_analog);
    assert forall|j: int| 0 <= j < 64 implies is_bit_char(#[trigger] e[j]) by {
        if j < 16 {
            assert(e[j] == encoded_buttons(s)[j]);
        } else if j < 24 {
            assert(e[j] == encoded_byte(s.analog.0)[j - 16]);
        } else if j < 32 {
            assert(e[j] == encoded_byte(s.analog.1)[j - 24]);
        } else if j < 40 {
            assert(e[j] == encoded_byte(s.c.0)[j - 32]);
        } else if j < 48 {
            assert(e[j] == encoded_byte(s.c.1)[j - 40]);
        } else if j < 56 {
            assert(e[j] == encoded_byte(s.l_analog)[j - 48]);
        } else {
            assert(e[j] == encoded_byte(s.r_analog)[j - 56]);
        }
    }
    assert(byte_at(e, 16) == byte_at(encoded_byte(s.analog.0), 0));
    assert(byte_at(e, 24) == byte_at(encoded_byte(s.analog.1), 0));
    assert(byte_at(e, 32) == byte_at(encoded_byte(s.c.0), 0));
    assert(byte_at(e, 40) == byte_at(encoded_byte(s.c.1), 0));
    assert(byte_at(e, 48) == byte_at(encoded_byte(s.l_analog), 0));
    assert(byte_at(e, 56) == byte_at(encoded_byte(s.r_analog), 0));
}

/// Law: encoding the state decoded from a well-formed line whose reserved
/// bits are zero reproduces the line's leading record, character for
/// character.
#[verifier::rlimit(60)]
pub proof fn lemma_decode_encode(line: Seq<char>)
    requires
        line_well_formed(line),
        line[0] == '0',
        line[1] == '0',
        line[2] == '0',
        line[8] == '0',
    ensures
        encoded_state(decoded_state(line)) == line.subrange(0, LINE_BITS as int),
{
    let d = decoded_state(line);
    let e = encoded_state(d);
    lemma_bits_round_trip(line, 16);
    lemma_bits_round_trip(line, 24);
    lemma_bits_round_trip(line, 32);
    lemma_bits_round_trip(line, 40);
    lemma_bits_round_trip(line, 48);
    lemma_bits_round_trip(line, 56);
    assert(e =~= line.subrange(0, 64)) by {
        assert forall|j: int| 0 <= j < 64 implies e[j] == line[j] by {
            if j < 16 {
                assert(e[j] == encoded_buttons(d)[j]);
                assert(is_bit_char(line[j]));
            } else if j < 24 {
                assert(e[j] == encoded_byte(d.analog.0)[j - 16]);
                assert(encoded_byte(d.analog.0)[j - 16] == line.subrange(16, 24)[j - 16]);
            } else if j < 32 {
                assert(e[j] == encoded_byte(d.analog.1)[j - 24]);
                assert(encoded_byte(d.analog.1)[j - 24] == line.subrange(24, 32)[j - 24]);
            } else if j < 40 {
                assert(e[j] == encoded_byte(d.c.0)[j - 32]);
                assert(encoded_byte(d.c.0)[j - 32] == line.subrange(32, 40)[j - 32]);
            } else if j < 48 {
                assert(e[j] == encoded_byte(d.c.1)[j - 40]);
                assert(encoded_byte(d.c.1)[j - 40] == line.subrange(40, 48)[j - 40]);
            } else if j < 56 {
                assert(e[j] == encoded_byte(d.l_analog)[j - 48]);
                assert(encoded_byte(d.l_analog)[j - 48] == line.subrange(48, 56)[j - 48]);
            } else {
                assert(e[j] == encoded_byte(d.r_analog)[j - 56]);
                assert(encoded_byte(d.r_analog)[j - 56] == line.subrange(56, 64)[j - 56]);
            }
        }
    }
}

} // verus!
