//! Decoration endpoints' logic: the present colour cycle, the ornament state
//! toggle, and the cake layers computed from lockfile package checksums.

use vstd::prelude::*;

verus! {

/// A present's colour, cycled on every request.
#[derive(Clone, Copy, Debug, PartialEq, Eq, Structural)]
pub enum Color {
    Red,
    Blue,
    Purple,
}

impl Color {
    /// The colour's lower-case name.
    pub fn label(&self) -> (r: &'static str)
        ensures
            *self is Red ==> r@ == "red"@,
            *self is Blue ==> r@ == "blue"@,
            *self is Purple ==> r@ == "purple"@,
    {
        match self {
            Color::Red => "red",
            Color::Blue => "blue",
            Color::Purple => "purple",
        }
    }
}

/// A present with its current colour.
pub struct Present {
    pub color: Color,
}

impl Present {
    /// The colour the next present will have: red, blue and purple cycle.
    pub fn next_color(&self) -> (r: Color)
        ensures
            r == match self.color {
                Color::Red => Color::Blue,
                Color::Blue => Color::Purple,
                Color::Purple => Color::Red,
            },
    {
        match self.color {
            Color::Red => Color::Blue,
            Color::Blue => Color::Purple,
            Color::Purple => Color::Red,
        }
    }
}

/// An ornament's state: lit or not.
#[derive(Clone, Copy, Debug, PartialEq, Eq, Structural)]
pub enum State {
    On,
    Off,
}

impl State {
    /// The state's lower-case name.
    pub fn label(&self) -> (r: &'static str)
        ensures
            *self is On ==> r@ == "on"@,
            *self is Off ==> r@ == "off"@,
    {
        match self {
            State::On => "on",
            State::Off => "off",
        }
    }
}

/// An ornament with its state and display number.
pub struct Ornament {
    pub state: State,
    pub n: String,
}

impl Ornament {
    /// The CSS classes of the ornament: a lit one carries the extra class.
    pub fn classes(&self) -> (r: &'static str)
        ensures
            self.state is On ==> r@ == "ornament on"@,
            self.state is Off ==> r@ == "ornament"@,
    {
        match self.state {
            State::On => "ornament on",
            State::Off => "ornament",
        }
    }

    /// The state the ornament toggles to on the next request.
    pub fn next_state(&self) -> (r: State)
        ensures
            r == match self.state {
                State::On => State::Off,
                State::Off => State::On,
            },
    {
        match self.state {
            State::On => State::Off,
            State::Off => State::On,
        }
    }
}

/// Why a package checksum yields no cake layer.
#[derive(Clone, Copy, Debug, PartialEq, Eq, Structural)]
pub enum ChecksumError {
    /// Not an even-length string of hex digits.
    InvalidHex,
    /// Decoded to fewer than the five bytes a layer needs.
    TooShort,
}

/// Whether `c` is a hexadecimal digit, of either case.
pub open spec fn is_hex_digit(c: char) -> bool {
    ('0' <= c && c <= '9') || ('a' <= c && c <= 'f') || ('A' <= c && c <= 'F')
}

/// The value of the hexadecimal digit `c`.
pub open spec fn hex_val(c: char) -> u8 {
    if '0' <= c && c <= '9' {
        ((c as u8) - ('0' as u8)) as u8
    } else if 'a' <= c && c <= 'f' {
        ((c as u8) - ('a' as u8) + 10) as u8
    } else {
        ((c as u8) - ('A' as u8) + 10) as u8
    }
}

/// Whether a whole string decodes as hex: an even number of hex digits.
pub open spec fn hex_decode_ok(s: Seq<char>) -> bool {
    s.len() % 2 == 0 && (forall|i: int| 0 <= i < s.len() ==> is_hex_digit(#[trigger] s[i]))
}

/// The bytes an even-length hex-digit string decodes to, pairwise.
pub open spec fn hex_bytes(s: Seq<char>) -> Seq<u8> {
    Seq::new(s.len() / 2, |i: int| (16 * hex_val(s[2 * i]) + hex_val(s[2 * i + 1])) as u8)
}

/// Relies on `hex::decode`: it succeeds exactly on strings made of an even
/// number of hexadecimal digits (either case), and maps each digit pair to
/// the byte it denotes.
#[verifier::external_body]
fn hex_decode(s: &str) -> (r: Option<Vec<u8>>)
    ensures
        match r {
            Some(v) => hex_decode_ok(s@) && v@ == hex_bytes(s@),
            None => !hex_decode_ok(s@),
        },
{
    hex::decode(s).ok()
}

/// The lower-case hexadecimal digit of a value below sixteen.
pub open spec fn hex_char_of(v: u8) -> char {
    if v == 0 {
        '0'
    } else if v == 1 {
        '1'
    } else if v == 2 {
        '2'
    } else if v == 3 {
        '3'
    } else if v == 4 {
        '4'
    } else if v == 5 {
        '5'
    } else if v == 6 {
        '6'
    } else if v == 7 {
        '7'
    } else if v == 8 {
        '8'
    } else if v == 9 {
        '9'
    } else if v == 10 {
        'a'
    } else if v == 11 {
        'b'
    } else if v == 12 {
        'c'
    } else if v == 13 {
        'd'
    } else if v == 14 {
        'e'
    } else {
        'f'
    }
}

/// The two lower-case hex digits of a byte.
pub open spec fn byte_hex(b: u8) -> Seq<char> {
    seq![hex_char_of(b / 16), hex_char_of(b % 16)]
}

/// The CSS colour text of a layer: `#` followed by the first three decoded
/// bytes in lower-case hex.
pub open spec fn color_text(b0: u8, b1: u8, b2: u8) -> Seq<char> {
    seq!['#'] + byte_hex(b0) + byte_hex(b1) + byte_hex(b2)
}

/// The lower-case hexadecimal digit of a value below sixteen, as executable
/// code.
fn hex_char(v: u8) -> (r: char)
    requires
        v < 16,
    ensures
        r == hex_char_of(v),
{
    match v {
        0 => '0',
        1 => '1',
        2 => '2',
        3 => '3',
        4 => '4',
        5 => '5',
        6 => '6',
        7 => '7',
        8 => '8',
        9 => '9',
        10 => 'a',
        11 => 'b',
        12 => 'c',
        13 => 'd',
        14 => 'e',
        _ => 'f',
    }
}

/// Push the two hex digits of a byte onto `out`.
fn push_byte_hex(out: &mut Vec<char>, b: u8)
    ensures
        final(out)@ == old(out)@ + byte_hex(b),
{
    out.push(hex_char(b / 16));
    out.push(hex_char(b % 16));
    proof {
        assert(out@ =~= old(out)@ + byte_hex(b));
    }
}

/// One layer of the cake, as decoded from a package checksum.
#[derive(Debug)]
pub struct Layer {
    pub color: String,
    pub top: u8,
    pub left: u8,
}

impl Layer {
    /// The layer reduced to plain values: colour text, top and left offsets.
    pub open spec fn model(self) -> (Seq<char>, u8, u8) {
        (self.color@, self.top, self.left)
    }
}

/// The layer a checksum describes: its first three bytes as a colour, its
/// fourth and fifth as the top and left offsets; or the reason it does not.
pub open spec fn checksum_layer(cs: Seq<char>) -> Result<(Seq<char>, u8, u8), ChecksumError> {
    if !hex_decode_ok(cs) {
        Err(ChecksumError::InvalidHex)
    } else if hex_bytes(cs).len() < 5 {
        Err(ChecksumError::TooShort)
    } else {
        let b = hex_bytes(cs);
        Ok((color_text(b[0], b[1], b[2]), b[3], b[4]))
    }
}

/// Decode one checksum into a layer, or say why it is rejected.
pub fn layer_of_checksum(checksum: &str) -> (r: Result<Layer, ChecksumError>)
    ensures
        match r {
            Ok(l) => checksum_layer(checksum@) == Ok::<(Seq<char>, u8, u8), ChecksumError>(
                l.model(),
            ),
            Err(e) => checksum_layer(checksum@) == Err::<(Seq<char>, u8, u8), ChecksumError>(e),
        },
{
    let bytes = match hex_decode(checksum) {
        Some(b) => b,
        None => {
            return Err(ChecksumError::InvalidHex);
        }
    };
    if bytes.len() < 5 {
        return Err(ChecksumError::TooShort);
    }
    let mut color: Vec<char> = Vec::new();
    color.push('#');
    push_byte_hex(&mut color, bytes[0]);
    push_byte_hex(&mut color, bytes[1]);
    push_byte_hex(&mut color, bytes[2]);
    proof {
        assert(color@ =~= color_text(bytes@[0], bytes@[1], bytes@[2]));
    }
    Ok(Layer { color: crate::text::chars_to_string(color), top: bytes[3], left: bytes[4] })
}

/// The layers of the whole package list, from the `index`-th entry on: a
/// package without a checksum contributes nothing, the first bad checksum
/// rejects the list, and every other checksum contributes its layer in
/// order.
pub open spec fn cake_layers_from(list: Seq<Option<Seq<char>>>, index: int) -> Result<
    Seq<(Seq<char>, u8, u8)>,
    ChecksumError,
>
    decreases list.len() - index,
{
    if index < 0 || index >= list.len() {
        Ok(Seq::empty())
    } else {
        match list[index] {
            None => cake_layers_from(list, index + 1),
            Some(cs) => match checksum_layer(cs) {
                Err(e) => Err(e),
                Ok(item) => match cake_layers_from(list, index + 1) {
                    Ok(tail) => Ok(seq![item] + tail),
                    Err(e) => Err(e),
                },
            },
        }
    }
}

/// The package checksums reduced to plain values.
pub open spec fn checksums_model(checksums: Seq<Option<String>>) -> Seq<Option<Seq<char>>> {
    checksums.map(|i: int, c: Option<String>| match c {
        Some(s) => Some(s@),
        None => None,
    })
}

/// The layers as plain values.
pub open spec fn layers_model(layers: Seq<Layer>) -> Seq<(Seq<char>, u8, u8)> {
    layers.map(|i: int, l: Layer| l.model())
}

/// Compute the cake layers of a package list from its checksums: packages
/// without a checksum are skipped, and the first bad checksum rejects the
/// whole list.
pub fn cake_layers(checksums: &Vec<Option<String>>) -> (r: Result<Vec<Layer>, ChecksumError>)
    ensures
        match r {
            Ok(v) => cake_layers_from(checksums_model(checksums@), 0) == Ok::<
                Seq<(Seq<char>, u8, u8)>,
                ChecksumError,
            >(layers_model(v@)),
            Err(e) => cake_layers_from(checksums_model(checksums@), 0) == Err::<
                Seq<(Seq<char>, u8, u8)>,
                ChecksumError,
            >(e),
        },
{
    let ghost list = checksums_model(checksums@);
    let mut acc: Vec<Layer> = Vec::new();
    let mut i: usize = 0;
    while i < checksums.len()
        invariant
            i <= checksums@.len(),
            list == checksums_model(checksums@),
            list.len() == checksums@.len(),
            cake_layers_from(list, 0) == match cake_layers_from(list, i as int) {
                Ok(tail) => Ok::<Seq<(Seq<char>, u8, u8)>, ChecksumError>(
                    layers_model(acc@) + tail,
                ),
                Err(e) => Err::<Seq<(Seq<char>, u8, u8)>, ChecksumError>(e),
            },
        decreases checksums@.len() - i,
    {
        let ghost acc0 = acc@;
        match &checksums[i] {
            None => {
                proof {
                    assert(list[i as int] is None);
                }
            }
            Some(cs) => {
                proof {
                    assert(list[i as int] == Some(cs@));
                }
                match layer_of_checksum(cs.as_str()) {
                    Ok(layer) => {
                        acc.push(layer);
                        proof {
                            assert(layers_model(acc@) =~= layers_model(acc0).push(layer.model()));
                            assert(forall|tail: Seq<(Seq<char>, u8, u8)>|
                                layers_model(acc0) + (seq![layer.model()] + tail) =~= #[trigger] (
                                layers_model(acc0).push(layer.model()) + tail));
                        }
                    }
                    Err(e) => {
                        proof {
                            assert(cake_layers_from(list, i as int) == Err::<
                                Seq<(Seq<char>, u8, u8)>,
                                ChecksumError,
                            >(e));
                        }
                        return Err(e);
                    }
                }
            }
        }
        i = i + 1;
    }
    proof {
        assert(cake_layers_from(list, i as int) == Ok::<Seq<(Seq<char>, u8, u8)>, ChecksumError>(
            Seq::empty(),
        ));
        assert(layers_model(acc@) + Seq::<(Seq<char>, u8, u8)>::empty() =~= layers_model(acc@));
    }
    Ok(acc)
}

} // verus!
