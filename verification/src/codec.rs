//! The integer side of the unit codec.
//!
//! Engineering values are real-valued; what this module owns is everything
//! about a conversion that is decided on integers: which raw word a converter
//! expects, and the sign-magnitude packing of oriented speed and load. The two
//! packings differ on purpose. An oriented speed keeps its sign in bit 11 and
//! leaves bit 10 reserved; an oriented load keeps its sign in bit 10, directly
//! above the ten magnitude bits.

use vstd::prelude::*;
use crate::error::Error;

verus! {

/// Number of values a ten-bit magnitude can take.
pub const MAGNITUDE_SPAN: u16 = 1024;

/// Weight of the sign bit of an oriented speed word (bit 11).
pub const SPEED_SIGN: u16 = 2048;

/// Weight of the sign bit of an oriented load word (bit 10).
pub const LOAD_SIGN: u16 = 1024;

/// The unit conversion attached to a register.
#[derive(Clone, Copy, Debug, PartialEq, Eq, Structural)]
pub enum Converter {
    /// Radians, 4096 steps per turn, centred on step 2048.
    AnglePosition,
    /// Radians per second from an unsigned magnitude.
    AbsoluteSpeed,
    /// Radians per second from a sign-magnitude word, sign in bit 11.
    OrientedSpeed,
    /// Percent of the maximum torque from an unsigned magnitude.
    AbsoluteTorque,
    /// Percent of the maximum torque from a sign-magnitude word, sign in bit 10.
    OrientedTorque,
}

impl Converter {
    /// Byte width of the raw word the converter works on.
    pub open spec fn spec_raw_width(self) -> nat {
        2
    }

    /// Byte width of the raw word the converter works on.
    pub fn raw_width(&self) -> (width: u8)
        ensures
            width == self.spec_raw_width(),
    {
        2
    }
}

/// The angular-position conversion: 4096 steps per turn on a 16-bit word,
/// step 2048 standing for the angle zero.
#[derive(Clone, Copy, Debug, PartialEq, Eq, Structural)]
pub struct AnglePosition;

impl AnglePosition {
    /// Raw steps in one full turn.
    pub const STEPS_PER_TURN: i16 = 4096;

    /// The raw step that stands for the angle zero.
    pub const CENTER: i16 = 2048;

    /// The converter a register names to have its words read as angles.
    pub fn converter() -> (converter: Converter)
        ensures
            converter == Converter::AnglePosition,
    {
        Converter::AnglePosition
    }
}

/// A sign-magnitude word taken apart.
#[derive(Clone, Copy, Debug, PartialEq, Eq, Structural)]
pub struct SignMagnitude {
    /// The sign bit of the word. A set bit marks a value that is not negative.
    pub sign_set: bool,
    /// The ten low bits of the word.
    pub magnitude: u16,
}

/// The sign and magnitude that an oriented speed word holds.
pub open spec fn speed_parts(raw: u16) -> SignMagnitude {
    SignMagnitude { sign_set: (raw as nat / 2048) % 2 == 1, magnitude: (raw % 1024) as u16 }
}

/// The sign and magnitude that an oriented load word holds.
pub open spec fn load_parts(raw: u16) -> SignMagnitude {
    SignMagnitude { sign_set: (raw as nat / 1024) % 2 == 1, magnitude: (raw % 1024) as u16 }
}

/// An oriented speed word with nothing outside its sign and magnitude bits:
/// bit 10 and the four high bits are clear.
pub open spec fn speed_word_well_formed(raw: u16) -> bool {
    raw < 4096 && raw % 2048 < 1024
}

/// An oriented load word with nothing above its sign bit.
pub open spec fn load_word_well_formed(raw: u16) -> bool {
    raw < 2048
}

/// The word that packs a speed of the given magnitude and sign.
pub open spec fn speed_word(magnitude: u16, negative: bool) -> int {
    if negative {
        magnitude as int
    } else {
        magnitude + 2048
    }
}

/// The word that packs a load of the given magnitude and sign.
pub open spec fn load_word(magnitude: u16, negative: bool) -> int {
    if negative {
        magnitude as int
    } else {
        magnitude + 1024
    }
}

/// Takes an oriented speed word apart: the sign is bit 11, the magnitude the
/// ten low bits. Bit 10 and the bits above bit 11 are ignored.
pub fn oriented_speed_parts(raw: u16) -> (parts: SignMagnitude)
    ensures
        parts == speed_parts(raw),
{
    let sign: u16 = (raw >> 11) & 1;
    let magnitude: u16 = raw & 0x3ff;
    assert((raw >> 11) & 1 == (raw / 2048) % 2) by (bit_vector);
    assert(raw & 0x3ff == raw % 1024) by (bit_vector);
    SignMagnitude { sign_set: sign == 1, magnitude }
}

/// Packs an oriented speed word: the bare magnitude for a negative speed, the
/// magnitude plus 2048 otherwise. The magnitude is not clamped.
pub fn oriented_speed_word(magnitude: u16, negative: bool) -> (raw: u16)
    requires
        speed_word(magnitude, negative) <= u16::MAX,
    ensures
        raw == speed_word(magnitude, negative),
{
    if negative {
        magnitude
    } else {
        magnitude + SPEED_SIGN
    }
}

/// Takes an oriented load word apart: the sign is bit 10, the magnitude the
/// ten low bits. The bits above bit 10 are ignored.
pub fn oriented_load_parts(raw: u16) -> (parts: SignMagnitude)
    ensures
        parts == load_parts(raw),
{
    let sign: u16 = (raw >> 10) & 1;
    let magnitude: u16 = raw & 0x3ff;
    assert((raw >> 10) & 1 == (raw / 1024) % 2) by (bit_vector);
    assert(raw & 0x3ff == raw % 1024) by (bit_vector);
    SignMagnitude { sign_set: sign == 1, magnitude }
}

/// Checks that a load magnitude lies in the torque domain, 0 to 1023.
pub fn absolute_load(magnitude: u16) -> (result: Result<u16, Error>)
    ensures
        magnitude < MAGNITUDE_SPAN ==> result == Ok::<u16, Error>(magnitude),
        magnitude >= MAGNITUDE_SPAN ==> result == Err::<u16, Error>(Error::Domain),
{
    if magnitude < MAGNITUDE_SPAN {
        Ok(magnitude)
    } else {
        Err(Error::Domain)
    }
}

/// Packs an oriented load word: the bare magnitude for a negative torque, the
/// magnitude plus 1024 otherwise. A magnitude beyond ten bits is outside the
/// torque domain and is refused.
pub fn oriented_load_word(magnitude: u16, negative: bool) -> (result: Result<u16, Error>)
    ensures
        magnitude < MAGNITUDE_SPAN ==> result is Ok && result->Ok_0 == load_word(
            magnitude,
            negative,
        ),
        magnitude >= MAGNITUDE_SPAN ==> result == Err::<u16, Error>(Error::Domain),
{
    match absolute_load(magnitude) {
        Ok(load) => {
            if negative {
                Ok(load)
            } else {
                Ok(load + LOAD_SIGN)
            }
        },
        Err(e) => Err(e),
    }
}

/// Taking a well-formed speed word apart and packing the parts gives the word
/// back.
pub proof fn lemma_speed_word_of_parts(raw: u16)
    requires
        speed_word_well_formed(raw),
    ensures
        speed_word(speed_parts(raw).magnitude, !speed_parts(raw).sign_set) == raw,
{
}

/// Packing a ten-bit magnitude and a sign into a speed word and taking the
/// word apart gives the magnitude and the sign back, in a well-formed word.
pub proof fn lemma_speed_parts_of_word(magnitude: u16, negative: bool)
    requires
        magnitude < MAGNITUDE_SPAN,
    ensures
        speed_word(magnitude, negative) <= u16::MAX,
        speed_word_well_formed(speed_word(magnitude, negative) as u16),
        speed_parts(speed_word(magnitude, negative) as u16) == (SignMagnitude {
            sign_set: !negative,
            magnitude,
        }),
{
}

/// Taking a well-formed load word apart and packing the parts gives the word
/// back.
pub proof fn lemma_load_word_of_parts(raw: u16)
    requires
        load_word_well_formed(raw),
    ensures
        load_parts(raw).magnitude < MAGNITUDE_SPAN,
        load_word(load_parts(raw).magnitude, !load_parts(raw).sign_set) == raw,
{
}

/// Packing a ten-bit magnitude and a sign into a load word and taking the word
/// apart gives the magnitude and the sign back, in a well-formed word.
pub proof fn lemma_load_parts_of_word(magnitude: u16, negative: bool)
    requires
        magnitude < MAGNITUDE_SPAN,
    ensures
        load_word_well_formed(load_word(magnitude, negative) as u16),
        load_parts(load_word(magnitude, negative) as u16) == (SignMagnitude {
            sign_set: !negative,
            magnitude,
        }),
{
}

} // verus!
