//! Decoded point records and the bit-level decoder for the engine's
//! per-point attribute word.
//!
//! The engine hands back, per point, a coordinate triple, an attribute block
//! and a timestamp.  The coordinates, amplitude and reflectance are
//! single-precision floats that the core never computes with, so they are
//! carried as IEEE-754 bit patterns (`u32`).  The timestamp is kept in the
//! engine's native tick unit (`u64`).  All semantic content lives in the
//! 16-bit attribute flag word, which this module unpacks:
//!
//! - bits 0-1: echo type ordinal (single / first / interior / last),
//! - bit 3: waveform available,
//! - bit 4: pseudo echo with fixed 0.1 m range,
//! - bit 5: software-calculated target,
//! - bit 6: PPS not older than 1.5 s,
//! - bit 7: timestamp within the PPS timeframe,
//! - bits 8-9: facet (mirror segment) number.

use vstd::prelude::*;

verus! {

/// A coordinate triple as the engine delivers it: three single-precision
/// floats, carried as bit patterns.
#[derive(Clone, Copy, Debug, PartialEq, Eq, Structural)]
pub struct Xyz32 {
    /// The x coordinate (IEEE-754 single-precision bit pattern).
    pub x: u32,
    /// The y coordinate (IEEE-754 single-precision bit pattern).
    pub y: u32,
    /// The z coordinate (IEEE-754 single-precision bit pattern).
    pub z: u32,
}

/// The per-point attribute block as the engine delivers it.
#[derive(Clone, Copy, Debug, PartialEq, Eq, Structural)]
pub struct Attributes {
    /// Relative amplitude in dB (IEEE-754 single-precision bit pattern).
    pub amplitude: u32,
    /// Relative reflectance in dB (IEEE-754 single-precision bit pattern).
    pub reflectance: u32,
    /// A measure of pulse shape distortion.
    pub deviation: u16,
    /// The packed attribute bitfield decoded by this module.
    pub flags: u16,
}

/// The type of echo.
#[derive(Clone, Copy, Debug, PartialEq, Eq, Structural)]
pub enum EchoType {
    /// The only echo from this pulse.
    Single,
    /// The first of multiple echos from this pulse.
    First,
    /// The second through next-to-last echo from this pulse.
    Interior,
    /// The last echo from this pulse.
    Last,
}

impl EchoType {
    /// The echo type encoded in the two lowest bits of an attribute word
    /// (its value modulo 4).  Total over all 16-bit values: every point
    /// decodes to some echo type.
    pub open spec fn spec_of_flags(flags: u16) -> EchoType {
        if flags % 4 == 0 {
            EchoType::Single
        } else if flags % 4 == 1 {
            EchoType::First
        } else if flags % 4 == 2 {
            EchoType::Interior
        } else {
            EchoType::Last
        }
    }

    /// Maps an echo type ordinal onto an `EchoType`.
    pub fn from_u16(n: u16) -> (echo_type: EchoType)
        requires
            n <= 3,
        ensures
            echo_type == EchoType::spec_of_flags(n),
    {
        if n == 0 {
            EchoType::Single
        } else if n == 1 {
            EchoType::First
        } else if n == 2 {
            EchoType::Interior
        } else {
            EchoType::Last
        }
    }

    /// Extracts the echo type from a full attribute word, ignoring all
    /// bits above the lowest two.
    pub fn from_flags(flags: u16) -> (echo_type: EchoType)
        ensures
            echo_type == EchoType::spec_of_flags(flags),
    {
        proof {
            assert(flags & 3 == flags % 4) by (bit_vector);
        }
        EchoType::from_u16(flags & 3)
    }
}

/// The echo type of an attribute word depends on its two lowest bits
/// (`flags & 3`) alone: two words that agree there decode to the same echo
/// type, whatever their other bits hold.
pub proof fn lemma_echo_type_ignores_high_bits(a: u16, b: u16)
    requires
        a & 3 == b & 3,
    ensures
        EchoType::spec_of_flags(a) == EchoType::spec_of_flags(b),
{
    assert(a & 3 == a % 4) by (bit_vector);
    assert(b & 3 == b % 4) by (bit_vector);
}

/// Echo-type decoding is total and stable: each of the four ordinals
/// `flags & 3` decodes to its own variant, independent of the other bits
/// of the word.
pub proof fn lemma_echo_type_by_ordinal(flags: u16)
    ensures
        flags & 3 == 0 ==> EchoType::spec_of_flags(flags) == EchoType::Single,
        flags & 3 == 1 ==> EchoType::spec_of_flags(flags) == EchoType::First,
        flags & 3 == 2 ==> EchoType::spec_of_flags(flags) == EchoType::Interior,
        flags & 3 == 3 ==> EchoType::spec_of_flags(flags) == EchoType::Last,
        EchoType::spec_of_flags(flags) == EchoType::spec_of_flags(flags % 4),
{
    assert(flags & 3 == flags % 4) by (bit_vector);
    assert(flags % 4 % 4 == flags % 4) by (bit_vector);
}

/// The facet (mirror segment) number of a point, a two-bit value.
#[derive(Clone, Copy, Debug, PartialEq, Eq, Structural)]
pub struct Facet(u8);

/// The facet number encoded in bits 8-9 of an attribute word: the value of
/// `(flags >> 8) & 3`, written arithmetically.
pub open spec fn spec_facet_number(flags: u16) -> u8 {
    ((flags / 256) % 4) as u8
}

/// Whether the bit of the given weight (a power of two) is set in an
/// attribute word.
pub open spec fn spec_flag_bit(flags: u16, weight: u16) -> bool {
    (flags / weight) % 2 == 1
}

impl Facet {
    /// The facet number this value carries.
    pub closed spec fn spec_number(self) -> u8 {
        self.0
    }

    /// Extracts the facet number from an attribute word.
    pub fn from_flags(flags: u16) -> (facet: Facet)
        ensures
            facet.spec_number() == spec_facet_number(flags),
            facet.spec_number() <= 3,
    {
        proof {
            assert((flags >> 8) & 3 == (flags / 256) % 4 && (flags >> 8) & 3 <= 3)
                by (bit_vector);
        }
        Facet(((flags >> 8) & 3) as u8)
    }

    /// The facet number as a plain integer.
    pub fn number(self) -> (n: u8)
        ensures
            n == self.spec_number(),
    {
        self.0
    }
}

/// Facet extraction is exactly `(flags >> 8) & 3`: it reads bits 8-9 and
/// nothing else, the result is at most 3, and two attribute words that
/// agree on those two bits yield the same facet.
pub proof fn lemma_facet_extraction(a: u16, b: u16)
    ensures
        spec_facet_number(a) == ((a >> 8) & 3) as u8,
        spec_facet_number(a) <= 3,
        a & 0x300 == b & 0x300 ==> spec_facet_number(a) == spec_facet_number(b),
{
    assert((a >> 8) & 3 == (a / 256) % 4 && (a / 256) % 4 <= 3) by (bit_vector);
    assert(a & 0x300 == b & 0x300 ==> (a / 256) % 4 == (b / 256) % 4) by (bit_vector);
}

/// Each boolean attribute reads exactly one bit of the word: the
/// arithmetic form used in the decode specification coincides with the
/// mask test on the same weight.
pub proof fn lemma_flag_bits(flags: u16)
    ensures
        spec_flag_bit(flags, 8) == (flags & 8 == 8),
        spec_flag_bit(flags, 16) == (flags & 16 == 16),
        spec_flag_bit(flags, 32) == (flags & 32 == 32),
        spec_flag_bit(flags, 64) == (flags & 64 == 64),
        spec_flag_bit(flags, 128) == (flags & 128 == 128),
{
    assert(((flags / 8) % 2 == 1) == (flags & 8 == 8)) by (bit_vector);
    assert(((flags / 16) % 2 == 1) == (flags & 16 == 16)) by (bit_vector);
    assert(((flags / 32) % 2 == 1) == (flags & 32 == 32)) by (bit_vector);
    assert(((flags / 64) % 2 == 1) == (flags & 64 == 64)) by (bit_vector);
    assert(((flags / 128) % 2 == 1) == (flags & 128 == 128)) by (bit_vector);
}

/// A decoded point record.  Derived deterministically from one raw record;
/// it has no identity beyond its fields and no tie to the stream that
/// produced it.
#[derive(Clone, Copy, Debug, PartialEq, Eq, Structural)]
pub struct Point {
    /// The x coordinate (IEEE-754 single-precision bit pattern).
    pub x: u32,
    /// The y coordinate (IEEE-754 single-precision bit pattern).
    pub y: u32,
    /// The z coordinate (IEEE-754 single-precision bit pattern).
    pub z: u32,
    /// The amplitude in dB (IEEE-754 single-precision bit pattern).
    pub amplitude: u32,
    /// The reflectance in dB (IEEE-754 single-precision bit pattern).
    pub reflectance: u32,
    /// The deviation, a measure of pulse shape distortion.
    pub deviation: u16,
    /// The type of echo.
    pub echo_type: EchoType,
    /// Is there a waveform available?
    pub is_waveform_available: bool,
    /// Is this a pseudo echo with fixed range 0.1 m?
    pub is_pseudo_echo: bool,
    /// Is this a software-calculated target?
    pub is_sw_calculated_target: bool,
    /// Is the PPS not older than 1.5 seconds?
    pub is_pps_new: bool,
    /// Is the time in the PPS timeframe?
    pub is_time_in_pps_timeframe: bool,
    /// Facet or segment number.
    pub facet_number: u8,
    /// The time of the point, in the engine's native tick unit.
    pub time: u64,
}

impl Point {
    /// What one raw record decodes to.
    pub open spec fn spec_decode(xyz: Xyz32, attributes: Attributes, time: u64) -> Point {
        Point {
            x: xyz.x,
            y: xyz.y,
            z: xyz.z,
            amplitude: attributes.amplitude,
            reflectance: attributes.reflectance,
            deviation: attributes.deviation,
            echo_type: EchoType::spec_of_flags(attributes.flags),
            is_waveform_available: spec_flag_bit(attributes.flags, 8),
            is_pseudo_echo: spec_flag_bit(attributes.flags, 16),
            is_sw_calculated_target: spec_flag_bit(attributes.flags, 32),
            is_pps_new: spec_flag_bit(attributes.flags, 64),
            is_time_in_pps_timeframe: spec_flag_bit(attributes.flags, 128),
            facet_number: spec_facet_number(attributes.flags),
            time,
        }
    }

    /// Decodes one raw record.  Total: every raw record decodes, whatever
    /// bit pattern its attribute word holds.
    pub fn from_raw(xyz: Xyz32, attributes: Attributes, time: u64) -> (point: Point)
        ensures
            point == Point::spec_decode(xyz, attributes, time),
    {
        proof {
            let flags = attributes.flags;
            assert((flags & 8 == 8) == ((flags / 8) % 2 == 1)) by (bit_vector);
            assert((flags & 16 == 16) == ((flags / 16) % 2 == 1)) by (bit_vector);
            assert((flags & 32 == 32) == ((flags / 32) % 2 == 1)) by (bit_vector);
            assert((flags & 64 == 64) == ((flags / 64) % 2 == 1)) by (bit_vector);
            assert((flags & 128 == 128) == ((flags / 128) % 2 == 1)) by (bit_vector);
        }
        Point {
            x: xyz.x,
            y: xyz.y,
            z: xyz.z,
            amplitude: attributes.amplitude,
            reflectance: attributes.reflectance,
            deviation: attributes.deviation,
            echo_type: EchoType::from_flags(attributes.flags),
            is_waveform_available: attributes.flags & 8 == 8,
            is_pseudo_echo: attributes.flags & 16 == 16,
            is_sw_calculated_target: attributes.flags & 32 == 32,
            is_pps_new: attributes.flags & 64 == 64,
            is_time_in_pps_timeframe: attributes.flags & 128 == 128,
            facet_number: Facet::from_flags(attributes.flags).number(),
            time,
        }
    }

    /// The facet of this point as a typed value.
    pub fn facet(&self) -> (facet: Facet)
        requires
            self.facet_number <= 3,
        ensures
            facet.spec_number() == self.facet_number,
    {
        Facet(self.facet_number)
    }
}

} // verus!
