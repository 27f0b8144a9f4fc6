//! The KNX 2-octet float: one sign bit, four bits exponent, eleven bits
//! mantissa. The sign bit extends the mantissa in two's complement, and the
//! value is a hundredth of the mantissa times two to the exponent.
//!
//! The library works on bit patterns and whole hundredths; the step between
//! those and a floating-point number is left to the caller.

use crate::dpt::DPT;
use crate::knxnet::KnxNetIpError;
use crate::octets::{be16, be16_bytes, push_u16_be, read_u16_be};
use core::marker::PhantomData;
use vstd::prelude::*;

verus! {

/// A KNX 2-octet float, held as its 16 bits.
#[derive(Debug, Copy, Clone, PartialEq, Eq)]
pub struct Float16(u16);

impl View for Float16 {
    type V = u16;

    closed spec fn view(&self) -> u16 {
        self.0
    }
}

/// The mantissa that the pattern of a 32-bit float gives: its eleven highest
/// bits with the implicit one in front, moved to the exponent `e` that the
/// pattern asks for. Below exponent 0 the mantissa moves right and loses its
/// low bits; above exponent 15 it moves left, out of its eleven bits.
pub open spec fn scaled_mantissa(pattern: u32, e: int) -> u32 {
    let mantissa = ((pattern & 0x007F_FFFFu32) | 0x0080_0000u32) >> 13;
    if e < 0 {
        if -e >= 32 {
            0
        } else {
            mantissa >> ((-e) as u32)
        }
    } else if e > 15 {
        if e - 15 >= 32 {
            0
        } else {
            mantissa << ((e - 15) as u32)
        }
    } else {
        mantissa
    }
}

/// The exponent of the result for the exponent `e` that a pattern asks for:
/// `e` held within 0 and 15.
pub open spec fn clamped_exponent(e: int) -> u32 {
    if e < 0 {
        0
    } else if e > 15 {
        15
    } else {
        e as u32
    }
}

/// The 16 bits for the 32-bit pattern of a hundredfold value.
///
/// The pattern is read as sign, biased exponent and mantissa of an IEEE 754
/// single. A biased exponent of 0 gives 0. Else the exponent is the biased
/// one less 127, and less 10 for the ten bits behind the leading one of the
/// mantissa; mantissa and exponent are brought into range as
/// [`scaled_mantissa`] and [`clamped_exponent`] say; a negative value has the
/// mantissa in 12-bit two's complement; and the bits are packed as sign,
/// exponent, eleven bits of mantissa.
pub open spec fn knx_float_bits(pattern: u32) -> u16 {
    let biased = (pattern & 0x7F80_0000u32) >> 23;
    if biased == 0 {
        0
    } else {
        let e = biased as int - 127 - 10;
        let magnitude = scaled_mantissa(pattern, e);
        let mantissa = if pattern & 0x8000_0000u32 != 0 {
            (!magnitude).wrapping_add(1) & 0xFFF
        } else {
            magnitude
        };
        ((mantissa & 0x800) << 4) as u16 | ((clamped_exponent(e) as u16) << 11) | (mantissa
            & 0x7FF) as u16
    }
}

/// A hundred times the value of 16 bits: the eleven bits of mantissa, negated
/// within eleven bits where the sign bit is set, times two to the exponent,
/// with the sign.
pub open spec fn knx_float_hundredths(bits: u16) -> int {
    let mantissa = bits & 0x7FF;
    let exponent = (bits >> 11) & 0xf;
    if bits & 0x8000 != 0 {
        -(((((!mantissa).wrapping_add(1) & 0x7FF) as u32) << exponent) as int)
    } else {
        ((mantissa as u32) << exponent) as int
    }
}

/// The value that a pattern stands for, cut to the eleven highest bits of
/// its mantissa, in whole hundredths: nothing for a biased exponent of 0,
/// else the scaled mantissa times two to the clamped exponent, with the sign
/// of the pattern.
pub open spec fn kept_hundredths(pattern: u32) -> int {
    let biased = (pattern & 0x7F80_0000u32) >> 23;
    let e = biased as int - 127 - 10;
    let magnitude = (scaled_mantissa(pattern, e) << clamped_exponent(e)) as int;
    if biased == 0 {
        0
    } else if pattern & 0x8000_0000u32 != 0 {
        -magnitude
    } else {
        magnitude
    }
}

/// Up to the exponent 15 the 16 bits of a pattern are read back as the value
/// that the pattern stands for, cut to the eleven highest bits of its
/// mantissa.
pub proof fn lemma_float_round_trip(pattern: u32)
    requires
        (pattern & 0x7F80_0000u32) >> 23 <= 137 + 15,
    ensures
        knx_float_hundredths(knx_float_bits(pattern)) == kept_hundredths(pattern),
{
    let biased = (pattern & 0x7F80_0000u32) >> 23;
    let e = biased as int - 127 - 10;
    let negative = pattern & 0x8000_0000u32 != 0;
    let m = scaled_mantissa(pattern, e);
    let x = clamped_exponent(e);
    assert(m <= 2047) by {
        let full = ((pattern & 0x007F_FFFFu32) | 0x0080_0000u32) >> 13;
        assert(full <= 2047) by (bit_vector)
            requires
                full == ((pattern & 0x007F_FFFFu32) | 0x0080_0000u32) >> 13,
        ;
        if e < 0 && -e < 32 {
            let down = (-e) as u32;
            assert(full >> down <= 2047) by (bit_vector)
                requires
                    full <= 2047,
            ;
        }
    }
    let bits = knx_float_bits(pattern);
    if biased == 0 {
        assert(bits == 0);
        assert(0u16 & 0x8000 == 0 && ((0u16 & 0x7FF) as u32) << ((0u16 >> 11) & 0xf) == 0) by (bit_vector);
    } else if negative {
        let mantissa = (!m).wrapping_add(1) & 0xFFF;
        assert(bits == ((mantissa & 0x800) << 4) as u16 | ((x as u16) << 11) | (mantissa
            & 0x7FF) as u16);
        let low = bits & 0x7FF;
        let back = (!low).wrapping_add(1) & 0x7FF;
        assert({
            &&& (bits >> 11) & 0xf == x
            &&& m == 0 ==> bits & 0x8000 == 0 && ((low as u32) << ((bits >> 11) & 0xf)) == 0
            &&& m != 0 ==> bits & 0x8000 != 0 && back as u32 == m
        }) by (bit_vector)
            requires
                m <= 2047,
                x <= 15,
                mantissa == (!m).wrapping_add(1) & 0xFFF,
                bits == ((mantissa & 0x800) << 4) as u16 | ((x as u16) << 11) | (mantissa
                    & 0x7FF) as u16,
                low == bits & 0x7FF,
                back == (!low).wrapping_add(1) & 0x7FF,
        ;
        if m == 0 {
            assert(m << x == 0) by (bit_vector)
                requires
                    m == 0,
            ;
        }
    } else {
        assert(bits == ((m & 0x800) << 4) as u16 | ((x as u16) << 11) | (m & 0x7FF) as u16);
        assert(bits & 0x8000 == 0 && (bits & 0x7FF) as u32 == m && (bits >> 11) & 0xf == x)
            by (bit_vector)
            requires
                m <= 2047,
                x <= 15,
                bits == ((m & 0x800) << 4) as u16 | ((x as u16) << 11) | (m & 0x7FF) as u16,
        ;
    }
}

/// A float is read back from its own two bytes.
pub proof fn lemma_bytes_round_trip(v: u16)
    ensures
        <Float16 as DPT>::parsed(<Float16 as DPT>::wire(v)) == Ok::<u16, KnxNetIpError>(v),
{
    crate::octets::lemma_be16_round_trip(v, 0, 0);
}

impl Float16 {
    /// The float with the given 16 bits.
    pub fn from_raw(bits: u16) -> (f: Float16)
        ensures
            f@ == bits,
    {
        Float16(bits)
    }

    /// The 16 bits of the float.
    pub fn raw(&self) -> (bits: u16)
        ensures
            bits == self@,
    {
        self.0
    }

    /// The float for a value, given the bit pattern of a hundred times the
    /// value as a 32-bit float.
    pub fn from_ieee_bits(pattern: u32) -> (f: Float16)
        ensures
            f@ == knx_float_bits(pattern),
    {
        let sign = pattern & 0x8000_0000u32;
        let biased = (pattern & 0x7F80_0000u32) >> 23;
        assert(biased <= 255) by (bit_vector)
            requires
                biased == (pattern & 0x7F80_0000u32) >> 23,
        ;
        let mut man: u32 = ((pattern & 0x007F_FFFFu32) | 0x0080_0000u32) >> 13;
        if biased == 0 {
            return Float16(0);
        }
        let e: i32 = biased as i32 - 127 - 10;
        let exp: u32;
        if e < 0 {
            let down: u32 = (-e) as u32;
            man = if down >= 32 {
                0
            } else {
                man >> down
            };
            exp = 0;
        } else if e > 15 {
            let up: u32 = (e - 15) as u32;
            man = if up >= 32 {
                0
            } else {
                man << up
            };
            exp = 15;
        } else {
            exp = e as u32;
        }
        if sign != 0 {
            man = (!man).wrapping_add(1) & 0xFFF;
        }
        Float16(((man & 0x800) << 4) as u16 | ((exp as u16) << 11) | (man & 0x7FF) as u16)
    }

    /// A hundred times the value, as a whole number.
    pub fn hundredths(&self) -> (h: i32)
        ensures
            h == knx_float_hundredths(self@),
            -0x0400_0000 < h < 0x0400_0000,
    {
        let bits = self.0;
        let man: u16 = bits & 0x7FF;
        let exp: u16 = (bits >> 11) & 0xf;
        assert(exp <= 15) by (bit_vector)
            requires
                exp == (bits >> 11) & 0xf,
        ;
        if (bits & 0x8000) != 0 {
            let negated: u32 = ((!man).wrapping_add(1) & 0x7FF) as u32;
            let magnitude: u32 = negated << exp;
            assert(magnitude < 0x0400_0000) by (bit_vector)
                requires
                    exp <= 15,
                    negated == ((!man).wrapping_add(1) & 0x7FF) as u32,
                    magnitude == negated << exp,
            ;
            -(magnitude as i32)
        } else {
            let magnitude: u32 = (man as u32) << exp;
            assert(magnitude < 0x0400_0000) by (bit_vector)
                requires
                    exp <= 15,
                    man == bits & 0x7FF,
                    magnitude == (man as u32) << exp,
            ;
            magnitude as i32
        }
    }
}

impl Default for Float16 {
    fn default() -> (f: Float16)
        ensures
            f@ == 0,
    {
        Float16(0)
    }
}

/// Two bytes, high byte first, read from the start of the value's bytes.
impl DPT for Float16 {
    open spec fn bits(v: u16) -> nat {
        16
    }

    open spec fn wire(v: u16) -> Seq<u8> {
        be16_bytes(v)
    }

    open spec fn parsed(buf: Seq<u8>) -> Result<u16, KnxNetIpError> {
        if buf.len() < 2 {
            Err(KnxNetIpError::MessageTooShort(buf.len() as usize))
        } else {
            Ok(be16(buf[0], buf[1]))
        }
    }

    proof fn lemma_wire_len(v: u16) {
    }

    fn encode(&self, buf: &mut Vec<u8>) {
        push_u16_be(buf, self.0);
    }

    fn decode(&mut self, buf: &[u8]) -> (r: Result<(), KnxNetIpError>) {
        if buf.len() < 2 {
            return Err(KnxNetIpError::MessageTooShort(buf.len()));
        }
        self.0 = read_u16_be(buf);
        Ok(())
    }

    fn bit_len(&self) -> (n: u16) {
        16
    }
}

/// A 2-octet float of the unit `U`. The unit is a type, so that values of
/// different units do not mix; it takes no part in the bytes.
#[derive(Debug, PartialEq, Eq)]
pub struct Measure<U> {
    value: Float16,
    unit: PhantomData<U>,
}

impl<U> Clone for Measure<U> {
    fn clone(&self) -> (copy: Measure<U>)
        ensures
            copy@ == self@,
    {
        Measure { value: self.value, unit: PhantomData }
    }
}

impl<U> Copy for Measure<U> {

}

impl<U> View for Measure<U> {
    type V = u16;

    closed spec fn view(&self) -> u16 {
        self.value@
    }
}

impl<U> Measure<U> {
    /// The value that the first two bytes of `buf` stand for.
    pub fn from_bytes(buf: &[u8]) -> (r: Result<Measure<U>, KnxNetIpError>)
        ensures
            match <Float16 as DPT>::parsed(buf@) {
                Ok(v) => r matches Ok(value) && value@ == v,
                Err(e) => r matches Err(x) && x == e,
            },
    {
        let mut value = Float16::default();
        match value.decode(buf) {
            Ok(()) => Ok(Measure { value, unit: PhantomData }),
            Err(e) => Err(e),
        }
    }

    /// The value for the bit pattern of its hundredfold as a 32-bit float.
    pub fn from_ieee_bits(pattern: u32) -> (value: Measure<U>)
        ensures
            value@ == knx_float_bits(pattern),
    {
        Measure { value: Float16::from_ieee_bits(pattern), unit: PhantomData }
    }

    /// A hundred times the value, as a whole number.
    pub fn hundredths(&self) -> (h: i32)
        ensures
            h == knx_float_hundredths(self@),
    {
        self.value.hundredths()
    }
}

impl<U> Default for Measure<U> {
    fn default() -> (value: Measure<U>)
        ensures
            value@ == 0,
    {
        Measure { value: Float16::default(), unit: PhantomData }
    }
}

/// Two bytes, high byte first, read from the start of the value's bytes.
impl<U> DPT for Measure<U> {
    open spec fn bits(v: u16) -> nat {
        16
    }

    open spec fn wire(v: u16) -> Seq<u8> {
        be16_bytes(v)
    }

    open spec fn parsed(buf: Seq<u8>) -> Result<u16, KnxNetIpError> {
        <Float16 as DPT>::parsed(buf)
    }

    proof fn lemma_wire_len(v: u16) {
    }

    fn encode(&self, buf: &mut Vec<u8>) {
        self.value.encode(buf);
    }

    fn decode(&mut self, buf: &[u8]) -> (r: Result<(), KnxNetIpError>) {
        self.value.decode(buf)
    }

    fn bit_len(&self) -> (n: u16) {
        16
    }
}

/// Degrees Celsius.
#[derive(Debug, Copy, Clone, PartialEq, Eq)]
pub struct Celsius;

/// A temperature in degrees Celsius (datapoint type 9.001).
pub type DptValueTemp = Measure<Celsius>;

/// Kelvin.
#[derive(Debug, Copy, Clone, PartialEq, Eq)]
pub struct Kelvin;

/// A temperature difference in kelvin (datapoint type 9.002).
pub type DptValueTempd = Measure<Kelvin>;

/// Kelvin per hour.
#[derive(Debug, Copy, Clone, PartialEq, Eq)]
pub struct KelvinPerHour;

/// A temperature gradient in kelvin per hour (datapoint type 9.003).
pub type DptValueTempa = Measure<KelvinPerHour>;

/// Lux.
#[derive(Debug, Copy, Clone, PartialEq, Eq)]
pub struct Lux;

/// An illuminance in lux (datapoint type 9.004).
pub type DptValueLux = Measure<Lux>;

/// Metres per second.
#[derive(Debug, Copy, Clone, PartialEq, Eq)]
pub struct MetrePerSecond;

/// A wind speed in metres per second (datapoint type 9.005).
pub type DptValueWsp = Measure<MetrePerSecond>;

/// Pascal.
#[derive(Debug, Copy, Clone, PartialEq, Eq)]
pub struct Pascal;

/// A pressure in pascal (datapoint type 9.006).
pub type DptValuePres = Measure<Pascal>;

/// Percent.
#[derive(Debug, Copy, Clone, PartialEq, Eq)]
pub struct Percent;

/// A humidity in percent (datapoint type 9.007).
pub type DptValueHumidity = Measure<Percent>;

/// Parts per million.
#[derive(Debug, Copy, Clone, PartialEq, Eq)]
pub struct PartsPerMillion;

/// An air quality in parts per million (datapoint type 9.008).
pub type DptValueAirQuality = Measure<PartsPerMillion>;

/// Seconds.
#[derive(Debug, Copy, Clone, PartialEq, Eq)]
pub struct Second;

/// A time in seconds (datapoint type 9.010).
pub type DptValueTime1 = Measure<Second>;

/// Milliseconds.
#[derive(Debug, Copy, Clone, PartialEq, Eq)]
pub struct Millisecond;

/// A time in milliseconds (datapoint type 9.011).
pub type DptValueTime2 = Measure<Millisecond>;

/// Millivolt.
#[derive(Debug, Copy, Clone, PartialEq, Eq)]
pub struct Millivolt;

/// A voltage in millivolt (datapoint type 9.020).
pub type DptValueVolt = Measure<Millivolt>;

/// Milliampere.
#[derive(Debug, Copy, Clone, PartialEq, Eq)]
pub struct Milliampere;

/// A current in milliampere (datapoint type 9.021).
pub type DptValueCurr = Measure<Milliampere>;

/// Watt per square metre.
#[derive(Debug, Copy, Clone, PartialEq, Eq)]
pub struct WattPerSquareMetre;

/// A power density in watt per square metre (datapoint type 9.022).
pub type DptPowerDensity = Measure<WattPerSquareMetre>;

/// Kelvin per percent.
#[derive(Debug, Copy, Clone, PartialEq, Eq)]
pub struct KelvinPerPercent;

/// A ratio in kelvin per percent (datapoint type 9.023).
pub type DptKelvinPerPercent = Measure<KelvinPerPercent>;

/// Kilowatt.
#[derive(Debug, Copy, Clone, PartialEq, Eq)]
pub struct Kilowatt;

/// A power in kilowatt (datapoint type 9.024).
pub type DptPower = Measure<Kilowatt>;

/// Litres per hour.
#[derive(Debug, Copy, Clone, PartialEq, Eq)]
pub struct LitrePerHour;

/// A volume flow in litres per hour (datapoint type 9.025).
pub type DptValueVolumeFlow = Measure<LitrePerHour>;

/// Litres per square metre.
#[derive(Debug, Copy, Clone, PartialEq, Eq)]
pub struct LitrePerSquareMetre;

/// A rain amount in litres per square metre (datapoint type 9.026).
pub type DptRainAmount = Measure<LitrePerSquareMetre>;

/// Degrees Fahrenheit.
#[derive(Debug, Copy, Clone, PartialEq, Eq)]
pub struct Fahrenheit;

/// A temperature in degrees Fahrenheit (datapoint type 9.027).
pub type DptValueTempF = Measure<Fahrenheit>;

/// Kilometres per hour.
#[derive(Debug, Copy, Clone, PartialEq, Eq)]
pub struct KilometrePerHour;

/// A wind speed in kilometres per hour (datapoint type 9.028).
pub type DptValueWspKmh = Measure<KilometrePerHour>;

} // verus!
