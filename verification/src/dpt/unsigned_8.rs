//! The 8-bit unsigned datapoint types: one byte that stands for a value of a
//! linear range.
//!
//! The library holds the byte and names the range; the step between the byte
//! and a floating-point number of the range is left to the caller.

use crate::dpt::DPT;
use crate::knxnet::KnxNetIpError;
use core::marker::PhantomData;
use vstd::prelude::*;

verus! {

/// What the first byte of a value's bytes stands for: itself. No byte is
/// `MessageTooShort`.
pub open spec fn parsed_byte(buf: Seq<u8>) -> Result<u8, KnxNetIpError> {
    if buf.len() < 1 {
        Err(KnxNetIpError::MessageTooShort(buf.len() as usize))
    } else {
        Ok(buf[0])
    }
}

/// A byte is read back from itself.
pub proof fn lemma_byte_round_trip(v: u8)
    ensures
        parsed_byte(seq![v]) == Ok::<u8, KnxNetIpError>(v),
{
}

/// A linear range that the 256 steps of a byte stand for.
pub trait ScaledUnit {
    /// The ends of the range: the byte 0 stands for the first, the byte 255
    /// for the second.
    spec fn ends() -> (u16, u16);

    /// The ends of the range.
    fn range() -> (ends: (u16, u16))
        ensures
            ends == Self::ends(),
    ;
}

/// The range of 0 to 100 percent.
#[derive(Debug, Copy, Clone, PartialEq, Eq)]
pub struct Percent100;

/// The range of 0 to 360 degrees.
#[derive(Debug, Copy, Clone, PartialEq, Eq)]
pub struct Degrees360;

/// The range of 0 to 255 percent.
#[derive(Debug, Copy, Clone, PartialEq, Eq)]
pub struct Percent255;

/// The range of the factors 0 to 255.
#[derive(Debug, Copy, Clone, PartialEq, Eq)]
pub struct Factor255;

impl ScaledUnit for Percent100 {
    open spec fn ends() -> (u16, u16) {
        (0, 100)
    }

    fn range() -> (ends: (u16, u16)) {
        (0, 100)
    }
}

impl ScaledUnit for Degrees360 {
    open spec fn ends() -> (u16, u16) {
        (0, 360)
    }

    fn range() -> (ends: (u16, u16)) {
        (0, 360)
    }
}

impl ScaledUnit for Percent255 {
    open spec fn ends() -> (u16, u16) {
        (0, 255)
    }

    fn range() -> (ends: (u16, u16)) {
        (0, 255)
    }
}

impl ScaledUnit for Factor255 {
    open spec fn ends() -> (u16, u16) {
        (0, 255)
    }

    fn range() -> (ends: (u16, u16)) {
        (0, 255)
    }
}

/// A value of the range `U`, on the 256 steps of a byte. The range is a type,
/// so that values of different ranges do not mix; it takes no part in the
/// byte.
#[derive(Debug, PartialEq, Eq)]
pub struct Scaled<U> {
    byte: u8,
    unit: PhantomData<U>,
}

/// A share of 0 to 100 percent (datapoint type 5.001).
pub type DptScaling = Scaled<Percent100>;

/// An angle of 0 to 360 degrees (datapoint type 5.003).
pub type DptAngle = Scaled<Degrees360>;

/// A share of 0 to 255 percent (datapoint type 5.004).
pub type DptPercentU8 = Scaled<Percent255>;

/// A factor of 0 to 255 (datapoint type 5.005).
pub type DptDecimalFactor = Scaled<Factor255>;

impl<U> Clone for Scaled<U> {
    fn clone(&self) -> (copy: Scaled<U>)
        ensures
            copy@ == self@,
    {
        Scaled { byte: self.byte, unit: PhantomData }
    }
}

impl<U> Copy for Scaled<U> {

}

impl<U> View for Scaled<U> {
    type V = u8;

    closed spec fn view(&self) -> u8 {
        self.byte
    }
}

impl<U> Scaled<U> {
    /// The value that the first byte of `buf` stands for.
    pub fn from_bytes(buf: &[u8]) -> (r: Result<Scaled<U>, KnxNetIpError>)
        ensures
            match parsed_byte(buf@) {
                Ok(v) => r matches Ok(value) && value@ == v,
                Err(e) => r matches Err(x) && x == e,
            },
    {
        let mut value = Scaled { byte: 0, unit: PhantomData };
        match value.decode(buf) {
            Ok(()) => Ok(value),
            Err(e) => Err(e),
        }
    }

    /// The value with the given byte.
    pub fn from_raw(byte: u8) -> (value: Scaled<U>)
        ensures
            value@ == byte,
    {
        Scaled { byte, unit: PhantomData }
    }

    /// The byte of the value.
    pub fn raw(&self) -> (byte: u8)
        ensures
            byte == self@,
    {
        self.byte
    }
}

impl<U: ScaledUnit> Scaled<U> {
    /// The ends of the range: the byte 0 stands for the first, the byte 255
    /// for the second.
    pub fn range() -> (ends: (u16, u16))
        ensures
            ends == U::ends(),
    {
        U::range()
    }
}

impl<U> Default for Scaled<U> {
    fn default() -> (value: Scaled<U>)
        ensures
            value@ == 0,
    {
        Scaled { byte: 0, unit: PhantomData }
    }
}

/// One byte, read from the start of the value's bytes.
impl<U> DPT for Scaled<U> {
    open spec fn bits(v: u8) -> nat {
        8
    }

    open spec fn wire(v: u8) -> Seq<u8> {
        seq![v]
    }

    open spec fn parsed(buf: Seq<u8>) -> Result<u8, KnxNetIpError> {
        parsed_byte(buf)
    }

    proof fn lemma_wire_len(v: u8) {
    }

    fn encode(&self, buf: &mut Vec<u8>) {
        buf.push(self.byte);
    }

    fn decode(&mut self, buf: &[u8]) -> (r: Result<(), KnxNetIpError>) {
        if buf.len() < 1 {
            return Err(KnxNetIpError::MessageTooShort(buf.len()));
        }
        self.byte = buf[0];
        Ok(())
    }

    fn bit_len(&self) -> (n: u16) {
        8
    }
}

} // verus!
