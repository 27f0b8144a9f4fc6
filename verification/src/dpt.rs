//! Datapoint types: the values that group telegrams carry.
//!
//! A datapoint type knows how many bits it takes on the bus, which bytes stand
//! for it, and how to read itself from bytes. The frame codec is generic over
//! it, so a caller may send any type that keeps [`DPT`]'s contract.

pub mod float_16;
pub mod unsigned_8;

use crate::knxnet::KnxNetIpError;
use vstd::prelude::*;

verus! {

/// A value that a group telegram can carry.
///
/// The three specification functions speak of the value's view; the three
/// executable functions are held to them. `lemma_wire_len` is the one law: a
/// value takes as many bytes as its bits need.
pub trait DPT: View + Sized {
    /// The number of bits of the value on the bus.
    spec fn bits(v: Self::V) -> nat;

    /// The bytes that stand for the value.
    spec fn wire(v: Self::V) -> Seq<u8>;

    /// What `decode` makes of a buffer.
    spec fn parsed(buf: Seq<u8>) -> Result<Self::V, KnxNetIpError>;

    /// A value takes as many whole bytes as its bits need.
    proof fn lemma_wire_len(v: Self::V)
        ensures
            Self::wire(v).len() == (Self::bits(v) + 7) / 8,
    ;

    /// Appends the bytes of the value to `buf`.
    fn encode(&self, buf: &mut Vec<u8>)
        ensures
            final(buf)@ == old(buf)@ + Self::wire(self@),
    ;

    /// Reads the value from `buf`; the value stays as it was where `buf`
    /// does not decode.
    fn decode(&mut self, buf: &[u8]) -> (r: Result<(), KnxNetIpError>)
        ensures
            match Self::parsed(buf@) {
                Ok(v) => r is Ok && final(self)@ == v,
                Err(e) => r == Err::<(), KnxNetIpError>(e) && final(self)@ == old(self)@,
            },
    ;

    /// The number of bits of the value on the bus.
    fn bit_len(&self) -> (n: u16)
        requires
            Self::bits(self@) <= u16::MAX,
        ensures
            n == Self::bits(self@),
    ;
}

/// Opaque bytes: a payload whose type the receiver knows, not the codec.
///
/// It is read from the body of an APDU, which starts with the byte that holds
/// the low bits of the service code: a body of one byte holds a value of at
/// most six bits in that byte, a longer body holds the value behind it.
impl DPT for Vec<u8> {
    open spec fn bits(v: Seq<u8>) -> nat {
        8 * v.len()
    }

    open spec fn wire(v: Seq<u8>) -> Seq<u8> {
        v
    }

    open spec fn parsed(buf: Seq<u8>) -> Result<Seq<u8>, KnxNetIpError> {
        if buf.len() > 1 {
            Ok(buf.skip(1))
        } else if buf.len() == 1 {
            Ok(seq![buf[0] & 0x3F])
        } else {
            Ok(Seq::empty())
        }
    }

    proof fn lemma_wire_len(v: Seq<u8>) {
    }

    fn encode(&self, buf: &mut Vec<u8>) {
        buf.extend_from_slice(self.as_slice());
    }

    fn decode(&mut self, buf: &[u8]) -> (r: Result<(), KnxNetIpError>) {
        self.clear();
        if buf.len() > 1 {
            self.extend_from_slice(&buf[1..buf.len()]);
            assert(self@ =~= buf@.skip(1));
        } else if buf.len() == 1 {
            self.push(buf[0] & 0x3F);
            assert(self@ =~= seq![buf@[0] & 0x3F]);
        }
        Ok(())
    }

    fn bit_len(&self) -> (n: u16) {
        let len: usize = self.len();
        (8 * len) as u16
    }
}

/// One bit, carried in the lowest bit of a byte.
impl DPT for bool {
    open spec fn bits(v: bool) -> nat {
        1
    }

    open spec fn wire(v: bool) -> Seq<u8> {
        seq![if v { 1u8 } else { 0u8 }]
    }

    open spec fn parsed(buf: Seq<u8>) -> Result<bool, KnxNetIpError> {
        if buf.len() < 1 {
            Err(KnxNetIpError::MessageTooShort(0))
        } else {
            Ok(buf[0] & 0x1 > 0)
        }
    }

    proof fn lemma_wire_len(v: bool) {
    }

    fn encode(&self, buf: &mut Vec<u8>) {
        buf.push(if *self { 1 } else { 0 });
    }

    fn decode(&mut self, buf: &[u8]) -> (r: Result<(), KnxNetIpError>) {
        if buf.len() < 1 {
            return Err(KnxNetIpError::MessageTooShort(0));
        }
        *self = buf[0] & 0x1 > 0;
        Ok(())
    }

    fn bit_len(&self) -> (n: u16) {
        1
    }
}

/// No payload at all, as a read request has it.
impl DPT for () {
    open spec fn bits(v: ()) -> nat {
        0
    }

    open spec fn wire(v: ()) -> Seq<u8> {
        Seq::empty()
    }

    open spec fn parsed(buf: Seq<u8>) -> Result<(), KnxNetIpError> {
        Ok(())
    }

    proof fn lemma_wire_len(v: ()) {
    }

    fn encode(&self, buf: &mut Vec<u8>) {
    }

    fn decode(&mut self, buf: &[u8]) -> (r: Result<(), KnxNetIpError>) {
        Ok(())
    }

    fn bit_len(&self) -> (n: u16) {
        0
    }
}

} // verus!
