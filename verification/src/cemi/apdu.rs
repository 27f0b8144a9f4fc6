//! The application layer of a telegram: a 10-bit service code and its value.
//!
//! The two high bits of the code share a byte with the transport control
//! field, the eight low bits fill the next byte. A value of at most six bits
//! is carried in the low bits of that second byte; a longer one follows it.

use crate::dpt::DPT;
use crate::knxnet::KnxNetIpError;
use vstd::prelude::*;

verus! {

/// An application protocol data unit over a datapoint type `D`.
#[derive(PartialEq, Debug, Clone)]
pub enum Apdu<D> {
    GroupValueRead,
    GroupValueResponse(D),
    GroupValueWrite(D),
    IndividualAddressWrite,
    IndividualAddressRead,
    IndividualAddressResponse,
    AdcRead,
    AdcResponse,
    /// A telegram without an application layer.
    Absent,
}

impl<D: View> View for Apdu<D> {
    type V = Apdu<D::V>;

    open spec fn view(&self) -> Apdu<D::V> {
        match self {
            Apdu::GroupValueRead => Apdu::GroupValueRead,
            Apdu::GroupValueResponse(d) => Apdu::GroupValueResponse(d@),
            Apdu::GroupValueWrite(d) => Apdu::GroupValueWrite(d@),
            Apdu::IndividualAddressWrite => Apdu::IndividualAddressWrite,
            Apdu::IndividualAddressRead => Apdu::IndividualAddressRead,
            Apdu::IndividualAddressResponse => Apdu::IndividualAddressResponse,
            Apdu::AdcRead => Apdu::AdcRead,
            Apdu::AdcResponse => Apdu::AdcResponse,
            Apdu::Absent => Apdu::Absent,
        }
    }
}

impl<D> Default for Apdu<D> {
    fn default() -> (a: Apdu<D>)
        ensures
            a is GroupValueRead,
    {
        Apdu::GroupValueRead
    }
}

/// The service code that a telegram's two code bytes hold, without the six low
/// bits that may carry a value.
pub open spec fn short_apci(high: u8, low: u8) -> u16 {
    (((high & 0x3) as u16) << 8 | (low as u16)) & 0b1111_000000
}

impl<D: DPT + Default> Apdu<D> {
    /// The 10-bit service code. `Absent` has none; 0 stands in for it.
    pub open spec fn apci(v: Apdu<D::V>) -> u16 {
        match v {
            Apdu::GroupValueRead => 0b0000_000000,
            Apdu::GroupValueResponse(_) => 0b0001_000000,
            Apdu::GroupValueWrite(_) => 0b0010_000000,
            Apdu::IndividualAddressWrite => 0b0011_000000,
            Apdu::IndividualAddressRead => 0b0100_000000,
            Apdu::IndividualAddressResponse => 0b0101_000000,
            Apdu::AdcRead => 0b0110_000000,
            Apdu::AdcResponse => 0b0111_000000,
            Apdu::Absent => 0,
        }
    }

    /// The value that the unit carries, if it carries one.
    pub open spec fn payload(v: Apdu<D::V>) -> Option<D::V> {
        match v {
            Apdu::GroupValueResponse(d) => Some(d),
            Apdu::GroupValueWrite(d) => Some(d),
            _ => None,
        }
    }

    /// The length that a telegram states for the unit: 1 for a read and for a
    /// value of at most six bits, a value without a bit among them; one more
    /// than the value's bytes for a longer value; 0 for the units that carry
    /// nothing here.
    pub open spec fn length_of(v: Apdu<D::V>) -> nat {
        match v {
            Apdu::GroupValueRead => 1,
            Apdu::GroupValueResponse(d) | Apdu::GroupValueWrite(d) => if D::bits(d) > 6 {
                1 + (D::bits(d) + 7) / 8
            } else {
                1
            },
            _ => 0,
        }
    }

    /// Whether the unit has a wire form: a read, or a response or write whose
    /// length fits a byte.
    pub open spec fn encodable(v: Apdu<D::V>) -> bool {
        match v {
            Apdu::GroupValueRead => true,
            Apdu::GroupValueResponse(d) | Apdu::GroupValueWrite(d) => Self::length_of(v)
                <= u8::MAX,
            _ => false,
        }
    }

    /// The bytes of the unit behind the length byte: `tpci` with the two high
    /// bits of the service code, then the low bits of the code. A value
    /// without a bit leaves that second byte to the code, a value of one to
    /// six bits shares it, and a longer value follows it.
    pub open spec fn bytes(v: Apdu<D::V>, tpci: u8) -> Seq<u8> {
        let high = tpci | ((Self::apci(v) >> 8) & 0x3) as u8;
        let low = (Self::apci(v) & 0xff) as u8;
        match Self::payload(v) {
            None => seq![high, low],
            Some(d) => if D::bits(d) == 0 {
                seq![high, low]
            } else if D::bits(d) <= 6 {
                seq![high, D::wire(d)[0] | low]
            } else {
                seq![high, low] + D::wire(d)
            },
        }
    }

    /// What `buf` stands for, where `buf` starts with the length byte of the
    /// unit. A length of 0 is `Absent`. Otherwise the two bytes behind it hold
    /// the service code, and the value of a response or write is read from the
    /// second of them on. The services on individual addresses and the
    /// converter are `NotImplemented`, any other code is `Unknown`.
    pub open spec fn parse(buf: Seq<u8>) -> Result<Apdu<D::V>, KnxNetIpError> {
        if buf.len() < 1 {
            Err(KnxNetIpError::MessageTooShort(0))
        } else if buf[0] == 0 {
            Ok(Apdu::Absent)
        } else if buf.len() < 3 {
            Err(KnxNetIpError::MessageTooShort(buf.len() as usize))
        } else {
            let code = short_apci(buf[1], buf[2]);
            if code == 0b0000_000000 {
                Ok(Apdu::GroupValueRead)
            } else if code == 0b0001_000000 {
                match D::parsed(buf.skip(2)) {
                    Ok(d) => Ok(Apdu::GroupValueResponse(d)),
                    Err(e) => Err(e),
                }
            } else if code == 0b0010_000000 {
                match D::parsed(buf.skip(2)) {
                    Ok(d) => Ok(Apdu::GroupValueWrite(d)),
                    Err(e) => Err(e),
                }
            } else if code == 0b0011_000000 || code == 0b0100_000000 || code == 0b0101_000000
                || code == 0b0110_000000 || code == 0b0111_000000 {
                Err(KnxNetIpError::NotImplemented)
            } else {
                Err(KnxNetIpError::Unknown)
            }
        }
    }

    /// The 10-bit service code.
    pub fn identifier(&self) -> (code: u16)
        ensures
            code == Self::apci(self@),
    {
        match self {
            Apdu::GroupValueRead => 0b0000_000000,
            Apdu::GroupValueResponse(_) => 0b0001_000000,
            Apdu::GroupValueWrite(_) => 0b0010_000000,
            Apdu::IndividualAddressWrite => 0b0011_000000,
            Apdu::IndividualAddressRead => 0b0100_000000,
            Apdu::IndividualAddressResponse => 0b0101_000000,
            Apdu::AdcRead => 0b0110_000000,
            Apdu::AdcResponse => 0b0111_000000,
            Apdu::Absent => 0,
        }
    }

    /// The length that a telegram states for the unit.
    pub fn length(&self) -> (n: u8)
        requires
            Self::length_of(self@) <= u8::MAX,
        ensures
            n == Self::length_of(self@),
    {
        match self {
            Apdu::GroupValueWrite(dpt) | Apdu::GroupValueResponse(dpt) => {
                let bits = dpt.bit_len();
                if bits > 6 {
                    (1 + (bits + 7) / 8) as u8
                } else {
                    1
                }
            },
            Apdu::GroupValueRead => 1,
            _ => 0,
        }
    }

    /// Whether the unit has a wire form and states a length of at most
    /// `limit`.
    pub fn encodable_within(&self, limit: u8) -> (ok: bool)
        ensures
            ok == (Self::encodable(self@) && Self::length_of(self@) <= limit),
    {
        match self {
            Apdu::GroupValueRead => 1 <= limit,
            Apdu::GroupValueWrite(dpt) | Apdu::GroupValueResponse(dpt) => {
                let mut wire: Vec<u8> = Vec::new();
                dpt.encode(&mut wire);
                proof {
                    D::lemma_wire_len(dpt@);
                    assert(wire@ =~= D::wire(dpt@));
                }
                if wire.len() > 254 {
                    false
                } else if dpt.bit_len() > 6 {
                    wire.len() < limit as usize
                } else {
                    1 <= limit
                }
            },
            _ => false,
        }
    }

    /// Whether the unit has a wire form.
    pub fn is_encodable(&self) -> (ok: bool)
        ensures
            ok == Self::encodable(self@),
    {
        self.encodable_within(u8::MAX)
    }

    /// Appends the bytes of the unit to `buf`; `previous_byte` is the
    /// transport control field, whose two low bits are free for the high bits
    /// of the service code.
    pub fn encode(&self, buf: &mut Vec<u8>, previous_byte: u8)
        requires
            Self::encodable(self@),
        ensures
            final(buf)@ == old(buf)@ + Self::bytes(self@, previous_byte),
    {
        let apci = self.identifier();
        buf.push(previous_byte | ((apci >> 8) & 0x3) as u8);
        match self {
            Apdu::GroupValueRead => {
                buf.push((apci & 0xff) as u8);
            },
            Apdu::GroupValueWrite(dpt) | Apdu::GroupValueResponse(dpt) => {
                proof {
                    D::lemma_wire_len(dpt@);
                }
                if dpt.bit_len() <= 6 {
                    let start = buf.len();
                    dpt.encode(buf);
                    if buf.len() > start {
                        let last = buf.len() - 1;
                        let inlined = buf[last] | (apci & 0xff) as u8;
                        buf[last] = inlined;
                    } else {
                        buf.push((apci & 0xff) as u8);
                    }
                } else {
                    buf.push((apci & 0xff) as u8);
                    dpt.encode(buf);
                }
            },
            _ => {},
        }
        assert(buf@ =~= old(buf)@ + Self::bytes(self@, previous_byte));
    }

    /// Reads a unit from `buf`, which starts with the unit's length byte.
    pub fn decode(buf: &[u8]) -> (r: Result<Apdu<D>, KnxNetIpError>)
        ensures
            match Self::parse(buf@) {
                Ok(v) => r matches Ok(a) && a@ == v,
                Err(e) => r matches Err(x) && x == e,
            },
    {
        if buf.len() < 1 {
            return Err(KnxNetIpError::MessageTooShort(0));
        }
        if buf[0] == 0 {
            return Ok(Apdu::Absent);
        }
        if buf.len() < 3 {
            return Err(KnxNetIpError::MessageTooShort(buf.len()));
        }
        let apci = ((buf[1] & 0x3) as u16) << 8 | (buf[2] as u16);
        let code = apci & 0b1111_000000;
        match code {
            0b0000_000000 => Ok(Apdu::GroupValueRead),
            0b0001_000000 => {
                let mut dpt = D::default();
                match dpt.decode(&buf[2..buf.len()]) {
                    Ok(()) => Ok(Apdu::GroupValueResponse(dpt)),
                    Err(e) => Err(e),
                }
            },
            0b0010_000000 => {
                let mut dpt = D::default();
                match dpt.decode(&buf[2..buf.len()]) {
                    Ok(()) => Ok(Apdu::GroupValueWrite(dpt)),
                    Err(e) => Err(e),
                }
            },
            0b0011_000000 | 0b0100_000000 | 0b0101_000000 | 0b0110_000000 | 0b0111_000000 => Err(
                KnxNetIpError::NotImplemented,
            ),
            _ => Err(KnxNetIpError::Unknown),
        }
    }
    /// Whether the value of the unit is read back from its own bytes: a value
    /// of one to six bits leaves the two high bits of its byte to the service
    /// code, and the body of the unit, from the byte with the low bits of the
    /// service code on, is read as the value. A unit without a value meets
    /// this.
    pub open spec fn reads_back(v: Apdu<D::V>) -> bool {
        match Self::payload(v) {
            None => true,
            Some(d) => {
                let low = (Self::apci(v) & 0xff) as u8;
                if D::bits(d) == 0 {
                    D::parsed(seq![low]) == Ok::<D::V, KnxNetIpError>(d)
                } else if D::bits(d) <= 6 {
                    &&& D::wire(d)[0] < 64
                    &&& D::parsed(seq![D::wire(d)[0] | low]) == Ok::<D::V, KnxNetIpError>(d)
                } else {
                    D::parsed(seq![low] + D::wire(d)) == Ok::<D::V, KnxNetIpError>(d)
                }
            },
        }
    }

    /// Where a value goes. A value of one to six bits is carried in the byte
    /// behind the transport control field, joined with the low bits of the
    /// service code; a value without a bit and a longer value leave that byte
    /// to the service code, and the longer value follows it.
    pub proof fn lemma_inlining(v: Apdu<D::V>, tpci: u8)
        requires
            Self::payload(v) is Some,
        ensures
            ({
                let d = Self::payload(v).unwrap();
                let low = (Self::apci(v) & 0xff) as u8;
                let bytes = Self::bytes(v, tpci);
                if D::bits(d) == 0 {
                    &&& bytes.len() == 2
                    &&& bytes[1] == low
                } else if D::bits(d) <= 6 {
                    &&& bytes.len() == 2
                    &&& bytes[1] == low | D::wire(d)[0]
                } else {
                    &&& bytes[1] == low
                    &&& bytes.skip(2) == D::wire(d)
                }
            }),
    {
        let d = Self::payload(v).unwrap();
        let low = (Self::apci(v) & 0xff) as u8;
        let value = D::wire(d)[0];
        assert(value | low == low | value) by (bit_vector);
        if D::bits(d) > 6 {
            assert(Self::bytes(v, tpci).skip(2) =~= D::wire(d));
        }
    }

    /// A unit with a wire form whose value is read back is what its own
    /// bytes, behind its length byte, are read as, whatever the transport
    /// control field holds above its two low bits.
    pub proof fn lemma_round_trip(v: Apdu<D::V>, tpci: u8)
        requires
            Self::encodable(v),
            Self::reads_back(v),
            tpci & 0x3 == 0,
        ensures
            Self::bytes(v, tpci).len() == 1 + Self::length_of(v),
            Self::parse(seq![Self::length_of(v) as u8] + Self::bytes(v, tpci)) == Ok::<
                Apdu<D::V>,
                KnxNetIpError,
            >(v),
    {
        let code = Self::apci(v);
        let high = tpci | ((code >> 8) & 0x3) as u8;
        let low = (code & 0xff) as u8;
        let buf = seq![Self::length_of(v) as u8] + Self::bytes(v, tpci);
        assert(buf[1] == high);
        assert(((code >> 8) & 0x3) as u8 == 0 && (code & 0xff) as u8 == code) by (bit_vector)
            requires
                code == 0x00 || code == 0x40 || code == 0x80,
        ;
        match Self::payload(v) {
            None => {
                assert(buf[2] == low);
                assert(short_apci(high, low) == code) by (bit_vector)
                    requires
                        tpci & 0x3 == 0,
                        high == tpci | 0,
                        low == 0,
                        code == 0,
                ;
            },
            Some(d) => {
                D::lemma_wire_len(d);
                if D::bits(d) == 0 {
                    assert(buf[2] == low);
                    assert(buf.skip(2) =~= seq![low]);
                    assert(short_apci(high, low) == code) by (bit_vector)
                        requires
                            tpci & 0x3 == 0,
                            high == tpci | 0,
                            (low == 0x40 && code == 0x40) || (low == 0x80 && code == 0x80),
                    ;
                } else if D::bits(d) <= 6 {
                    let value = D::wire(d)[0];
                    let shared = value | low;
                    assert(buf[2] == shared);
                    assert(buf.skip(2) =~= seq![shared]);
                    assert(short_apci(high, shared) == code) by (bit_vector)
                        requires
                            tpci & 0x3 == 0,
                            high == tpci | 0,
                            shared == value | low,
                            value < 64,
                            (low == 0x40 && code == 0x40) || (low == 0x80 && code == 0x80),
                    ;
                } else {
                    assert(buf[2] == low);
                    assert(buf.skip(2) =~= seq![low] + D::wire(d));
                    assert(short_apci(high, low) == code) by (bit_vector)
                        requires
                            tpci & 0x3 == 0,
                            high == tpci | 0,
                            (low == 0x40 && code == 0x40) || (low == 0x80 && code == 0x80),
                    ;
                }
            },
        }
    }
}

impl Apdu<Vec<u8>> {
    /// Opaque bytes are read back wherever there is at least one of them:
    /// from the second byte of the body on, behind the service code. No byte
    /// at all is written as the service code alone, and that is read as the
    /// one byte that holds the six low bits of the code.
    pub proof fn lemma_opaque_reads_back(v: Apdu<Seq<u8>>)
        requires
            Self::payload(v) matches Some(d) ==> d.len() >= 1,
        ensures
            Self::reads_back(v),
    {
        match Self::payload(v) {
            None => {},
            Some(d) => {
                let low = (Self::apci(v) & 0xff) as u8;
                assert((seq![low] + d).skip(1) =~= d);
            },
        }
    }
}

impl Apdu<()> {
    /// The value without a bit is read back from any body.
    pub proof fn lemma_unit_reads_back(v: Apdu<()>)
        ensures
            Self::reads_back(v),
    {
    }
}

impl Apdu<bool> {
    /// A bit is read back from the lowest bit of the byte that it shares with
    /// the service code.
    pub proof fn lemma_bit_reads_back(v: Apdu<bool>)
        ensures
            Self::reads_back(v),
    {
        assert((1u8 | 0x40u8) & 0x1 > 0 && (1u8 | 0x80u8) & 0x1 > 0 && !((0u8 | 0x40u8) & 0x1 > 0)
            && !((0u8 | 0x80u8) & 0x1 > 0) && (0x40u16 & 0xff) as u8 == 0x40u8 && (0x80u16
            & 0xff) as u8 == 0x80u8) by (bit_vector);
    }
}

} // verus!
