//! Host protocol address information: transport, IPv4 address and port.

use crate::knxnet::KnxNetIpError;
use crate::octets::{be16, be16_bytes, push_u16_be, read_u16_be};
use vstd::prelude::*;

verus! {

/// The transport of an endpoint.
#[derive(Debug, Copy, Clone, PartialEq, Eq, Structural)]
pub enum Protocol {
    /// UDP over IPv4.
    Udp4Protocol,
    /// TCP over IPv4.
    Tcp4Protocol,
}

impl Protocol {
    /// The byte that stands for this transport on the wire.
    pub open spec fn spec_code(self) -> u8 {
        match self {
            Protocol::Udp4Protocol => 0x01,
            Protocol::Tcp4Protocol => 0x02,
        }
    }

    /// The transport that a byte stands for, if any.
    pub open spec fn spec_from_repr(code: u8) -> Option<Protocol> {
        if code == 0x01 {
            Some(Protocol::Udp4Protocol)
        } else if code == 0x02 {
            Some(Protocol::Tcp4Protocol)
        } else {
            None
        }
    }

    /// The byte that stands for this transport on the wire.
    #[verifier::when_used_as_spec(spec_code)]
    pub fn code(self) -> (c: u8)
        ensures
            c == self.spec_code(),
    {
        match self {
            Protocol::Udp4Protocol => 0x01,
            Protocol::Tcp4Protocol => 0x02,
        }
    }

    /// The transport that `code` stands for, or `None`.
    #[verifier::when_used_as_spec(spec_from_repr)]
    pub fn from_repr(code: u8) -> (p: Option<Protocol>)
        ensures
            p == Self::spec_from_repr(code),
    {
        match code {
            0x01 => Some(Protocol::Udp4Protocol),
            0x02 => Some(Protocol::Tcp4Protocol),
            _ => None,
        }
    }
}

impl Default for Protocol {
    fn default() -> (p: Protocol)
        ensures
            p == Protocol::Udp4Protocol,
    {
        Protocol::Udp4Protocol
    }
}

/// An endpoint: where the gateway sends its answers.
#[derive(Debug, Copy, Clone, PartialEq)]
pub struct HPAI {
    pub protocol: Protocol,
    pub address: [u8; 4],
    pub port: u16,
}

impl HPAI {
    /// The length of the structure on the wire.
    pub const LENGTH: u16 = 8;

    /// The endpoint of all zeroes over UDP, which a response without an
    /// endpoint is read as.
    pub open spec fn unset() -> HPAI {
        HPAI { protocol: Protocol::Udp4Protocol, address: [0u8, 0u8, 0u8, 0u8], port: 0 }
    }

    /// The eight bytes that stand for this endpoint.
    pub open spec fn bytes(self) -> Seq<u8> {
        seq![
            8u8,
            self.protocol.spec_code(),
            self.address[0],
            self.address[1],
            self.address[2],
            self.address[3],
        ] + be16_bytes(self.port)
    }

    /// What the first eight bytes of `buf` stand for: an endpoint where the
    /// length byte is 8 and the protocol byte is known.
    pub open spec fn parse(buf: Seq<u8>) -> Result<HPAI, KnxNetIpError> {
        if buf.len() < 8 || buf[0] != 8 {
            Err(KnxNetIpError::InvalidSize)
        } else {
            match Protocol::spec_from_repr(buf[1]) {
                None => Err(KnxNetIpError::Unknown),
                Some(protocol) => Ok(
                    HPAI {
                        protocol,
                        address: [buf[2], buf[3], buf[4], buf[5]],
                        port: be16(buf[6], buf[7]),
                    },
                ),
            }
        }
    }

    /// An endpoint from its parts.
    pub fn new(protocol: Protocol, address: [u8; 4], port: u16) -> (h: HPAI)
        ensures
            h == (HPAI { protocol, address, port }),
    {
        HPAI { port, address, protocol }
    }

    /// The length of the structure on the wire, 8.
    pub fn length() -> (n: u16)
        ensures
            n == 8,
    {
        8
    }

    /// Appends the eight bytes of this endpoint to `buf`.
    pub fn encode(&self, buf: &mut Vec<u8>)
        ensures
            final(buf)@ == old(buf)@ + self.bytes(),
    {
        buf.push(0x8);
        buf.push(self.protocol.code());
        buf.push(self.address[0]);
        buf.push(self.address[1]);
        buf.push(self.address[2]);
        buf.push(self.address[3]);
        push_u16_be(buf, self.port);
        assert(buf@ =~= old(buf)@ + self.bytes());
    }

    /// Reads an endpoint from the first eight bytes of `buf`.
    pub fn decode(buf: &[u8]) -> (r: Result<HPAI, KnxNetIpError>)
        ensures
            r == Self::parse(buf@),
    {
        if buf.len() < 8 || buf[0] != 8 {
            return Err(KnxNetIpError::InvalidSize);
        }
        let protocol = match Protocol::from_repr(buf[1]) {
            Some(t) => t,
            None => return Err(KnxNetIpError::Unknown),
        };
        let tail = &buf[6..8];
        let port = read_u16_be(tail);
        let h = HPAI { protocol, address: [buf[2], buf[3], buf[4], buf[5]], port };
        proof {
            assert(h.address@ =~= [buf@[2], buf@[3], buf@[4], buf@[5]]@);
        }
        Ok(h)
    }

    /// An endpoint is what its own bytes are read as, whatever follows them.
    pub proof fn lemma_round_trip(self, rest: Seq<u8>)
        ensures
            self.bytes().len() == 8,
            Self::parse(self.bytes() + rest) == Ok::<HPAI, KnxNetIpError>(self),
    {
        crate::octets::lemma_be16_round_trip(self.port, 0, 0);
        let b = self.bytes() + rest;
        assert(b[0] == 8 && b[1] == self.protocol.spec_code());
        assert(b[6] == crate::octets::hi_byte(self.port));
        assert(b[7] == crate::octets::lo_byte(self.port));
        let a: [u8; 4] = [b[2], b[3], b[4], b[5]];
        assert(a =~= self.address);
    }
}

impl Default for HPAI {
    fn default() -> (h: HPAI)
        ensures
            h == HPAI::unset(),
    {
        let h = HPAI { protocol: Protocol::Udp4Protocol, address: [0, 0, 0, 0], port: 0 };
        proof {
            assert(h.address@ =~= HPAI::unset().address@);
        }
        h
    }
}

} // verus!
