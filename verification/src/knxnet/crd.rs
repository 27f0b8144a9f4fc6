//! Connection response data: what a gateway grants with a connection.

use crate::knxnet::KnxNetIpError;
use crate::octets::{be16, be16_bytes, push_u16_be, read_u16_be};
use vstd::prelude::*;

verus! {

/// The connection a gateway grants. Only tunnel connections have a wire form
/// here; a tunnel comes with the individual address that the client has on the
/// bus for as long as the channel lives.
#[derive(Debug, Copy, Clone, PartialEq, Eq, Structural)]
pub enum ConnectionRespType {
    DeviceMgmtConnection,
    TunnelConnection { address: u16 },
    RemlogConnection,
    RemconfConnection,
    ObjsvrConnection,
}

impl ConnectionRespType {
    /// The byte that names the connection type.
    pub open spec fn spec_identifier(&self) -> u8 {
        match self {
            ConnectionRespType::DeviceMgmtConnection => 0x03,
            ConnectionRespType::TunnelConnection { .. } => 0x04,
            ConnectionRespType::RemlogConnection => 0x06,
            ConnectionRespType::RemconfConnection => 0x07,
            ConnectionRespType::ObjsvrConnection => 0x08,
        }
    }

    /// The length of the structure: 4 for a tunnel (length, type and a 16-bit
    /// address), 2 for the others (length and type).
    pub open spec fn spec_length(&self) -> u16 {
        match self {
            ConnectionRespType::TunnelConnection { .. } => 4,
            _ => 2,
        }
    }

    /// The four bytes of a tunnel connection response.
    pub open spec fn bytes(self) -> Seq<u8>
        recommends
            self is TunnelConnection,
    {
        seq![4u8, 0x04u8] + be16_bytes(self->address)
    }

    /// What `buf` stands for. A type other than tunnel is `NotImplemented`, a
    /// tunnel with a length byte other than 4 is `InvalidSize`; a buffer that
    /// ends before the byte asked for is `MessageTooShort`.
    pub open spec fn parse(buf: Seq<u8>) -> Result<ConnectionRespType, KnxNetIpError> {
        if buf.len() < 2 {
            Err(KnxNetIpError::MessageTooShort(buf.len() as usize))
        } else if buf[1] != 4 {
            Err(KnxNetIpError::NotImplemented)
        } else if buf[0] != 4 {
            Err(KnxNetIpError::InvalidSize)
        } else if buf.len() < 4 {
            Err(KnxNetIpError::MessageTooShort(buf.len() as usize))
        } else {
            Ok(ConnectionRespType::TunnelConnection { address: be16(buf[2], buf[3]) })
        }
    }

    /// The byte that names the connection type.
    #[verifier::when_used_as_spec(spec_identifier)]
    pub fn identifier(&self) -> (id: u8)
        ensures
            id == self.spec_identifier(),
    {
        match self {
            ConnectionRespType::DeviceMgmtConnection => 0x03,
            ConnectionRespType::TunnelConnection { .. } => 0x04,
            ConnectionRespType::RemlogConnection => 0x06,
            ConnectionRespType::RemconfConnection => 0x07,
            ConnectionRespType::ObjsvrConnection => 0x08,
        }
    }

    /// The length of the structure on the wire.
    #[verifier::when_used_as_spec(spec_length)]
    pub fn length(&self) -> (n: u16)
        ensures
            n == self.spec_length(),
    {
        match self {
            ConnectionRespType::TunnelConnection { .. } => 4,
            _ => 2,
        }
    }

    /// Appends the four bytes of a tunnel connection response to `buf`.
    pub fn encode(&self, buf: &mut Vec<u8>)
        requires
            self is TunnelConnection,
        ensures
            final(buf)@ == old(buf)@ + self.bytes(),
    {
        buf.push(4);
        buf.push(self.identifier());
        match self {
            ConnectionRespType::TunnelConnection { address } => {
                push_u16_be(buf, *address);
            },
            _ => {},
        }
        assert(buf@ =~= old(buf)@ + self.bytes());
    }

    /// Reads a connection response from `buf`.
    pub fn decode(buf: &[u8]) -> (r: Result<ConnectionRespType, KnxNetIpError>)
        ensures
            r == Self::parse(buf@),
    {
        if buf.len() < 2 {
            return Err(KnxNetIpError::MessageTooShort(buf.len()));
        }
        if buf[1] != 4 {
            return Err(KnxNetIpError::NotImplemented);
        }
        if buf[0] != 4 {
            return Err(KnxNetIpError::InvalidSize);
        }
        if buf.len() < 4 {
            return Err(KnxNetIpError::MessageTooShort(buf.len()));
        }
        Ok(ConnectionRespType::TunnelConnection { address: read_u16_be(&buf[2..4]) })
    }

    /// A tunnel connection response is what its own bytes are read as,
    /// whatever follows them.
    pub proof fn lemma_round_trip(self, rest: Seq<u8>)
        requires
            self is TunnelConnection,
        ensures
            self.bytes().len() == self.spec_length(),
            Self::parse(self.bytes() + rest) == Ok::<ConnectionRespType, KnxNetIpError>(self),
    {
        crate::octets::lemma_be16_round_trip(self->address, 0, 0);
        let b = self.bytes() + rest;
        assert(b[0] == 4 && b[1] == 4);
        assert(b[2] == crate::octets::hi_byte(self->address));
        assert(b[3] == crate::octets::lo_byte(self->address));
    }
}

impl Default for ConnectionRespType {
    fn default() -> (c: ConnectionRespType)
        ensures
            c == (ConnectionRespType::TunnelConnection { address: 0 }),
    {
        ConnectionRespType::TunnelConnection { address: 0 }
    }
}

} // verus!
