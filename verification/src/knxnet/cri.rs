//! Connection request information: what kind of connection a client asks for.

use crate::knxnet::KnxNetIpError;
use vstd::prelude::*;

verus! {

/// The layer of the bus that a tunnel gives access to.
#[derive(Debug, Copy, Clone, PartialEq, Eq, Structural)]
pub enum TunnelingLayer {
    /// Link layer: group and individual telegrams.
    TunnelLinkLayer,
    /// Raw frames.
    TunnelRaw,
    /// Bus monitor.
    TunnelBusmon,
}

impl TunnelingLayer {
    /// The byte that stands for this layer on the wire.
    pub open spec fn spec_code(self) -> u8 {
        match self {
            TunnelingLayer::TunnelLinkLayer => 0x02,
            TunnelingLayer::TunnelRaw => 0x04,
            TunnelingLayer::TunnelBusmon => 0x80,
        }
    }

    /// The layer that a byte stands for, if any.
    pub open spec fn spec_from_repr(code: u8) -> Option<TunnelingLayer> {
        if code == 0x02 {
            Some(TunnelingLayer::TunnelLinkLayer)
        } else if code == 0x04 {
            Some(TunnelingLayer::TunnelRaw)
        } else if code == 0x80 {
            Some(TunnelingLayer::TunnelBusmon)
        } else {
            None
        }
    }

    /// The byte that stands for this layer on the wire.
    #[verifier::when_used_as_spec(spec_code)]
    pub fn code(self) -> (c: u8)
        ensures
            c == self.spec_code(),
    {
        match self {
            TunnelingLayer::TunnelLinkLayer => 0x02,
            TunnelingLayer::TunnelRaw => 0x04,
            TunnelingLayer::TunnelBusmon => 0x80,
        }
    }

    /// The layer that `code` stands for, or `None`.
    #[verifier::when_used_as_spec(spec_from_repr)]
    pub fn from_repr(code: u8) -> (l: Option<TunnelingLayer>)
        ensures
            l == Self::spec_from_repr(code),
    {
        match code {
            0x02 => Some(TunnelingLayer::TunnelLinkLayer),
            0x04 => Some(TunnelingLayer::TunnelRaw),
            0x80 => Some(TunnelingLayer::TunnelBusmon),
            _ => None,
        }
    }
}

impl Default for TunnelingLayer {
    fn default() -> (l: TunnelingLayer)
        ensures
            l == TunnelingLayer::TunnelLinkLayer,
    {
        TunnelingLayer::TunnelLinkLayer
    }
}

/// The connection a client asks for. Only tunnel connections have a wire form
/// here.
#[derive(Debug, Copy, Clone, PartialEq, Eq, Structural)]
pub enum ConnectionReqType {
    DeviceMgmtConnection,
    TunnelConnection { layer: TunnelingLayer },
    RemlogConnection,
    RemconfConnection,
    ObjsvrConnection,
}

impl ConnectionReqType {
    /// The byte that names the connection type.
    pub open spec fn spec_identifier(&self) -> u8 {
        match self {
            ConnectionReqType::DeviceMgmtConnection => 0x03,
            ConnectionReqType::TunnelConnection { .. } => 0x04,
            ConnectionReqType::RemlogConnection => 0x06,
            ConnectionReqType::RemconfConnection => 0x07,
            ConnectionReqType::ObjsvrConnection => 0x08,
        }
    }

    /// The length of the structure: 4 for a tunnel (length, type, layer and one
    /// reserved byte), 2 for the others (length and type).
    pub open spec fn spec_length(&self) -> u16 {
        match self {
            ConnectionReqType::TunnelConnection { .. } => 4,
            _ => 2,
        }
    }

    /// The four bytes of a tunnel connection request.
    pub open spec fn bytes(self) -> Seq<u8>
        recommends
            self is TunnelConnection,
    {
        seq![4u8, 0x04u8, self->layer.spec_code(), 0u8]
    }

    /// What `buf` stands for. A type other than tunnel is `NotImplemented`, a
    /// tunnel with a length byte other than 4 is `InvalidSize`, an unknown
    /// layer is `UnknownLayer`; a buffer that ends before the byte asked for is
    /// `MessageTooShort`.
    pub open spec fn parse(buf: Seq<u8>) -> Result<ConnectionReqType, KnxNetIpError> {
        if buf.len() < 2 {
            Err(KnxNetIpError::MessageTooShort(buf.len() as usize))
        } else if buf[1] != 4 {
            Err(KnxNetIpError::NotImplemented)
        } else if buf[0] != 4 {
            Err(KnxNetIpError::InvalidSize)
        } else if buf.len() < 4 {
            Err(KnxNetIpError::MessageTooShort(buf.len() as usize))
        } else {
            match TunnelingLayer::spec_from_repr(buf[2]) {
                Some(layer) => Ok(ConnectionReqType::TunnelConnection { layer }),
                None => Err(KnxNetIpError::UnknownLayer(buf[2])),
            }
        }
    }

    /// The byte that names the connection type.
    #[verifier::when_used_as_spec(spec_identifier)]
    pub fn identifier(&self) -> (id: u8)
        ensures
            id == self.spec_identifier(),
    {
        match self {
            ConnectionReqType::DeviceMgmtConnection => 0x03,
            ConnectionReqType::TunnelConnection { .. } => 0x04,
            ConnectionReqType::RemlogConnection => 0x06,
            ConnectionReqType::RemconfConnection => 0x07,
            ConnectionReqType::ObjsvrConnection => 0x08,
        }
    }

    /// The length of the structure on the wire.
    #[verifier::when_used_as_spec(spec_length)]
    pub fn length(&self) -> (n: u16)
        ensures
            n == self.spec_length(),
    {
        match self {
            ConnectionReqType::TunnelConnection { .. } => 4,
            _ => 2,
        }
    }

    /// Appends the four bytes of a tunnel connection request to `buf`.
    pub fn encode(&self, buf: &mut Vec<u8>)
        requires
            self is TunnelConnection,
        ensures
            final(buf)@ == old(buf)@ + self.bytes(),
    {
        buf.push(4);
        buf.push(self.identifier());
        match self {
            ConnectionReqType::TunnelConnection { layer } => {
                buf.push(layer.code());
                buf.push(0);
            },
            _ => {},
        }
        assert(buf@ =~= old(buf)@ + self.bytes());
    }

    /// Reads a connection request from `buf`.
    pub fn decode(buf: &[u8]) -> (r: Result<ConnectionReqType, KnxNetIpError>)
        ensures
            r == Self::parse(buf@),
    {
        if buf.len() < 2 {
            return Err(KnxNetIpError::MessageTooShort(buf.len()));
        }
        if buf[1] != 4 {
            return Err(KnxNetIpError::NotImplemented);
        }
        if buf[0] != 4 {
            return Err(KnxNetIpError::InvalidSize);
        }
        if buf.len() < 4 {
            return Err(KnxNetIpError::MessageTooShort(buf.len()));
        }
        match TunnelingLayer::from_repr(buf[2]) {
            Some(layer) => Ok(ConnectionReqType::TunnelConnection { layer }),
            None => Err(KnxNetIpError::UnknownLayer(buf[2])),
        }
    }

    /// A tunnel connection request is what its own bytes are read as, whatever
    /// follows them.
    pub proof fn lemma_round_trip(self, rest: Seq<u8>)
        requires
            self is TunnelConnection,
        ensures
            self.bytes().len() == self.spec_length(),
            Self::parse(self.bytes() + rest) == Ok::<ConnectionReqType, KnxNetIpError>(self),
    {
        let b = self.bytes() + rest;
        assert(b[0] == 4 && b[1] == 4 && b[2] == self->layer.spec_code());
    }
}

impl Default for ConnectionReqType {
    fn default() -> (c: ConnectionReqType)
        ensures
            c == (ConnectionReqType::TunnelConnection { layer: TunnelingLayer::TunnelLinkLayer }),
    {
        ConnectionReqType::TunnelConnection { layer: TunnelingLayer::TunnelLinkLayer }
    }
}

} // verus!
