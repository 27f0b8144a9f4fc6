//! Status codes of KNXnet/IP responses.

use vstd::prelude::*;
use vstd::string::StringExecFns;

verus! {

/// The one-byte status that a gateway puts into its responses.
#[derive(Debug, Copy, Clone, Eq, PartialEq, Hash, Ord, PartialOrd, Structural)]
pub enum StatusCode {
    /// The operation succeeded.
    NoError,
    /// The host protocol is not supported.
    ErrHostProtocolType,
    /// The protocol version is not supported.
    ErrVersionNotSupported,
    /// A sequence number came out of order.
    ErrSequenceNumber,
    /// No data connection is active under the given identifier.
    ErrConnectionID,
    /// The connection type is not supported.
    ErrConnectionType,
    /// The connection option is not supported.
    ErrConnectionOption,
    /// The gateway accepts no more connections.
    ErrNoMoreConnections,
    /// The gateway has no free individual address left for the connection.
    ErrNoMoreUniqueConnections,
    /// The data connection is in error.
    ErrDataConnection,
    /// The KNX connection is in error.
    ErrKNXConnection,
    /// The tunnelling layer is not supported.
    ErrTunnellingLayer,
}

impl StatusCode {
    /// The byte that stands for this status on the wire.
    pub open spec fn spec_code(self) -> u8 {
        match self {
            StatusCode::NoError => 0x00,
            StatusCode::ErrHostProtocolType => 0x01,
            StatusCode::ErrVersionNotSupported => 0x02,
            StatusCode::ErrSequenceNumber => 0x04,
            StatusCode::ErrConnectionID => 0x21,
            StatusCode::ErrConnectionType => 0x22,
            StatusCode::ErrConnectionOption => 0x23,
            StatusCode::ErrNoMoreConnections => 0x24,
            StatusCode::ErrNoMoreUniqueConnections => 0x25,
            StatusCode::ErrDataConnection => 0x26,
            StatusCode::ErrKNXConnection => 0x27,
            StatusCode::ErrTunnellingLayer => 0x29,
        }
    }

    /// The status that a byte stands for, if any.
    pub open spec fn spec_from_repr(code: u8) -> Option<StatusCode> {
        if code == 0x00 {
            Some(StatusCode::NoError)
        } else if code == 0x01 {
            Some(StatusCode::ErrHostProtocolType)
        } else if code == 0x02 {
            Some(StatusCode::ErrVersionNotSupported)
        } else if code == 0x04 {
            Some(StatusCode::ErrSequenceNumber)
        } else if code == 0x21 {
            Some(StatusCode::ErrConnectionID)
        } else if code == 0x22 {
            Some(StatusCode::ErrConnectionType)
        } else if code == 0x23 {
            Some(StatusCode::ErrConnectionOption)
        } else if code == 0x24 {
            Some(StatusCode::ErrNoMoreConnections)
        } else if code == 0x25 {
            Some(StatusCode::ErrNoMoreUniqueConnections)
        } else if code == 0x26 {
            Some(StatusCode::ErrDataConnection)
        } else if code == 0x27 {
            Some(StatusCode::ErrKNXConnection)
        } else if code == 0x29 {
            Some(StatusCode::ErrTunnellingLayer)
        } else {
            None
        }
    }

    /// What the status says, in words.
    pub open spec fn message(self) -> Seq<char> {
        match self {
            StatusCode::NoError => "no error"@,
            StatusCode::ErrHostProtocolType => "unsupported host protocol"@,
            StatusCode::ErrVersionNotSupported => "nsupported KNXnet/IP protocol version"@,
            StatusCode::ErrSequenceNumber => "out-of-order sequence number has been received"@,
            StatusCode::ErrConnectionID => "no active data connection with given ID"@,
            StatusCode::ErrConnectionType => "unsupported connection type"@,
            StatusCode::ErrConnectionOption => "unsupported connection option"@,
            StatusCode::ErrNoMoreConnections => "Server cannot accept more connections"@,
            StatusCode::ErrNoMoreUniqueConnections => "Tunnelling server has no free Individual address available that could be used by the connection"@,
            StatusCode::ErrDataConnection => "error with a data connection"@,
            StatusCode::ErrKNXConnection => "error with a KNX connection"@,
            StatusCode::ErrTunnellingLayer => "unsupported tunnelling layer"@,
        }
    }

    /// What the status says, in words.
    pub fn to_string(&self) -> (s: String)
        ensures
            s@ == self.message(),
    {
        String::from_str(
            match self {
                StatusCode::NoError => "no error",
                StatusCode::ErrHostProtocolType => "unsupported host protocol",
                StatusCode::ErrVersionNotSupported => "nsupported KNXnet/IP protocol version",
                StatusCode::ErrSequenceNumber => "out-of-order sequence number has been received",
                StatusCode::ErrConnectionID => "no active data connection with given ID",
                StatusCode::ErrConnectionType => "unsupported connection type",
                StatusCode::ErrConnectionOption => "unsupported connection option",
                StatusCode::ErrNoMoreConnections => "Server cannot accept more connections",
                StatusCode::ErrNoMoreUniqueConnections => "Tunnelling server has no free Individual address available that could be used by the connection",
                StatusCode::ErrDataConnection => "error with a data connection",
                StatusCode::ErrKNXConnection => "error with a KNX connection",
                StatusCode::ErrTunnellingLayer => "unsupported tunnelling layer",
            },
        )
    }

    /// The byte that stands for this status on the wire.
    #[verifier::when_used_as_spec(spec_code)]
    pub fn code(self) -> (c: u8)
        ensures
            c == self.spec_code(),
    {
        match self {
            StatusCode::NoError => 0x00,
            StatusCode::ErrHostProtocolType => 0x01,
            StatusCode::ErrVersionNotSupported => 0x02,
            StatusCode::ErrSequenceNumber => 0x04,
            StatusCode::ErrConnectionID => 0x21,
            StatusCode::ErrConnectionType => 0x22,
            StatusCode::ErrConnectionOption => 0x23,
            StatusCode::ErrNoMoreConnections => 0x24,
            StatusCode::ErrNoMoreUniqueConnections => 0x25,
            StatusCode::ErrDataConnection => 0x26,
            StatusCode::ErrKNXConnection => 0x27,
            StatusCode::ErrTunnellingLayer => 0x29,
        }
    }

    /// The status that `code` stands for, or `None` for a byte that is no
    /// status code.
    #[verifier::when_used_as_spec(spec_from_repr)]
    pub fn from_repr(code: u8) -> (s: Option<StatusCode>)
        ensures
            s == Self::spec_from_repr(code),
    {
        match code {
            0x00 => Some(StatusCode::NoError),
            0x01 => Some(StatusCode::ErrHostProtocolType),
            0x02 => Some(StatusCode::ErrVersionNotSupported),
            0x04 => Some(StatusCode::ErrSequenceNumber),
            0x21 => Some(StatusCode::ErrConnectionID),
            0x22 => Some(StatusCode::ErrConnectionType),
            0x23 => Some(StatusCode::ErrConnectionOption),
            0x24 => Some(StatusCode::ErrNoMoreConnections),
            0x25 => Some(StatusCode::ErrNoMoreUniqueConnections),
            0x26 => Some(StatusCode::ErrDataConnection),
            0x27 => Some(StatusCode::ErrKNXConnection),
            0x29 => Some(StatusCode::ErrTunnellingLayer),
            _ => None,
        }
    }

    /// A status and its byte determine each other.
    pub proof fn lemma_code_round_trip(self, code: u8)
        ensures
            Self::spec_from_repr(self.spec_code()) == Some(self),
            Self::spec_from_repr(code) matches Some(s) ==> s.spec_code() == code,
    {
    }
}

impl Default for StatusCode {
    fn default() -> (s: StatusCode)
        ensures
            s == StatusCode::NoError,
    {
        StatusCode::NoError
    }
}

} // verus!
