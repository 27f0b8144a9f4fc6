//! The connect handshake: the request of the client and the response of the
//! gateway.

use crate::knxnet::crd::ConnectionRespType;
use crate::knxnet::cri::{ConnectionReqType, TunnelingLayer};
use crate::knxnet::hpai::HPAI;
use crate::knxnet::status::StatusCode;
use crate::knxnet::KnxNetIpError;
use vstd::prelude::*;

verus! {

/// A client asks for a connection and says where it listens.
#[derive(Debug, Copy, Clone, PartialEq)]
pub struct ConnectRequest {
    pub data: HPAI,
    pub control: HPAI,
    pub connection_type: ConnectionReqType,
}

/// A gateway grants or refuses a connection.
#[derive(Debug, Copy, Clone, PartialEq)]
pub struct ConnectResponse {
    pub channel: u8,
    pub status: StatusCode,
    pub data: HPAI,
    pub connection_type: ConnectionRespType,
}

impl ConnectRequest {
    /// Whether the request has a wire form: it asks for a tunnel.
    pub open spec fn encodable(&self) -> bool {
        self.connection_type is TunnelConnection
    }

    /// The length of the payload: two endpoints and the connection request
    /// information.
    pub open spec fn spec_payload_length(&self) -> u16 {
        (self.connection_type.spec_length() + 16) as u16
    }

    /// The payload: control endpoint, data endpoint, connection request
    /// information.
    pub open spec fn bytes(&self) -> Seq<u8> {
        self.control.bytes() + self.data.bytes() + self.connection_type.bytes()
    }

    /// What a payload stands for.
    pub open spec fn parse(buf: Seq<u8>) -> Result<ConnectRequest, KnxNetIpError> {
        if buf.len() < 16 {
            Err(KnxNetIpError::MessageTooShort(buf.len() as usize))
        } else {
            match HPAI::parse(buf.subrange(0, 8)) {
                Err(e) => Err(e),
                Ok(control) => match HPAI::parse(buf.subrange(8, 16)) {
                    Err(e) => Err(e),
                    Ok(data) => match ConnectionReqType::parse(buf.subrange(16, buf.len() as int)) {
                        Err(e) => Err(e),
                        Ok(connection_type) => Ok(ConnectRequest { data, control, connection_type }),
                    },
                },
            }
        }
    }

    /// The length of the payload.
    #[verifier::when_used_as_spec(spec_payload_length)]
    pub fn payload_length(&self) -> (n: u16)
        ensures
            n == self.spec_payload_length(),
    {
        self.connection_type.length() + 2 * HPAI::length()
    }

    /// Whether the request has a wire form.
    pub fn is_encodable(&self) -> (ok: bool)
        ensures
            ok == self.encodable(),
    {
        match self.connection_type {
            ConnectionReqType::TunnelConnection { .. } => true,
            _ => false,
        }
    }

    /// Appends the payload to `buf`.
    pub fn encode(&self, buf: &mut Vec<u8>)
        requires
            self.encodable(),
        ensures
            final(buf)@ == old(buf)@ + self.bytes(),
    {
        self.control.encode(buf);
        self.data.encode(buf);
        self.connection_type.encode(buf);
        assert(buf@ =~= old(buf)@ + self.bytes());
    }

    /// Reads a payload into `self`, which stays as it was where the payload
    /// does not decode.
    pub fn decode(&mut self, buf: &[u8]) -> (r: Result<(), KnxNetIpError>)
        ensures
            match Self::parse(buf@) {
                Ok(v) => r is Ok && *final(self) == v,
                Err(e) => r == Err::<(), KnxNetIpError>(e) && *final(self) == *old(self),
            },
    {
        if buf.len() < 16 {
            return Err(KnxNetIpError::MessageTooShort(buf.len()));
        }
        let control = match HPAI::decode(&buf[0..8]) {
            Ok(h) => h,
            Err(e) => return Err(e),
        };
        let data = match HPAI::decode(&buf[8..16]) {
            Ok(h) => h,
            Err(e) => return Err(e),
        };
        let connection_type = match ConnectionReqType::decode(&buf[16..buf.len()]) {
            Ok(c) => c,
            Err(e) => return Err(e),
        };
        self.control = control;
        self.data = data;
        self.connection_type = connection_type;
        Ok(())
    }

    /// An encodable request is what its own payload is read as.
    pub proof fn lemma_round_trip(self)
        requires
            self.encodable(),
        ensures
            self.bytes().len() == self.spec_payload_length(),
            Self::parse(self.bytes()) == Ok::<ConnectRequest, KnxNetIpError>(self),
    {
        let b = self.bytes();
        self.control.lemma_round_trip(Seq::empty());
        self.data.lemma_round_trip(Seq::empty());
        self.connection_type.lemma_round_trip(Seq::empty());
        assert(b.subrange(0, 8) =~= self.control.bytes() + Seq::empty());
        assert(b.subrange(8, 16) =~= self.data.bytes() + Seq::empty());
        assert(b.subrange(16, b.len() as int) =~= self.connection_type.bytes() + Seq::empty());
    }
}

impl Default for ConnectRequest {
    fn default() -> (c: ConnectRequest)
        ensures
            c == (ConnectRequest {
                data: HPAI::unset(),
                control: HPAI::unset(),
                connection_type: ConnectionReqType::TunnelConnection {
                    layer: TunnelingLayer::TunnelLinkLayer,
                },
            }),
    {
        ConnectRequest {
            data: HPAI::default(),
            control: HPAI::default(),
            connection_type: ConnectionReqType::default(),
        }
    }
}

impl ConnectResponse {
    /// Whether the response has a wire form: where it grants a connection, the
    /// connection is a tunnel.
    pub open spec fn encodable(&self) -> bool {
        self.status == StatusCode::NoError ==> self.connection_type is TunnelConnection
    }

    /// Whether the response is what its own payload stands for: it has a wire
    /// form, and a refusal carries the unset endpoint and the tunnel address
    /// 0, as a refusal that is read into the unset response does.
    pub open spec fn canonical(&self) -> bool {
        &&& self.encodable()
        &&& self.status != StatusCode::NoError ==> {
            &&& self.data == HPAI::unset()
            &&& self.connection_type == (ConnectionRespType::TunnelConnection { address: 0 })
        }
    }

    /// The length of the payload: channel and status, and for a granted
    /// connection the data endpoint and the connection response data.
    pub open spec fn spec_payload_length(&self) -> u16 {
        if self.status == StatusCode::NoError {
            (10 + self.connection_type.spec_length()) as u16
        } else {
            2
        }
    }

    /// The payload: channel, status, and for a granted connection the data
    /// endpoint and the connection response data.
    pub open spec fn bytes(&self) -> Seq<u8> {
        if self.status == StatusCode::NoError {
            seq![self.channel, self.status.spec_code()] + self.data.bytes()
                + self.connection_type.bytes()
        } else {
            seq![self.channel, self.status.spec_code()]
        }
    }

    /// The response before any payload was read into it: channel 0, no
    /// error, the unset endpoint and the tunnel address 0.
    pub open spec fn unset() -> ConnectResponse {
        ConnectResponse {
            channel: 0,
            status: StatusCode::NoError,
            data: HPAI::unset(),
            connection_type: ConnectionRespType::TunnelConnection { address: 0 },
        }
    }

    /// What a payload makes of the response it is read into. A granted
    /// connection fills every field. A refusal ends after the status byte:
    /// it gives channel and status, and leaves the endpoint and the
    /// connection as they were.
    pub open spec fn parsed(self, buf: Seq<u8>) -> Result<ConnectResponse, KnxNetIpError> {
        if buf.len() < 2 {
            Err(KnxNetIpError::MessageTooShort(buf.len() as usize))
        } else {
            match StatusCode::spec_from_repr(buf[1]) {
                None => Err(KnxNetIpError::UnknownStatus(buf[1])),
                Some(status) => if status == StatusCode::NoError {
                    if buf.len() < 10 {
                        Err(KnxNetIpError::MessageTooShort(buf.len() as usize))
                    } else {
                        match HPAI::parse(buf.subrange(2, 10)) {
                            Err(e) => Err(e),
                            Ok(data) => match ConnectionRespType::parse(
                                buf.subrange(10, buf.len() as int),
                            ) {
                                Err(e) => Err(e),
                                Ok(connection_type) => Ok(
                                    ConnectResponse {
                                        channel: buf[0],
                                        status,
                                        data,
                                        connection_type,
                                    },
                                ),
                            },
                        }
                    }
                } else {
                    Ok(ConnectResponse { channel: buf[0], status, ..self })
                },
            }
        }
    }

    /// What a payload stands for: what it makes of the unset response. A
    /// refusal is so read with the unset endpoint and the tunnel address 0.
    pub open spec fn parse(buf: Seq<u8>) -> Result<ConnectResponse, KnxNetIpError> {
        Self::unset().parsed(buf)
    }

    /// The length of the payload.
    #[verifier::when_used_as_spec(spec_payload_length)]
    pub fn payload_length(&self) -> (n: u16)
        ensures
            n == self.spec_payload_length(),
    {
        if self.status == StatusCode::NoError {
            2 + HPAI::length() + self.connection_type.length()
        } else {
            2
        }
    }

    /// Whether the response has a wire form.
    pub fn is_encodable(&self) -> (ok: bool)
        ensures
            ok == self.encodable(),
    {
        match self.connection_type {
            ConnectionRespType::TunnelConnection { .. } => true,
            _ => self.status != StatusCode::NoError,
        }
    }

    /// Appends the payload to `buf`.
    pub fn encode(&self, buf: &mut Vec<u8>)
        requires
            self.encodable(),
        ensures
            final(buf)@ == old(buf)@ + self.bytes(),
    {
        buf.push(self.channel);
        buf.push(self.status.code());
        if self.status == StatusCode::NoError {
            self.data.encode(buf);
            self.connection_type.encode(buf);
        }
        assert(buf@ =~= old(buf)@ + self.bytes());
    }

    /// Reads a payload into `self`. A refusal sets channel and status and
    /// leaves the endpoint and the connection untouched. Where the payload
    /// does not decode, `self` stays as it was.
    pub fn decode(&mut self, buf: &[u8]) -> (r: Result<(), KnxNetIpError>)
        ensures
            match old(self).parsed(buf@) {
                Ok(v) => r is Ok && *final(self) == v,
                Err(e) => r == Err::<(), KnxNetIpError>(e) && *final(self) == *old(self),
            },
    {
        if buf.len() < 2 {
            return Err(KnxNetIpError::MessageTooShort(buf.len()));
        }
        let status = match StatusCode::from_repr(buf[1]) {
            Some(status) => status,
            None => return Err(KnxNetIpError::UnknownStatus(buf[1])),
        };
        if status == StatusCode::NoError {
            if buf.len() < 10 {
                return Err(KnxNetIpError::MessageTooShort(buf.len()));
            }
            let data = match HPAI::decode(&buf[2..10]) {
                Ok(h) => h,
                Err(e) => return Err(e),
            };
            let connection_type = match ConnectionRespType::decode(&buf[10..buf.len()]) {
                Ok(c) => c,
                Err(e) => return Err(e),
            };
            self.data = data;
            self.connection_type = connection_type;
        }
        self.channel = buf[0];
        self.status = status;
        Ok(())
    }

    /// A canonical response is what its own payload is read as.
    pub proof fn lemma_round_trip(self)
        requires
            self.canonical(),
        ensures
            self.bytes().len() == self.spec_payload_length(),
            Self::parse(self.bytes()) == Ok::<ConnectResponse, KnxNetIpError>(self),
    {
        let b = self.bytes();
        self.status.lemma_code_round_trip(0);
        assert(b[0] == self.channel && b[1] == self.status.spec_code());
        if self.status == StatusCode::NoError {
            self.data.lemma_round_trip(Seq::empty());
            self.connection_type.lemma_round_trip(Seq::empty());
            assert(b.subrange(2, 10) =~= self.data.bytes() + Seq::empty());
            assert(b.subrange(10, b.len() as int) =~= self.connection_type.bytes() + Seq::empty());
        }
    }
}

impl Default for ConnectResponse {
    fn default() -> (c: ConnectResponse)
        ensures
            c == ConnectResponse::unset(),
    {
        ConnectResponse {
            channel: 0,
            status: StatusCode::NoError,
            data: HPAI::default(),
            connection_type: ConnectionRespType::default(),
        }
    }
}

} // verus!
