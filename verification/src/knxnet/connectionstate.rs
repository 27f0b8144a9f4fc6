//! The heartbeat: a client probes the state of its connection.

use crate::knxnet::hpai::HPAI;
use crate::knxnet::status::StatusCode;
use crate::knxnet::KnxNetIpError;
use vstd::prelude::*;

verus! {

/// A client asks whether its channel is still alive.
#[derive(Debug, Copy, Clone, PartialEq)]
pub struct ConnectionstateRequest {
    pub channel: u8,
    pub control: HPAI,
}

/// A gateway answers a probe.
#[derive(Debug, Copy, Clone, PartialEq, Eq, Structural)]
pub struct ConnectionstateResponse {
    pub channel: u8,
    pub status: StatusCode,
}

impl ConnectionstateRequest {
    /// The length of the payload, 10.
    pub open spec fn spec_payload_length(&self) -> u16 {
        10
    }

    /// The payload: channel, a reserved zero, control endpoint.
    pub open spec fn bytes(&self) -> Seq<u8> {
        seq![self.channel, 0u8] + self.control.bytes()
    }

    /// What a payload stands for. The reserved byte is not looked at.
    pub open spec fn parse(buf: Seq<u8>) -> Result<ConnectionstateRequest, KnxNetIpError> {
        if buf.len() < 10 {
            Err(KnxNetIpError::MessageTooShort(buf.len() as usize))
        } else {
            match HPAI::parse(buf.subrange(2, 10)) {
                Err(e) => Err(e),
                Ok(control) => Ok(ConnectionstateRequest { channel: buf[0], control }),
            }
        }
    }

    /// The length of the payload.
    #[verifier::when_used_as_spec(spec_payload_length)]
    pub fn payload_length(&self) -> (n: u16)
        ensures
            n == self.spec_payload_length(),
    {
        2 + HPAI::length()
    }

    /// Appends the payload to `buf`.
    pub fn encode(&self, buf: &mut Vec<u8>)
        ensures
            final(buf)@ == old(buf)@ + self.bytes(),
    {
        buf.push(self.channel);
        buf.push(0);
        self.control.encode(buf);
        assert(buf@ =~= old(buf)@ + self.bytes());
    }

    /// Reads a payload into `self`, which stays as it was where the payload
    /// does not decode.
    pub fn decode(&mut self, buf: &[u8]) -> (r: Result<(), KnxNetIpError>)
        ensures
            match Self::parse(buf@) {
                Ok(v) => r is Ok && *final(self) == v,
                Err(e) => r == Err::<(), KnxNetIpError>(e) && *final(self) == *old(self),
            },
    {
        if buf.len() < 10 {
            return Err(KnxNetIpError::MessageTooShort(buf.len()));
        }
        let control = match HPAI::decode(&buf[2..10]) {
            Ok(h) => h,
            Err(e) => return Err(e),
        };
        self.channel = buf[0];
        self.control = control;
        Ok(())
    }

    /// A request is what its own payload is read as.
    pub proof fn lemma_round_trip(self)
        ensures
            self.bytes().len() == self.spec_payload_length(),
            Self::parse(self.bytes()) == Ok::<ConnectionstateRequest, KnxNetIpError>(self),
    {
        let b = self.bytes();
        self.control.lemma_round_trip(Seq::empty());
        assert(b[0] == self.channel);
        assert(b.subrange(2, 10) =~= self.control.bytes() + Seq::empty());
    }
}

impl Default for ConnectionstateRequest {
    fn default() -> (c: ConnectionstateRequest)
        ensures
            c == (ConnectionstateRequest { channel: 0, control: HPAI::unset() }),
    {
        ConnectionstateRequest { channel: 0, control: HPAI::default() }
    }
}

impl ConnectionstateResponse {
    /// The length of the payload, 2.
    pub open spec fn spec_payload_length(&self) -> u16 {
        2
    }

    /// The payload: channel and status.
    pub open spec fn bytes(&self) -> Seq<u8> {
        seq![self.channel, self.status.spec_code()]
    }

    /// What a payload stands for.
    pub open spec fn parse(buf: Seq<u8>) -> Result<ConnectionstateResponse, KnxNetIpError> {
        if buf.len() < 2 {
            Err(KnxNetIpError::MessageTooShort(buf.len() as usize))
        } else {
            match StatusCode::spec_from_repr(buf[1]) {
                None => Err(KnxNetIpError::UnknownStatus(buf[1])),
                Some(status) => Ok(ConnectionstateResponse { channel: buf[0], status }),
            }
        }
    }

    /// The length of the payload.
    #[verifier::when_used_as_spec(spec_payload_length)]
    pub fn payload_length(&self) -> (n: u16)
        ensures
            n == self.spec_payload_length(),
    {
        2
    }

    /// Appends the payload to `buf`.
    pub fn encode(&self, buf: &mut Vec<u8>)
        ensures
            final(buf)@ == old(buf)@ + self.bytes(),
    {
        buf.push(self.channel);
        buf.push(self.status.code());
        assert(buf@ =~= old(buf)@ + self.bytes());
    }

    /// Reads a payload into `self`, which stays as it was where the payload
    /// does not decode.
    pub fn decode(&mut self, buf: &[u8]) -> (r: Result<(), KnxNetIpError>)
        ensures
            match Self::parse(buf@) {
                Ok(v) => r is Ok && *final(self) == v,
                Err(e) => r == Err::<(), KnxNetIpError>(e) && *final(self) == *old(self),
            },
    {
        if buf.len() < 2 {
            return Err(KnxNetIpError::MessageTooShort(buf.len()));
        }
        let status = match StatusCode::from_repr(buf[1]) {
            Some(status) => status,
            None => return Err(KnxNetIpError::UnknownStatus(buf[1])),
        };
        self.channel = buf[0];
        self.status = status;
        Ok(())
    }

    /// A response is what its own payload is read as.
    pub proof fn lemma_round_trip(self)
        ensures
            self.bytes().len() == self.spec_payload_length(),
            Self::parse(self.bytes()) == Ok::<ConnectionstateResponse, KnxNetIpError>(self),
    {
        self.status.lemma_code_round_trip(0);
    }
}

impl Default for ConnectionstateResponse {
    fn default() -> (c: ConnectionstateResponse)
        ensures
            c == (ConnectionstateResponse { channel: 0, status: StatusCode::NoError }),
    {
        ConnectionstateResponse { channel: 0, status: StatusCode::NoError }
    }
}

} // verus!
