//! Tunnelling: a cEMI message under a channel and a sequence number, and its
//! acknowledgement.

use crate::cemi::{Message, MessageView};
use crate::dpt::DPT;
use crate::knxnet::status::StatusCode;
use crate::knxnet::KnxNetIpError;
use vstd::prelude::*;

verus! {

/// A cEMI message sent through a tunnel.
#[derive(Debug, Clone, PartialEq)]
pub struct TunnelRequest<D> {
    pub channel: u8,
    pub seq: u8,
    pub data: Message<D>,
}

/// What a [`TunnelRequest`] is to the contracts.
pub struct TunnelRequestView<P> {
    pub channel: u8,
    pub seq: u8,
    pub data: MessageView<P>,
}

/// The acknowledgement of a tunnel request.
#[derive(Debug, Copy, Clone, PartialEq, Eq, Structural)]
pub struct TunnelAck {
    pub channel: u8,
    pub seq: u8,
    pub status: StatusCode,
}

impl<D: View> View for TunnelRequest<D> {
    type V = TunnelRequestView<D::V>;

    open spec fn view(&self) -> TunnelRequestView<D::V> {
        TunnelRequestView { channel: self.channel, seq: self.seq, data: self.data@ }
    }
}

impl<D> Default for TunnelRequest<D> {
    fn default() -> (t: TunnelRequest<D>)
        ensures
            t.channel == 0,
            t.seq == 0,
            t.data is Absent,
    {
        TunnelRequest { channel: 0, seq: 0, data: Message::Absent }
    }
}

impl<D: DPT + Default> TunnelRequest<D> {
    /// The length of the payload: four bytes of connection header and the
    /// message.
    pub open spec fn payload_length_of(v: TunnelRequestView<D::V>) -> nat {
        4 + Message::<D>::length_of(v.data)
    }

    /// Whether the request has a wire form: its message has one.
    pub open spec fn encodable(v: TunnelRequestView<D::V>) -> bool {
        Message::<D>::encodable(v.data)
    }

    /// The payload: the header length 4, channel, sequence number, a reserved
    /// zero, and the message.
    pub open spec fn bytes(v: TunnelRequestView<D::V>) -> Seq<u8> {
        seq![4u8, v.channel, v.seq, 0u8] + Message::<D>::bytes(v.data)
    }

    /// What a payload stands for. A payload of less than six bytes is
    /// `MessageTooShort`. The header length and the reserved byte are not
    /// looked at.
    pub open spec fn parse(buf: Seq<u8>) -> Result<TunnelRequestView<D::V>, KnxNetIpError> {
        if buf.len() < 6 {
            Err(KnxNetIpError::MessageTooShort(buf.len() as usize))
        } else {
            match Message::<D>::parse(buf.skip(4)) {
                Err(e) => Err(e),
                Ok(data) => Ok(TunnelRequestView { channel: buf[1], seq: buf[2], data }),
            }
        }
    }

    /// The length of the payload.
    pub fn payload_length(&self) -> (n: u16)
        requires
            Message::<D>::length_of(self@.data) <= u8::MAX,
        ensures
            n == Self::payload_length_of(self@),
    {
        4 + self.data.length() as u16
    }

    /// Whether the request has a wire form.
    pub fn is_encodable(&self) -> (ok: bool)
        ensures
            ok == Self::encodable(self@),
    {
        self.data.is_encodable()
    }

    /// Appends the payload to `buf`.
    pub fn encode(&self, buf: &mut Vec<u8>)
        requires
            Self::encodable(self@),
        ensures
            final(buf)@ == old(buf)@ + Self::bytes(self@),
    {
        buf.push(0x4);
        buf.push(self.channel);
        buf.push(self.seq);
        buf.push(0x00);
        self.data.encode(buf);
        assert(buf@ =~= old(buf)@ + Self::bytes(self@));
    }

    /// Reads a payload into `self`, which stays as it was where the payload
    /// does not decode.
    pub fn decode(&mut self, buf: &[u8]) -> (r: Result<(), KnxNetIpError>)
        ensures
            match Self::parse(buf@) {
                Ok(v) => r is Ok && final(self)@ == v,
                Err(e) => r == Err::<(), KnxNetIpError>(e) && *final(self) == *old(self),
            },
    {
        if buf.len() < 6 {
            return Err(KnxNetIpError::MessageTooShort(buf.len()));
        }
        let data = match Message::<D>::decode(&buf[4..buf.len()]) {
            Ok(m) => m,
            Err(e) => return Err(e),
        };
        self.channel = buf[1];
        self.seq = buf[2];
        self.data = data;
        Ok(())
    }
    /// Whether the request is what its own bytes are read as: its message is.
    pub open spec fn canonical(v: TunnelRequestView<D::V>) -> bool {
        Message::<D>::canonical(v.data)
    }

    /// A canonical request is what its own payload is read as.
    pub proof fn lemma_round_trip(v: TunnelRequestView<D::V>)
        requires
            Self::canonical(v),
        ensures
            Self::parse(Self::bytes(v)) == Ok::<TunnelRequestView<D::V>, KnxNetIpError>(v),
    {
        let b = Self::bytes(v);
        Message::<D>::lemma_round_trip(v.data);
        Message::<D>::lemma_bytes_len(v.data);
        assert(b[1] == v.channel && b[2] == v.seq);
        assert(b.skip(4) =~= Message::<D>::bytes(v.data));
    }
}

impl TunnelAck {
    /// The length of the payload, 4.
    pub open spec fn spec_payload_length(&self) -> u16 {
        4
    }

    /// The payload: the header length 4, channel, sequence number, status.
    pub open spec fn bytes(&self) -> Seq<u8> {
        seq![4u8, self.channel, self.seq, self.status.spec_code()]
    }

    /// What a payload stands for. The header length is not looked at; a status
    /// byte that is no status code is `UnknownStatus` with that byte.
    pub open spec fn parse(buf: Seq<u8>) -> Result<TunnelAck, KnxNetIpError> {
        if buf.len() < 4 {
            Err(KnxNetIpError::MessageTooShort(buf.len() as usize))
        } else {
            match StatusCode::spec_from_repr(buf[3]) {
                None => Err(KnxNetIpError::UnknownStatus(buf[3])),
                Some(status) => Ok(TunnelAck { channel: buf[1], seq: buf[2], status }),
            }
        }
    }

    /// The length of the payload.
    #[verifier::when_used_as_spec(spec_payload_length)]
    pub fn payload_length(&self) -> (n: u16)
        ensures
            n == self.spec_payload_length(),
    {
        4
    }

    /// Appends the payload to `buf`.
    pub fn encode(&self, buf: &mut Vec<u8>)
        ensures
            final(buf)@ == old(buf)@ + self.bytes(),
    {
        buf.push(0x4);
        buf.push(self.channel);
        buf.push(self.seq);
        buf.push(self.status.code());
        assert(buf@ =~= old(buf)@ + self.bytes());
    }

    /// Reads a payload into `self`, which stays as it was where the payload
    /// does not decode.
    pub fn decode(&mut self, buf: &[u8]) -> (r: Result<(), KnxNetIpError>)
        ensures
            match Self::parse(buf@) {
                Ok(v) => r is Ok && *final(self) == v,
                Err(e) => r == Err::<(), KnxNetIpError>(e) && *final(self) == *old(self),
            },
    {
        if buf.len() < 4 {
            return Err(KnxNetIpError::MessageTooShort(buf.len()));
        }
        let status = match StatusCode::from_repr(buf[3]) {
            Some(status) => status,
            None => return Err(KnxNetIpError::UnknownStatus(buf[3])),
        };
        self.channel = buf[1];
        self.seq = buf[2];
        self.status = status;
        Ok(())
    }

    /// An acknowledgement is what its own payload is read as.
    pub proof fn lemma_round_trip(self)
        ensures
            self.bytes().len() == self.spec_payload_length(),
            Self::parse(self.bytes()) == Ok::<TunnelAck, KnxNetIpError>(self),
    {
        self.status.lemma_code_round_trip(0);
    }
}

impl Default for TunnelAck {
    fn default() -> (a: TunnelAck)
        ensures
            a == (TunnelAck { channel: 0, seq: 0, status: StatusCode::NoError }),
    {
        TunnelAck { channel: 0, seq: 0, status: StatusCode::NoError }
    }
}

} // verus!
