//! KNXnet/IP service frames: the fixed header and the services of a tunnelling
//! session.

pub mod connect;
pub mod connectionstate;
pub mod crd;
pub mod cri;
pub mod disconnect;
pub mod hpai;
pub mod status;
pub mod tunnel;

use crate::dpt::DPT;
use crate::knxnet::connect::{ConnectRequest, ConnectResponse};
use crate::knxnet::connectionstate::{ConnectionstateRequest, ConnectionstateResponse};
use crate::knxnet::disconnect::{DisconnectRequest, DisconnectResponse};
use crate::knxnet::status::StatusCode;
use crate::knxnet::tunnel::{TunnelAck, TunnelRequest, TunnelRequestView};
use crate::octets::{be16, be16_bytes, push_u16_be, read_u16_be};
use crate::text::{append_decimal, append_hexadecimal, decimal, hexadecimal};
use vstd::prelude::*;
use vstd::string::StringExecFns;

verus! {

/// What can go wrong while a frame is decoded.
#[derive(Debug, Copy, Clone, Eq, PartialEq, Ord, PartialOrd, Hash, Structural)]
pub enum KnxNetIpError {
    /// The peer reported an error status.
    ErrorStatus(StatusCode),
    /// The status byte is not a known status code.
    UnknownStatus(u8),
    /// The connection type byte is not a known connection type.
    UnknownConnectionType(u8),
    /// The payload is shorter than its service needs; holds the length found.
    MessageTooShort(usize),
    /// The datagram is shorter than the fixed header; holds the length found.
    HeaderTooShort(usize),
    /// The header length byte is not 6.
    UnknownHeaderSize(u8),
    /// The length in the header differs from the datagram's length.
    InvalidHeaderSize(u16, usize),
    /// The protocol version byte is not 0x10.
    UnknownVersion(u8),
    /// The service identifier is not one of the known services.
    UnknownService(u16),
    /// A field holds a value that no variant stands for.
    Unknown,
    /// The frame is recognised but its decoding is not provided.
    NotImplemented,
    /// A structure announces a length other than its fixed one.
    InvalidSize,
    /// The tunnelling layer byte is not a known layer.
    UnknownLayer(u8),
}

impl KnxNetIpError {
    /// What the error says, in words: a fixed text, with the numbers that the
    /// error holds in decimal, and the service and the layer in hexadecimal.
    pub open spec fn message(self) -> Seq<char> {
        match self {
            KnxNetIpError::ErrorStatus(status) => "datagram contained an error "@
                + status.message(),
            KnxNetIpError::UnknownStatus(code) => "unknown status code "@ + decimal(code as nat),
            KnxNetIpError::UnknownConnectionType(code) => "unknown connection type code "@
                + decimal(code as nat),
            KnxNetIpError::MessageTooShort(len) => "datagram was too short (len "@ + decimal(
                len as nat,
            ) + ")"@,
            KnxNetIpError::HeaderTooShort(len) => "datagram header was too short (len "@
                + decimal(len as nat) + ")"@,
            KnxNetIpError::UnknownHeaderSize(size) => "unexpected header size "@ + decimal(
                size as nat,
            ),
            KnxNetIpError::InvalidHeaderSize(stated, len) => "size in header "@ + decimal(
                stated as nat,
            ) + " does not match message length "@ + decimal(len as nat),
            KnxNetIpError::UnknownVersion(version) => "unexpected KnxNet/IP version "@
                + decimal(version as nat),
            KnxNetIpError::UnknownService(service) => "unknown service "@ + hexadecimal(
                service as nat,
            ),
            KnxNetIpError::Unknown => "unknown error"@,
            KnxNetIpError::NotImplemented => "Not implemented"@,
            KnxNetIpError::InvalidSize => "unexpected size detected"@,
            KnxNetIpError::UnknownLayer(layer) => "unknown layer "@ + hexadecimal(layer as nat),
        }
    }

    /// What the error says, in words.
    pub fn to_string(&self) -> (s: String)
        ensures
            s@ == self.message(),
    {
        match self {
            KnxNetIpError::ErrorStatus(status) => {
                let mut s = String::from_str("datagram contained an error ");
                let text = status.to_string();
                s.append(text.as_str());
                s
            },
            KnxNetIpError::UnknownStatus(code) => {
                let mut s = String::from_str("unknown status code ");
                append_decimal(&mut s, *code as u64);
                s
            },
            KnxNetIpError::UnknownConnectionType(code) => {
                let mut s = String::from_str("unknown connection type code ");
                append_decimal(&mut s, *code as u64);
                s
            },
            KnxNetIpError::MessageTooShort(len) => {
                let mut s = String::from_str("datagram was too short (len ");
                append_decimal(&mut s, *len as u64);
                s.append(")");
                s
            },
            KnxNetIpError::HeaderTooShort(len) => {
                let mut s = String::from_str("datagram header was too short (len ");
                append_decimal(&mut s, *len as u64);
                s.append(")");
                s
            },
            KnxNetIpError::UnknownHeaderSize(size) => {
                let mut s = String::from_str("unexpected header size ");
                append_decimal(&mut s, *size as u64);
                s
            },
            KnxNetIpError::InvalidHeaderSize(stated, len) => {
                let mut s = String::from_str("size in header ");
                append_decimal(&mut s, *stated as u64);
                s.append(" does not match message length ");
                append_decimal(&mut s, *len as u64);
                s
            },
            KnxNetIpError::UnknownVersion(version) => {
                let mut s = String::from_str("unexpected KnxNet/IP version ");
                append_decimal(&mut s, *version as u64);
                s
            },
            KnxNetIpError::UnknownService(service) => {
                let mut s = String::from_str("unknown service ");
                append_hexadecimal(&mut s, *service as u64);
                s
            },
            KnxNetIpError::Unknown => String::from_str("unknown error"),
            KnxNetIpError::NotImplemented => String::from_str("Not implemented"),
            KnxNetIpError::InvalidSize => String::from_str("unexpected size detected"),
            KnxNetIpError::UnknownLayer(layer) => {
                let mut s = String::from_str("unknown layer ");
                append_hexadecimal(&mut s, *layer as u64);
                s
            },
        }
    }
}

/// The length of the fixed header, and the value of its first byte.
pub const HEADER_LENGTH: u8 = 0x06;

/// The protocol version, the second byte of the header.
pub const KNXNET_VERSION: u8 = 0x10;

/// A KNXnet/IP frame over a datapoint type `D`: a service and its payload.
#[derive(PartialEq, Debug, Clone)]
pub enum Service<D = ()> {
    SearchRequest,
    SearchResponse,
    DescriptionRequest,
    DescriptionResponse,
    ConnectRequest(ConnectRequest),
    ConnectResponse(ConnectResponse),
    ConnectionstateRequest(ConnectionstateRequest),
    ConnectionstateResponse(ConnectionstateResponse),
    DisconnectRequest(DisconnectRequest),
    DisconnectResponse(DisconnectResponse),
    TunnelRequest(TunnelRequest<D>),
    TunnelAck(TunnelAck),
    DeviceConfigurationRequest,
    DeviceConfigurationAck,
    RoutingIndication,
    RoutingLostMessage,
}

/// What a [`Service`] is to the contracts: the same, with a tunnel request by
/// its view.
pub enum ServiceView<P> {
    SearchRequest,
    SearchResponse,
    DescriptionRequest,
    DescriptionResponse,
    ConnectRequest(ConnectRequest),
    ConnectResponse(ConnectResponse),
    ConnectionstateRequest(ConnectionstateRequest),
    ConnectionstateResponse(ConnectionstateResponse),
    DisconnectRequest(DisconnectRequest),
    DisconnectResponse(DisconnectResponse),
    TunnelRequest(TunnelRequestView<P>),
    TunnelAck(TunnelAck),
    DeviceConfigurationRequest,
    DeviceConfigurationAck,
    RoutingIndication,
    RoutingLostMessage,
}

impl<D: View> View for Service<D> {
    type V = ServiceView<D::V>;

    open spec fn view(&self) -> ServiceView<D::V> {
        match self {
            Service::SearchRequest => ServiceView::SearchRequest,
            Service::SearchResponse => ServiceView::SearchResponse,
            Service::DescriptionRequest => ServiceView::DescriptionRequest,
            Service::DescriptionResponse => ServiceView::DescriptionResponse,
            Service::ConnectRequest(r) => ServiceView::ConnectRequest(*r),
            Service::ConnectResponse(r) => ServiceView::ConnectResponse(*r),
            Service::ConnectionstateRequest(r) => ServiceView::ConnectionstateRequest(*r),
            Service::ConnectionstateResponse(r) => ServiceView::ConnectionstateResponse(*r),
            Service::DisconnectRequest(r) => ServiceView::DisconnectRequest(*r),
            Service::DisconnectResponse(r) => ServiceView::DisconnectResponse(*r),
            Service::TunnelRequest(r) => ServiceView::TunnelRequest(r@),
            Service::TunnelAck(r) => ServiceView::TunnelAck(*r),
            Service::DeviceConfigurationRequest => ServiceView::DeviceConfigurationRequest,
            Service::DeviceConfigurationAck => ServiceView::DeviceConfigurationAck,
            Service::RoutingIndication => ServiceView::RoutingIndication,
            Service::RoutingLostMessage => ServiceView::RoutingLostMessage,
        }
    }
}

impl<P> ServiceView<P> {
    /// The 16-bit service identifier.
    pub open spec fn identifier(self) -> u16 {
        match self {
            ServiceView::SearchRequest => 0x0201,
            ServiceView::SearchResponse => 0x0202,
            ServiceView::DescriptionRequest => 0x0203,
            ServiceView::DescriptionResponse => 0x0204,
            ServiceView::ConnectRequest(_) => 0x0205,
            ServiceView::ConnectResponse(_) => 0x0206,
            ServiceView::ConnectionstateRequest(_) => 0x0207,
            ServiceView::ConnectionstateResponse(_) => 0x0208,
            ServiceView::DisconnectRequest(_) => 0x0209,
            ServiceView::DisconnectResponse(_) => 0x020A,
            ServiceView::TunnelRequest(_) => 0x0420,
            ServiceView::TunnelAck(_) => 0x0421,
            ServiceView::DeviceConfigurationRequest => 0x0310,
            ServiceView::DeviceConfigurationAck => 0x0311,
            ServiceView::RoutingIndication => 0x0530,
            ServiceView::RoutingLostMessage => 0x0531,
        }
    }
}

/// The six bytes of the header: header length, version, service identifier,
/// total length of the frame.
pub open spec fn header_bytes(identifier: u16, total_length: u16) -> Seq<u8> {
    seq![HEADER_LENGTH, KNXNET_VERSION] + be16_bytes(identifier) + be16_bytes(total_length)
}

impl<D: DPT + Default> Service<D> {
    /// The length of the payload; none for the services without one here.
    pub open spec fn payload_length_of(v: ServiceView<D::V>) -> nat {
        match v {
            ServiceView::ConnectRequest(r) => r.spec_payload_length() as nat,
            ServiceView::ConnectResponse(r) => r.spec_payload_length() as nat,
            ServiceView::ConnectionstateRequest(r) => r.spec_payload_length() as nat,
            ServiceView::ConnectionstateResponse(r) => r.spec_payload_length() as nat,
            ServiceView::DisconnectRequest(r) => r.spec_payload_length() as nat,
            ServiceView::DisconnectResponse(r) => r.spec_payload_length() as nat,
            ServiceView::TunnelRequest(r) => TunnelRequest::<D>::payload_length_of(r),
            ServiceView::TunnelAck(a) => a.spec_payload_length() as nat,
            _ => 0,
        }
    }

    /// The total length of the frame: header and payload.
    pub open spec fn length_of(v: ServiceView<D::V>) -> nat {
        6 + Self::payload_length_of(v)
    }

    /// Whether the length can be computed: the message of a tunnel request
    /// has a length that fits a byte.
    pub open spec fn measurable(v: ServiceView<D::V>) -> bool {
        v matches ServiceView::TunnelRequest(r) ==> crate::cemi::Message::<D>::length_of(r.data)
            <= u8::MAX
    }

    /// Whether the frame has a wire form: its payload has one. A service
    /// without a payload here is a bare header.
    pub open spec fn encodable(v: ServiceView<D::V>) -> bool {
        match v {
            ServiceView::ConnectRequest(r) => r.encodable(),
            ServiceView::ConnectResponse(r) => r.encodable(),
            ServiceView::TunnelRequest(r) => TunnelRequest::<D>::encodable(r),
            _ => true,
        }
    }

    /// The payload of the frame.
    pub open spec fn payload_bytes(v: ServiceView<D::V>) -> Seq<u8> {
        match v {
            ServiceView::ConnectRequest(r) => r.bytes(),
            ServiceView::ConnectResponse(r) => r.bytes(),
            ServiceView::ConnectionstateRequest(r) => r.bytes(),
            ServiceView::ConnectionstateResponse(r) => r.bytes(),
            ServiceView::DisconnectRequest(r) => r.bytes(),
            ServiceView::DisconnectResponse(r) => r.bytes(),
            ServiceView::TunnelRequest(r) => TunnelRequest::<D>::bytes(r),
            ServiceView::TunnelAck(a) => a.bytes(),
            _ => Seq::empty(),
        }
    }

    /// The frame: header and payload.
    pub open spec fn bytes(v: ServiceView<D::V>) -> Seq<u8> {
        header_bytes(v.identifier(), Self::length_of(v) as u16) + Self::payload_bytes(v)
    }

    /// What the payload `buf` of the service `identifier` stands for.
    pub open spec fn parse_payload(identifier: u16, buf: Seq<u8>) -> Result<
        ServiceView<D::V>,
        KnxNetIpError,
    > {
        if identifier == 0x0201 {
            Ok(ServiceView::SearchRequest)
        } else if identifier == 0x0202 {
            Ok(ServiceView::SearchResponse)
        } else if identifier == 0x0203 {
            Ok(ServiceView::DescriptionRequest)
        } else if identifier == 0x0204 {
            Ok(ServiceView::DescriptionResponse)
        } else if identifier == 0x0205 {
            match ConnectRequest::parse(buf) {
                Ok(r) => Ok(ServiceView::ConnectRequest(r)),
                Err(e) => Err(e),
            }
        } else if identifier == 0x0206 {
            match ConnectResponse::parse(buf) {
                Ok(r) => Ok(ServiceView::ConnectResponse(r)),
                Err(e) => Err(e),
            }
        } else if identifier == 0x0207 {
            match ConnectionstateRequest::parse(buf) {
                Ok(r) => Ok(ServiceView::ConnectionstateRequest(r)),
                Err(e) => Err(e),
            }
        } else if identifier == 0x0208 {
            match ConnectionstateResponse::parse(buf) {
                Ok(r) => Ok(ServiceView::ConnectionstateResponse(r)),
                Err(e) => Err(e),
            }
        } else if identifier == 0x0209 {
            match DisconnectRequest::parse(buf) {
                Ok(r) => Ok(ServiceView::DisconnectRequest(r)),
                Err(e) => Err(e),
            }
        } else if identifier == 0x020A {
            match DisconnectResponse::parse(buf) {
                Ok(r) => Ok(ServiceView::DisconnectResponse(r)),
                Err(e) => Err(e),
            }
        } else if identifier == 0x0420 {
            match TunnelRequest::<D>::parse(buf) {
                Ok(r) => Ok(ServiceView::TunnelRequest(r)),
                Err(e) => Err(e),
            }
        } else if identifier == 0x0421 {
            match TunnelAck::parse(buf) {
                Ok(r) => Ok(ServiceView::TunnelAck(r)),
                Err(e) => Err(e),
            }
        } else if identifier == 0x0310 {
            Ok(ServiceView::DeviceConfigurationRequest)
        } else if identifier == 0x0311 {
            Ok(ServiceView::DeviceConfigurationAck)
        } else if identifier == 0x0530 {
            Ok(ServiceView::RoutingIndication)
        } else if identifier == 0x0531 {
            Ok(ServiceView::RoutingLostMessage)
        } else {
            Err(KnxNetIpError::UnknownService(identifier))
        }
    }

    /// What a datagram stands for. In this order: a datagram of less than six
    /// bytes is `HeaderTooShort`; a first byte other than 6 is
    /// `UnknownHeaderSize`; a second byte other than 0x10 is `UnknownVersion`;
    /// a stated length other than the datagram's is `InvalidHeaderSize`; an
    /// identifier that names no service is `UnknownService`; then the payload
    /// decides.
    pub open spec fn parse(buf: Seq<u8>) -> Result<ServiceView<D::V>, KnxNetIpError> {
        if buf.len() < 6 {
            Err(KnxNetIpError::HeaderTooShort(buf.len() as usize))
        } else if buf[0] != HEADER_LENGTH {
            Err(KnxNetIpError::UnknownHeaderSize(buf[0]))
        } else if buf[1] != KNXNET_VERSION {
            Err(KnxNetIpError::UnknownVersion(buf[1]))
        } else if be16(buf[4], buf[5]) != buf.len() {
            Err(KnxNetIpError::InvalidHeaderSize(be16(buf[4], buf[5]), buf.len() as usize))
        } else {
            Self::parse_payload(be16(buf[2], buf[3]), buf.skip(6))
        }
    }

    /// The 16-bit service identifier.
    pub fn identifier(&self) -> (id: u16)
        ensures
            id == self@.identifier(),
    {
        match self {
            Service::SearchRequest => 0x0201,
            Service::SearchResponse => 0x0202,
            Service::DescriptionRequest => 0x0203,
            Service::DescriptionResponse => 0x0204,
            Service::ConnectRequest(_) => 0x0205,
            Service::ConnectResponse(_) => 0x0206,
            Service::ConnectionstateRequest(_) => 0x0207,
            Service::ConnectionstateResponse(_) => 0x0208,
            Service::DisconnectRequest(_) => 0x0209,
            Service::DisconnectResponse(_) => 0x020A,
            Service::TunnelRequest(_) => 0x0420,
            Service::TunnelAck(_) => 0x0421,
            Service::DeviceConfigurationRequest => 0x0310,
            Service::DeviceConfigurationAck => 0x0311,
            Service::RoutingIndication => 0x0530,
            Service::RoutingLostMessage => 0x0531,
        }
    }

    /// The total length of the frame.
    pub fn length(&self) -> (n: u16)
        requires
            Self::measurable(self@),
        ensures
            n == Self::length_of(self@),
    {
        6 + match self {
            Service::ConnectRequest(r) => r.payload_length(),
            Service::ConnectResponse(r) => r.payload_length(),
            Service::ConnectionstateRequest(r) => r.payload_length(),
            Service::ConnectionstateResponse(r) => r.payload_length(),
            Service::DisconnectRequest(r) => r.payload_length(),
            Service::DisconnectResponse(r) => r.payload_length(),
            Service::TunnelRequest(r) => r.payload_length(),
            Service::TunnelAck(a) => a.payload_length(),
            _ => 0,
        }
    }

    /// Whether the frame has a wire form.
    pub fn is_encodable(&self) -> (ok: bool)
        ensures
            ok == Self::encodable(self@),
    {
        match self {
            Service::ConnectRequest(r) => r.is_encodable(),
            Service::ConnectResponse(r) => r.is_encodable(),
            Service::TunnelRequest(r) => r.is_encodable(),
            _ => true,
        }
    }

    /// The frame as bytes. It is as long as its header says.
    pub fn encoded(&self) -> (frame: Vec<u8>)
        requires
            Self::encodable(self@),
        ensures
            frame@ == Self::bytes(self@),
            frame@.len() == Self::length_of(self@),
    {
        proof {
            Self::lemma_bytes_len(self@);
        }
        let total = self.length();
        let mut buf = Vec::<u8>::with_capacity(total as usize);
        buf.push(HEADER_LENGTH);
        buf.push(KNXNET_VERSION);
        push_u16_be(&mut buf, self.identifier());
        push_u16_be(&mut buf, total);
        assert(buf@ =~= header_bytes(self@.identifier(), total));
        match self {
            Service::ConnectRequest(r) => r.encode(&mut buf),
            Service::ConnectResponse(r) => r.encode(&mut buf),
            Service::ConnectionstateRequest(r) => r.encode(&mut buf),
            Service::ConnectionstateResponse(r) => r.encode(&mut buf),
            Service::DisconnectRequest(r) => r.encode(&mut buf),
            Service::DisconnectResponse(r) => r.encode(&mut buf),
            Service::TunnelRequest(r) => r.encode(&mut buf),
            Service::TunnelAck(a) => a.encode(&mut buf),
            _ => {},
        }
        assert(buf@ =~= Self::bytes(self@));
        buf
    }

    /// Reads a frame from a datagram.
    pub fn decoded(buf: &[u8]) -> (r: Result<Service<D>, KnxNetIpError>)
        ensures
            match Self::parse(buf@) {
                Ok(v) => r matches Ok(s) && s@ == v,
                Err(e) => r matches Err(x) && x == e,
            },
    {
        if buf.len() < 6 {
            return Err(KnxNetIpError::HeaderTooShort(buf.len()));
        }
        if buf[0] != HEADER_LENGTH {
            return Err(KnxNetIpError::UnknownHeaderSize(buf[0]));
        }
        if buf[1] != KNXNET_VERSION {
            return Err(KnxNetIpError::UnknownVersion(buf[1]));
        }
        let service_identifier = read_u16_be(&buf[2..4]);
        let total_size = read_u16_be(&buf[4..6]);
        if total_size as usize != buf.len() {
            return Err(KnxNetIpError::InvalidHeaderSize(total_size, buf.len()));
        }
        let payload = &buf[6..buf.len()];
        assert(payload@ =~= buf@.skip(6));
        match service_identifier {
            0x0201 => Ok(Service::SearchRequest),
            0x0202 => Ok(Service::SearchResponse),
            0x0203 => Ok(Service::DescriptionRequest),
            0x0204 => Ok(Service::DescriptionResponse),
            0x0205 => {
                let mut r = ConnectRequest::default();
                match r.decode(payload) {
                    Ok(()) => Ok(Service::ConnectRequest(r)),
                    Err(e) => Err(e),
                }
            },
            0x0206 => {
                let mut r = ConnectResponse::default();
                match r.decode(payload) {
                    Ok(()) => Ok(Service::ConnectResponse(r)),
                    Err(e) => Err(e),
                }
            },
            0x0207 => {
                let mut r = ConnectionstateRequest::default();
                match r.decode(payload) {
                    Ok(()) => Ok(Service::ConnectionstateRequest(r)),
                    Err(e) => Err(e),
                }
            },
            0x0208 => {
                let mut r = ConnectionstateResponse::default();
                match r.decode(payload) {
                    Ok(()) => Ok(Service::ConnectionstateResponse(r)),
                    Err(e) => Err(e),
                }
            },
            0x0209 => {
                let mut r = DisconnectRequest::default();
                match r.decode(payload) {
                    Ok(()) => Ok(Service::DisconnectRequest(r)),
                    Err(e) => Err(e),
                }
            },
            0x020A => {
                let mut r = DisconnectResponse::default();
                match r.decode(payload) {
                    Ok(()) => Ok(Service::DisconnectResponse(r)),
                    Err(e) => Err(e),
                }
            },
            0x0420 => {
                let mut r = TunnelRequest::<D>::default();
                match r.decode(payload) {
                    Ok(()) => Ok(Service::TunnelRequest(r)),
                    Err(e) => Err(e),
                }
            },
            0x0421 => {
                let mut r = TunnelAck::default();
                match r.decode(payload) {
                    Ok(()) => Ok(Service::TunnelAck(r)),
                    Err(e) => Err(e),
                }
            },
            0x0310 => Ok(Service::DeviceConfigurationRequest),
            0x0311 => Ok(Service::DeviceConfigurationAck),
            0x0530 => Ok(Service::RoutingIndication),
            0x0531 => Ok(Service::RoutingLostMessage),
            _ => Err(KnxNetIpError::UnknownService(service_identifier)),
        }
    }

    /// An encodable frame takes as many bytes as its header says, and that
    /// number fits the 16 bits of the header.
    pub proof fn lemma_bytes_len(v: ServiceView<D::V>)
        requires
            Self::encodable(v),
        ensures
            Self::measurable(v),
            Self::length_of(v) <= u16::MAX,
            Self::bytes(v).len() == Self::length_of(v),
    {
        match v {
            ServiceView::ConnectRequest(r) => {
                r.lemma_round_trip();
            },
            ServiceView::ConnectResponse(r) => {
                if r.status == StatusCode::NoError {
                    r.connection_type.lemma_round_trip(Seq::empty());
                }
            },
            ServiceView::TunnelRequest(r) => {
                crate::cemi::Message::<D>::lemma_bytes_len(r.data);
            },
            _ => {},
        }
    }
    /// Whether the frame is what its own bytes are read as: it has a wire
    /// form, a refused connection carries nothing, and the telegram of a
    /// tunnel request keeps within its bits and has a value that is read
    /// back.
    pub open spec fn canonical(v: ServiceView<D::V>) -> bool {
        &&& Self::encodable(v)
        &&& v matches ServiceView::ConnectResponse(r) ==> r.canonical()
        &&& v matches ServiceView::TunnelRequest(r) ==> TunnelRequest::<D>::canonical(r)
    }

    /// The header of an encodable frame is read back as its identifier and
    /// its length, and what follows the header is the payload.
    pub proof fn lemma_header_round_trip(v: ServiceView<D::V>)
        requires
            Self::encodable(v),
        ensures
            Self::parse(Self::bytes(v)) == Self::parse_payload(
                v.identifier(),
                Self::payload_bytes(v),
            ),
    {
        Self::lemma_bytes_len(v);
        let total = Self::length_of(v) as u16;
        let b = Self::bytes(v);
        crate::octets::lemma_be16_round_trip(v.identifier(), 0, 0);
        crate::octets::lemma_be16_round_trip(total, 0, 0);
        assert(b[0] == HEADER_LENGTH && b[1] == KNXNET_VERSION);
        assert(b[2] == crate::octets::hi_byte(v.identifier()));
        assert(b[3] == crate::octets::lo_byte(v.identifier()));
        assert(b[4] == crate::octets::hi_byte(total));
        assert(b[5] == crate::octets::lo_byte(total));
        assert(b.skip(6) =~= Self::payload_bytes(v));
    }

    /// A canonical frame is what its own bytes are read as, so that writing
    /// what was read gives the same bytes again.
    pub proof fn lemma_round_trip(v: ServiceView<D::V>)
        requires
            Self::canonical(v),
        ensures
            Self::parse(Self::bytes(v)) == Ok::<ServiceView<D::V>, KnxNetIpError>(v),
    {
        Self::lemma_header_round_trip(v);
        match v {
            ServiceView::ConnectRequest(r) => r.lemma_round_trip(),
            ServiceView::ConnectResponse(r) => r.lemma_round_trip(),
            ServiceView::ConnectionstateRequest(r) => r.lemma_round_trip(),
            ServiceView::ConnectionstateResponse(r) => r.lemma_round_trip(),
            ServiceView::DisconnectRequest(r) => r.lemma_round_trip(),
            ServiceView::DisconnectResponse(r) => r.lemma_round_trip(),
            ServiceView::TunnelRequest(r) => TunnelRequest::<D>::lemma_round_trip(r),
            ServiceView::TunnelAck(r) => r.lemma_round_trip(),
            _ => {},
        }
    }
    /// The bytes of a canonical frame are the only ones that are written for
    /// what they are read as: writing what was read gives the same bytes.
    pub proof fn lemma_canonical_bytes(v: ServiceView<D::V>)
        requires
            Self::canonical(v),
        ensures
            Self::parse(Self::bytes(v)) matches Ok(read) && Self::bytes(read) == Self::bytes(v),
    {
        Self::lemma_round_trip(v);
    }
}

} // verus!
