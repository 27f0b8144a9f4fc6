//! cEMI, the common external message interface: bus telegrams as a tunnel
//! carries them.
//!
//! A message is a code byte, the length of its additional information, that
//! information, and for the L_Data services a telegram.

pub mod apdu;
pub mod information;
pub mod l_data;

use crate::cemi::information::InformationType;
use crate::cemi::l_data::LData;
use crate::dpt::DPT;
use crate::knxnet::KnxNetIpError;
use vstd::prelude::*;

verus! {

/// A cEMI message over a datapoint type `D`.
#[derive(Debug, Clone, PartialEq)]
pub enum Message<D> {
    /// A telegram to transmit.
    LDataReq(Vec<InformationType>, LData<D>),
    /// A telegram that was received.
    LDataInd(Vec<InformationType>, LData<D>),
    /// The confirmation of a transmitted telegram.
    LDataCon(Vec<InformationType>, LData<D>),
    LRawReq,
    LRawCon,
    LRawInd,
    MResetReq,
    LBusmonInd,
    /// No message.
    Absent,
}

/// What a [`Message`] is to the contracts: the same, with the additional
/// information as a sequence and the value by its view.
pub enum MessageView<P> {
    LDataReq(Seq<InformationType>, LData<P>),
    LDataInd(Seq<InformationType>, LData<P>),
    LDataCon(Seq<InformationType>, LData<P>),
    LRawReq,
    LRawCon,
    LRawInd,
    MResetReq,
    LBusmonInd,
    Absent,
}

impl<D: View> View for Message<D> {
    type V = MessageView<D::V>;

    open spec fn view(&self) -> MessageView<D::V> {
        match self {
            Message::LDataReq(info, data) => MessageView::LDataReq(info@, data@),
            Message::LDataInd(info, data) => MessageView::LDataInd(info@, data@),
            Message::LDataCon(info, data) => MessageView::LDataCon(info@, data@),
            Message::LRawReq => MessageView::LRawReq,
            Message::LRawCon => MessageView::LRawCon,
            Message::LRawInd => MessageView::LRawInd,
            Message::MResetReq => MessageView::MResetReq,
            Message::LBusmonInd => MessageView::LBusmonInd,
            Message::Absent => MessageView::Absent,
        }
    }
}

impl<D> Default for Message<D> {
    fn default() -> (m: Message<D>)
        ensures
            m is Absent,
    {
        Message::Absent
    }
}

impl<P> MessageView<P> {
    /// The telegram of an L_Data message.
    pub open spec fn telegram(self) -> Option<LData<P>> {
        match self {
            MessageView::LDataReq(_, data) => Some(data),
            MessageView::LDataInd(_, data) => Some(data),
            MessageView::LDataCon(_, data) => Some(data),
            _ => None,
        }
    }

    /// The additional information of an L_Data message.
    pub open spec fn information(self) -> Seq<InformationType> {
        match self {
            MessageView::LDataReq(info, _) => info,
            MessageView::LDataInd(info, _) => info,
            MessageView::LDataCon(info, _) => info,
            _ => Seq::empty(),
        }
    }

    /// The message code. `Absent` has none; 0 stands in for it.
    pub open spec fn code(self) -> u8 {
        match self {
            MessageView::LDataReq(_, _) => 0x11,
            MessageView::LDataInd(_, _) => 0x29,
            MessageView::LDataCon(_, _) => 0x2E,
            MessageView::LRawReq => 0x10,
            MessageView::LRawCon => 0x2F,
            MessageView::LRawInd => 0x2D,
            MessageView::MResetReq => 0xF1,
            MessageView::LBusmonInd => 0x2B,
            MessageView::Absent => 0,
        }
    }
}

impl<D: DPT + Default> Message<D> {
    /// The length of the message: code byte, length byte and, for the L_Data
    /// services, the telegram. The codec writes no additional information.
    pub open spec fn length_of(v: MessageView<D::V>) -> nat {
        match v.telegram() {
            Some(data) => 2 + LData::<D>::length_of(data),
            None => 2,
        }
    }

    /// Whether the message has a wire form: an L_Data message without
    /// additional information, whose telegram has a wire form, and whose
    /// length fits a byte.
    pub open spec fn encodable(v: MessageView<D::V>) -> bool {
        match v.telegram() {
            Some(data) => {
                &&& v.information().len() == 0
                &&& LData::<D>::encodable(data)
                &&& Self::length_of(v) <= u8::MAX
            },
            None => false,
        }
    }

    /// The bytes of an L_Data message: code, a zero for the length of the
    /// additional information, telegram.
    pub open spec fn bytes(v: MessageView<D::V>) -> Seq<u8>
        recommends
            v.telegram() is Some,
    {
        seq![v.code(), 0u8] + LData::<D>::bytes(v.telegram().unwrap())
    }

    /// What `buf` stands for. An empty buffer is `MessageTooShort`, a code
    /// that names no message is `NotImplemented`. An L_Data message needs its
    /// length byte and as many bytes of additional information as that byte
    /// says, else it is `MessageTooShort`; the additional information is
    /// passed over and the telegram read behind it. The other messages are
    /// known by their code alone.
    pub open spec fn parse(buf: Seq<u8>) -> Result<MessageView<D::V>, KnxNetIpError> {
        if buf.len() < 1 {
            Err(KnxNetIpError::MessageTooShort(buf.len() as usize))
        } else if buf[0] == 0x11 || buf[0] == 0x29 || buf[0] == 0x2E {
            if buf.len() < 2 || buf.len() < 2 + buf[1] {
                Err(KnxNetIpError::MessageTooShort(buf.len() as usize))
            } else {
                match LData::<D>::parse(buf.skip(2 + buf[1])) {
                    Err(e) => Err(e),
                    Ok(data) => if buf[0] == 0x11 {
                        Ok(MessageView::LDataReq(Seq::empty(), data))
                    } else if buf[0] == 0x29 {
                        Ok(MessageView::LDataInd(Seq::empty(), data))
                    } else {
                        Ok(MessageView::LDataCon(Seq::empty(), data))
                    },
                }
            }
        } else if buf[0] == 0x10 {
            Ok(MessageView::LRawReq)
        } else if buf[0] == 0x2F {
            Ok(MessageView::LRawCon)
        } else if buf[0] == 0x2D {
            Ok(MessageView::LRawInd)
        } else if buf[0] == 0xF1 {
            Ok(MessageView::MResetReq)
        } else if buf[0] == 0x2B {
            Ok(MessageView::LBusmonInd)
        } else {
            Err(KnxNetIpError::NotImplemented)
        }
    }

    /// The message code.
    pub fn identifier(&self) -> (code: u8)
        ensures
            code == self@.code(),
    {
        match self {
            Message::LDataReq(_, _) => 0x11,
            Message::LDataInd(_, _) => 0x29,
            Message::LDataCon(_, _) => 0x2E,
            Message::LRawReq => 0x10,
            Message::LRawCon => 0x2F,
            Message::LRawInd => 0x2D,
            Message::MResetReq => 0xF1,
            Message::LBusmonInd => 0x2B,
            Message::Absent => 0,
        }
    }

    /// The length of the message.
    pub fn length(&self) -> (n: u8)
        requires
            Self::length_of(self@) <= u8::MAX,
        ensures
            n == Self::length_of(self@),
    {
        match self {
            Message::LDataReq(_, data) => 2 + data.length(),
            Message::LDataInd(_, data) => 2 + data.length(),
            Message::LDataCon(_, data) => 2 + data.length(),
            _ => 2,
        }
    }

    /// Whether the message has a wire form.
    pub fn is_encodable(&self) -> (ok: bool)
        ensures
            ok == Self::encodable(self@),
    {
        match self {
            Message::LDataReq(info, data) => info.len() == 0 && data.encodable_within(
                u8::MAX - 2,
            ),
            Message::LDataInd(info, data) => info.len() == 0 && data.encodable_within(
                u8::MAX - 2,
            ),
            Message::LDataCon(info, data) => info.len() == 0 && data.encodable_within(
                u8::MAX - 2,
            ),
            _ => false,
        }
    }

    /// Appends the bytes of the message to `buf`.
    pub fn encode(&self, buf: &mut Vec<u8>)
        requires
            Self::encodable(self@),
        ensures
            final(buf)@ == old(buf)@ + Self::bytes(self@),
    {
        buf.push(self.identifier());
        match self {
            Message::LDataReq(_, data) => {
                buf.push(0);
                data.encode(buf);
            },
            Message::LDataInd(_, data) => {
                buf.push(0);
                data.encode(buf);
            },
            Message::LDataCon(_, data) => {
                buf.push(0);
                data.encode(buf);
            },
            _ => {},
        }
        assert(buf@ =~= old(buf)@ + Self::bytes(self@));
    }

    /// Reads a message from `buf`.
    pub fn decode(buf: &[u8]) -> (r: Result<Message<D>, KnxNetIpError>)
        ensures
            match Self::parse(buf@) {
                Ok(v) => r matches Ok(m) && m@ == v,
                Err(e) => r matches Err(x) && x == e,
            },
    {
        if buf.len() < 1 {
            return Err(KnxNetIpError::MessageTooShort(buf.len()));
        }
        match buf[0] {
            0x11 | 0x29 | 0x2E => {
                if buf.len() < 2 || buf.len() < 2 + buf[1] as usize {
                    return Err(KnxNetIpError::MessageTooShort(buf.len()));
                }
                let mut data = LData::<D>::default();
                match data.decode(&buf[2 + buf[1] as usize..buf.len()]) {
                    Err(e) => Err(e),
                    Ok(()) => {
                        let info: Vec<InformationType> = Vec::new();
                        if buf[0] == 0x11 {
                            Ok(Message::LDataReq(info, data))
                        } else if buf[0] == 0x29 {
                            Ok(Message::LDataInd(info, data))
                        } else {
                            Ok(Message::LDataCon(info, data))
                        }
                    },
                }
            },
            0x10 => Ok(Message::LRawReq),
            0x2F => Ok(Message::LRawCon),
            0x2D => Ok(Message::LRawInd),
            0xF1 => Ok(Message::MResetReq),
            0x2B => Ok(Message::LBusmonInd),
            _ => Err(KnxNetIpError::NotImplemented),
        }
    }

    /// Whether the message is what its own bytes are read as: it has a wire
    /// form and its telegram is one that is read back.
    pub open spec fn canonical(v: MessageView<D::V>) -> bool {
        &&& Self::encodable(v)
        &&& LData::<D>::canonical(v.telegram().unwrap())
    }

    /// A canonical message is what its own bytes are read as.
    pub proof fn lemma_round_trip(v: MessageView<D::V>)
        requires
            Self::canonical(v),
        ensures
            Self::parse(Self::bytes(v)) == Ok::<MessageView<D::V>, KnxNetIpError>(v),
    {
        let b = Self::bytes(v);
        let data = v.telegram().unwrap();
        LData::<D>::lemma_round_trip(data);
        assert(b[0] == v.code() && b[1] == 0);
        assert(b.skip(2) =~= LData::<D>::bytes(data));
        assert(v.information() =~= Seq::empty());
    }

    /// An encodable message takes as many bytes as its length says.
    pub proof fn lemma_bytes_len(v: MessageView<D::V>)
        requires
            Self::encodable(v),
        ensures
            Self::bytes(v).len() == Self::length_of(v),
    {
        LData::<D>::lemma_bytes_len(v.telegram().unwrap());
    }
}

} // verus!
