//! L_Data frames: a bus telegram with its control fields, addresses and
//! application layer.

use crate::cemi::apdu::Apdu;
use crate::dpt::DPT;
use crate::knxnet::KnxNetIpError;
use crate::octets::{be16, be16_bytes, push_u16_be, read_u16_be};
use vstd::prelude::*;

verus! {

/// Whether a telegram has the standard or the extended frame layout. Field mask `0x80`.
#[derive(Debug, Copy, Clone, PartialEq, Eq, Structural)]
pub enum FrameType {
    Extended,
    Standard,
}

impl FrameType {
    /// The bits that stand for this value in its control byte.
    pub open spec fn spec_code(self) -> u8 {
        match self {
            FrameType::Extended => 0x00,
            FrameType::Standard => 0x80,
        }
    }

    /// The value that the masked bits stand for, if any.
    pub open spec fn spec_from_repr(bits: u8) -> Option<FrameType> {
        if bits == 0x00 {
            Some(FrameType::Extended)
        } else if bits == 0x80 {
            Some(FrameType::Standard)
        } else {
            None
        }
    }

    /// The bits that stand for this value in its control byte.
    #[verifier::when_used_as_spec(spec_code)]
    pub fn code(self) -> (c: u8)
        ensures
            c == self.spec_code(),
    {
        match self {
            FrameType::Extended => 0x00,
            FrameType::Standard => 0x80,
        }
    }

    /// The value that the masked bits stand for, or `None`.
    #[verifier::when_used_as_spec(spec_from_repr)]
    pub fn from_repr(bits: u8) -> (v: Option<FrameType>)
        ensures
            v == Self::spec_from_repr(bits),
    {
        match bits {
            0x00 => Some(FrameType::Extended),
            0x80 => Some(FrameType::Standard),
            _ => None,
        }
    }
}

impl Default for FrameType {
    fn default() -> (v: FrameType)
        ensures
            v == FrameType::Standard,
    {
        FrameType::Standard
    }
}

/// Whether the bus repeats a telegram that met an error. Field mask `0x20`.
#[derive(Debug, Copy, Clone, PartialEq, Eq, Structural)]
pub enum Repetition {
    Repeat,
    NoRepeat,
}

impl Repetition {
    /// The bits that stand for this value in its control byte.
    pub open spec fn spec_code(self) -> u8 {
        match self {
            Repetition::Repeat => 0x00,
            Repetition::NoRepeat => 0x20,
        }
    }

    /// The value that the masked bits stand for, if any.
    pub open spec fn spec_from_repr(bits: u8) -> Option<Repetition> {
        if bits == 0x00 {
            Some(Repetition::Repeat)
        } else if bits == 0x20 {
            Some(Repetition::NoRepeat)
        } else {
            None
        }
    }

    /// The bits that stand for this value in its control byte.
    #[verifier::when_used_as_spec(spec_code)]
    pub fn code(self) -> (c: u8)
        ensures
            c == self.spec_code(),
    {
        match self {
            Repetition::Repeat => 0x00,
            Repetition::NoRepeat => 0x20,
        }
    }

    /// The value that the masked bits stand for, or `None`.
    #[verifier::when_used_as_spec(spec_from_repr)]
    pub fn from_repr(bits: u8) -> (v: Option<Repetition>)
        ensures
            v == Self::spec_from_repr(bits),
    {
        match bits {
            0x00 => Some(Repetition::Repeat),
            0x20 => Some(Repetition::NoRepeat),
            _ => None,
        }
    }
}

impl Default for Repetition {
    fn default() -> (v: Repetition)
        ensures
            v == Repetition::NoRepeat,
    {
        Repetition::NoRepeat
    }
}

/// Whether a telegram is a system broadcast or a plain broadcast. Field mask `0x10`.
#[derive(Debug, Copy, Clone, PartialEq, Eq, Structural)]
pub enum SystemBroadcast {
    SystemBroadcast,
    Broadcast,
}

impl SystemBroadcast {
    /// The bits that stand for this value in its control byte.
    pub open spec fn spec_code(self) -> u8 {
        match self {
            SystemBroadcast::SystemBroadcast => 0x00,
            SystemBroadcast::Broadcast => 0x10,
        }
    }

    /// The value that the masked bits stand for, if any.
    pub open spec fn spec_from_repr(bits: u8) -> Option<SystemBroadcast> {
        if bits == 0x00 {
            Some(SystemBroadcast::SystemBroadcast)
        } else if bits == 0x10 {
            Some(SystemBroadcast::Broadcast)
        } else {
            None
        }
    }

    /// The bits that stand for this value in its control byte.
    #[verifier::when_used_as_spec(spec_code)]
    pub fn code(self) -> (c: u8)
        ensures
            c == self.spec_code(),
    {
        match self {
            SystemBroadcast::SystemBroadcast => 0x00,
            SystemBroadcast::Broadcast => 0x10,
        }
    }

    /// The value that the masked bits stand for, or `None`.
    #[verifier::when_used_as_spec(spec_from_repr)]
    pub fn from_repr(bits: u8) -> (v: Option<SystemBroadcast>)
        ensures
            v == Self::spec_from_repr(bits),
    {
        match bits {
            0x00 => Some(SystemBroadcast::SystemBroadcast),
            0x10 => Some(SystemBroadcast::Broadcast),
            _ => None,
        }
    }
}

impl Default for SystemBroadcast {
    fn default() -> (v: SystemBroadcast)
        ensures
            v == SystemBroadcast::Broadcast,
    {
        SystemBroadcast::Broadcast
    }
}

/// The priority of a telegram on the bus. Field mask `0x0C`.
#[derive(Debug, Copy, Clone, PartialEq, Eq, Structural)]
pub enum Priority {
    Low,
    Normal,
    Urgent,
    System,
}

impl Priority {
    /// The bits that stand for this value in its control byte.
    pub open spec fn spec_code(self) -> u8 {
        match self {
            Priority::Low => 0x0C,
            Priority::Normal => 0x04,
            Priority::Urgent => 0x08,
            Priority::System => 0x00,
        }
    }

    /// The value that the masked bits stand for, if any.
    pub open spec fn spec_from_repr(bits: u8) -> Option<Priority> {
        if bits == 0x0C {
            Some(Priority::Low)
        } else if bits == 0x04 {
            Some(Priority::Normal)
        } else if bits == 0x08 {
            Some(Priority::Urgent)
        } else if bits == 0x00 {
            Some(Priority::System)
        } else {
            None
        }
    }

    /// The bits that stand for this value in its control byte.
    #[verifier::when_used_as_spec(spec_code)]
    pub fn code(self) -> (c: u8)
        ensures
            c == self.spec_code(),
    {
        match self {
            Priority::Low => 0x0C,
            Priority::Normal => 0x04,
            Priority::Urgent => 0x08,
            Priority::System => 0x00,
        }
    }

    /// The value that the masked bits stand for, or `None`.
    #[verifier::when_used_as_spec(spec_from_repr)]
    pub fn from_repr(bits: u8) -> (v: Option<Priority>)
        ensures
            v == Self::spec_from_repr(bits),
    {
        match bits {
            0x0C => Some(Priority::Low),
            0x04 => Some(Priority::Normal),
            0x08 => Some(Priority::Urgent),
            0x00 => Some(Priority::System),
            _ => None,
        }
    }
}

impl Default for Priority {
    fn default() -> (v: Priority)
        ensures
            v == Priority::Low,
    {
        Priority::Low
    }
}

/// Whether the sender asks for a link layer acknowledge. Field mask `0x02`.
#[derive(Debug, Copy, Clone, PartialEq, Eq, Structural)]
pub enum Acknowledge {
    NoAcknowledge,
    Acknowledge,
}

impl Acknowledge {
    /// The bits that stand for this value in its control byte.
    pub open spec fn spec_code(self) -> u8 {
        match self {
            Acknowledge::NoAcknowledge => 0x00,
            Acknowledge::Acknowledge => 0x02,
        }
    }

    /// The value that the masked bits stand for, if any.
    pub open spec fn spec_from_repr(bits: u8) -> Option<Acknowledge> {
        if bits == 0x00 {
            Some(Acknowledge::NoAcknowledge)
        } else if bits == 0x02 {
            Some(Acknowledge::Acknowledge)
        } else {
            None
        }
    }

    /// The bits that stand for this value in its control byte.
    #[verifier::when_used_as_spec(spec_code)]
    pub fn code(self) -> (c: u8)
        ensures
            c == self.spec_code(),
    {
        match self {
            Acknowledge::NoAcknowledge => 0x00,
            Acknowledge::Acknowledge => 0x02,
        }
    }

    /// The value that the masked bits stand for, or `None`.
    #[verifier::when_used_as_spec(spec_from_repr)]
    pub fn from_repr(bits: u8) -> (v: Option<Acknowledge>)
        ensures
            v == Self::spec_from_repr(bits),
    {
        match bits {
            0x00 => Some(Acknowledge::NoAcknowledge),
            0x02 => Some(Acknowledge::Acknowledge),
            _ => None,
        }
    }
}

impl Default for Acknowledge {
    fn default() -> (v: Acknowledge)
        ensures
            v == Acknowledge::NoAcknowledge,
    {
        Acknowledge::NoAcknowledge
    }
}

/// Whether a confirmation reports an error. Field mask `0x01`.
#[derive(Debug, Copy, Clone, PartialEq, Eq, Structural)]
pub enum Confirmation {
    NoError,
    Error,
}

impl Confirmation {
    /// The bits that stand for this value in its control byte.
    pub open spec fn spec_code(self) -> u8 {
        match self {
            Confirmation::NoError => 0x00,
            Confirmation::Error => 0x01,
        }
    }

    /// The value that the masked bits stand for, if any.
    pub open spec fn spec_from_repr(bits: u8) -> Option<Confirmation> {
        if bits == 0x00 {
            Some(Confirmation::NoError)
        } else if bits == 0x01 {
            Some(Confirmation::Error)
        } else {
            None
        }
    }

    /// The bits that stand for this value in its control byte.
    #[verifier::when_used_as_spec(spec_code)]
    pub fn code(self) -> (c: u8)
        ensures
            c == self.spec_code(),
    {
        match self {
            Confirmation::NoError => 0x00,
            Confirmation::Error => 0x01,
        }
    }

    /// The value that the masked bits stand for, or `None`.
    #[verifier::when_used_as_spec(spec_from_repr)]
    pub fn from_repr(bits: u8) -> (v: Option<Confirmation>)
        ensures
            v == Self::spec_from_repr(bits),
    {
        match bits {
            0x00 => Some(Confirmation::NoError),
            0x01 => Some(Confirmation::Error),
            _ => None,
        }
    }
}

impl Default for Confirmation {
    fn default() -> (v: Confirmation)
        ensures
            v == Confirmation::NoError,
    {
        Confirmation::NoError
    }
}

/// The format of an extended frame. Field mask `0x07`.
#[derive(Debug, Copy, Clone, PartialEq, Eq, Structural)]
pub enum FrameFormat {
    Standard,
    LTE0,
    LTE1,
    LTE2,
    LTE3,
}

impl FrameFormat {
    /// The bits that stand for this value in its control byte.
    pub open spec fn spec_code(self) -> u8 {
        match self {
            FrameFormat::Standard => 0x00,
            FrameFormat::LTE0 => 0x04,
            FrameFormat::LTE1 => 0x05,
            FrameFormat::LTE2 => 0x06,
            FrameFormat::LTE3 => 0x07,
        }
    }

    /// The value that the masked bits stand for, if any.
    pub open spec fn spec_from_repr(bits: u8) -> Option<FrameFormat> {
        if bits == 0x00 {
            Some(FrameFormat::Standard)
        } else if bits == 0x04 {
            Some(FrameFormat::LTE0)
        } else if bits == 0x05 {
            Some(FrameFormat::LTE1)
        } else if bits == 0x06 {
            Some(FrameFormat::LTE2)
        } else if bits == 0x07 {
            Some(FrameFormat::LTE3)
        } else {
            None
        }
    }

    /// The bits that stand for this value in its control byte.
    #[verifier::when_used_as_spec(spec_code)]
    pub fn code(self) -> (c: u8)
        ensures
            c == self.spec_code(),
    {
        match self {
            FrameFormat::Standard => 0x00,
            FrameFormat::LTE0 => 0x04,
            FrameFormat::LTE1 => 0x05,
            FrameFormat::LTE2 => 0x06,
            FrameFormat::LTE3 => 0x07,
        }
    }

    /// The value that the masked bits stand for, or `None`.
    #[verifier::when_used_as_spec(spec_from_repr)]
    pub fn from_repr(bits: u8) -> (v: Option<FrameFormat>)
        ensures
            v == Self::spec_from_repr(bits),
    {
        match bits {
            0x00 => Some(FrameFormat::Standard),
            0x04 => Some(FrameFormat::LTE0),
            0x05 => Some(FrameFormat::LTE1),
            0x06 => Some(FrameFormat::LTE2),
            0x07 => Some(FrameFormat::LTE3),
            _ => None,
        }
    }
}

impl Default for FrameFormat {
    fn default() -> (v: FrameFormat)
        ensures
            v == FrameFormat::Standard,
    {
        FrameFormat::Standard
    }
}

/// Whether the destination is an individual or a group address. Field mask `0x80`.
#[derive(Debug, Copy, Clone, PartialEq, Eq, Structural)]
pub enum AddressType {
    Individual,
    Group,
}

impl AddressType {
    /// The bits that stand for this value in its control byte.
    pub open spec fn spec_code(self) -> u8 {
        match self {
            AddressType::Individual => 0x00,
            AddressType::Group => 0x80,
        }
    }

    /// The value that the masked bits stand for, if any.
    pub open spec fn spec_from_repr(bits: u8) -> Option<AddressType> {
        if bits == 0x00 {
            Some(AddressType::Individual)
        } else if bits == 0x80 {
            Some(AddressType::Group)
        } else {
            None
        }
    }

    /// The bits that stand for this value in its control byte.
    #[verifier::when_used_as_spec(spec_code)]
    pub fn code(self) -> (c: u8)
        ensures
            c == self.spec_code(),
    {
        match self {
            AddressType::Individual => 0x00,
            AddressType::Group => 0x80,
        }
    }

    /// The value that the masked bits stand for, or `None`.
    #[verifier::when_used_as_spec(spec_from_repr)]
    pub fn from_repr(bits: u8) -> (v: Option<AddressType>)
        ensures
            v == Self::spec_from_repr(bits),
    {
        match bits {
            0x00 => Some(AddressType::Individual),
            0x80 => Some(AddressType::Group),
            _ => None,
        }
    }
}

impl Default for AddressType {
    fn default() -> (v: AddressType)
        ensures
            v == AddressType::Group,
    {
        AddressType::Group
    }
}

/// A bus telegram over a datapoint type `D`.
#[derive(Debug, Clone, PartialEq)]
pub struct LData<D> {
    pub frame_type: FrameType,
    pub repetition: Repetition,
    pub system_broadcast: SystemBroadcast,
    pub priority: Priority,
    pub acknowledge: Acknowledge,
    pub confirmation: Confirmation,
    pub destination_address_type: AddressType,
    /// How many routers the telegram may still pass, 0 to 7.
    pub hop_count: u8,
    pub frame_format: FrameFormat,
    /// The individual address of the sender.
    pub source: u16,
    /// The destination, a group or an individual address.
    pub destination: u16,
    /// Whether the transport layer frame is a control frame.
    pub control: bool,
    /// Whether the transport layer frame is numbered.
    pub numbered: bool,
    /// The transport layer sequence number, 0 to 15.
    pub seq: u8,
    pub data: Apdu<D>,
}

impl<D: View> View for LData<D> {
    type V = LData<D::V>;

    open spec fn view(&self) -> LData<D::V> {
        LData {
            frame_type: self.frame_type,
            repetition: self.repetition,
            system_broadcast: self.system_broadcast,
            priority: self.priority,
            acknowledge: self.acknowledge,
            confirmation: self.confirmation,
            destination_address_type: self.destination_address_type,
            hop_count: self.hop_count,
            frame_format: self.frame_format,
            source: self.source,
            destination: self.destination,
            control: self.control,
            numbered: self.numbered,
            seq: self.seq,
            data: self.data@,
        }
    }
}

/// The first control byte: frame type, repetition, broadcast, priority,
/// acknowledge request and confirmation, each in its own bits.
pub open spec fn control1(
    frame_type: FrameType,
    repetition: Repetition,
    system_broadcast: SystemBroadcast,
    priority: Priority,
    acknowledge: Acknowledge,
    confirmation: Confirmation,
) -> u8 {
    frame_type.spec_code() | repetition.spec_code() | system_broadcast.spec_code()
        | priority.spec_code() | acknowledge.spec_code() | confirmation.spec_code()
}

/// The second control byte: destination address type, hop count in three bits,
/// frame format.
pub open spec fn control2(
    destination_address_type: AddressType,
    hop_count: u8,
    frame_format: FrameFormat,
) -> u8 {
    destination_address_type.spec_code() | ((hop_count & 0x7) << 4) | frame_format.spec_code()
}

/// The transport control field: control flag, numbered flag and sequence
/// number in four bits; the two low bits are left to the service code.
pub open spec fn tpci(control: bool, numbered: bool, seq: u8) -> u8 {
    (if control { 0x80u8 } else { 0u8 }) | (if numbered { 0x40u8 } else { 0u8 }) | ((seq & 0xF) << 2)
}

/// Every control byte names a value in each of its fields but the frame
/// format: of the two control bytes of a telegram only the three low bits of
/// the second can hold what no value stands for, the patterns 1, 2 and 3.
pub proof fn lemma_control_fields_known(first: u8, second: u8)
    ensures
        FrameType::spec_from_repr(first & 0x80) is Some,
        Repetition::spec_from_repr(first & 0x20) is Some,
        SystemBroadcast::spec_from_repr(first & 0x10) is Some,
        Priority::spec_from_repr(first & 0x0C) is Some,
        Acknowledge::spec_from_repr(first & 0x02) is Some,
        Confirmation::spec_from_repr(first & 0x01) is Some,
        AddressType::spec_from_repr(second & 0x80) is Some,
        FrameFormat::spec_from_repr(second & 0x07) is None <==> (second & 0x07 == 1 || second
            & 0x07 == 2 || second & 0x07 == 3),
{
    assert({
        &&& (first & 0x80 == 0x00 || first & 0x80 == 0x80)
        &&& (first & 0x20 == 0x00 || first & 0x20 == 0x20)
        &&& (first & 0x10 == 0x00 || first & 0x10 == 0x10)
        &&& (first & 0x0C == 0x00 || first & 0x0C == 0x04 || first & 0x0C == 0x08 || first
            & 0x0C == 0x0C)
        &&& (first & 0x02 == 0x00 || first & 0x02 == 0x02)
        &&& (first & 0x01 == 0x00 || first & 0x01 == 0x01)
        &&& (second & 0x80 == 0x00 || second & 0x80 == 0x80)
        &&& second & 0x07 <= 7
    }) by (bit_vector);
}

impl<P> LData<P> {
    /// The telegram with the fields a client sends by default: standard frame,
    /// not repeated, broadcast, low priority, no acknowledge asked, no error,
    /// to the group address 0, six hops, from the address 0, and a read.
    pub open spec fn initial() -> LData<P> {
        LData {
            frame_type: FrameType::Standard,
            repetition: Repetition::NoRepeat,
            system_broadcast: SystemBroadcast::Broadcast,
            priority: Priority::Low,
            acknowledge: Acknowledge::NoAcknowledge,
            confirmation: Confirmation::NoError,
            destination_address_type: AddressType::Group,
            hop_count: 6,
            frame_format: FrameFormat::Standard,
            source: 0,
            destination: 0,
            control: false,
            numbered: false,
            seq: 0,
            data: Apdu::GroupValueRead,
        }
    }
}

impl<D: DPT + Default> LData<D> {
    /// The length of the telegram: eight bytes of fields and the length that
    /// the application layer states.
    pub open spec fn length_of(v: LData<D::V>) -> nat {
        8 + Apdu::<D>::length_of(v.data)
    }

    /// Whether the telegram has a wire form: its application layer has one and
    /// its length fits a byte.
    pub open spec fn encodable(v: LData<D::V>) -> bool {
        &&& Apdu::<D>::encodable(v.data)
        &&& Self::length_of(v) <= u8::MAX
    }

    /// The bytes of the telegram: two control bytes, source, destination, the
    /// length of the application layer, and the application layer behind the
    /// transport control field.
    pub open spec fn bytes(v: LData<D::V>) -> Seq<u8> {
        seq![
            control1(
                v.frame_type,
                v.repetition,
                v.system_broadcast,
                v.priority,
                v.acknowledge,
                v.confirmation,
            ),
            control2(v.destination_address_type, v.hop_count, v.frame_format),
        ] + be16_bytes(v.source) + be16_bytes(v.destination) + seq![
            Apdu::<D>::length_of(v.data) as u8,
        ] + Apdu::<D>::bytes(v.data, tpci(v.control, v.numbered, v.seq))
    }

    /// What `buf` stands for. A buffer of less than eight bytes, or of less
    /// than eight and the length it states, is `MessageTooShort`; a frame
    /// format that is none is `Unknown`; the application layer is read from
    /// the length byte to the end that the length states.
    pub open spec fn parse(buf: Seq<u8>) -> Result<LData<D::V>, KnxNetIpError> {
        if buf.len() < 8 || buf.len() < 8 + buf[6] {
            Err(KnxNetIpError::MessageTooShort(buf.len() as usize))
        } else {
            match (
                FrameType::spec_from_repr(buf[0] & 0x80),
                Repetition::spec_from_repr(buf[0] & 0x20),
                SystemBroadcast::spec_from_repr(buf[0] & 0x10),
                Priority::spec_from_repr(buf[0] & 0x0C),
                Acknowledge::spec_from_repr(buf[0] & 0x02),
                Confirmation::spec_from_repr(buf[0] & 0x01),
                AddressType::spec_from_repr(buf[1] & 0x80),
                FrameFormat::spec_from_repr(buf[1] & 0x07),
            ) {
                (
                    Some(frame_type),
                    Some(repetition),
                    Some(system_broadcast),
                    Some(priority),
                    Some(acknowledge),
                    Some(confirmation),
                    Some(destination_address_type),
                    Some(frame_format),
                ) => match Apdu::<D>::parse(buf.subrange(6, 8 + buf[6])) {
                    Err(e) => Err(e),
                    Ok(data) => Ok(
                        LData {
                            frame_type,
                            repetition,
                            system_broadcast,
                            priority,
                            acknowledge,
                            confirmation,
                            destination_address_type,
                            hop_count: (buf[1] & 0x70) >> 4,
                            frame_format,
                            source: be16(buf[2], buf[3]),
                            destination: be16(buf[4], buf[5]),
                            control: (buf[7] & 0x80) != 0,
                            numbered: (buf[7] & 0x40) != 0,
                            seq: (buf[7] >> 2) & 0xF,
                            data,
                        },
                    ),
                },
                _ => Err(KnxNetIpError::Unknown),
            }
        }
    }

    /// The length of the telegram.
    pub fn length(&self) -> (n: u8)
        requires
            Self::length_of(self@) <= u8::MAX,
        ensures
            n == Self::length_of(self@),
    {
        8 + self.data.length()
    }

    /// Whether the telegram has a wire form and a length of at most `limit`.
    pub fn encodable_within(&self, limit: u8) -> (ok: bool)
        ensures
            ok == (Self::encodable(self@) && Self::length_of(self@) <= limit),
    {
        limit >= 8 && self.data.encodable_within(limit - 8)
    }

    /// Whether the telegram has a wire form.
    pub fn is_encodable(&self) -> (ok: bool)
        ensures
            ok == Self::encodable(self@),
    {
        self.encodable_within(u8::MAX)
    }

    /// Appends the bytes of the telegram to `buf`.
    pub fn encode(&self, buf: &mut Vec<u8>)
        requires
            Self::encodable(self@),
        ensures
            final(buf)@ == old(buf)@ + Self::bytes(self@),
    {
        buf.push(
            self.frame_type.code() | self.repetition.code() | self.system_broadcast.code()
                | self.priority.code() | self.acknowledge.code() | self.confirmation.code(),
        );
        buf.push(
            self.destination_address_type.code() | ((self.hop_count & 0x7) << 4)
                | self.frame_format.code(),
        );
        push_u16_be(buf, self.source);
        push_u16_be(buf, self.destination);
        buf.push(self.data.length());
        let b7: u8 = (if self.control {
            0x80u8
        } else {
            0u8
        }) | (if self.numbered {
            0x40u8
        } else {
            0u8
        }) | ((self.seq & 0xF) << 2);
        self.data.encode(buf, b7);
        assert(buf@ =~= old(buf)@ + Self::bytes(self@));
    }

    /// Reads a telegram into `self`, which stays as it was where the buffer
    /// does not decode.
    pub fn decode(&mut self, buf: &[u8]) -> (r: Result<(), KnxNetIpError>)
        ensures
            match Self::parse(buf@) {
                Ok(v) => r is Ok && final(self)@ == v,
                Err(e) => r == Err::<(), KnxNetIpError>(e) && *final(self) == *old(self),
            },
    {
        if buf.len() < 8 || buf.len() < 8 + buf[6] as usize {
            return Err(KnxNetIpError::MessageTooShort(buf.len()));
        }
        let fields = (
            FrameType::from_repr(buf[0] & 0x80),
            Repetition::from_repr(buf[0] & 0x20),
            SystemBroadcast::from_repr(buf[0] & 0x10),
            Priority::from_repr(buf[0] & 0x0C),
            Acknowledge::from_repr(buf[0] & 0x02),
            Confirmation::from_repr(buf[0] & 0x01),
            AddressType::from_repr(buf[1] & 0x80),
            FrameFormat::from_repr(buf[1] & 0x07),
        );
        match fields {
            (
                Some(frame_type),
                Some(repetition),
                Some(system_broadcast),
                Some(priority),
                Some(acknowledge),
                Some(confirmation),
                Some(destination_address_type),
                Some(frame_format),
            ) => {
                let data = match Apdu::<D>::decode(&buf[6..8 + buf[6] as usize]) {
                    Ok(a) => a,
                    Err(e) => return Err(e),
                };
                self.frame_type = frame_type;
                self.repetition = repetition;
                self.system_broadcast = system_broadcast;
                self.priority = priority;
                self.acknowledge = acknowledge;
                self.confirmation = confirmation;
                self.destination_address_type = destination_address_type;
                self.hop_count = (buf[1] & 0x70) >> 4;
                self.frame_format = frame_format;
                self.source = read_u16_be(&buf[2..4]);
                self.destination = read_u16_be(&buf[4..6]);
                self.control = (buf[7] & 0x80) != 0;
                self.numbered = (buf[7] & 0x40) != 0;
                self.seq = (buf[7] >> 2) & 0xF;
                self.data = data;
                Ok(())
            },
            _ => Err(KnxNetIpError::Unknown),
        }
    }

    /// Whether the telegram is what its own bytes are read as: it has a wire
    /// form, its hop count and its sequence number are within their bits, and
    /// its value is read back.
    pub open spec fn canonical(v: LData<D::V>) -> bool {
        &&& Self::encodable(v)
        &&& v.hop_count <= 7
        &&& v.seq <= 15
        &&& Apdu::<D>::reads_back(v.data)
    }

    /// A canonical telegram is what its own bytes are read as.
    pub proof fn lemma_round_trip(v: LData<D::V>)
        requires
            Self::canonical(v),
        ensures
            Self::parse(Self::bytes(v)) == Ok::<LData<D::V>, KnxNetIpError>(v),
    {
        let b = Self::bytes(v);
        let t = tpci(v.control, v.numbered, v.seq);
        Self::lemma_bytes_len(v);
        crate::octets::lemma_be16_round_trip(v.source, 0, 0);
        crate::octets::lemma_be16_round_trip(v.destination, 0, 0);
        assert(b[2] == crate::octets::hi_byte(v.source));
        assert(b[3] == crate::octets::lo_byte(v.source));
        assert(b[4] == crate::octets::hi_byte(v.destination));
        assert(b[5] == crate::octets::lo_byte(v.destination));

        let (ft, rep, sb, pr, ack, cf) = (
            v.frame_type.spec_code(),
            v.repetition.spec_code(),
            v.system_broadcast.spec_code(),
            v.priority.spec_code(),
            v.acknowledge.spec_code(),
            v.confirmation.spec_code(),
        );
        let c1 = ft | rep | sb | pr | ack | cf;
        assert(b[0] == c1);
        assert(c1 & 0x80 == ft && c1 & 0x20 == rep && c1 & 0x10 == sb && c1 & 0x0C == pr && c1
            & 0x02 == ack && c1 & 0x01 == cf) by (bit_vector)
            requires
                c1 == ft | rep | sb | pr | ack | cf,
                ft == 0x00 || ft == 0x80,
                rep == 0x00 || rep == 0x20,
                sb == 0x00 || sb == 0x10,
                pr == 0x0C || pr == 0x04 || pr == 0x08 || pr == 0x00,
                ack == 0x00 || ack == 0x02,
                cf == 0x00 || cf == 0x01,
        ;

        let (at, hop, ff) = (
            v.destination_address_type.spec_code(),
            v.hop_count,
            v.frame_format.spec_code(),
        );
        let c2 = at | ((hop & 0x7) << 4) | ff;
        assert(b[1] == c2);
        assert(c2 & 0x80 == at && (c2 & 0x70) >> 4 == hop && c2 & 0x07 == ff) by (bit_vector)
            requires
                c2 == at | ((hop & 0x7) << 4) | ff,
                at == 0x00 || at == 0x80,
                hop <= 7,
                ff == 0x00 || ff == 0x04 || ff == 0x05 || ff == 0x06 || ff == 0x07,
        ;

        let (control, numbered, seq) = (v.control, v.numbered, v.seq);
        assert(t & 0x3 == 0 && ((t | 0) & 0x80 != 0) == control && ((t | 0) & 0x40 != 0)
            == numbered && ((t | 0) >> 2) & 0xF == seq) by (bit_vector)
            requires
                t == (if control {
                    0x80u8
                } else {
                    0u8
                }) | (if numbered {
                    0x40u8
                } else {
                    0u8
                }) | ((seq & 0xF) << 2),
                seq <= 15,
        ;
        Apdu::<D>::lemma_round_trip(v.data, t);
        let code = Apdu::<D>::apci(v.data);
        assert(((code >> 8) & 0x3) as u8 == 0) by (bit_vector)
            requires
                code == 0x00 || code == 0x40 || code == 0x80,
        ;
        assert(b[6] == Apdu::<D>::length_of(v.data) as u8);
        assert(b[7] == t | 0);
        assert(b.subrange(6, 8 + b[6]) =~= seq![Apdu::<D>::length_of(v.data) as u8]
            + Apdu::<D>::bytes(v.data, t));
    }

    /// An encodable telegram takes as many bytes as its length says.
    pub proof fn lemma_bytes_len(v: LData<D::V>)
        requires
            Self::encodable(v),
        ensures
            Self::bytes(v).len() == Self::length_of(v),
    {
        match v.data {
            Apdu::GroupValueResponse(d) => D::lemma_wire_len(d),
            Apdu::GroupValueWrite(d) => D::lemma_wire_len(d),
            _ => {},
        }
    }
}

impl<D: View> Default for LData<D> {
    fn default() -> (l: LData<D>)
        ensures
            l@ == LData::<D::V>::initial(),
    {
        LData {
            frame_type: FrameType::Standard,
            repetition: Repetition::NoRepeat,
            system_broadcast: SystemBroadcast::Broadcast,
            priority: Priority::Low,
            acknowledge: Acknowledge::NoAcknowledge,
            confirmation: Confirmation::NoError,
            destination_address_type: AddressType::Group,
            hop_count: 6,
            frame_format: FrameFormat::Standard,
            source: 0,
            destination: 0,
            control: false,
            numbered: false,
            seq: 0,
            data: Apdu::GroupValueRead,
        }
    }
}

} // verus!
