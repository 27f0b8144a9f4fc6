//! Additional information, which a cEMI message may carry before its frame.

use crate::knxnet::KnxNetIpError;
use vstd::prelude::*;

verus! {

/// The kinds of additional information. The codec names them; it neither
/// writes a block of additional information nor reads what one holds.
#[derive(Debug, Copy, Clone, PartialEq, Eq, Structural)]
pub enum InformationType {
    PlMediumInformation,
    RfMediumInformation,
    BusmonitorStatusInfo,
    TimestampRelative,
    TimeDelayUntilSending,
    ExtendedRelativeTimestamp,
    BiBatInformation,
    RfMultiInformation,
    PreambleAndPostamble,
    RfFastAckInformation,
    ManufacturerSpecific,
    Reserved,
}

impl InformationType {
    /// The byte that names the kind.
    pub open spec fn spec_identifier(&self) -> u8 {
        match self {
            InformationType::PlMediumInformation => 0x01,
            InformationType::RfMediumInformation => 0x02,
            InformationType::BusmonitorStatusInfo => 0x03,
            InformationType::TimestampRelative => 0x04,
            InformationType::TimeDelayUntilSending => 0x05,
            InformationType::ExtendedRelativeTimestamp => 0x06,
            InformationType::BiBatInformation => 0x07,
            InformationType::RfMultiInformation => 0x08,
            InformationType::PreambleAndPostamble => 0x09,
            InformationType::RfFastAckInformation => 0x0A,
            InformationType::ManufacturerSpecific => 0xFE,
            InformationType::Reserved => 0xFF,
        }
    }

    /// The kind that a byte names, if any.
    pub open spec fn spec_from_repr(id: u8) -> Option<InformationType> {
        if id == 0x01 {
            Some(InformationType::PlMediumInformation)
        } else if id == 0x02 {
            Some(InformationType::RfMediumInformation)
        } else if id == 0x03 {
            Some(InformationType::BusmonitorStatusInfo)
        } else if id == 0x04 {
            Some(InformationType::TimestampRelative)
        } else if id == 0x05 {
            Some(InformationType::TimeDelayUntilSending)
        } else if id == 0x06 {
            Some(InformationType::ExtendedRelativeTimestamp)
        } else if id == 0x07 {
            Some(InformationType::BiBatInformation)
        } else if id == 0x08 {
            Some(InformationType::RfMultiInformation)
        } else if id == 0x09 {
            Some(InformationType::PreambleAndPostamble)
        } else if id == 0x0A {
            Some(InformationType::RfFastAckInformation)
        } else if id == 0xFE {
            Some(InformationType::ManufacturerSpecific)
        } else if id == 0xFF {
            Some(InformationType::Reserved)
        } else {
            None
        }
    }

    /// What `buf` names: the kind of its first byte, `Unknown` for a byte that
    /// names none, `MessageTooShort` for an empty buffer.
    pub open spec fn parse(buf: Seq<u8>) -> Result<InformationType, KnxNetIpError> {
        if buf.len() < 1 {
            Err(KnxNetIpError::MessageTooShort(0))
        } else {
            match Self::spec_from_repr(buf[0]) {
                None => Err(KnxNetIpError::Unknown),
                Some(info) => Ok(info),
            }
        }
    }

    /// The byte that names the kind.
    #[verifier::when_used_as_spec(spec_identifier)]
    pub fn identifier(&self) -> (id: u8)
        ensures
            id == self.spec_identifier(),
    {
        match self {
            InformationType::PlMediumInformation => 0x01,
            InformationType::RfMediumInformation => 0x02,
            InformationType::BusmonitorStatusInfo => 0x03,
            InformationType::TimestampRelative => 0x04,
            InformationType::TimeDelayUntilSending => 0x05,
            InformationType::ExtendedRelativeTimestamp => 0x06,
            InformationType::BiBatInformation => 0x07,
            InformationType::RfMultiInformation => 0x08,
            InformationType::PreambleAndPostamble => 0x09,
            InformationType::RfFastAckInformation => 0x0A,
            InformationType::ManufacturerSpecific => 0xFE,
            InformationType::Reserved => 0xFF,
        }
    }

    /// The kind that `id` names, or `None`.
    #[verifier::when_used_as_spec(spec_from_repr)]
    pub fn from_repr(id: u8) -> (info: Option<InformationType>)
        ensures
            info == Self::spec_from_repr(id),
    {
        match id {
            0x01 => Some(InformationType::PlMediumInformation),
            0x02 => Some(InformationType::RfMediumInformation),
            0x03 => Some(InformationType::BusmonitorStatusInfo),
            0x04 => Some(InformationType::TimestampRelative),
            0x05 => Some(InformationType::TimeDelayUntilSending),
            0x06 => Some(InformationType::ExtendedRelativeTimestamp),
            0x07 => Some(InformationType::BiBatInformation),
            0x08 => Some(InformationType::RfMultiInformation),
            0x09 => Some(InformationType::PreambleAndPostamble),
            0x0A => Some(InformationType::RfFastAckInformation),
            0xFE => Some(InformationType::ManufacturerSpecific),
            0xFF => Some(InformationType::Reserved),
            _ => None,
        }
    }

    /// The number of bytes that a block of this kind adds to a message that
    /// the codec writes: none.
    pub fn length(&self) -> (n: u8)
        ensures
            n == 0,
    {
        0
    }

    /// Reads the kind of a block from its first byte.
    pub fn decode(buf: &[u8]) -> (r: Result<InformationType, KnxNetIpError>)
        ensures
            r == Self::parse(buf@),
    {
        if buf.len() < 1 {
            return Err(KnxNetIpError::MessageTooShort(0));
        }
        match InformationType::from_repr(buf[0]) {
            None => Err(KnxNetIpError::Unknown),
            Some(info) => Ok(info),
        }
    }
}

} // verus!
