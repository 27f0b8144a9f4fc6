//! KNX individual and group addresses, packed into 16 bits.
//!
//! An address is a 16-bit value; the split into parts is a way to write it.
//! The individual address `A.L.D` has 4 bits area, 4 bits line and 8 bits
//! device. A group address is written with two levels, `M/S` with 5 bits main
//! and 11 bits sub, or with three, `M/M/S` with 5 bits main, 3 bits middle
//! and 8 bits sub.

use crate::text::{append_decimal, decimal};
use vstd::prelude::*;
use vstd::string::StringExecFns;

verus! {

/// An individual address: the address of one device on the bus.
#[derive(Debug, Copy, Clone, PartialEq, Eq)]
pub struct IndividualAddress {
    addr: u16,
}

impl View for IndividualAddress {
    type V = u16;

    closed spec fn view(&self) -> u16 {
        self.addr
    }
}

impl IndividualAddress {
    /// The 16-bit value of the parts: the low four bits of `area`, the low
    /// four bits of `line`, and `device`.
    pub open spec fn pack(area: u8, line: u8, device: u8) -> u16 {
        ((area as u16) << 12) | (((line & 0xf) as u16) << 8) | (device as u16)
    }

    /// The area of a 16-bit value, its four highest bits.
    pub open spec fn area_of(addr: u16) -> u8 {
        (addr >> 12) as u8
    }

    /// The line of a 16-bit value, the four bits below the area.
    pub open spec fn line_of(addr: u16) -> u8 {
        ((addr >> 8) & 0xf) as u8
    }

    /// The device of a 16-bit value, its low byte.
    pub open spec fn device_of(addr: u16) -> u8 {
        (addr & 0xff) as u8
    }

    /// The text form `A.L.D`, each part in decimal.
    pub open spec fn text_of(addr: u16) -> Seq<char> {
        decimal(Self::area_of(addr) as nat) + seq!['.'] + decimal(Self::line_of(addr) as nat)
            + seq!['.'] + decimal(Self::device_of(addr) as nat)
    }

    /// The address of the given parts.
    pub fn new(area: u8, line: u8, device: u8) -> (a: IndividualAddress)
        ensures
            a@ == Self::pack(area, line, device),
    {
        IndividualAddress {
            addr: ((area as u16) << 12) | (((line & 0xf) as u16) << 8) | (device as u16),
        }
    }

    /// The address with the given 16-bit value.
    pub fn from_u16(addr: u16) -> (a: IndividualAddress)
        ensures
            a@ == addr,
    {
        IndividualAddress { addr }
    }

    /// The 16-bit value of the address.
    pub fn to_u16(&self) -> (addr: u16)
        ensures
            addr == self@,
    {
        self.addr
    }

    /// The area, 0 to 15.
    pub fn area(&self) -> (area: u8)
        ensures
            area == Self::area_of(self@),
            area <= 15,
    {
        let addr = self.addr;
        assert(addr >> 12 <= 15) by (bit_vector);
        (self.addr >> 12) as u8
    }

    /// The line, 0 to 15.
    pub fn line(&self) -> (line: u8)
        ensures
            line == Self::line_of(self@),
            line <= 15,
    {
        let addr = self.addr;
        assert((addr >> 8) & 0xf <= 15) by (bit_vector);
        ((self.addr >> 8) & 0xf) as u8
    }

    /// The device, 0 to 255.
    pub fn device(&self) -> (device: u8)
        ensures
            device == Self::device_of(self@),
    {
        let addr = self.addr;
        assert(addr & 0xff <= 255) by (bit_vector);
        (self.addr & 0xff) as u8
    }

    /// The text form `A.L.D`.
    pub fn to_string(&self) -> (s: String)
        ensures
            s@ == Self::text_of(self@),
    {
        proof {
            reveal_strlit(".");
        }
        let mut s = String::new();
        append_decimal(&mut s, self.area() as u64);
        s.append(".");
        append_decimal(&mut s, self.line() as u64);
        s.append(".");
        append_decimal(&mut s, self.device() as u64);
        assert(s@ =~= Self::text_of(self@));
        s
    }

    /// Packing parts within their ranges and taking the address apart gives
    /// the parts back.
    pub proof fn lemma_parts_round_trip(area: u8, line: u8, device: u8)
        requires
            area <= 15,
            line <= 15,
        ensures
            Self::area_of(Self::pack(area, line, device)) == area,
            Self::line_of(Self::pack(area, line, device)) == line,
            Self::device_of(Self::pack(area, line, device)) == device,
    {
        assert({
            let addr = ((area as u16) << 12) | (((line & 0xf) as u16) << 8) | (device as u16);
            &&& (addr >> 12) as u8 == area
            &&& ((addr >> 8) & 0xf) as u8 == line
            &&& (addr & 0xff) as u8 == device
        }) by (bit_vector)
            requires
                area <= 15,
                line <= 15,
        ;
    }

    /// Taking a value apart and packing the parts gives the value back.
    pub proof fn lemma_value_round_trip(addr: u16)
        ensures
            Self::pack(Self::area_of(addr), Self::line_of(addr), Self::device_of(addr)) == addr,
    {
        assert({
            let area = (addr >> 12) as u8;
            let line = ((addr >> 8) & 0xf) as u8;
            let device = (addr & 0xff) as u8;
            ((area as u16) << 12) | (((line & 0xf) as u16) << 8) | (device as u16) == addr
        }) by (bit_vector);
    }
}

/// A group address in two levels.
#[derive(Debug, Copy, Clone, PartialEq, Eq)]
pub struct GroupAddress2 {
    addr: u16,
}

impl View for GroupAddress2 {
    type V = u16;

    closed spec fn view(&self) -> u16 {
        self.addr
    }
}

impl GroupAddress2 {
    /// The 16-bit value of the parts: the low five bits of `main` and the low
    /// eleven bits of `sub`.
    pub open spec fn pack(main: u8, sub: u16) -> u16 {
        ((main as u16) << 11) | (sub & 0x7FF)
    }

    /// The main group of a 16-bit value, its five highest bits.
    pub open spec fn main_of(addr: u16) -> u8 {
        (addr >> 11) as u8
    }

    /// The sub group of a 16-bit value, its eleven low bits.
    pub open spec fn sub_of(addr: u16) -> u16 {
        addr & 0x7ff
    }

    /// The text form `M/S`, each part in decimal.
    pub open spec fn text_of(addr: u16) -> Seq<char> {
        decimal(Self::main_of(addr) as nat) + seq!['/'] + decimal(Self::sub_of(addr) as nat)
    }

    /// The address of the given parts.
    pub fn new(main: u8, sub: u16) -> (a: GroupAddress2)
        ensures
            a@ == Self::pack(main, sub),
    {
        GroupAddress2 { addr: ((main as u16) << 11) | (sub & 0x7FF) }
    }

    /// The address with the given 16-bit value.
    pub fn from_u16(addr: u16) -> (a: GroupAddress2)
        ensures
            a@ == addr,
    {
        GroupAddress2 { addr }
    }

    /// The 16-bit value of the address.
    pub fn to_u16(&self) -> (addr: u16)
        ensures
            addr == self@,
    {
        self.addr
    }

    /// The main group, 0 to 31.
    pub fn main(&self) -> (main: u8)
        ensures
            main == Self::main_of(self@),
            main <= 31,
    {
        let addr = self.addr;
        assert(addr >> 11 <= 31) by (bit_vector);
        (self.addr >> 11) as u8
    }

    /// The sub group, 0 to 2047.
    pub fn sub(&self) -> (sub: u16)
        ensures
            sub == Self::sub_of(self@),
            sub <= 2047,
    {
        let addr = self.addr;
        assert(addr & 0x7ff <= 2047) by (bit_vector);
        self.addr & 0x7ff
    }

    /// The text form `M/S`.
    pub fn to_string(&self) -> (s: String)
        ensures
            s@ == Self::text_of(self@),
    {
        proof {
            reveal_strlit("/");
        }
        let mut s = String::new();
        append_decimal(&mut s, self.main() as u64);
        s.append("/");
        append_decimal(&mut s, self.sub() as u64);
        assert(s@ =~= Self::text_of(self@));
        s
    }

    /// Packing parts within their ranges and taking the address apart gives
    /// the parts back.
    pub proof fn lemma_parts_round_trip(main: u8, sub: u16)
        requires
            main <= 31,
            sub <= 2047,
        ensures
            Self::main_of(Self::pack(main, sub)) == main,
            Self::sub_of(Self::pack(main, sub)) == sub,
    {
        assert({
            let addr = ((main as u16) << 11) | (sub & 0x7FF);
            &&& (addr >> 11) as u8 == main
            &&& addr & 0x7ff == sub
        }) by (bit_vector)
            requires
                main <= 31,
                sub <= 2047,
        ;
    }

    /// Taking a value apart and packing the parts gives the value back.
    pub proof fn lemma_value_round_trip(addr: u16)
        ensures
            Self::pack(Self::main_of(addr), Self::sub_of(addr)) == addr,
    {
        assert({
            let main = (addr >> 11) as u8;
            let sub = addr & 0x7ff;
            ((main as u16) << 11) | (sub & 0x7FF) == addr
        }) by (bit_vector);
    }
}

/// A group address in three levels.
#[derive(Debug, Copy, Clone, PartialEq, Eq)]
pub struct GroupAddress3 {
    addr: u16,
}

impl View for GroupAddress3 {
    type V = u16;

    closed spec fn view(&self) -> u16 {
        self.addr
    }
}

impl GroupAddress3 {
    /// The 16-bit value of the parts: the low five bits of `main`, `middle`
    /// above the low byte, and `sub`. A `middle` above 7 reaches into the
    /// bits of `main`.
    pub open spec fn pack(main: u8, middle: u8, sub: u8) -> u16 {
        ((main as u16) << 11) | ((middle as u16) << 8) | (sub as u16)
    }

    /// The main group of a 16-bit value, its five highest bits.
    pub open spec fn main_of(addr: u16) -> u8 {
        (addr >> 11) as u8
    }

    /// The middle group of a 16-bit value, the three bits below the main
    /// group.
    pub open spec fn middle_of(addr: u16) -> u8 {
        ((addr >> 8) & 0x7) as u8
    }

    /// The sub group of a 16-bit value, its low byte.
    pub open spec fn sub_of(addr: u16) -> u8 {
        (addr & 0xff) as u8
    }

    /// The text form `M/M/S`, each part in decimal.
    pub open spec fn text_of(addr: u16) -> Seq<char> {
        decimal(Self::main_of(addr) as nat) + seq!['/'] + decimal(Self::middle_of(addr) as nat)
            + seq!['/'] + decimal(Self::sub_of(addr) as nat)
    }

    /// The address of the given parts.
    pub fn new(main: u8, middle: u8, sub: u8) -> (a: GroupAddress3)
        ensures
            a@ == Self::pack(main, middle, sub),
    {
        GroupAddress3 { addr: ((main as u16) << 11) | ((middle as u16) << 8) | (sub as u16) }
    }

    /// The address with the given 16-bit value.
    pub fn from_u16(addr: u16) -> (a: GroupAddress3)
        ensures
            a@ == addr,
    {
        GroupAddress3 { addr }
    }

    /// The 16-bit value of the address.
    pub fn to_u16(&self) -> (addr: u16)
        ensures
            addr == self@,
    {
        self.addr
    }

    /// The main group, 0 to 31.
    pub fn main(&self) -> (main: u8)
        ensures
            main == Self::main_of(self@),
            main <= 31,
    {
        let addr = self.addr;
        assert(addr >> 11 <= 31) by (bit_vector);
        (self.addr >> 11) as u8
    }

    /// The middle group, 0 to 7.
    pub fn middle(&self) -> (middle: u8)
        ensures
            middle == Self::middle_of(self@),
            middle <= 7,
    {
        let addr = self.addr;
        assert((addr >> 8) & 0x7 <= 7) by (bit_vector);
        ((self.addr >> 8) & 0x7) as u8
    }

    /// The sub group, 0 to 255.
    pub fn sub(&self) -> (sub: u8)
        ensures
            sub == Self::sub_of(self@),
    {
        let addr = self.addr;
        assert(addr & 0xff <= 255) by (bit_vector);
        (self.addr & 0xff) as u8
    }

    /// The text form `M/M/S`.
    pub fn to_string(&self) -> (s: String)
        ensures
            s@ == Self::text_of(self@),
    {
        proof {
            reveal_strlit("/");
        }
        let mut s = String::new();
        append_decimal(&mut s, self.main() as u64);
        s.append("/");
        append_decimal(&mut s, self.middle() as u64);
        s.append("/");
        append_decimal(&mut s, self.sub() as u64);
        assert(s@ =~= Self::text_of(self@));
        s
    }

    /// Packing parts within their ranges and taking the address apart gives
    /// the parts back.
    pub proof fn lemma_parts_round_trip(main: u8, middle: u8, sub: u8)
        requires
            main <= 31,
            middle <= 7,
        ensures
            Self::main_of(Self::pack(main, middle, sub)) == main,
            Self::middle_of(Self::pack(main, middle, sub)) == middle,
            Self::sub_of(Self::pack(main, middle, sub)) == sub,
    {
        assert({
            let addr = ((main as u16) << 11) | ((middle as u16) << 8) | (sub as u16);
            &&& (addr >> 11) as u8 == main
            &&& ((addr >> 8) & 0x7) as u8 == middle
            &&& (addr & 0xff) as u8 == sub
        }) by (bit_vector)
            requires
                main <= 31,
                middle <= 7,
        ;
    }

    /// Taking a value apart and packing the parts gives the value back.
    pub proof fn lemma_value_round_trip(addr: u16)
        ensures
            Self::pack(Self::main_of(addr), Self::middle_of(addr), Self::sub_of(addr)) == addr,
    {
        assert({
            let main = (addr >> 11) as u8;
            let middle = ((addr >> 8) & 0x7) as u8;
            let sub = (addr & 0xff) as u8;
            ((main as u16) << 11) | ((middle as u16) << 8) | (sub as u16) == addr
        }) by (bit_vector);
    }
}

} // verus!
