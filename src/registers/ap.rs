//! Access Port registers, addressed by an 8-bit register address: the high four bits
//! pick a bank through SELECT, bits 2 and 3 pick a register in the bank.
use vstd::prelude::*;

use super::{field, get_field, Register};

pub mod memap;

verus! {

/// An Access Port register.
pub trait APRegister: Register {
    /// The register's 8-bit address, as a spec value.
    spec fn spec_address() -> u8;

    /// The register's 8-bit address.
    fn address() -> (r: u8)
        ensures
            r == Self::spec_address(),
    ;
}

/// An Access Port register that can be read.
pub trait ReadRegister: APRegister {
    /// The register holding `raw`.
    fn from_raw(raw: u32) -> (r: Self)
        ensures
            r.raw() == raw,
    ;
}

/// An Access Port register that can be written.
pub trait WriteRegister: APRegister {
    /// The raw value to write.
    fn to_raw(&self) -> (r: u32)
        ensures
            r == self.raw(),
    ;
}

/// The TYPE field of IDR.
#[derive(Copy, Clone, Debug, PartialEq, Eq, PartialOrd, Ord, Hash, Structural)]
pub enum APType {
    Jtag,
    AHB,
    APB,
    Unknown(u8),
}

/// The CLASS field of IDR.
#[derive(Copy, Clone, Debug, PartialEq, Eq, PartialOrd, Ord, Hash, Structural)]
pub enum APClass {
    NoClass,
    ComAP,
    MemAp,
    Unknown(u8),
}

/// The AP type that a TYPE field value stands for.
pub open spec fn ap_type_of(value: u8) -> APType {
    match value {
        0 => APType::Jtag,
        1 => APType::AHB,
        2 => APType::APB,
        x => APType::Unknown(x),
    }
}

/// The AP class that a CLASS field value stands for.
pub open spec fn ap_class_of(value: u8) -> APClass {
    match value {
        0b0000 => APClass::NoClass,
        0b0001 => APClass::ComAP,
        0b1000 => APClass::MemAp,
        x => APClass::Unknown(x),
    }
}

impl From<u8> for APType {
    fn from(value: u8) -> (r: Self) {
        match value {
            0 => APType::Jtag,
            1 => APType::AHB,
            2 => APType::APB,
            x => APType::Unknown(x),
        }
    }
}

impl vstd::std_specs::convert::FromSpecImpl<u8> for APType {
    open spec fn obeys_from_spec() -> bool {
        true
    }

    open spec fn from_spec(v: u8) -> APType {
        ap_type_of(v)
    }
}

impl From<u8> for APClass {
    fn from(value: u8) -> (r: Self) {
        match value {
            0b0000 => APClass::NoClass,
            0b0001 => APClass::ComAP,
            0b1000 => APClass::MemAp,
            x => APClass::Unknown(x),
        }
    }
}

impl vstd::std_specs::convert::FromSpecImpl<u8> for APClass {
    open spec fn obeys_from_spec() -> bool {
        true
    }

    open spec fn from_spec(v: u8) -> APClass {
        ap_class_of(v)
    }
}

/// IDR: identifies the Access Port.
#[derive(Copy, Clone, Debug, PartialEq, Eq, PartialOrd, Ord, Hash, Structural)]
pub struct Idr(pub u32);

impl Register for Idr {
    open spec fn raw(&self) -> u32 {
        self.0
    }
}

impl APRegister for Idr {
    open spec fn spec_address() -> u8 {
        0xfc
    }

    fn address() -> (r: u8) {
        0xfc
    }
}

impl ReadRegister for Idr {
    fn from_raw(raw: u32) -> (r: Self) {
        Idr(raw)
    }
}

impl Idr {
    /// The class that the CLASS field, bits 13..17, stands for.
    pub open spec fn class_of(&self) -> APClass {
        ap_class_of(field(self.0, 13, 4) as u8)
    }

    /// The type that the TYPE field, bits 0..4, stands for.
    pub open spec fn type_of(&self) -> APType {
        ap_type_of(field(self.0, 0, 4) as u8)
    }

    /// TYPE, bits 0..4.
    pub fn ap_type(&self) -> (r: APType)
        ensures
            r == self.type_of(),
    {
        APType::from(get_field(self.0, 0, 4) as u8)
    }

    /// VARIANT, bits 4..8.
    pub fn variant(&self) -> (r: u8)
        ensures
            r as u32 == field(self.0, 4, 4),
    {
        get_field(self.0, 4, 4) as u8
    }

    /// CLASS, bits 13..17.
    pub fn class(&self) -> (r: APClass)
        ensures
            r == self.class_of(),
    {
        APClass::from(get_field(self.0, 13, 4) as u8)
    }

    /// REVISION, bits 28..32.
    pub fn revision(&self) -> (r: u8)
        ensures
            r as u32 == field(self.0, 28, 4),
    {
        get_field(self.0, 28, 4) as u8
    }

    /// DESIGNER, bits 17..28.
    pub fn designer(&self) -> (r: u32)
        ensures
            r == field(self.0, 17, 11),
    {
        get_field(self.0, 17, 11)
    }

    /// Whether the AP is a MEM-AP: its CLASS field holds the MEM-AP class, `0b1000`.
    pub fn is_mem_ap(&self) -> (r: bool)
        ensures
            r == (self.class_of() == APClass::MemAp),
            r == (field(self.0, 13, 4) == 0b1000),
    {
        get_field(self.0, 13, 4) == 0b1000
    }

    /// Whether the AP is a JTAG connection: type JTAG, no class, and a non-zero variant.
    pub fn is_jtag_connection(&self) -> (r: bool)
        ensures
            r == (self.type_of() == APType::Jtag && self.class_of() == APClass::NoClass && field(
                self.0,
                4,
                4,
            ) != 0),
    {
        self.ap_type() == APType::Jtag && self.class() == APClass::NoClass && self.variant() != 0
    }
}

} // verus!
