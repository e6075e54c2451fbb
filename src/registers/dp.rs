//! Debug Port registers, addressed by the two "A" bits of a request.
use vstd::prelude::*;

use super::{field, get_field, same_outside, set_field, Register};

verus! {

/// A Debug Port register.
pub trait DPRegister: Register {
    /// The address bits `[A2, A3]` of the register, as a spec value.
    spec fn spec_a() -> [bool; 2];

    /// The address bits `[A2, A3]` of the register.
    fn a() -> (r: [bool; 2])
        ensures
            r == Self::spec_a(),
    ;
}

/// A Debug Port register that can be read.
pub trait ReadRegister: DPRegister {
    /// The register holding `raw`.
    fn from_raw(raw: u32) -> (r: Self)
        ensures
            r.raw() == raw,
    ;
}

/// A Debug Port register that can be written.
pub trait WriteRegister: DPRegister {
    /// The raw value to write.
    fn to_raw(&self) -> (r: u32)
        ensures
            r == self.raw(),
    ;
}

/// IDCODE: identifies the Debug Port.
#[derive(Copy, Clone, Debug, PartialEq, Eq, PartialOrd, Ord, Hash, Structural)]
pub struct Idcode(pub u32);

/// CTRL/STAT: power-up and reset requests and acknowledgements, sticky flags.
#[derive(Copy, Clone, Debug, Default, PartialEq, Eq, PartialOrd, Ord, Hash, Structural)]
pub struct CtrlStat(pub u32);

/// SELECT: which Access Port, and which of its register banks, AP accesses go to.
#[derive(Copy, Clone, Debug, Default, PartialEq, Eq, PartialOrd, Ord, Hash, Structural)]
pub struct Select(pub u32);

/// RDBUFF: the result of the previous Access Port read.
#[derive(Copy, Clone, Debug, PartialEq, Eq, PartialOrd, Ord, Hash, Structural)]
pub struct RdBuff(pub u32);

impl Register for Idcode {
    open spec fn raw(&self) -> u32 {
        self.0
    }
}

impl DPRegister for Idcode {
    open spec fn spec_a() -> [bool; 2] {
        [false, false]
    }

    fn a() -> (r: [bool; 2]) {
        [false, false]
    }
}

impl ReadRegister for Idcode {
    fn from_raw(raw: u32) -> (r: Self) {
        Idcode(raw)
    }
}

impl Idcode {
    /// VERSION, bits 28..32.
    pub fn version(&self) -> (r: u32)
        ensures
            r == field(self.0, 28, 4),
    {
        get_field(self.0, 28, 4)
    }

    /// PARTNO, bits 12..28.
    pub fn partno(&self) -> (r: u32)
        ensures
            r == field(self.0, 12, 16),
    {
        get_field(self.0, 12, 16)
    }

    /// DESIGNER, bits 1..12.
    pub fn designer(&self) -> (r: u32)
        ensures
            r == field(self.0, 1, 11),
    {
        get_field(self.0, 1, 11)
    }

    /// Bit 0, set on every valid IDCODE.
    pub fn present(&self) -> (r: bool)
        ensures
            r == (field(self.0, 0, 1) == 1),
    {
        get_field(self.0, 0, 1) == 1
    }
}

impl Register for CtrlStat {
    open spec fn raw(&self) -> u32 {
        self.0
    }
}

impl DPRegister for CtrlStat {
    open spec fn spec_a() -> [bool; 2] {
        [true, false]
    }

    fn a() -> (r: [bool; 2]) {
        [true, false]
    }
}

impl ReadRegister for CtrlStat {
    fn from_raw(raw: u32) -> (r: Self) {
        CtrlStat(raw)
    }
}

impl WriteRegister for CtrlStat {
    fn to_raw(&self) -> (r: u32) {
        self.0
    }
}

impl CtrlStat {
    /// CSYSPWRUPACK, bit 31.
    pub fn csyspwrupack(&self) -> (r: bool)
        ensures
            r == (field(self.0, 31, 1) == 1),
    {
        get_field(self.0, 31, 1) == 1
    }

    /// CSYSPWRUPREQ, bit 30.
    pub fn csyspwrupreq(&self) -> (r: bool)
        ensures
            r == (field(self.0, 30, 1) == 1),
    {
        get_field(self.0, 30, 1) == 1
    }

    /// This value with CSYSPWRUPREQ set to `val`.
    pub fn set_csyspwrupreq(self, val: bool) -> (r: Self)
        ensures
            field(r.0, 30, 1) == val as u32,
            same_outside(r.0, self.0, 30, 1),
    {
        CtrlStat(set_field(self.0, 30, 1, val as u32))
    }

    /// CDBGPWRUPACK, bit 29.
    pub fn cdbgpwrupack(&self) -> (r: bool)
        ensures
            r == (field(self.0, 29, 1) == 1),
    {
        get_field(self.0, 29, 1) == 1
    }

    /// CDBGPWRUPREQ, bit 28.
    pub fn cdbgpwrupreq(&self) -> (r: bool)
        ensures
            r == (field(self.0, 28, 1) == 1),
    {
        get_field(self.0, 28, 1) == 1
    }

    /// This value with CDBGPWRUPREQ set to `val`.
    pub fn set_cdbgpwrupreq(self, val: bool) -> (r: Self)
        ensures
            field(r.0, 28, 1) == val as u32,
            same_outside(r.0, self.0, 28, 1),
    {
        CtrlStat(set_field(self.0, 28, 1, val as u32))
    }

    /// CDBGRSTACK, bit 27.
    pub fn cdbgrstack(&self) -> (r: bool)
        ensures
            r == (field(self.0, 27, 1) == 1),
    {
        get_field(self.0, 27, 1) == 1
    }

    /// CDBGRSTREQ, bit 26.
    pub fn cdbgrstreq(&self) -> (r: bool)
        ensures
            r == (field(self.0, 26, 1) == 1),
    {
        get_field(self.0, 26, 1) == 1
    }

    /// This value with CDBGRSTREQ set to `val`.
    pub fn set_cdbgrstreq(self, val: bool) -> (r: Self)
        ensures
            field(r.0, 26, 1) == val as u32,
            same_outside(r.0, self.0, 26, 1),
    {
        CtrlStat(set_field(self.0, 26, 1, val as u32))
    }

    /// STICKYERR, bit 5: an error occurred in an AP transaction.
    pub fn stickyerr(&self) -> (r: bool)
        ensures
            r == (field(self.0, 5, 1) == 1),
    {
        get_field(self.0, 5, 1) == 1
    }

    /// STICKYORUN, bit 1: an overrun was detected.
    pub fn stickyorun(&self) -> (r: bool)
        ensures
            r == (field(self.0, 1, 1) == 1),
    {
        get_field(self.0, 1, 1) == 1
    }
}

impl Register for Select {
    open spec fn raw(&self) -> u32 {
        self.0
    }
}

impl DPRegister for Select {
    open spec fn spec_a() -> [bool; 2] {
        [false, true]
    }

    fn a() -> (r: [bool; 2]) {
        [false, true]
    }
}

impl ReadRegister for Select {
    fn from_raw(raw: u32) -> (r: Self) {
        Select(raw)
    }
}

impl WriteRegister for Select {
    fn to_raw(&self) -> (r: u32) {
        self.0
    }
}

impl Select {
    /// CTRLSEL, bit 0.
    pub fn ctrlsel(&self) -> (r: bool)
        ensures
            r == (field(self.0, 0, 1) == 1),
    {
        get_field(self.0, 0, 1) == 1
    }

    /// This value with CTRLSEL set to `ctrlsel`.
    pub fn set_ctrlsel(self, ctrlsel: bool) -> (r: Self)
        ensures
            field(r.0, 0, 1) == ctrlsel as u32,
            same_outside(r.0, self.0, 0, 1),
    {
        Select(set_field(self.0, 0, 1, ctrlsel as u32))
    }

    /// APBANKSEL, bits 4..8: the bank of the selected AP's registers.
    pub fn apbanksel(&self) -> (r: u8)
        ensures
            r as u32 == field(self.0, 4, 4),
    {
        get_field(self.0, 4, 4) as u8
    }

    /// This value with APBANKSEL set to the low four bits of `bank`.
    pub fn set_apbanksel(self, bank: u8) -> (r: Self)
        ensures
            field(r.0, 4, 4) == (bank as u32) & 0xf,
            same_outside(r.0, self.0, 4, 4),
    {
        Select(set_field(self.0, 4, 4, bank as u32))
    }

    /// APSEL, bits 24..32: the selected Access Port.
    pub fn apsel(&self) -> (r: u8)
        ensures
            r as u32 == field(self.0, 24, 8),
    {
        get_field(self.0, 24, 8) as u8
    }

    /// This value with APSEL set to `ap`.
    pub fn set_apsel(self, ap: u8) -> (r: Self)
        ensures
            field(r.0, 24, 8) == ap as u32,
            same_outside(r.0, self.0, 24, 8),
    {
        Select(set_field(self.0, 24, 8, ap as u32))
    }
}

impl Register for RdBuff {
    open spec fn raw(&self) -> u32 {
        self.0
    }
}

impl DPRegister for RdBuff {
    open spec fn spec_a() -> [bool; 2] {
        [true, true]
    }

    fn a() -> (r: [bool; 2]) {
        [true, true]
    }
}

impl ReadRegister for RdBuff {
    fn from_raw(raw: u32) -> (r: Self) {
        RdBuff(raw)
    }
}

} // verus!
