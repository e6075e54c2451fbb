//! MEM-AP registers: a window onto target memory.
use vstd::prelude::*;

use super::super::{field, get_field, same_outside, set_field, Register};
use super::{APRegister, ReadRegister, WriteRegister};

verus! {

/// BASE: the base address of the debug components, and whether there are any.
#[derive(Copy, Clone, Debug, PartialEq, Eq, PartialOrd, Ord, Hash, Structural)]
pub struct Base(pub u32);

impl Register for Base {
    open spec fn raw(&self) -> u32 {
        self.0
    }
}

impl APRegister for Base {
    open spec fn spec_address() -> u8 {
        0xf8
    }

    fn address() -> (r: u8) {
        0xf8
    }
}

impl ReadRegister for Base {
    fn from_raw(raw: u32) -> (r: Self) {
        Base(raw)
    }
}

impl Base {
    /// The base address: the raw value with its low 12 bits cleared.
    pub fn address(&self) -> (r: u32)
        ensures
            r == self.0 & 0xffff_f000,
            r & 0xfff == 0,
            r >> 12u32 == self.0 >> 12u32,
    {
        let r = self.0 & 0xffff_f000;
        let raw = self.0;
        assert(r & 0xfff == 0 && r >> 12u32 == raw >> 12u32) by (bit_vector)
            requires
                r == raw & 0xffff_f000,
        ;
        r
    }

    /// Bit 0: whether debug components are present.
    pub fn present(&self) -> (r: bool)
        ensures
            r == (field(self.0, 0, 1) == 1),
    {
        get_field(self.0, 0, 1) == 1
    }
}

/// CSW: controls and reports the state of memory accesses.
#[derive(Copy, Clone, Debug, Default, PartialEq, Eq, PartialOrd, Ord, Hash, Structural)]
pub struct CSW(pub u32);

impl Register for CSW {
    open spec fn raw(&self) -> u32 {
        self.0
    }
}

impl APRegister for CSW {
    open spec fn spec_address() -> u8 {
        0x00
    }

    fn address() -> (r: u8) {
        0x00
    }
}

impl ReadRegister for CSW {
    fn from_raw(raw: u32) -> (r: Self) {
        CSW(raw)
    }
}

impl WriteRegister for CSW {
    fn to_raw(&self) -> (r: u32) {
        self.0
    }
}

impl CSW {
    /// DbgSwEnable: software access enable, bit 31.
    pub fn dbgswenable(&self) -> (r: bool)
        ensures
            r == (field(self.0, 31, 1) == 1),
    {
        get_field(self.0, 31, 1) == 1
    }

    /// This register with dbgswenable set to `value`.
    pub fn set_dbgswenable(self, value: bool) -> (r: Self)
        ensures
            field(r.0, 31, 1) == value as u32,
            same_outside(r.0, self.0, 31, 1),
    {
        CSW(set_field(self.0, 31, 1, value as u32))
    }

    /// Prot: bus access protection, bits 24..31.
    pub fn prot(&self) -> (r: u8)
        ensures
            r as u32 == field(self.0, 24, 7),
    {
        get_field(self.0, 24, 7) as u8
    }

    /// This register with prot set to the low 7 bits of `value`.
    pub fn set_prot(self, value: u8) -> (r: Self)
        ensures
            field(r.0, 24, 7) == (value as u32) & 0x7f,
            same_outside(r.0, self.0, 24, 7),
    {
        CSW(set_field(self.0, 24, 7, value as u32))
    }

    /// SPIDEN: secure debug enabled, bit 23.
    pub fn spiden(&self) -> (r: bool)
        ensures
            r == (field(self.0, 23, 1) == 1),
    {
        get_field(self.0, 23, 1) == 1
    }

    /// This register with spiden set to `value`.
    pub fn set_spiden(self, value: bool) -> (r: Self)
        ensures
            field(r.0, 23, 1) == value as u32,
            same_outside(r.0, self.0, 23, 1),
    {
        CSW(set_field(self.0, 23, 1, value as u32))
    }

    /// MTE: memory tagging enabled, bit 15.
    pub fn mte(&self) -> (r: bool)
        ensures
            r == (field(self.0, 15, 1) == 1),
    {
        get_field(self.0, 15, 1) == 1
    }

    /// This register with mte set to `value`.
    pub fn set_mte(self, value: bool) -> (r: Self)
        ensures
            field(r.0, 15, 1) == value as u32,
            same_outside(r.0, self.0, 15, 1),
    {
        CSW(set_field(self.0, 15, 1, value as u32))
    }

    /// Type: the kind of bus access, bits 12..15.
    pub fn access_type(&self) -> (r: u32)
        ensures
            r == field(self.0, 12, 3),
    {
        get_field(self.0, 12, 3)
    }

    /// This register with access_type set to the low 3 bits of `value`.
    pub fn set_access_type(self, value: u32) -> (r: Self)
        ensures
            field(r.0, 12, 3) == value & 7,
            same_outside(r.0, self.0, 12, 3),
    {
        CSW(set_field(self.0, 12, 3, value))
    }

    /// Mode: the mode of operation, bits 8..12.
    pub fn mode(&self) -> (r: u32)
        ensures
            r == field(self.0, 8, 4),
    {
        get_field(self.0, 8, 4)
    }

    /// This register with mode set to the low 4 bits of `value`.
    pub fn set_mode(self, value: u32) -> (r: Self)
        ensures
            field(r.0, 8, 4) == value & 0xf,
            same_outside(r.0, self.0, 8, 4),
    {
        CSW(set_field(self.0, 8, 4, value))
    }

    /// TrInProg: a transfer is in progress, bit 7.
    pub fn trinprog(&self) -> (r: bool)
        ensures
            r == (field(self.0, 7, 1) == 1),
    {
        get_field(self.0, 7, 1) == 1
    }

    /// This register with trinprog set to `value`.
    pub fn set_trinprog(self, value: bool) -> (r: Self)
        ensures
            field(r.0, 7, 1) == value as u32,
            same_outside(r.0, self.0, 7, 1),
    {
        CSW(set_field(self.0, 7, 1, value as u32))
    }

    /// DeviceEn: the device is enabled for access, bit 6.
    pub fn deviceen(&self) -> (r: bool)
        ensures
            r == (field(self.0, 6, 1) == 1),
    {
        get_field(self.0, 6, 1) == 1
    }

    /// This register with deviceen set to `value`.
    pub fn set_deviceen(self, value: bool) -> (r: Self)
        ensures
            field(r.0, 6, 1) == value as u32,
            same_outside(r.0, self.0, 6, 1),
    {
        CSW(set_field(self.0, 6, 1, value as u32))
    }

    /// AddrInc: auto-increment of TAR after each access, bits 4..6.
    pub fn addrinc(&self) -> (r: u32)
        ensures
            r == field(self.0, 4, 2),
    {
        get_field(self.0, 4, 2)
    }

    /// This register with addrinc set to the low 2 bits of `value`.
    pub fn set_addrinc(self, value: u32) -> (r: Self)
        ensures
            field(r.0, 4, 2) == value & 3,
            same_outside(r.0, self.0, 4, 2),
    {
        CSW(set_field(self.0, 4, 2, value))
    }

    /// Size: the size of each access, bits 0..3.
    pub fn size(&self) -> (r: u32)
        ensures
            r == field(self.0, 0, 3),
    {
        get_field(self.0, 0, 3)
    }

    /// This register with size set to the low 3 bits of `value`.
    pub fn set_size(self, value: u32) -> (r: Self)
        ensures
            field(r.0, 0, 3) == value & 7,
            same_outside(r.0, self.0, 0, 3),
    {
        CSW(set_field(self.0, 0, 3, value))
    }
}

/// TAR: the target memory address of the next DRW access.
#[derive(Copy, Clone, Debug, Default, PartialEq, Eq, PartialOrd, Ord, Hash, Structural)]
pub struct Tar(pub u32);

impl Register for Tar {
    open spec fn raw(&self) -> u32 {
        self.0
    }
}

impl APRegister for Tar {
    open spec fn spec_address() -> u8 {
        0x04
    }

    fn address() -> (r: u8) {
        0x04
    }
}

impl ReadRegister for Tar {
    fn from_raw(raw: u32) -> (r: Self) {
        Tar(raw)
    }
}

impl WriteRegister for Tar {
    fn to_raw(&self) -> (r: u32) {
        self.0
    }
}

impl Tar {
    /// The target address.
    pub fn address(&self) -> (r: u32)
        ensures
            r == self.0,
    {
        self.0
    }

    /// This register with the target address set to `value`.
    pub fn set_address(self, value: u32) -> (r: Self)
        ensures
            r.0 == value,
    {
        Tar(value)
    }
}

/// DRW: the data of an access to the address in TAR.
#[derive(Copy, Clone, Debug, Default, PartialEq, Eq, PartialOrd, Ord, Hash, Structural)]
pub struct Drw(pub u32);

impl Register for Drw {
    open spec fn raw(&self) -> u32 {
        self.0
    }
}

impl APRegister for Drw {
    open spec fn spec_address() -> u8 {
        0x0c
    }

    fn address() -> (r: u8) {
        0x0c
    }
}

impl ReadRegister for Drw {
    fn from_raw(raw: u32) -> (r: Self) {
        Drw(raw)
    }
}

impl WriteRegister for Drw {
    fn to_raw(&self) -> (r: u32) {
        self.0
    }
}

impl Drw {
    /// The data word.
    pub fn data(&self) -> (r: u32)
        ensures
            r == self.0,
    {
        self.0
    }

    /// This register with the data word set to `value`.
    pub fn set_data(self, value: u32) -> (r: Self)
        ensures
            r.0 == value,
    {
        Drw(value)
    }
}

/// BD0: data of an access to the address in TAR with bits 2 and 3 replaced by 0.
#[derive(Copy, Clone, Debug, Default, PartialEq, Eq, PartialOrd, Ord, Hash, Structural)]
pub struct BD0(pub u32);

impl Register for BD0 {
    open spec fn raw(&self) -> u32 {
        self.0
    }
}

impl APRegister for BD0 {
    open spec fn spec_address() -> u8 {
        0x10
    }

    fn address() -> (r: u8) {
        0x10
    }
}

impl ReadRegister for BD0 {
    fn from_raw(raw: u32) -> (r: Self) {
        BD0(raw)
    }
}

impl WriteRegister for BD0 {
    fn to_raw(&self) -> (r: u32) {
        self.0
    }
}

impl BD0 {
    /// The data word.
    pub fn data(&self) -> (r: u32)
        ensures
            r == self.0,
    {
        self.0
    }

    /// This register with the data word set to `value`.
    pub fn set_data(self, value: u32) -> (r: Self)
        ensures
            r.0 == value,
    {
        BD0(value)
    }
}

/// BD1: data of an access to the address in TAR with bits 2 and 3 replaced by 1.
#[derive(Copy, Clone, Debug, Default, PartialEq, Eq, PartialOrd, Ord, Hash, Structural)]
pub struct BD1(pub u32);

impl Register for BD1 {
    open spec fn raw(&self) -> u32 {
        self.0
    }
}

impl APRegister for BD1 {
    open spec fn spec_address() -> u8 {
        0x14
    }

    fn address() -> (r: u8) {
        0x14
    }
}

impl ReadRegister for BD1 {
    fn from_raw(raw: u32) -> (r: Self) {
        BD1(raw)
    }
}

impl WriteRegister for BD1 {
    fn to_raw(&self) -> (r: u32) {
        self.0
    }
}

impl BD1 {
    /// The data word.
    pub fn data(&self) -> (r: u32)
        ensures
            r == self.0,
    {
        self.0
    }

    /// This register with the data word set to `value`.
    pub fn set_data(self, value: u32) -> (r: Self)
        ensures
            r.0 == value,
    {
        BD1(value)
    }
}

/// BD2: data of an access to the address in TAR with bits 2 and 3 replaced by 2.
#[derive(Copy, Clone, Debug, Default, PartialEq, Eq, PartialOrd, Ord, Hash, Structural)]
pub struct BD2(pub u32);

impl Register for BD2 {
    open spec fn raw(&self) -> u32 {
        self.0
    }
}

impl APRegister for BD2 {
    open spec fn spec_address() -> u8 {
        0x18
    }

    fn address() -> (r: u8) {
        0x18
    }
}

impl ReadRegister for BD2 {
    fn from_raw(raw: u32) -> (r: Self) {
        BD2(raw)
    }
}

impl WriteRegister for BD2 {
    fn to_raw(&self) -> (r: u32) {
        self.0
    }
}

impl BD2 {
    /// The data word.
    pub fn data(&self) -> (r: u32)
        ensures
            r == self.0,
    {
        self.0
    }

    /// This register with the data word set to `value`.
    pub fn set_data(self, value: u32) -> (r: Self)
        ensures
            r.0 == value,
    {
        BD2(value)
    }
}

/// BD3: data of an access to the address in TAR with bits 2 and 3 replaced by 3.
#[derive(Copy, Clone, Debug, Default, PartialEq, Eq, PartialOrd, Ord, Hash, Structural)]
pub struct BD3(pub u32);

impl Register for BD3 {
    open spec fn raw(&self) -> u32 {
        self.0
    }
}

impl APRegister for BD3 {
    open spec fn spec_address() -> u8 {
        0x1c
    }

    fn address() -> (r: u8) {
        0x1c
    }
}

impl ReadRegister for BD3 {
    fn from_raw(raw: u32) -> (r: Self) {
        BD3(raw)
    }
}

impl WriteRegister for BD3 {
    fn to_raw(&self) -> (r: u32) {
        self.0
    }
}

impl BD3 {
    /// The data word.
    pub fn data(&self) -> (r: u32)
        ensures
            r == self.0,
    {
        self.0
    }

    /// This register with the data word set to `value`.
    pub fn set_data(self, value: u32) -> (r: Self)
        ensures
            r.0 == value,
    {
        BD3(value)
    }
}

} // verus!
