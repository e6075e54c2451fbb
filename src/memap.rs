//! Access to target memory through a MEM-AP: each word goes through TAR and DRW.
use vstd::prelude::*;

use crate::access::{ap_read_requests, ap_write_requests, Access};
use crate::registers::ap::memap::{Base, Drw, Tar};
use crate::registers::ap::{APRegister, ReadRegister, WriteRegister};
use crate::registers::Register;
use crate::swd::{Request, Transaction};

verus! {

/// A MEM-AP, named by its AP number.
#[derive(Copy, Clone, Debug, PartialEq, Eq, Structural)]
pub struct MemAp {
    pub ap: u8,
}

/// The transactions that read the word at `address`: write TAR, then read DRW.
pub open spec fn read_32_requests(ap: u8, address: u32) -> Seq<Request> {
    ap_write_requests(ap, 0x04, address) + ap_read_requests(ap, 0x0c)
}

/// The transactions that write `value` to `address`: write TAR, then DRW.
pub open spec fn write_32_requests(ap: u8, address: u32, value: u32) -> Seq<Request> {
    ap_write_requests(ap, 0x04, address) + ap_write_requests(ap, 0x0c, value)
}

impl MemAp {
    /// The MEM-AP with AP number `ap`.
    pub fn memap(ap: u8) -> (r: MemAp)
        ensures
            r.ap == ap,
    {
        MemAp { ap }
    }

    /// A write of `reg` to its register of this AP.
    pub fn write_register<R: WriteRegister>(&self, reg: &R) -> (r: Access)
        ensures
            r.requests@ == ap_write_requests(self.ap, R::spec_address(), reg.raw()),
            r.index == 0,
            r.current == Transaction::initial(r.requests@[0]),
            r.wf(),
    {
        Access::write_ap_register(self.ap, reg)
    }

    /// A read of register `R` of this AP.
    pub fn read_register<R: ReadRegister>(&self) -> (r: Access)
        ensures
            r.requests@ == ap_read_requests(self.ap, R::spec_address()),
            r.index == 0,
            r.current == Transaction::initial(r.requests@[0]),
            r.wf(),
    {
        Access::read_ap_register::<R>(self.ap)
    }

    /// A read of BASE.
    pub fn base(&self) -> (r: Access)
        ensures
            r.requests@ == ap_read_requests(self.ap, 0xf8),
            r.index == 0,
            r.current == Transaction::initial(r.requests@[0]),
            r.wf(),
    {
        self.read_register::<Base>()
    }

    /// A read of the word at `address`: TAR is set to `address`, then DRW is read.
    pub fn read_32(&self, address: u32) -> (r: Access)
        ensures
            r.requests@ == read_32_requests(self.ap, address),
            r.index == 0,
            r.current == Transaction::initial(r.requests@[0]),
            r.wf(),
    {
        let mut requests = Access::write_ap_register(self.ap, &Tar(address)).requests;
        let mut read = self.read_register::<Drw>().requests;
        requests.append(&mut read);
        Access::new(requests)
    }

    /// A write of `value` to the word at `address`: TAR is set to `address`, then DRW
    /// to `value`.
    pub fn write_32(&self, address: u32, value: u32) -> (r: Access)
        ensures
            r.requests@ == write_32_requests(self.ap, address, value),
            r.index == 0,
            r.current == Transaction::initial(r.requests@[0]),
            r.wf(),
    {
        let mut requests = Access::write_ap_register(self.ap, &Tar(address)).requests;
        let mut write = self.write_register(&Drw(value)).requests;
        requests.append(&mut write);
        Access::new(requests)
    }
}

} // verus!
