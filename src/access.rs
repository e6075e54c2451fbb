//! Runs of register transactions. A DP register access is one transaction; an AP
//! register access writes SELECT first. An access ends at its first failed transaction.
use vstd::prelude::*;

use crate::registers::{ap, dp, Register};
use crate::swd::{
    a_to_bits, address_bits, APnDP, LineOp, Phase, Request, RequestError, RnW, Transaction,
};

verus! {

/// The SELECT word that routes AP accesses to register address `addr` of AP `ap`:
/// APSEL is `ap`, APBANKSEL is the high four bits of `addr`, every other bit is clear.
pub open spec fn select_word(ap: u8, addr: u8) -> u32 {
    ((ap as u32) << 24u32) | (((addr >> 4u8) as u32) << 4u32)
}

/// The SELECT value for an access to register address `addr` of AP `ap`.
pub fn select_for(ap: u8, addr: u8) -> (r: dp::Select)
    ensures
        r.0 == select_word(ap, addr),
{
    let s0 = dp::Select(0);
    let s1 = s0.set_apsel(ap);
    let bank = addr >> 4;
    let s2 = s1.set_apbanksel(bank);
    let (r1, r2) = (s1.0, s2.0);
    assert(r2 == ((ap as u32) << 24u32) | (((addr >> 4u8) as u32) << 4u32)) by (bit_vector)
        requires
            ((r1 >> 24u32) & (0xffff_ffffu32 >> 24u32)) == ap as u32,
            r1 & !((0xffff_ffffu32 >> 24u32) << 24u32) == 0u32 & !((0xffff_ffffu32 >> 24u32)
                << 24u32),
            ((r2 >> 4u32) & (0xffff_ffffu32 >> 28u32)) == (bank as u32) & 0xf,
            r2 & !((0xffff_ffffu32 >> 28u32) << 4u32) == r1 & !((0xffff_ffffu32 >> 28u32)
                << 4u32),
            bank == addr >> 4u8,
    ;
    s2
}

/// A read of the register at address bits `a`.
pub open spec fn read_of(apndp: APnDP, a: [bool; 2]) -> Request {
    Request { apndp, rnw: RnW::Read, a, value: 0 }
}

/// A write of `value` to the register at address bits `a`.
pub open spec fn write_of(apndp: APnDP, a: [bool; 2], value: u32) -> Request {
    Request { apndp, rnw: RnW::Write, a, value }
}

/// The transactions of a read of AP register `addr` of AP `ap`: write SELECT, post
/// the AP read, collect its result from RDBUFF.
pub open spec fn ap_read_requests(ap: u8, addr: u8) -> Seq<Request> {
    seq![
        write_of(APnDP::DP, [false, true], select_word(ap, addr)),
        read_of(APnDP::AP, address_bits(addr)),
        read_of(APnDP::DP, [true, true]),
    ]
}

/// The transactions of a write of `value` to AP register `addr` of AP `ap`: write
/// SELECT, then the AP register.
pub open spec fn ap_write_requests(ap: u8, addr: u8, value: u32) -> Seq<Request> {
    seq![
        write_of(APnDP::DP, [false, true], select_word(ap, addr)),
        write_of(APnDP::AP, address_bits(addr), value),
    ]
}

/// A run of register transactions, one after another, that ends at the first failure.
/// Its outcome is that failure, or else the outcome of its last transaction.
pub struct Access {
    /// The transactions, in order.
    pub requests: Vec<Request>,
    /// The position of the transaction in progress.
    pub index: usize,
    /// The transaction in progress.
    pub current: Transaction,
}

impl Access {
    /// Whether the access is consistent: `current` runs the request at `index`.
    pub open spec fn wf(&self) -> bool {
        &&& self.index < self.requests@.len()
        &&& self.current.request == self.requests@[self.index as int]
        &&& self.current.wf()
        &&& self.current.phase is Finished ==> self.index == self.requests@.len() - 1
    }

    /// Whether the access has an outcome.
    pub open spec fn is_done(&self) -> bool {
        self.current.is_done()
    }

    /// The outcome of the access once it is done.
    pub open spec fn outcome_of(&self) -> Option<Result<u32, RequestError>> {
        self.current.outcome_of()
    }

    /// The position and transaction after the next operation, with `input` the bits
    /// that it sampled: a transaction that finishes hands over to the next one.
    pub open spec fn step(&self, input: Seq<bool>) -> (usize, Transaction) {
        let t = self.current.step(input);
        if t.phase is Finished && self.index + 1 < self.requests@.len() {
            ((self.index + 1) as usize, Transaction::initial(self.requests@[self.index + 1]))
        } else {
            (self.index, t)
        }
    }

    /// An access running `requests` in order.
    pub fn new(requests: Vec<Request>) -> (r: Access)
        requires
            requests@.len() >= 1,
        ensures
            r.requests@ == requests@,
            r.index == 0,
            r.current == Transaction::initial(requests@[0]),
            r.wf(),
    {
        let first = requests[0];
        Access { requests, index: 0, current: Transaction::new(first) }
    }

    /// A read of the register at address bits `a` of the DP or of the selected AP.
    pub fn read_request(apndp: APnDP, a: [bool; 2]) -> (r: Access)
        ensures
            r.requests@ == seq![read_of(apndp, a)],
            r.index == 0,
            r.current == Transaction::initial(read_of(apndp, a)),
            r.wf(),
    {
        let r = Access::new(vec![Request { apndp, rnw: RnW::Read, a, value: 0 }]);
        assert(r.requests@ =~= seq![read_of(apndp, a)]);
        r
    }

    /// A write of `value` to the register at address bits `a` of the DP or of the
    /// selected AP.
    pub fn write_request(apndp: APnDP, a: [bool; 2], value: u32) -> (r: Access)
        ensures
            r.requests@ == seq![write_of(apndp, a, value)],
            r.index == 0,
            r.current == Transaction::initial(write_of(apndp, a, value)),
            r.wf(),
    {
        let r = Access::new(vec![Request { apndp, rnw: RnW::Write, a, value }]);
        assert(r.requests@ =~= seq![write_of(apndp, a, value)]);
        r
    }

    /// A read of DP register `R`.
    pub fn read_dp_register<R: dp::ReadRegister>() -> (r: Access)
        ensures
            r.requests@ == seq![read_of(APnDP::DP, R::spec_a())],
            r.index == 0,
            r.current == Transaction::initial(r.requests@[0]),
            r.wf(),
    {
        Access::read_request(APnDP::DP, R::a())
    }

    /// A write of `reg` to its DP register.
    pub fn write_dp_register<R: dp::WriteRegister>(reg: &R) -> (r: Access)
        ensures
            r.requests@ == seq![write_of(APnDP::DP, R::spec_a(), reg.raw())],
            r.index == 0,
            r.current == Transaction::initial(r.requests@[0]),
            r.wf(),
    {
        Access::write_request(APnDP::DP, R::a(), reg.to_raw())
    }

    /// A read of AP register `addr` of AP `ap`: SELECT is written first, and the
    /// result comes from RDBUFF.
    pub fn read_ap(ap: u8, addr: u8) -> (r: Access)
        ensures
            r.requests@ == ap_read_requests(ap, addr),
            r.index == 0,
            r.current == Transaction::initial(r.requests@[0]),
            r.wf(),
    {
        let select = select_for(ap, addr);
        let requests = vec![
            Request { apndp: APnDP::DP, rnw: RnW::Write, a: [false, true], value: select.0 },
            Request { apndp: APnDP::AP, rnw: RnW::Read, a: a_to_bits(addr), value: 0 },
            Request { apndp: APnDP::DP, rnw: RnW::Read, a: [true, true], value: 0 },
        ];
        let r = Access::new(requests);
        assert(r.requests@ =~= ap_read_requests(ap, addr));
        r
    }

    /// A write of `value` to AP register `addr` of AP `ap`, after writing SELECT.
    pub fn write_ap(ap: u8, addr: u8, value: u32) -> (r: Access)
        ensures
            r.requests@ == ap_write_requests(ap, addr, value),
            r.index == 0,
            r.current == Transaction::initial(r.requests@[0]),
            r.wf(),
    {
        let select = select_for(ap, addr);
        let requests = vec![
            Request { apndp: APnDP::DP, rnw: RnW::Write, a: [false, true], value: select.0 },
            Request { apndp: APnDP::AP, rnw: RnW::Write, a: a_to_bits(addr), value },
        ];
        let r = Access::new(requests);
        assert(r.requests@ =~= ap_write_requests(ap, addr, value));
        r
    }

    /// A read of AP register `R` of AP `ap`.
    pub fn read_ap_register<R: ap::ReadRegister>(ap: u8) -> (r: Access)
        ensures
            r.requests@ == ap_read_requests(ap, R::spec_address()),
            r.index == 0,
            r.current == Transaction::initial(r.requests@[0]),
            r.wf(),
    {
        Access::read_ap(ap, R::address())
    }

    /// A write of `reg` to its register of AP `ap`.
    pub fn write_ap_register<R: ap::WriteRegister>(ap: u8, reg: &R) -> (r: Access)
        ensures
            r.requests@ == ap_write_requests(ap, R::spec_address(), reg.raw()),
            r.index == 0,
            r.current == Transaction::initial(r.requests@[0]),
            r.wf(),
    {
        Access::write_ap(ap, R::address(), reg.to_raw())
    }

    /// The next operation on the lines, or `None` once the access has an outcome.
    pub fn op(&self) -> (r: Option<LineOp>)
        ensures
            r is None <==> self.is_done(),
            r is Some ==> Some(r->0@) == self.current.next_step(),
    {
        self.current.op()
    }

    /// How many bits the next operation samples.
    pub fn sampled_len(&self) -> (r: usize)
        ensures
            r == self.current.sampled_len(),
    {
        match self.current.phase {
            Phase::Ack => 3,
            Phase::ReadData => 33,
            _ => 0,
        }
    }

    /// Moves past the operation that [`Access::op`] named; `input` holds the bits that
    /// it sampled, in order.
    pub fn advance(&mut self, input: &[bool])
        requires
            old(self).wf(),
            !old(self).is_done(),
            input@.len() == old(self).current.sampled_len(),
        ensures
            final(self).requests@ == old(self).requests@,
            (final(self).index, final(self).current) == old(self).step(input@),
            final(self).wf(),
    {
        self.current.advance(input);
        if let Phase::Finished(_) = self.current.phase {
            if self.requests.len() - self.index > 1 {
                self.index = self.index + 1;
                self.current = Transaction::new(self.requests[self.index]);
            }
        }
    }

    /// The outcome, once the access has one.
    pub fn outcome(&self) -> (r: Option<Result<u32, RequestError>>)
        ensures
            r == self.outcome_of(),
    {
        self.current.outcome()
    }
}

/// A transaction of an access that fails ends the access with its error: no later
/// transaction is started. In particular a failed SELECT write aborts the AP access.
pub proof fn lemma_failure_ends_access(acc: Access, input: Seq<bool>)
    requires
        acc.wf(),
        acc.current.step(input).phase is Failed,
    ensures
        acc.step(input).0 == acc.index,
        acc.step(input).1.outcome_of() == Some(
            Err::<u32, RequestError>(acc.current.step(input).phase->Failed_0),
        ),
{
}

/// When the last transaction of an access finishes, the access finishes with its word.
pub proof fn lemma_last_transaction_gives_outcome(acc: Access, input: Seq<bool>)
    requires
        acc.wf(),
        acc.index == acc.requests@.len() - 1,
        acc.current.step(input).phase is Finished,
    ensures
        acc.step(input).1.outcome_of() == Some(
            Ok::<u32, RequestError>(acc.current.step(input).phase->Finished_0),
        ),
{
}

} // verus!
