//! The SWD transaction engine.
//!
//! One register transaction is a state machine: [`Transaction::op`] names the next
//! thing to do on the two lines, the caller does it and hands what it sampled to
//! [`Transaction::advance`], until the transaction has an outcome. The bit sequences
//! that bring a target into SWD mode are here too.
use vstd::prelude::*;

use crate::bits::{
    bits_to_u32, data_phase, data_phase_bits, lemma_word_round_trip, long_bits, parity,
    parity_of, u64_to_bits, word_from_bits,
};

verus! {

/// Attempts a transaction makes while the target answers Wait.
pub const MAX_ATTEMPTS: u32 = 10;

/// Whether a request goes to the Debug Port or to an Access Port.
#[derive(Copy, Clone, Debug, PartialEq, Eq, PartialOrd, Ord, Hash, Structural)]
pub enum APnDP {
    DP,
    AP,
}

/// Whether a request reads or writes.
#[derive(Copy, Clone, Debug, PartialEq, Eq, PartialOrd, Ord, Hash, Structural)]
pub enum RnW {
    Read,
    Write,
}

/// The target's answer to a request.
#[derive(Copy, Clone, Debug, PartialEq, Eq, PartialOrd, Ord, Hash, Structural)]
pub enum Ack {
    Okay,
    Wait,
    Fault,
}

/// Three acknowledgement bits that are none of the valid patterns.
#[derive(Copy, Clone, Debug, PartialEq, Eq, PartialOrd, Ord, Hash, Structural)]
pub struct InvalidAck;

/// Why a register transaction failed.
#[derive(Copy, Clone, Debug, PartialEq, Eq, PartialOrd, Ord, Hash, Structural)]
pub enum RequestError {
    /// The target answered Wait on every attempt.
    Timeout,
    /// The target answered Fault.
    Fault,
    /// The acknowledgement bits were not a valid pattern.
    InvalidAck,
    /// The data read did not match its parity bit.
    ParityError,
}

/// The request bit of an `APnDP`.
pub open spec fn apndp_bit(v: APnDP) -> bool {
    match v {
        APnDP::DP => false,
        APnDP::AP => true,
    }
}

/// The request bit of a `RnW`.
pub open spec fn rnw_bit(v: RnW) -> bool {
    match v {
        RnW::Read => true,
        RnW::Write => false,
    }
}

/// The acknowledgement that three bits, in the order received, stand for.
pub open spec fn ack_of(bits: [bool; 3]) -> Result<Ack, InvalidAck> {
    if bits[0] && !bits[1] && !bits[2] {
        Ok(Ack::Okay)
    } else if !bits[0] && bits[1] && !bits[2] {
        Ok(Ack::Wait)
    } else if !bits[0] && !bits[1] && bits[2] {
        Ok(Ack::Fault)
    } else {
        Err(InvalidAck)
    }
}

/// The three bits of an acknowledgement, in the order sent.
pub open spec fn ack_bits(ack: Ack) -> [bool; 3] {
    match ack {
        Ack::Okay => [true, false, false],
        Ack::Wait => [false, true, false],
        Ack::Fault => [false, false, true],
    }
}

impl From<APnDP> for bool {
    fn from(val: APnDP) -> (r: bool) {
        match val {
            APnDP::DP => false,
            APnDP::AP => true,
        }
    }
}

impl vstd::std_specs::convert::FromSpecImpl<APnDP> for bool {
    open spec fn obeys_from_spec() -> bool {
        true
    }

    open spec fn from_spec(v: APnDP) -> bool {
        apndp_bit(v)
    }
}

impl From<bool> for APnDP {
    fn from(val: bool) -> (r: APnDP) {
        if val {
            APnDP::AP
        } else {
            APnDP::DP
        }
    }
}

impl vstd::std_specs::convert::FromSpecImpl<bool> for APnDP {
    open spec fn obeys_from_spec() -> bool {
        true
    }

    open spec fn from_spec(v: bool) -> APnDP {
        if v {
            APnDP::AP
        } else {
            APnDP::DP
        }
    }
}

impl From<RnW> for bool {
    fn from(value: RnW) -> (r: bool) {
        match value {
            RnW::Read => true,
            RnW::Write => false,
        }
    }
}

impl vstd::std_specs::convert::FromSpecImpl<RnW> for bool {
    open spec fn obeys_from_spec() -> bool {
        true
    }

    open spec fn from_spec(v: RnW) -> bool {
        rnw_bit(v)
    }
}

impl From<bool> for RnW {
    fn from(value: bool) -> (r: RnW) {
        if value {
            RnW::Read
        } else {
            RnW::Write
        }
    }
}

impl vstd::std_specs::convert::FromSpecImpl<bool> for RnW {
    open spec fn obeys_from_spec() -> bool {
        true
    }

    open spec fn from_spec(v: bool) -> RnW {
        if v {
            RnW::Read
        } else {
            RnW::Write
        }
    }
}

impl TryFrom<[bool; 3]> for Ack {
    type Error = InvalidAck;

    fn try_from(value: [bool; 3]) -> (r: Result<Ack, InvalidAck>) {
        if value[0] && !value[1] && !value[2] {
            Ok(Ack::Okay)
        } else if !value[0] && value[1] && !value[2] {
            Ok(Ack::Wait)
        } else if !value[0] && !value[1] && value[2] {
            Ok(Ack::Fault)
        } else {
            Err(InvalidAck)
        }
    }
}

impl vstd::std_specs::convert::TryFromSpecImpl<[bool; 3]> for Ack {
    open spec fn obeys_try_from_spec() -> bool {
        true
    }

    open spec fn try_from_spec(v: [bool; 3]) -> Result<Ack, InvalidAck> {
        ack_of(v)
    }
}

impl From<Ack> for [bool; 3] {
    fn from(value: Ack) -> (r: [bool; 3]) {
        match value {
            Ack::Okay => [true, false, false],
            Ack::Wait => [false, true, false],
            Ack::Fault => [false, false, true],
        }
    }
}

impl vstd::std_specs::convert::FromSpecImpl<Ack> for [bool; 3] {
    open spec fn obeys_from_spec() -> bool {
        true
    }

    open spec fn from_spec(v: Ack) -> [bool; 3] {
        ack_bits(v)
    }
}

/// The parity bit of a request: the exclusive-or of its APnDP, RnW, A2 and A3 bits.
pub open spec fn request_parity(apndp: bool, rnw: bool, a: [bool; 2]) -> bool {
    apndp ^ rnw ^ a[0] ^ a[1]
}

/// The eight bits of a request packet, in the order sent: start, APnDP, RnW, A2, A3,
/// parity, stop, park.
pub open spec fn request_packet(apndp: bool, rnw: bool, a: [bool; 2]) -> Seq<bool> {
    seq![true, apndp, rnw, a[0], a[1], request_parity(apndp, rnw, a), false, true]
}

/// Changing any one of the four bits that a request's parity covers changes the parity,
/// so a single corrupted bit is detected.
pub proof fn lemma_request_parity_detects_one_flip(apndp: bool, rnw: bool, a0: bool, a1: bool)
    ensures
        request_parity(!apndp, rnw, [a0, a1]) != request_parity(apndp, rnw, [a0, a1]),
        request_parity(apndp, !rnw, [a0, a1]) != request_parity(apndp, rnw, [a0, a1]),
        request_parity(apndp, rnw, [!a0, a1]) != request_parity(apndp, rnw, [a0, a1]),
        request_parity(apndp, rnw, [a0, !a1]) != request_parity(apndp, rnw, [a0, a1]),
{
}

/// The eight bits of the request packet for `apndp`, `rnw` and address bits `a`.
pub fn request_bits(apndp: APnDP, rnw: RnW, a: [bool; 2]) -> (r: Vec<bool>)
    ensures
        r@ == request_packet(apndp_bit(apndp), rnw_bit(rnw), a),
{
    let apndp: bool = apndp.into();
    let rnw: bool = rnw.into();
    let parity = apndp ^ rnw ^ a[0] ^ a[1];
    let r = vec![true, apndp, rnw, a[0], a[1], parity, false, true];
    assert(r@ =~= request_packet(apndp, rnw, a));
    r
}

/// Decodes three acknowledgement bits, in the order received.
pub fn decode_ack(bits: &[bool]) -> (r: Result<Ack, InvalidAck>)
    requires
        bits@.len() == 3,
    ensures
        r == ack_of([bits@[0], bits@[1], bits@[2]]),
{
    Ack::try_from([bits[0], bits[1], bits[2]])
}

/// One SWD register request: where it goes, which way, and the data written.
#[derive(Copy, Clone, Debug)]
pub struct Request {
    pub apndp: APnDP,
    pub rnw: RnW,
    /// Address bits `[A2, A3]`.
    pub a: [bool; 2],
    /// The word written; unused by reads.
    pub value: u32,
}

/// What happens once the data line is back with the host.
#[derive(Copy, Clone, Debug, PartialEq, Eq, Structural)]
pub enum Then {
    /// The target answered Wait: try again, or give up.
    Retry,
    /// The transaction fails with this error.
    Fail(RequestError),
    /// The read succeeded with this word.
    Deliver(u32),
    /// The write goes on with its data phase.
    SendData,
}

/// Where a transaction stands.
#[derive(Copy, Clone, Debug, PartialEq, Eq, Structural)]
pub enum Phase {
    /// The request packet is to be sent.
    Request,
    /// The data line is to be handed to the target.
    TurnaroundTarget,
    /// The three acknowledgement bits are to be received.
    Ack,
    /// 32 data bits and their parity are to be received.
    ReadData,
    /// The data line is to be taken back by the host.
    TurnaroundHost(Then),
    /// 32 data bits and their parity are to be sent.
    WriteData,
    /// Done: the word read, or the word written.
    Finished(u32),
    /// Done, with this error.
    Failed(RequestError),
}

/// One thing to do on the lines.
#[derive(Debug, PartialEq, Eq)]
pub enum LineOp {
    /// Drive these bits onto the data line, one per clock, in order.
    SendBits(Vec<bool>),
    /// Clock this many times, sampling the data line each time.
    RecvBits(usize),
    /// Release the data line to the target, then clock once.
    TurnaroundTarget,
    /// Clock once, then drive the data line again.
    TurnaroundHost,
}

/// A line operation as a spec value.
pub enum LineStep {
    Send(Seq<bool>),
    Recv(nat),
    ToTarget,
    ToHost,
}

impl View for LineOp {
    type V = LineStep;

    open spec fn view(&self) -> LineStep {
        match self {
            LineOp::SendBits(b) => LineStep::Send(b@),
            LineOp::RecvBits(n) => LineStep::Recv(*n as nat),
            LineOp::TurnaroundTarget => LineStep::ToTarget,
            LineOp::TurnaroundHost => LineStep::ToHost,
        }
    }
}

/// A register transaction in progress.
#[derive(Copy, Clone, Debug)]
pub struct Transaction {
    pub request: Request,
    /// Request packets sent so far.
    pub attempts: u32,
    pub phase: Phase,
}

impl Transaction {
    /// A transaction for `request` that has not started.
    pub open spec fn initial(request: Request) -> Transaction {
        Transaction { request, attempts: 0, phase: Phase::Request }
    }

    /// Whether the transaction has an outcome.
    pub open spec fn is_done(self) -> bool {
        self.phase is Finished || self.phase is Failed
    }

    /// The outcome of a finished transaction.
    pub open spec fn outcome_of(self) -> Option<Result<u32, RequestError>> {
        match self.phase {
            Phase::Finished(v) => Some(Ok(v)),
            Phase::Failed(e) => Some(Err(e)),
            _ => None,
        }
    }

    /// Whether the transaction's counter is in range.
    pub open spec fn wf(self) -> bool {
        &&& self.attempts <= MAX_ATTEMPTS
        &&& self.phase is Request ==> self.attempts < MAX_ATTEMPTS
    }

    /// The next operation on the lines, or none once done.
    pub open spec fn next_step(self) -> Option<LineStep> {
        match self.phase {
            Phase::Request => Some(
                LineStep::Send(
                    request_packet(apndp_bit(self.request.apndp), rnw_bit(self.request.rnw), self.request.a),
                ),
            ),
            Phase::TurnaroundTarget => Some(LineStep::ToTarget),
            Phase::Ack => Some(LineStep::Recv(3)),
            Phase::ReadData => Some(LineStep::Recv(33)),
            Phase::TurnaroundHost(_) => Some(LineStep::ToHost),
            Phase::WriteData => Some(LineStep::Send(data_phase_bits(self.request.value))),
            _ => None,
        }
    }

    /// How many bits the next operation samples.
    pub open spec fn sampled_len(self) -> nat {
        match self.phase {
            Phase::Ack => 3,
            Phase::ReadData => 33,
            _ => 0,
        }
    }

    /// The transaction after its next operation, with `input` the bits that operation
    /// sampled.
    pub open spec fn step(self, input: Seq<bool>) -> Transaction {
        match self.phase {
            Phase::Request => Transaction {
                attempts: (self.attempts + 1) as u32,
                phase: Phase::TurnaroundTarget,
                ..self
            },
            Phase::TurnaroundTarget => Transaction { phase: Phase::Ack, ..self },
            Phase::Ack => {
                let next = match ack_of([input[0], input[1], input[2]]) {
                    Ok(Ack::Okay) => if self.request.rnw == RnW::Read {
                        Phase::ReadData
                    } else {
                        Phase::TurnaroundHost(Then::SendData)
                    },
                    Ok(Ack::Wait) => Phase::TurnaroundHost(Then::Retry),
                    Ok(Ack::Fault) => Phase::TurnaroundHost(Then::Fail(RequestError::Fault)),
                    Err(_) => if self.request.rnw == RnW::Read {
                        Phase::Failed(RequestError::InvalidAck)
                    } else {
                        Phase::TurnaroundHost(Then::Fail(RequestError::InvalidAck))
                    },
                };
                Transaction { phase: next, ..self }
            },
            Phase::ReadData => {
                let next = if parity_of(input.take(32)) == input[32] {
                    Then::Deliver(word_from_bits(input))
                } else {
                    Then::Fail(RequestError::ParityError)
                };
                Transaction { phase: Phase::TurnaroundHost(next), ..self }
            },
            Phase::TurnaroundHost(then) => {
                let next = match then {
                    Then::Retry => if self.attempts >= MAX_ATTEMPTS {
                        Phase::Failed(RequestError::Timeout)
                    } else {
                        Phase::Request
                    },
                    Then::Fail(e) => Phase::Failed(e),
                    Then::Deliver(v) => Phase::Finished(v),
                    Then::SendData => Phase::WriteData,
                };
                Transaction { phase: next, ..self }
            },
            Phase::WriteData => Transaction { phase: Phase::Finished(self.request.value), ..self },
            _ => self,
        }
    }

    /// Starts a transaction for `request`.
    pub fn new(request: Request) -> (r: Transaction)
        ensures
            r == Transaction::initial(request),
            r.wf(),
    {
        Transaction { request, attempts: 0, phase: Phase::Request }
    }

    /// The next operation on the lines, or `None` once the transaction has an outcome.
    pub fn op(&self) -> (r: Option<LineOp>)
        ensures
            r is None <==> self.is_done(),
            r is Some ==> Some(r->0@) == self.next_step(),
    {
        match self.phase {
            Phase::Request => Some(
                LineOp::SendBits(request_bits(self.request.apndp, self.request.rnw, self.request.a)),
            ),
            Phase::TurnaroundTarget => Some(LineOp::TurnaroundTarget),
            Phase::Ack => Some(LineOp::RecvBits(3)),
            Phase::ReadData => Some(LineOp::RecvBits(33)),
            Phase::TurnaroundHost(_) => Some(LineOp::TurnaroundHost),
            Phase::WriteData => Some(LineOp::SendBits(data_phase(self.request.value))),
            _ => None,
        }
    }

    /// Moves past the operation that [`Transaction::op`] named; `input` holds the bits
    /// that it sampled, in order (none for operations that sample nothing).
    pub fn advance(&mut self, input: &[bool])
        requires
            old(self).wf(),
            !old(self).is_done(),
            input@.len() == old(self).sampled_len(),
        ensures
            *final(self) == old(self).step(input@),
            final(self).wf(),
    {
        match self.phase {
            Phase::Request => {
                self.attempts = self.attempts + 1;
                self.phase = Phase::TurnaroundTarget;
            },
            Phase::TurnaroundTarget => {
                self.phase = Phase::Ack;
            },
            Phase::Ack => {
                self.phase = match decode_ack(input) {
                    Ok(Ack::Okay) => if self.request.rnw == RnW::Read {
                        Phase::ReadData
                    } else {
                        Phase::TurnaroundHost(Then::SendData)
                    },
                    Ok(Ack::Wait) => Phase::TurnaroundHost(Then::Retry),
                    Ok(Ack::Fault) => Phase::TurnaroundHost(Then::Fail(RequestError::Fault)),
                    Err(_) => if self.request.rnw == RnW::Read {
                        Phase::Failed(RequestError::InvalidAck)
                    } else {
                        Phase::TurnaroundHost(Then::Fail(RequestError::InvalidAck))
                    },
                };
            },
            Phase::ReadData => {
                let p = parity(&input[0..32]);
                assert(input@.subrange(0, 32) == input@.take(32));
                let then = if p == input[32] {
                    Then::Deliver(bits_to_u32(input))
                } else {
                    Then::Fail(RequestError::ParityError)
                };
                self.phase = Phase::TurnaroundHost(then);
            },
            Phase::TurnaroundHost(then) => {
                self.phase = match then {
                    Then::Retry => if self.attempts >= MAX_ATTEMPTS {
                        Phase::Failed(RequestError::Timeout)
                    } else {
                        Phase::Request
                    },
                    Then::Fail(e) => Phase::Failed(e),
                    Then::Deliver(v) => Phase::Finished(v),
                    Then::SendData => Phase::WriteData,
                };
            },
            Phase::WriteData => {
                self.phase = Phase::Finished(self.request.value);
            },
            _ => {},
        }
    }

    /// The outcome, once the transaction has one.
    pub fn outcome(&self) -> (r: Option<Result<u32, RequestError>>)
        ensures
            r == self.outcome_of(),
    {
        match self.phase {
            Phase::Finished(v) => Some(Ok(v)),
            Phase::Failed(e) => Some(Err(e)),
            _ => None,
        }
    }
}

/// The three valid acknowledgement patterns decode to Ok, Wait and Fault, and every
/// other pattern of three bits is invalid.
pub proof fn lemma_ack_patterns(b0: bool, b1: bool, b2: bool)
    ensures
        ack_of([b0, b1, b2]) == Ok::<Ack, InvalidAck>(Ack::Okay) <==> (b0 && !b1 && !b2),
        ack_of([b0, b1, b2]) == Ok::<Ack, InvalidAck>(Ack::Wait) <==> (!b0 && b1 && !b2),
        ack_of([b0, b1, b2]) == Ok::<Ack, InvalidAck>(Ack::Fault) <==> (!b0 && !b1 && b2),
        ack_of([b0, b1, b2]) is Err <==> !((b0 && !b1 && !b2) || (!b0 && b1 && !b2) || (!b0
            && !b1 && b2)),
        forall|ack: Ack| ack_of(#[trigger] ack_bits(ack)) == Ok::<Ack, InvalidAck>(ack),
{
    assert forall|ack: Ack| ack_of(#[trigger] ack_bits(ack)) == Ok::<Ack, InvalidAck>(ack) by {
        match ack {
            Ack::Okay => {},
            Ack::Wait => {},
            Ack::Fault => {},
        }
    }
}

/// The transaction after one attempt that the target answers with Wait: the request,
/// the turnaround to the target, the acknowledgement, the turnaround to the host.
pub open spec fn after_wait(t: Transaction) -> Transaction {
    t.step(seq![]).step(seq![]).step(seq![false, true, false]).step(seq![])
}

/// The transaction after `k` attempts that the target answers with Wait.
pub open spec fn after_waits(t: Transaction, k: nat) -> Transaction
    decreases k,
{
    if k == 0 {
        t
    } else {
        after_wait(after_waits(t, (k - 1) as nat))
    }
}

proof fn lemma_waits_before_limit(request: Request, k: nat)
    requires
        k < MAX_ATTEMPTS,
    ensures
        after_waits(Transaction::initial(request), k) == (Transaction {
            request,
            attempts: k as u32,
            phase: Phase::Request,
        }),
    decreases k,
{
    if k > 0 {
        lemma_waits_before_limit(request, (k - 1) as nat);
        lemma_ack_patterns(false, true, false);
    }
}

/// A transaction that the target answers with Wait on every attempt is still retrying
/// after each of its first nine attempts, and fails with Timeout after the tenth.
pub proof fn lemma_wait_every_attempt_times_out(request: Request)
    ensures
        forall|k: nat|
            k < MAX_ATTEMPTS ==> (#[trigger] after_waits(Transaction::initial(request), k)).phase
                == Phase::Request,
        after_waits(Transaction::initial(request), 9).phase == Phase::Request,
        after_waits(Transaction::initial(request), 10).phase == Phase::Failed(RequestError::Timeout),
        after_waits(Transaction::initial(request), 10).attempts == 10,
{
    assert forall|k: nat| k < MAX_ATTEMPTS implies (#[trigger] after_waits(
        Transaction::initial(request),
        k,
    )).phase == Phase::Request by {
        lemma_waits_before_limit(request, k);
    }
    lemma_waits_before_limit(request, 9);
    lemma_ack_patterns(false, true, false);
}

/// A read whose 32 data bits do not match the parity bit after them turns the data
/// line around to the host, then fails with ParityError.
pub proof fn lemma_parity_mismatch_fails_after_turnaround(t: Transaction, input: Seq<bool>)
    requires
        t.phase == Phase::ReadData,
        input.len() == 33,
        parity_of(input.take(32)) != input[32],
    ensures
        t.step(input).next_step() == Some(LineStep::ToHost),
        t.step(input).step(seq![]).phase == Phase::Failed(RequestError::ParityError),
{
}

/// A read whose data phase carries `v` with its parity bit turns the data line around
/// to the host, then finishes with `v`.
pub proof fn lemma_read_delivers_word(t: Transaction, v: u32)
    requires
        t.phase == Phase::ReadData,
    ensures
        t.step(data_phase_bits(v)).next_step() == Some(LineStep::ToHost),
        t.step(data_phase_bits(v)).step(seq![]).phase == Phase::Finished(v),
{
    lemma_word_round_trip(v);
}

/// The bits of a line reset: 50 ones, as many as a line reset needs, then
/// `low_clocks` zeros.
pub open spec fn line_reset_seq(low_clocks: nat) -> Seq<bool> {
    Seq::new(50, |i: int| true) + Seq::new(low_clocks, |i: int| false)
}

/// The 16-bit sequence, sent bit 0 first, that switches a target's debug interface
/// from JTAG to SWD: `0111 1001 1110 0111`.
pub open spec fn jtag_to_swd_seq() -> Seq<bool> {
    seq![
        false, true, true, true, true, false, false, true,
        true, true, true, false, false, true, true, true,
    ]
}

/// The bits that bring a target into SWD mode: a line reset, the JTAG-to-SWD
/// sequence, then a line reset with two idle clocks.
pub open spec fn reset_seq() -> Seq<bool> {
    line_reset_seq(0) + jtag_to_swd_seq() + line_reset_seq(2)
}

/// The bits of a line reset followed by `low_clocks` zeros.
pub fn line_reset(low_clocks: usize) -> (r: Vec<bool>)
    requires
        low_clocks <= usize::MAX - 50,
    ensures
        r@ == line_reset_seq(low_clocks as nat),
{
    let mut r: Vec<bool> = Vec::new();
    let mut i: usize = 0;
    while i < 50 + low_clocks
        invariant
            i <= 50 + low_clocks,
            low_clocks <= usize::MAX - 50,
            r@ == line_reset_seq(low_clocks as nat).take(i as int),
        decreases 50 + low_clocks - i,
    {
        r.push(i < 50);
        i = i + 1;
        assert(r@ =~= line_reset_seq(low_clocks as nat).take(i as int));
    }
    assert(r@ =~= line_reset_seq(low_clocks as nat));
    r
}

/// The JTAG-to-SWD switching sequence.
pub fn jtag_to_swd() -> (r: Vec<bool>)
    ensures
        r@ == jtag_to_swd_seq(),
{
    let r = vec![
        false, true, true, true, true, false, false, true,
        true, true, true, false, false, true, true, true,
    ];
    assert(r@ =~= jtag_to_swd_seq());
    r
}

/// The whole sequence that brings a target into SWD mode, in the order the SWD
/// specification requires.
pub fn reset() -> (r: Vec<bool>)
    ensures
        r@ == reset_seq(),
{
    let mut r = line_reset(0);
    let mut j = jtag_to_swd();
    let mut tail = line_reset(2);
    r.append(&mut j);
    r.append(&mut tail);
    r
}

/// The bits of an SWJ sequence of `bit_len` bits taken from `bits`, bit 0 first;
/// at most the 64 bits that `bits` holds.
pub fn swj_sequence(bit_len: u8, bits: u64) -> (r: Vec<bool>)
    ensures
        r@ == long_bits(bits).take(if bit_len <= 64 { bit_len as int } else { 64 }),
{
    let n: usize = if bit_len <= 64 { bit_len as usize } else { 64 };
    u64_to_bits(bits, n)
}

/// The address bits `[A2, A3]` that bits 2 and 3 of a register address select.
pub open spec fn address_bits(a: u8) -> [bool; 2] {
    [a & 0x04 == 0x04, a & 0x08 == 0x08]
}

/// The address bits `[A2, A3]` of register address `a`: bits 2 and 3.
pub fn a_to_bits(a: u8) -> (r: [bool; 2])
    ensures
        r == address_bits(a),
{
    [a & 0x04 == 0x04, a & 0x08 == 0x08]
}

} // verus!
