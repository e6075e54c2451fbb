use esp_swd_probe::bits::{bits_to_u32, data_phase, parity, u16_to_bits, u32_to_bits};
use esp_swd_probe::memap::MemAp;
use esp_swd_probe::registers::dp::{CtrlStat, Idcode, Select};
use esp_swd_probe::access::{select_for, Access};
use esp_swd_probe::swd::{
    a_to_bits, decode_ack, jtag_to_swd, line_reset, request_bits, reset, swj_sequence, APnDP,
    Ack, InvalidAck, LineOp, Phase, Request, RequestError, RnW, Transaction,
};

/// What a simulated run did on the lines.
#[derive(Debug, PartialEq)]
enum Event {
    Sent(Vec<bool>),
    Received(usize),
    ToTarget,
    ToHost,
}

/// Runs `access` against a target that answers each receive with the next entry of
/// `replies`. Returns the outcome and the events.
fn run(mut access: Access, replies: &[Vec<bool>]) -> (Result<u32, RequestError>, Vec<Event>) {
    let mut events = Vec::new();
    let mut next = 0;
    while let Some(op) = access.op() {
        let input = match op {
            LineOp::SendBits(bits) => {
                events.push(Event::Sent(bits));
                Vec::new()
            }
            LineOp::RecvBits(n) => {
                events.push(Event::Received(n));
                let r = replies[next].clone();
                next += 1;
                assert_eq!(r.len(), n);
                r
            }
            LineOp::TurnaroundTarget => {
                events.push(Event::ToTarget);
                Vec::new()
            }
            LineOp::TurnaroundHost => {
                events.push(Event::ToHost);
                Vec::new()
            }
        };
        access.advance(&input);
    }
    assert_eq!(next, replies.len());
    (access.outcome().unwrap(), events)
}

const OK: [bool; 3] = [true, false, false];
const WAIT: [bool; 3] = [false, true, false];
const FAULT: [bool; 3] = [false, false, true];

fn count_requests(events: &[Event]) -> usize {
    events.iter().filter(|e| matches!(e, Event::Sent(b) if b.len() == 8)).count()
}

#[test]
fn word_round_trips_through_data_phase() {
    for v in [0u32, 1, 0x8000_0000, 0xDEAD_BEEF, 0x1234_5678, u32::MAX] {
        let bits = data_phase(v);
        assert_eq!(bits.len(), 33);
        assert_eq!(bits_to_u32(&bits), v);
        assert_eq!(parity(&bits[..32]), bits[32]);
    }
}

#[test]
fn data_phase_is_lsb_first_with_even_parity() {
    let bits = data_phase(0b1011);
    assert_eq!(&bits[..5], &[true, true, false, true, false]);
    assert!(bits[32]);
    assert!(!data_phase(0b11)[32]);
}

#[test]
fn word_bits_are_truncated_to_length() {
    assert_eq!(u32_to_bits(0b110, 3), vec![false, true, true]);
    assert_eq!(u32_to_bits(0xffff_ffff, 0), Vec::<bool>::new());
    assert_eq!(u16_to_bits(0x8001, 16).len(), 16);
    assert_eq!(u16_to_bits(0x8001, 2), vec![true, false]);
}

#[test]
fn request_packet_layout_and_parity() {
    assert_eq!(
        request_bits(APnDP::DP, RnW::Read, [false, false]),
        vec![true, false, true, false, false, true, false, true]
    );
    assert_eq!(
        request_bits(APnDP::AP, RnW::Write, [true, true]),
        vec![true, true, false, true, true, true, false, true]
    );
    let base = request_bits(APnDP::DP, RnW::Write, [false, false]);
    for flipped in [
        request_bits(APnDP::AP, RnW::Write, [false, false]),
        request_bits(APnDP::DP, RnW::Read, [false, false]),
        request_bits(APnDP::DP, RnW::Write, [true, false]),
        request_bits(APnDP::DP, RnW::Write, [false, true]),
    ] {
        assert_ne!(flipped[5], base[5]);
    }
}

#[test]
fn ack_patterns_decode() {
    assert_eq!(decode_ack(&OK), Ok(Ack::Okay));
    assert_eq!(decode_ack(&WAIT), Ok(Ack::Wait));
    assert_eq!(decode_ack(&FAULT), Ok(Ack::Fault));
    for bits in [
        [false, false, false],
        [true, true, false],
        [true, false, true],
        [false, true, true],
        [true, true, true],
    ] {
        assert_eq!(decode_ack(&bits), Err(InvalidAck));
    }
    let back: [bool; 3] = Ack::Wait.into();
    assert_eq!(back, WAIT);
}

#[test]
fn read_returns_word_and_turns_around() {
    let (outcome, events) = run(
        Access::read_request(APnDP::DP, [false, false]),
        &[OK.to_vec(), data_phase(0x2BA0_1477)],
    );
    assert_eq!(outcome, Ok(0x2BA0_1477));
    assert_eq!(
        events,
        vec![
            Event::Sent(request_bits(APnDP::DP, RnW::Read, [false, false])),
            Event::ToTarget,
            Event::Received(3),
            Event::Received(33),
            Event::ToHost,
        ]
    );
    assert_eq!(Idcode(0x2BA0_1477).designer(), 0x23B);
}

#[test]
fn wait_on_every_attempt_times_out_after_ten() {
    let replies: Vec<Vec<bool>> = (0..10).map(|_| WAIT.to_vec()).collect();
    let (outcome, events) = run(Access::read_request(APnDP::DP, [true, true]), &replies);
    assert_eq!(outcome, Err(RequestError::Timeout));
    assert_eq!(count_requests(&events), 10);
}

#[test]
fn wait_nine_times_then_ok_succeeds() {
    let mut replies: Vec<Vec<bool>> = (0..9).map(|_| WAIT.to_vec()).collect();
    replies.push(OK.to_vec());
    replies.push(data_phase(7));
    let (outcome, events) = run(Access::read_request(APnDP::DP, [true, true]), &replies);
    assert_eq!(outcome, Ok(7));
    assert_eq!(count_requests(&events), 10);
}

#[test]
fn parity_mismatch_fails_after_turnaround() {
    let mut data = data_phase(0x1234_5678);
    data[32] = !data[32];
    let (outcome, events) =
        run(Access::read_request(APnDP::DP, [false, false]), &[OK.to_vec(), data]);
    assert_eq!(outcome, Err(RequestError::ParityError));
    assert_eq!(events.last(), Some(&Event::ToHost));
}

#[test]
fn fault_fails_after_turnaround() {
    let (outcome, events) = run(Access::read_request(APnDP::DP, [true, false]), &[FAULT.to_vec()]);
    assert_eq!(outcome, Err(RequestError::Fault));
    assert_eq!(events.last(), Some(&Event::ToHost));
}

#[test]
fn invalid_ack_on_read_fails_at_once() {
    let (outcome, events) =
        run(Access::read_request(APnDP::DP, [true, false]), &[vec![false, false, false]]);
    assert_eq!(outcome, Err(RequestError::InvalidAck));
    assert_eq!(events.last(), Some(&Event::Received(3)));
}

#[test]
fn invalid_ack_on_write_turns_around() {
    let (outcome, events) = run(
        Access::write_request(APnDP::DP, [true, false], 5),
        &[vec![true, true, true]],
    );
    assert_eq!(outcome, Err(RequestError::InvalidAck));
    assert_eq!(events.last(), Some(&Event::ToHost));
}

#[test]
fn write_sends_data_and_parity_after_turnaround() {
    let (outcome, events) =
        run(Access::write_request(APnDP::DP, [true, false], 0x5000_0000), &[OK.to_vec()]);
    assert_eq!(outcome, Ok(0x5000_0000));
    assert_eq!(
        events,
        vec![
            Event::Sent(request_bits(APnDP::DP, RnW::Write, [true, false])),
            Event::ToTarget,
            Event::Received(3),
            Event::ToHost,
            Event::Sent(data_phase(0x5000_0000)),
        ]
    );
}

#[test]
fn ap_read_writes_select_then_reads_rdbuff() {
    let access = Access::read_ap(3, 0xfc);
    assert_eq!(access.requests.len(), 3);
    assert_eq!(access.requests[0].value, 0x0300_00f0);
    assert_eq!(access.requests[1].apndp, APnDP::AP);
    assert_eq!(access.requests[1].a, [true, true]);
    assert_eq!(access.requests[2].a, [true, true]);
    let (outcome, _) = run(
        access,
        &[OK.to_vec(), OK.to_vec(), data_phase(0), OK.to_vec(), data_phase(0x2477_0011)],
    );
    assert_eq!(outcome, Ok(0x2477_0011));
}

#[test]
fn failed_select_write_aborts_ap_access() {
    let (outcome, events) = run(Access::write_ap(0, 0x04, 1), &[FAULT.to_vec()]);
    assert_eq!(outcome, Err(RequestError::Fault));
    assert_eq!(count_requests(&events), 1);
}

#[test]
fn select_value_routes_to_ap_and_bank() {
    let s = select_for(0x12, 0xf8);
    assert_eq!(s.0, 0x1200_00f0);
    assert_eq!(s.apsel(), 0x12);
    assert_eq!(s.apbanksel(), 0xf);
    assert!(!s.ctrlsel());
    assert_eq!(Select(0).set_apbanksel(0x1f).apbanksel(), 0xf);
}

#[test]
fn memap_read_32_sets_tar_then_reads_drw() {
    let mem = MemAp::memap(1);
    let access = mem.read_32(0xE000_ED00);
    assert_eq!(access.requests.len(), 5);
    assert_eq!(access.requests[1].value, 0xE000_ED00);
    assert_eq!(access.requests[1].a, [true, false]);
    assert_eq!(access.requests[3].a, [true, true]);
    let (outcome, _) = run(
        access,
        &[
            OK.to_vec(),
            OK.to_vec(),
            OK.to_vec(),
            OK.to_vec(),
            data_phase(0),
            OK.to_vec(),
            data_phase(0x410F_C241),
        ],
    );
    assert_eq!(outcome, Ok(0x410F_C241));
}

#[test]
fn memap_write_32_sets_tar_then_drw() {
    let access = MemAp::memap(0).write_32(0x2000_0000, 0xCAFE_F00D);
    assert_eq!(access.requests.len(), 4);
    assert_eq!(access.requests[3].value, 0xCAFE_F00D);
    assert_eq!(access.requests[3].rnw, RnW::Write);
    let base = MemAp::memap(0).base();
    assert_eq!(base.requests[0].value, 0x0000_00f0);
}

#[test]
fn ctrlstat_power_up_requests() {
    let c = CtrlStat::default()
        .set_csyspwrupreq(true)
        .set_cdbgpwrupreq(true)
        .set_cdbgrstreq(true);
    assert_eq!(c.0, 0x5400_0000);
    assert!(c.csyspwrupreq() && c.cdbgpwrupreq() && c.cdbgrstreq());
    assert!(!c.csyspwrupack());
    let c = c.set_cdbgrstreq(false);
    assert_eq!(c.0, 0x5000_0000);
    assert!(CtrlStat(0xA800_0022).cdbgrstack());
    assert!(CtrlStat(0xA800_0022).stickyerr());
    assert!(CtrlStat(0xA800_0022).stickyorun());
}

#[test]
fn link_reset_sequences() {
    let r = line_reset(2);
    assert_eq!(r.len(), 52);
    assert!(r[..50].iter().all(|b| *b));
    assert!(!r[50] && !r[51]);
    let j = jtag_to_swd();
    assert_eq!(u32_to_bits(0xE79E, 16), j);
    let all = reset();
    assert_eq!(all.len(), 50 + 16 + 52);
    assert_eq!(&all[50..66], &j[..]);
}

#[test]
fn swj_sequence_takes_low_bits() {
    assert_eq!(swj_sequence(3, 0b101), vec![true, false, true]);
    assert_eq!(swj_sequence(200, u64::MAX).len(), 64);
    assert_eq!(swj_sequence(0, 7), Vec::<bool>::new());
}

#[test]
fn address_bits_come_from_bits_two_and_three() {
    assert_eq!(a_to_bits(0x00), [false, false]);
    assert_eq!(a_to_bits(0x04), [true, false]);
    assert_eq!(a_to_bits(0x08), [false, true]);
    assert_eq!(a_to_bits(0xfc), [true, true]);
    assert_eq!(a_to_bits(0x03), [false, false]);
}

#[test]
fn transaction_counts_attempts() {
    let mut t = Transaction::new(Request { apndp: APnDP::DP, rnw: RnW::Read, a: [false, false], value: 0 });
    assert_eq!(t.attempts, 0);
    t.advance(&[]);
    assert_eq!(t.attempts, 1);
    assert!(matches!(t.phase, Phase::TurnaroundTarget));
}
