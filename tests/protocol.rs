use esp_swd_probe::bits::data_phase;
use esp_swd_probe::command::{
    frame, Command, CommandError, Dispatch, ProtocolError, Reply, ReplyKind, Session,
};
use esp_swd_probe::access::Access;
use esp_swd_probe::swd::{LineOp, RequestError};

/// Runs `access` against a target that acknowledges every request with Ok and
/// answers reads with `word`.
fn run_ok(mut access: Access, word: u32) -> Result<u32, RequestError> {
    while let Some(op) = access.op() {
        let input = match op {
            LineOp::RecvBits(3) => vec![true, false, false],
            LineOp::RecvBits(_) => data_phase(word),
            _ => Vec::new(),
        };
        access.advance(&input);
    }
    access.outcome().unwrap()
}

#[test]
fn decodes_read_dp() {
    assert_eq!(Command::decode(&[0x00, 0x04]), Ok(Command::ReadDp(4)));
}

#[test]
fn decodes_write_dp_big_endian() {
    assert_eq!(
        Command::decode(&[0x01, 0x00, 0x00, 0x00, 0x00, 0x2A]),
        Ok(Command::WriteDp(0, 42))
    );
    assert_eq!(
        Command::decode(&[0x03, 0x0c, 0xDE, 0xAD, 0xBE, 0xEF]),
        Ok(Command::WriteAp(0x0c, 0xDEAD_BEEF))
    );
}

#[test]
fn decodes_read_ap_and_swj() {
    assert_eq!(Command::decode(&[0x02, 0xfc]), Ok(Command::ReadAp(0xfc)));
    assert_eq!(
        Command::decode(&[0x04, 16, 0, 0, 0, 0, 0, 0, 0xE7, 0x9E]),
        Ok(Command::SwjSequence(16, 0xE79E))
    );
    assert_eq!(
        Command::try_from(&[0x04u8, 64, 1, 2, 3, 4, 5, 6, 7, 8][..]),
        Ok(Command::SwjSequence(64, 0x0102_0304_0506_0708))
    );
}

#[test]
fn opcode_alone_is_too_short() {
    assert_eq!(Command::decode(&[0x01]), Err(CommandError::TooShort));
    assert_eq!(Command::decode(&[0x00]), Err(CommandError::TooShort));
    assert_eq!(Command::decode(&[0x01, 0, 0, 0, 0]), Err(CommandError::TooShort));
    assert_eq!(Command::decode(&[0x04, 8, 0, 0, 0, 0, 0, 0, 0]), Err(CommandError::TooShort));
}

#[test]
fn empty_payload_is_empty_command() {
    assert_eq!(Command::decode(&[]), Err(CommandError::EmptyCommand));
}

#[test]
fn unknown_opcode_is_rejected() {
    assert_eq!(Command::decode(&[0xFF]), Err(CommandError::UnknownCommand));
    assert_eq!(Command::decode(&[0x05, 0, 0]), Err(CommandError::UnknownCommand));
    let e: ProtocolError = CommandError::UnknownCommand.into();
    assert_eq!(e, ProtocolError::CommandError(CommandError::UnknownCommand));
}

#[test]
fn read_dp_end_to_end_reply_frame() {
    let frame_in = [0x02u8, 0x00, 0x00];
    let len = frame_in[0] as usize;
    let cmd = Command::decode(&frame_in[1..1 + len]).unwrap();
    assert_eq!(cmd, Command::ReadDp(0));
    let mut session = Session::new();
    match session.dispatch(&cmd) {
        Dispatch::Transfer(_, kind) => assert_eq!(kind, ReplyKind::Read),
        Dispatch::Sequence(_) => panic!("a read is a transfer"),
    }
    let reply = session.finish(&cmd, Ok(0xDEAD_BEEF));
    assert_eq!(reply, vec![0x05, 0x00, 0xDE, 0xAD, 0xBE, 0xEF]);
}

#[test]
fn read_dp_end_to_end_through_the_engine() {
    let cmd = Command::decode(&[0x00, 0x00]).unwrap();
    let mut session = Session::new();
    let outcome = match session.dispatch(&cmd) {
        Dispatch::Transfer(access, _) => run_ok(access, 0xDEAD_BEEF),
        Dispatch::Sequence(_) => panic!("a read is a transfer"),
    };
    assert_eq!(session.finish(&cmd, outcome), vec![0x05, 0x00, 0xDE, 0xAD, 0xBE, 0xEF]);
}

#[test]
fn write_replies_and_error_codes() {
    let mut session = Session::new();
    let cmd = Command::WriteDp(0x04, 0x5000_0000);
    assert_eq!(session.finish(&cmd, Ok(0x5000_0000)), vec![0x01, 0x00]);
    assert_eq!(session.finish(&cmd, Err(RequestError::Timeout)), vec![0x01, 0x01]);
    assert_eq!(session.finish(&cmd, Err(RequestError::Fault)), vec![0x01, 0x02]);
    let read = Command::ReadAp(0xfc);
    assert_eq!(session.finish(&read, Err(RequestError::InvalidAck)), vec![0x01, 0x03]);
    assert_eq!(session.finish(&read, Err(RequestError::ParityError)), vec![0x01, 0x04]);
}

#[test]
fn error_codes_are_distinct_and_non_zero() {
    let codes: Vec<u8> = [
        RequestError::Timeout,
        RequestError::Fault,
        RequestError::InvalidAck,
        RequestError::ParityError,
    ]
    .iter()
    .map(|e| u8::from(*e))
    .collect();
    assert_eq!(codes, vec![1, 2, 3, 4]);
}

#[test]
fn reply_payloads() {
    assert_eq!(Reply::Read(Ok(0x0102_0304)).to_bytes(), vec![0, 1, 2, 3, 4]);
    assert_eq!(Reply::Write(Ok(())).to_bytes(), vec![0]);
    assert_eq!(Reply::Write(Err(RequestError::Fault)).to_bytes(), vec![2]);
}

#[test]
fn framing_limits_length() {
    assert_eq!(frame(&[7, 8]), Ok(vec![2, 7, 8]));
    assert_eq!(frame(&[]), Ok(vec![0]));
    assert_eq!(frame(&[1u8; 255]).unwrap().len(), 256);
    assert_eq!(frame(&[1u8; 256]), Err(ProtocolError::ReplyTooBig));
}

#[test]
fn session_follows_select_writes() {
    let mut session = Session::new();
    assert_eq!(session.ap, 0);
    session.finish(&Command::WriteDp(0x08, 0x0200_00f0), Err(RequestError::Fault));
    assert_eq!(session.ap, 0);
    session.finish(&Command::WriteDp(0x08, 0x0200_00f0), Ok(0x0200_00f0));
    assert_eq!(session.ap, 2);
    session.finish(&Command::WriteDp(0x04, 0x0500_0000), Ok(0x0500_0000));
    assert_eq!(session.ap, 2);
    match session.dispatch(&Command::ReadAp(0x0c)) {
        Dispatch::Transfer(access, kind) => {
            assert_eq!(kind, ReplyKind::Read);
            assert_eq!(access.requests[0].value, 0x0200_0000);
        }
        Dispatch::Sequence(_) => panic!("an AP read is a transfer"),
    }
}

#[test]
fn swj_command_replies_success() {
    let mut session = Session::new();
    let cmd = Command::SwjSequence(4, 0b1010);
    match session.dispatch(&cmd) {
        Dispatch::Sequence(bits) => assert_eq!(bits, vec![false, true, false, true]),
        Dispatch::Transfer(..) => panic!("an SWJ sequence is no transfer"),
    }
    assert_eq!(session.finish(&cmd, Ok(0)), vec![0x01, 0x00]);
}
