//! The remote command protocol: length-prefixed frames carrying one command each,
//! answered by one reply each.
use vstd::prelude::*;

use crate::access::{ap_read_requests, ap_write_requests, read_of, write_of, Access};
use crate::bits::long_bits;
use crate::swd::{a_to_bits, address_bits, swj_sequence, APnDP, RequestError, Transaction};

verus! {

/// A command from the remote client.
#[derive(Copy, Clone, Debug, PartialEq, Eq, Structural)]
pub enum Command {
    /// Read the DP register at this address.
    ReadDp(u8),
    /// Write a word to the DP register at this address.
    WriteDp(u8, u32),
    /// Read the register at this address of the session's AP.
    ReadAp(u8),
    /// Write a word to the register at this address of the session's AP.
    WriteAp(u8, u32),
    /// Clock out this many bits of this word, bit 0 first.
    SwjSequence(u8, u64),
}

/// Why a payload is not a command.
#[derive(Copy, Clone, Debug, PartialEq, Eq, Structural)]
pub enum CommandError {
    EmptyCommand,
    UnknownCommand,
    TooShort,
}

/// Why a connection ends.
#[derive(Copy, Clone, Debug, PartialEq, Eq, Structural)]
pub enum ProtocolError {
    CommandError(CommandError),
    ReplyTooBig,
    EOF,
}

/// The word that four bytes hold, most significant first.
pub open spec fn be_u32(b: Seq<u8>) -> u32 {
    (b[0] as int * 0x100_0000 + b[1] as int * 0x1_0000 + b[2] as int * 0x100 + b[3] as int) as u32
}

/// The word that eight bytes hold, most significant first.
pub open spec fn be_u64(b: Seq<u8>) -> u64 {
    (b[0] as int * 0x100_0000_0000_0000 + b[1] as int * 0x1_0000_0000_0000 + b[2] as int
        * 0x100_0000_0000 + b[3] as int * 0x1_0000_0000 + b[4] as int * 0x100_0000 + b[5] as int
        * 0x1_0000 + b[6] as int * 0x100 + b[7] as int) as u64
}

/// The four bytes of `v`, most significant first.
pub open spec fn be_bytes(v: u32) -> Seq<u8> {
    seq![
        (v / 0x100_0000) as u8,
        (v / 0x1_0000 % 0x100) as u8,
        (v / 0x100 % 0x100) as u8,
        (v % 0x100) as u8,
    ]
}

/// The command that a frame's payload holds: an opcode, then its fixed operands.
/// Bytes after the operands are ignored.
pub open spec fn command_of(data: Seq<u8>) -> Result<Command, CommandError> {
    if data.len() == 0 {
        Err(CommandError::EmptyCommand)
    } else if data[0] > 4 {
        Err(CommandError::UnknownCommand)
    } else if data.len() < operand_len(data[0]) + 1 {
        Err(CommandError::TooShort)
    } else if data[0] == 0 {
        Ok(Command::ReadDp(data[1]))
    } else if data[0] == 1 {
        Ok(Command::WriteDp(data[1], be_u32(data.subrange(2, 6))))
    } else if data[0] == 2 {
        Ok(Command::ReadAp(data[1]))
    } else if data[0] == 3 {
        Ok(Command::WriteAp(data[1], be_u32(data.subrange(2, 6))))
    } else {
        Ok(Command::SwjSequence(data[1], be_u64(data.subrange(2, 10))))
    }
}

/// How many operand bytes follow a known opcode.
pub open spec fn operand_len(opcode: u8) -> int {
    if opcode == 0 || opcode == 2 {
        1
    } else if opcode == 1 || opcode == 3 {
        5
    } else {
        9
    }
}

fn read_be_u32(b: &[u8], at: usize) -> (r: u32)
    requires
        at + 4 <= b@.len(),
    ensures
        r == be_u32(b@.subrange(at as int, at + 4)),
{
    (b[at] as u32) * 0x100_0000 + (b[at + 1] as u32) * 0x1_0000 + (b[at + 2] as u32) * 0x100 + (
    b[at + 3] as u32)
}

fn read_be_u64(b: &[u8], at: usize) -> (r: u64)
    requires
        at + 8 <= b@.len(),
    ensures
        r == be_u64(b@.subrange(at as int, at + 8)),
{
    (b[at] as u64) * 0x100_0000_0000_0000 + (b[at + 1] as u64) * 0x1_0000_0000_0000 + (b[at
        + 2] as u64) * 0x100_0000_0000 + (b[at + 3] as u64) * 0x1_0000_0000 + (b[at + 4] as u64)
        * 0x100_0000 + (b[at + 5] as u64) * 0x1_0000 + (b[at + 6] as u64) * 0x100 + (b[at
        + 7] as u64)
}

impl Command {
    /// Decodes a frame's payload.
    pub fn decode(data: &[u8]) -> (r: Result<Command, CommandError>)
        ensures
            r == command_of(data@),
    {
        if data.len() == 0 {
            return Err(CommandError::EmptyCommand);
        }
        let cmd = data[0];
        let rest = data.len() - 1;
        match cmd {
            0x00 => {
                if rest < 1 {
                    return Err(CommandError::TooShort);
                }
                Ok(Command::ReadDp(data[1]))
            },
            0x01 => {
                if rest < 5 {
                    return Err(CommandError::TooShort);
                }
                Ok(Command::WriteDp(data[1], read_be_u32(data, 2)))
            },
            0x02 => {
                if rest < 1 {
                    return Err(CommandError::TooShort);
                }
                Ok(Command::ReadAp(data[1]))
            },
            0x03 => {
                if rest < 5 {
                    return Err(CommandError::TooShort);
                }
                Ok(Command::WriteAp(data[1], read_be_u32(data, 2)))
            },
            0x04 => {
                if rest < 9 {
                    return Err(CommandError::TooShort);
                }
                Ok(Command::SwjSequence(data[1], read_be_u64(data, 2)))
            },
            _ => Err(CommandError::UnknownCommand),
        }
    }
}

impl<'a> TryFrom<&'a [u8]> for Command {
    type Error = CommandError;

    fn try_from(data: &'a [u8]) -> (r: Result<Command, CommandError>) {
        Command::decode(data)
    }
}

impl<'a> vstd::std_specs::convert::TryFromSpecImpl<&'a [u8]> for Command {
    open spec fn obeys_try_from_spec() -> bool {
        true
    }

    open spec fn try_from_spec(v: &'a [u8]) -> Result<Command, CommandError> {
        command_of(v@)
    }
}

impl From<CommandError> for ProtocolError {
    fn from(value: CommandError) -> (r: ProtocolError) {
        ProtocolError::CommandError(value)
    }
}

impl vstd::std_specs::convert::FromSpecImpl<CommandError> for ProtocolError {
    open spec fn obeys_from_spec() -> bool {
        true
    }

    open spec fn from_spec(v: CommandError) -> ProtocolError {
        ProtocolError::CommandError(v)
    }
}

/// The status byte that reports a failed transaction: 1 Timeout, 2 Fault,
/// 3 InvalidAck, 4 ParityError. A successful one is reported as 0.
pub open spec fn error_code(e: RequestError) -> u8 {
    match e {
        RequestError::Timeout => 1,
        RequestError::Fault => 2,
        RequestError::InvalidAck => 3,
        RequestError::ParityError => 4,
    }
}

impl From<RequestError> for u8 {
    fn from(value: RequestError) -> (r: u8) {
        match value {
            RequestError::Timeout => 1,
            RequestError::Fault => 2,
            RequestError::InvalidAck => 3,
            RequestError::ParityError => 4,
        }
    }
}

impl vstd::std_specs::convert::FromSpecImpl<RequestError> for u8 {
    open spec fn obeys_from_spec() -> bool {
        true
    }

    open spec fn from_spec(v: RequestError) -> u8 {
        error_code(v)
    }
}

/// Each kind of transaction error has its own status byte, and none is the success
/// status 0.
pub proof fn lemma_error_codes_distinct(a: RequestError, b: RequestError)
    ensures
        error_code(a) != 0,
        error_code(a) == error_code(b) <==> a == b,
{
}

/// The answer to one command.
#[derive(Copy, Clone, Debug)]
pub enum Reply {
    /// The outcome of a read: the word, or why it failed.
    Read(Result<u32, RequestError>),
    /// The outcome of a write.
    Write(Result<(), RequestError>),
}

/// The payload of a reply: status 0 and, for a read, the word most significant byte
/// first; or the single status byte of the error.
pub open spec fn reply_bytes(reply: Reply) -> Seq<u8> {
    match reply {
        Reply::Read(Ok(v)) => seq![0u8] + be_bytes(v),
        Reply::Read(Err(e)) => seq![error_code(e)],
        Reply::Write(Ok(())) => seq![0u8],
        Reply::Write(Err(e)) => seq![error_code(e)],
    }
}

impl Reply {
    /// The payload that carries this reply.
    pub fn to_bytes(&self) -> (r: Vec<u8>)
        ensures
            r@ == reply_bytes(*self),
    {
        let mut msg: Vec<u8> = Vec::new();
        match self {
            Reply::Read(Ok(value)) => {
                let v = *value;
                msg.push(0x00);
                msg.push((v / 0x100_0000) as u8);
                msg.push((v / 0x1_0000 % 0x100) as u8);
                msg.push((v / 0x100 % 0x100) as u8);
                msg.push((v % 0x100) as u8);
                assert(msg@ =~= seq![0u8] + be_bytes(v));
            },
            Reply::Read(Err(err)) => {
                msg.push(u8::from(*err));
            },
            Reply::Write(Ok(())) => {
                msg.push(0x00);
            },
            Reply::Write(Err(err)) => {
                msg.push(u8::from(*err));
            },
        }
        assert(msg@ =~= reply_bytes(*self));
        msg
    }
}

/// `msg` framed for the wire: its length in one byte, then its bytes.
pub open spec fn frame_of(msg: Seq<u8>) -> Result<Seq<u8>, ProtocolError> {
    if msg.len() > 255 {
        Err(ProtocolError::ReplyTooBig)
    } else {
        Ok(seq![msg.len() as u8] + msg)
    }
}

/// Frames `msg`; a message longer than 255 bytes cannot be framed.
pub fn frame(msg: &[u8]) -> (r: Result<Vec<u8>, ProtocolError>)
    ensures
        r is Ok <==> frame_of(msg@) is Ok,
        r is Ok ==> r->Ok_0@ == frame_of(msg@)->Ok_0,
        r is Err ==> r == Err::<Vec<u8>, ProtocolError>(ProtocolError::ReplyTooBig),
{
    if msg.len() > 255 {
        return Err(ProtocolError::ReplyTooBig);
    }
    let mut out: Vec<u8> = Vec::new();
    out.push(msg.len() as u8);
    let mut i: usize = 0;
    while i < msg.len()
        invariant
            i <= msg@.len() <= 255,
            out@ == seq![msg@.len() as u8] + msg@.take(i as int),
        decreases msg@.len() - i,
    {
        out.push(msg[i]);
        i = i + 1;
        assert(out@ =~= seq![msg@.len() as u8] + msg@.take(i as int));
    }
    assert(msg@.take(msg@.len() as int) =~= msg@);
    Ok(out)
}

/// Which kind of reply a transfer gets.
#[derive(Copy, Clone, Debug, PartialEq, Eq, Structural)]
pub enum ReplyKind {
    Read,
    Write,
}

/// What a command asks of the lines.
pub enum Dispatch {
    /// Run this access; the reply of this kind carries its outcome.
    Transfer(Access, ReplyKind),
    /// Clock out these bits; this cannot fail.
    Sequence(Vec<bool>),
}

/// The state of one connection: the AP that AP commands address. It is the APSEL of
/// the last SELECT value written with a successful WriteDp, and AP 0 before any.
#[derive(Copy, Clone, Debug, PartialEq, Eq, Structural)]
pub struct Session {
    pub ap: u8,
}

/// Whether DP address `a` names SELECT.
pub open spec fn is_select_address(a: u8) -> bool {
    address_bits(a) == [false, true]
}

impl Session {
    /// A session that addresses AP 0.
    pub fn new() -> (r: Session)
        ensures
            r.ap == 0,
    {
        Session { ap: 0 }
    }

    /// The reply to `cmd`, whose transfer had `outcome`.
    pub open spec fn reply_of(cmd: Command, outcome: Result<u32, RequestError>) -> Reply {
        match cmd {
            Command::ReadDp(_) | Command::ReadAp(_) => Reply::Read(outcome),
            Command::SwjSequence(_, _) => Reply::Write(Ok(())),
            _ => match outcome {
                Ok(_) => Reply::Write(Ok(())),
                Err(e) => Reply::Write(Err(e)),
            },
        }
    }

    /// The session after `cmd` had `outcome`.
    pub open spec fn after(self, cmd: Command, outcome: Result<u32, RequestError>) -> Session {
        match cmd {
            Command::WriteDp(a, v) => if is_select_address(a) && outcome is Ok {
                Session { ap: (v / 0x100_0000) as u8 }
            } else {
                self
            },
            _ => self,
        }
    }

    /// What `cmd` asks of the lines: DP commands are one transaction at the address's
    /// bits 2 and 3; AP commands write SELECT for this session's AP first; an SWJ
    /// sequence is clocked out as it is.
    pub fn dispatch(&self, cmd: &Command) -> (r: Dispatch)
        ensures
            match *cmd {
                Command::ReadDp(a) => r matches Dispatch::Transfer(acc, kind) && kind
                    == ReplyKind::Read && acc.requests@ == seq![read_of(APnDP::DP, address_bits(a))]
                    && acc.index == 0 && acc.current == Transaction::initial(acc.requests@[0]) && acc.wf(),
                Command::WriteDp(a, v) => r matches Dispatch::Transfer(acc, kind) && kind
                    == ReplyKind::Write && acc.requests@ == seq![
                        write_of(APnDP::DP, address_bits(a), v),
                    ] && acc.index == 0 && acc.current == Transaction::initial(acc.requests@[0]) && acc.wf(),
                Command::ReadAp(a) => r matches Dispatch::Transfer(acc, kind) && kind
                    == ReplyKind::Read && acc.requests@ == ap_read_requests(self.ap, a) && acc.index
                    == 0 && acc.current == Transaction::initial(acc.requests@[0]) && acc.wf(),
                Command::WriteAp(a, v) => r matches Dispatch::Transfer(acc, kind) && kind
                    == ReplyKind::Write && acc.requests@ == ap_write_requests(self.ap, a, v)
                    && acc.index == 0 && acc.current == Transaction::initial(acc.requests@[0]) && acc.wf(),
                Command::SwjSequence(n, bits) => r matches Dispatch::Sequence(b) && b@ == long_bits(
                    bits,
                ).take(if n <= 64 { n as int } else { 64 }),
            },
    {
        match *cmd {
            Command::ReadDp(a) => Dispatch::Transfer(
                Access::read_request(APnDP::DP, a_to_bits(a)),
                ReplyKind::Read,
            ),
            Command::WriteDp(a, value) => Dispatch::Transfer(
                Access::write_request(APnDP::DP, a_to_bits(a), value),
                ReplyKind::Write,
            ),
            Command::ReadAp(a) => Dispatch::Transfer(Access::read_ap(self.ap, a), ReplyKind::Read),
            Command::WriteAp(a, value) => Dispatch::Transfer(
                Access::write_ap(self.ap, a, value),
                ReplyKind::Write,
            ),
            Command::SwjSequence(bit_len, bits) => Dispatch::Sequence(swj_sequence(bit_len, bits)),
        }
    }

    /// The framed reply to `cmd`, whose transfer had `outcome` (an SWJ sequence always
    /// succeeds, whatever `outcome` says); the session takes note of a SELECT write.
    pub fn finish(&mut self, cmd: &Command, outcome: Result<u32, RequestError>) -> (r: Vec<u8>)
        ensures
            Ok::<Seq<u8>, ProtocolError>(r@) == frame_of(
                reply_bytes(Session::reply_of(*cmd, outcome)),
            ),
            *final(self) == old(self).after(*cmd, outcome),
    {
        let reply = match *cmd {
            Command::ReadDp(_) | Command::ReadAp(_) => Reply::Read(outcome),
            Command::SwjSequence(_, _) => Reply::Write(Ok(())),
            _ => match outcome {
                Ok(_) => Reply::Write(Ok(())),
                Err(e) => Reply::Write(Err(e)),
            },
        };
        if let Command::WriteDp(a, v) = *cmd {
            let bits = a_to_bits(a);
            if !bits[0] && bits[1] && outcome.is_ok() {
                self.ap = (v / 0x100_0000) as u8;
            }
        }
        let msg = reply.to_bytes();
        match frame(msg.as_slice()) {
            Ok(framed) => framed,
            // a reply is at most five bytes, so framing cannot fail
            Err(_) => Vec::new(),
        }
    }
}

} // verus!
