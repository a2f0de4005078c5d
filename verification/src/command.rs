//! Commands sent to a card, and their encoding as bytes.

use crate::response::ResponseView;
use vstd::prelude::*;

verus! {

/// An APDU command to be transmitted.
#[derive(Debug, Clone, Copy)]
pub struct Command<'a> {
    pub cla: u8,
    pub ins: u8,
    pub p1: u8,
    pub p2: u8,
    pub le: Option<u16>,
    pub payload: Option<&'a [u8]>,
}

/// What a command holds: the four header bytes, the expected response length
/// and the payload bytes.
pub struct CommandView {
    pub cla: u8,
    pub ins: u8,
    pub p1: u8,
    pub p2: u8,
    pub le: Option<u16>,
    pub payload: Option<Seq<u8>>,
}

impl<'a> View for Command<'a> {
    type V = CommandView;

    open spec fn view(&self) -> CommandView {
        CommandView {
            cla: self.cla,
            ins: self.ins,
            p1: self.p1,
            p2: self.p2,
            le: self.le,
            payload: match self.payload {
                Some(p) => Some(p@),
                None => None,
            },
        }
    }
}

/// The low eight bits of a length.
pub open spec fn low_byte(n: int) -> u8 {
    (n % 256) as u8
}

/// Bits eight to fifteen of a length.
pub open spec fn high_byte(n: int) -> u8 {
    ((n / 256) % 256) as u8
}

impl CommandView {
    /// CLA, INS, P1 and P2, in this order.
    pub open spec fn header(self) -> Seq<u8> {
        seq![self.cla, self.ins, self.p1, self.p2]
    }

    /// Whether the payload's length is written in the extended form.
    pub open spec fn extended_lc(self, extended_length: bool) -> bool {
        extended_length && self.payload is Some && self.payload->0.len() > 255
    }

    /// Whether the expected response length is written in the extended form.
    pub open spec fn extended_le(self, extended_length: bool) -> bool {
        extended_length && self.le is Some && self.le->0 > 255
    }

    /// The Lc field: nothing without a payload; else the payload's length, as
    /// one byte, or in the extended form as a zero byte followed by the low
    /// and then the high byte of the length.
    pub open spec fn lc_field(self, extended_length: bool) -> Seq<u8> {
        match self.payload {
            None => Seq::empty(),
            Some(p) => if self.extended_lc(extended_length) {
                seq![0u8, low_byte(p.len() as int), high_byte(p.len() as int)]
            } else {
                seq![low_byte(p.len() as int)]
            },
        }
    }

    /// The payload bytes, or nothing.
    pub open spec fn data_field(self) -> Seq<u8> {
        match self.payload {
            None => Seq::empty(),
            Some(p) => p,
        }
    }

    /// The Le field: nothing without an expected length; else that length, as
    /// one byte, or in the extended form as its low and then its high byte,
    /// after a zero byte where no payload precedes.
    pub open spec fn le_field(self, extended_length: bool) -> Seq<u8> {
        match self.le {
            None => Seq::empty(),
            Some(l) => if self.extended_le(extended_length) {
                if self.payload is Some {
                    seq![low_byte(l as int), high_byte(l as int)]
                } else {
                    seq![0u8, low_byte(l as int), high_byte(l as int)]
                }
            } else {
                seq![low_byte(l as int)]
            },
        }
    }

    /// The bytes that are sent for the command.
    pub open spec fn wire(self, extended_length: bool) -> Seq<u8> {
        self.header() + self.lc_field(extended_length) + self.data_field() + self.le_field(
            extended_length,
        )
    }
}

/// Reported when a buffer cannot hold an encoded command.
#[derive(Debug, Clone, Copy, PartialEq, Eq, Structural)]
pub struct BufferTooSmall {
    /// The number of bytes that the encoded command takes.
    pub needed: usize,
}

fn low_byte_of(n: usize) -> (b: u8)
    ensures
        b == low_byte(n as int),
{
    (n % 256) as u8
}

fn high_byte_of(n: usize) -> (b: u8)
    ensures
        b == high_byte(n as int),
{
    ((n / 256) % 256) as u8
}

/// A buffer that held `before`, after `piece` was written over its front.
spec fn overwritten(before: Seq<u8>, piece: Seq<u8>) -> Seq<u8> {
    piece + before.skip(piece.len() as int)
}

/// Writes byte `at` of `full` to `buf`, which holds the bytes before it.
fn emit(buf: &mut [u8], at: usize, b: u8, Ghost(before): Ghost<Seq<u8>>, Ghost(full): Ghost<Seq<u8>>)
    requires
        at < full.len() <= before.len(),
        full[at as int] == b,
        old(buf)@ == overwritten(before, full.take(at as int)),
    ensures
        final(buf)@ == overwritten(before, full.take(at + 1)),
{
    buf[at] = b;
    assert(buf@ =~= overwritten(before, full.take(at + 1)));
}

/// Writes the bytes of `full` from index `at` on, which are those of `src`,
/// to `buf`, which holds the bytes before them.
fn emit_all(
    buf: &mut [u8],
    at: usize,
    src: &[u8],
    Ghost(before): Ghost<Seq<u8>>,
    Ghost(full): Ghost<Seq<u8>>,
)
    requires
        at + src@.len() <= full.len() <= before.len(),
        full.subrange(at as int, at + src@.len()) == src@,
        old(buf)@ == overwritten(before, full.take(at as int)),
    ensures
        final(buf)@ == overwritten(before, full.take(at + src@.len())),
{
    let n = src.len();
    let mut k: usize = 0;
    while k < n
        invariant
            n == src@.len(),
            k <= n,
            at + n <= full.len() <= before.len(),
            before.len() == buf.len(),
            full.subrange(at as int, at + n) == src@,
            buf@ == overwritten(before, full.take(at + k)),
        decreases n - k,
    {
        assert(full.subrange(at as int, at + n)[k as int] == full[at + k]);
        emit(buf, at + k, src[k], Ghost(before), Ghost(full));
        k += 1;
    }
}

impl<'a> Command<'a> {
    /// Constructs a command with CLA, INS, P1, and P2.
    /// No payloads will be transmitted or received.
    pub fn new(cla: u8, ins: u8, p1: u8, p2: u8) -> (c: Self)
        ensures
            c == (Command { cla, ins, p1, p2, le: None, payload: None }),
    {
        Command { cla, ins, p1, p2, le: None, payload: None }
    }

    /// Constructs a command with CLA, INS, P1, P2, and Le.
    /// A payload will be received.
    pub fn new_with_le(cla: u8, ins: u8, p1: u8, p2: u8, le: u16) -> (c: Self)
        ensures
            c == (Command { cla, ins, p1, p2, le: Some(le), payload: None }),
    {
        Command { cla, ins, p1, p2, le: Some(le), payload: None }
    }

    /// Constructs a command with CLA, INS, P1, P2, and a payload.
    /// No payload will be received.
    pub fn new_with_payload(cla: u8, ins: u8, p1: u8, p2: u8, payload: &'a [u8]) -> (c: Self)
        ensures
            c == (Command { cla, ins, p1, p2, le: None, payload: Some(payload) }),
    {
        Command { cla, ins, p1, p2, le: None, payload: Some(payload) }
    }

    /// Constructs a command with CLA, INS, P1, P2, Le, and a payload.
    /// A payload will be received.
    pub fn new_with_payload_le(
        cla: u8,
        ins: u8,
        p1: u8,
        p2: u8,
        le: u16,
        payload: &'a [u8],
    ) -> (c: Self)
        ensures
            c == (Command { cla, ins, p1, p2, le: Some(le), payload: Some(payload) }),
    {
        Command { cla, ins, p1, p2, le: Some(le), payload: Some(payload) }
    }

    /// Calculates the length of the entire encoded command.
    ///
    /// The length has to fit in `usize`, which it does for every payload that
    /// leaves ten bytes of the address space free.
    #[allow(clippy::len_without_is_empty)]
    pub fn len(&self, extended_length: bool) -> (n: usize)
        requires
            self@.wire(extended_length).len() <= usize::MAX,
        ensures
            n == self@.wire(extended_length).len(),
    {
        let (lc, payload): (usize, usize) = match self.payload {
            Some(p) => (
                if extended_length && p.len() > 255 {
                    3
                } else {
                    1
                },
                p.len(),
            ),
            None => (0, 0),
        };
        let le: usize = match self.le {
            Some(l) => if extended_length && l > 255 {
                if self.payload.is_some() {
                    2
                } else {
                    3
                }
            } else {
                1
            },
            None => 0,
        };
        // Header is always 4 bytes
        4 + lc + payload + le
    }

    /// Writes the encoded command to the front of `buf` and returns its
    /// length. A buffer that is too short is left as it was, and the error
    /// carries the length that is needed.
    ///
    /// As for `len`, the length has to fit in `usize`.
    pub fn write(&self, buf: &mut [u8], extended_length: bool) -> (r: Result<usize, BufferTooSmall>)
        requires
            self@.wire(extended_length).len() <= usize::MAX,
        ensures
            match r {
                Ok(n) => {
                    &&& n == self@.wire(extended_length).len()
                    &&& n <= old(buf)@.len()
                    &&& final(buf)@ == self@.wire(extended_length) + old(buf)@.skip(n as int)
                },
                Err(e) => {
                    &&& e.needed == self@.wire(extended_length).len()
                    &&& old(buf)@.len() < e.needed
                    &&& final(buf)@ == old(buf)@
                },
            },
    {
        let needed = self.len(extended_length);
        if buf.len() < needed {
            return Err(BufferTooSmall { needed });
        }
        let ghost before = buf@;
        let ghost full = self@.wire(extended_length);
        assert(buf@ =~= overwritten(before, full.take(0)));
        emit(buf, 0, self.cla, Ghost(before), Ghost(full));
        emit(buf, 1, self.ins, Ghost(before), Ghost(full));
        emit(buf, 2, self.p1, Ghost(before), Ghost(full));
        emit(buf, 3, self.p2, Ghost(before), Ghost(full));
        let mut i: usize = 4;
        if let Some(p) = self.payload {
            // The extended form starts with a zero byte, which tells it
            // from a length of one byte.
            if extended_length && p.len() > 255 {
                emit(buf, i, 0, Ghost(before), Ghost(full));
                emit(buf, i + 1, low_byte_of(p.len()), Ghost(before), Ghost(full));
                emit(buf, i + 2, high_byte_of(p.len()), Ghost(before), Ghost(full));
                i += 3;
            } else {
                emit(buf, i, low_byte_of(p.len()), Ghost(before), Ghost(full));
                i += 1;
            }
            assert(full.subrange(i as int, i + p@.len()) =~= p@);
            emit_all(buf, i, p, Ghost(before), Ghost(full));
            i += p.len();
        }
        assert(i == 4 + self@.lc_field(extended_length).len() + self@.data_field().len());
        if let Some(l) = self.le {
            if extended_length && l > 255 {
                if self.payload.is_none() {
                    emit(buf, i, 0, Ghost(before), Ghost(full));
                    i += 1;
                }
                emit(buf, i, low_byte_of(l as usize), Ghost(before), Ghost(full));
                emit(buf, i + 1, high_byte_of(l as usize), Ghost(before), Ghost(full));
                i += 2;
            } else {
                emit(buf, i, low_byte_of(l as usize), Ghost(before), Ghost(full));
                i += 1;
            }
        }
        assert(full.take(i as int) =~= full);
        Ok(needed)
    }

    /// Encodes the command into a new vector.
    pub fn to_vec(&self, extended_length: bool) -> (bytes: Vec<u8>)
        ensures
            bytes@ == self@.wire(extended_length),
    {
        let mut bytes: Vec<u8> = Vec::new();
        bytes.push(self.cla);
        bytes.push(self.ins);
        bytes.push(self.p1);
        bytes.push(self.p2);
        if let Some(p) = self.payload {
            if extended_length && p.len() > 255 {
                bytes.push(0);
                bytes.push(low_byte_of(p.len()));
                bytes.push(high_byte_of(p.len()));
            } else {
                bytes.push(low_byte_of(p.len()));
            }
            let ghost before = bytes@;
            let mut k: usize = 0;
            while k < p.len()
                invariant
                    k <= p@.len(),
                    bytes@ == before + p@.subrange(0, k as int),
                decreases p@.len() - k,
            {
                bytes.push(p[k]);
                k += 1;
                assert(bytes@ =~= before + p@.subrange(0, k as int));
            }
            assert(p@.subrange(0, k as int) =~= p@);
        }
        assert(bytes@ =~= self@.header() + self@.lc_field(extended_length) + self@.data_field());
        if let Some(l) = self.le {
            if extended_length && l > 255 {
                if self.payload.is_none() {
                    bytes.push(0);
                }
                bytes.push(low_byte_of(l as usize));
                bytes.push(high_byte_of(l as usize));
            } else {
                bytes.push(low_byte_of(l as usize));
            }
        }
        assert(bytes@ =~= self@.wire(extended_length));
        bytes
    }
}

impl<'a> From<Command<'a>> for Vec<u8> {
    /// Converts the command into octets, with every length in the short form.
    fn from(command: Command<'a>) -> (bytes: Vec<u8>)
        ensures
            bytes@ == command@.wire(false),
    {
        command.to_vec(false)
    }
}

/// The contract of `from` is stated on `from` itself, over the view of its
/// result: ghost code cannot build a vector.
impl<'a> vstd::std_specs::convert::FromSpecImpl<Command<'a>> for Vec<u8> {
    open spec fn obeys_from_spec() -> bool {
        false
    }

    open spec fn from_spec(command: Command<'a>) -> Vec<u8> {
        arbitrary()
    }
}

/// The payload of a command that expects no response data, and whose payload
/// is at most 255 bytes long, is what follows the header and one length byte
/// of its encoding; the length byte holds the payload's length.
pub proof fn lemma_payload_follows_header(command: CommandView, extended_length: bool)
    requires
        command.payload is Some,
        command.payload->0.len() <= 255,
        command.le is None,
    ensures
        command.wire(extended_length).len() == 5 + command.payload->0.len(),
        command.wire(extended_length)[4] == command.payload->0.len(),
        command.wire(extended_length).skip(5) == command.payload->0,
{
    assert(command.wire(extended_length).skip(5) =~= command.payload->0);
}

/// Every encoding starts with CLA, INS, P1 and P2.
pub proof fn lemma_wire_starts_with_header(command: CommandView, extended_length: bool)
    ensures
        command.wire(extended_length).len() >= 4,
        command.wire(extended_length).take(4) == seq![
            command.cla,
            command.ins,
            command.p1,
            command.p2,
        ],
{
    assert(command.wire(extended_length).take(4) =~= command.header());
}

/// An encoded command that is read back as a response keeps its header in
/// front: the decoded payload followed by the decoded status word starts
/// with CLA, INS, P1 and P2.
pub proof fn lemma_decoded_wire_starts_with_header(command: CommandView, extended_length: bool)
    ensures
        ResponseView::decode(command.wire(extended_length)).bytes().take(4) == seq![
            command.cla,
            command.ins,
            command.p1,
            command.p2,
        ],
{
    let wire = command.wire(extended_length);
    lemma_wire_starts_with_header(command, extended_length);
    crate::response::lemma_decode_keeps_bytes(wire);
}

/// Where the encoding is six bytes or longer, the payload that it decodes to
/// starts with CLA, INS, P1 and P2 by itself.
pub proof fn lemma_decoded_payload_starts_with_header(command: CommandView, extended_length: bool)
    requires
        command.wire(extended_length).len() >= 6,
    ensures
        ResponseView::decode(command.wire(extended_length)).payload.take(4) == seq![
            command.cla,
            command.ins,
            command.p1,
            command.p2,
        ],
{
    let wire = command.wire(extended_length);
    lemma_wire_starts_with_header(command, extended_length);
    assert(ResponseView::decode(wire).payload.take(4) =~= wire.take(4));
}

/// Default CLA (class) value of commands.
pub const CLA_DEFAULT: u8 = 0x00;

pub const INS_SELECT_FILE: u8 = 0xA4;

pub const INS_READ_BINARY: u8 = 0xB0;

pub const INS_VERIFY: u8 = 0x20;

/// The command with the default class and the given instruction and
/// parameters, which carries `payload` unless that is empty.
pub open spec fn command_with_data(ins: u8, p1: u8, p2: u8, payload: Seq<u8>) -> CommandView {
    CommandView {
        cla: CLA_DEFAULT,
        ins,
        p1,
        p2,
        le: None,
        payload: if payload.len() == 0 {
            None
        } else {
            Some(payload)
        },
    }
}

/// `SELECT FILE` (0xA4) command.
pub struct SelectFileCommand<'a> {
    p1: u8,
    p2: u8,
    payload: &'a [u8],
}

impl<'a> View for SelectFileCommand<'a> {
    type V = CommandView;

    /// The command that is sent.
    closed spec fn view(&self) -> CommandView {
        command_with_data(INS_SELECT_FILE, self.p1, self.p2, self.payload@)
    }
}

impl<'a> SelectFileCommand<'a> {
    /// Constructs a `SELECT FILE` command.
    pub fn new(p1: u8, p2: u8, payload: &'a [u8]) -> (c: Self)
        ensures
            c@ == command_with_data(INS_SELECT_FILE, p1, p2, payload@),
    {
        Self { p1, p2, payload }
    }
}

impl<'a> From<SelectFileCommand<'a>> for Command<'a> {
    fn from(cmd: SelectFileCommand<'a>) -> (c: Self)
        ensures
            c@ == cmd@,
    {
        if cmd.payload.len() == 0 {
            Command::new(CLA_DEFAULT, INS_SELECT_FILE, cmd.p1, cmd.p2)
        } else {
            Command::new_with_payload(CLA_DEFAULT, INS_SELECT_FILE, cmd.p1, cmd.p2, cmd.payload)
        }
    }
}

impl<'a> vstd::std_specs::convert::FromSpecImpl<SelectFileCommand<'a>> for Command<'a> {
    open spec fn obeys_from_spec() -> bool {
        true
    }

    closed spec fn from_spec(cmd: SelectFileCommand<'a>) -> Command<'a> {
        Command {
            cla: CLA_DEFAULT,
            ins: INS_SELECT_FILE,
            p1: cmd.p1,
            p2: cmd.p2,
            le: None,
            payload: if cmd.payload@.len() == 0 {
                None
            } else {
                Some(cmd.payload)
            },
        }
    }
}

impl<'a> From<SelectFileCommand<'a>> for Vec<u8> {
    fn from(cmd: SelectFileCommand<'a>) -> (bytes: Vec<u8>)
        ensures
            bytes@ == cmd@.wire(false),
    {
        Command::from(cmd).to_vec(false)
    }
}

/// The contract of `from` is stated on `from` itself, over the view of its
/// result: ghost code cannot build a vector.
impl<'a> vstd::std_specs::convert::FromSpecImpl<SelectFileCommand<'a>> for Vec<u8> {
    open spec fn obeys_from_spec() -> bool {
        false
    }

    open spec fn from_spec(cmd: SelectFileCommand<'a>) -> Vec<u8> {
        arbitrary()
    }
}

/// Constructs a `SELECT FILE` command.
pub fn select_file<'a>(p1: u8, p2: u8, payload: &'a [u8]) -> (c: SelectFileCommand<'a>)
    ensures
        c@ == command_with_data(INS_SELECT_FILE, p1, p2, payload@),
{
    SelectFileCommand::new(p1, p2, payload)
}

/// The `READ BINARY` command that expects `le` bytes.
pub open spec fn read_binary_command(p1: u8, p2: u8, le: u8) -> CommandView {
    CommandView {
        cla: CLA_DEFAULT,
        ins: INS_READ_BINARY,
        p1,
        p2,
        le: Some(le as u16),
        payload: None,
    }
}

/// `READ BINARY` (0xB0) command.
pub struct ReadBinaryCommand {
    p1: u8,
    p2: u8,
    le: u8,
}

impl View for ReadBinaryCommand {
    type V = CommandView;

    /// The command that is sent.
    closed spec fn view(&self) -> CommandView {
        read_binary_command(self.p1, self.p2, self.le)
    }
}

impl ReadBinaryCommand {
    /// Constructs a `READ BINARY` command.
    pub fn new(p1: u8, p2: u8, le: u8) -> (c: Self)
        ensures
            c@ == read_binary_command(p1, p2, le),
    {
        Self { p1, p2, le }
    }
}

impl<'a> From<ReadBinaryCommand> for Command<'a> {
    fn from(cmd: ReadBinaryCommand) -> (c: Self)
        ensures
            c@ == cmd@,
    {
        Command::new_with_le(CLA_DEFAULT, INS_READ_BINARY, cmd.p1, cmd.p2, cmd.le as u16)
    }
}

impl<'a> vstd::std_specs::convert::FromSpecImpl<ReadBinaryCommand> for Command<'a> {
    open spec fn obeys_from_spec() -> bool {
        true
    }

    closed spec fn from_spec(cmd: ReadBinaryCommand) -> Command<'a> {
        Command {
            cla: CLA_DEFAULT,
            ins: INS_READ_BINARY,
            p1: cmd.p1,
            p2: cmd.p2,
            le: Some(cmd.le as u16),
            payload: None,
        }
    }
}

impl From<ReadBinaryCommand> for Vec<u8> {
    fn from(cmd: ReadBinaryCommand) -> (bytes: Vec<u8>)
        ensures
            bytes@ == cmd@.wire(false),
    {
        Command::from(cmd).to_vec(false)
    }
}

/// The contract of `from` is stated on `from` itself, over the view of its
/// result: ghost code cannot build a vector.
impl vstd::std_specs::convert::FromSpecImpl<ReadBinaryCommand> for Vec<u8> {
    open spec fn obeys_from_spec() -> bool {
        false
    }

    open spec fn from_spec(cmd: ReadBinaryCommand) -> Vec<u8> {
        arbitrary()
    }
}

/// Constructs a `READ BINARY` command.
pub fn read_binary(p1: u8, p2: u8, le: u8) -> (c: ReadBinaryCommand)
    ensures
        c@ == read_binary_command(p1, p2, le),
{
    ReadBinaryCommand::new(p1, p2, le)
}

/// `VERIFY` (0x20) command.
pub struct VerifyCommand<'a> {
    p2: u8,
    payload: &'a [u8],
}

impl<'a> View for VerifyCommand<'a> {
    type V = CommandView;

    /// The command that is sent.
    closed spec fn view(&self) -> CommandView {
        command_with_data(INS_VERIFY, 0x00, self.p2, self.payload@)
    }
}

impl<'a> VerifyCommand<'a> {
    /// Constructs a `VERIFY` command.
    pub fn new(p2: u8, payload: &'a [u8]) -> (c: Self)
        ensures
            c@ == command_with_data(INS_VERIFY, 0x00, p2, payload@),
    {
        Self { p2, payload }
    }
}

impl<'a> From<VerifyCommand<'a>> for Command<'a> {
    fn from(cmd: VerifyCommand<'a>) -> (c: Self)
        ensures
            c@ == cmd@,
    {
        if cmd.payload.len() == 0 {
            Command::new(CLA_DEFAULT, INS_VERIFY, 0x00, cmd.p2)
        } else {
            Command::new_with_payload(CLA_DEFAULT, INS_VERIFY, 0x00, cmd.p2, cmd.payload)
        }
    }
}

impl<'a> vstd::std_specs::convert::FromSpecImpl<VerifyCommand<'a>> for Command<'a> {
    open spec fn obeys_from_spec() -> bool {
        true
    }

    closed spec fn from_spec(cmd: VerifyCommand<'a>) -> Command<'a> {
        Command {
            cla: CLA_DEFAULT,
            ins: INS_VERIFY,
            p1: 0x00,
            p2: cmd.p2,
            le: None,
            payload: if cmd.payload@.len() == 0 {
                None
            } else {
                Some(cmd.payload)
            },
        }
    }
}

impl<'a> From<VerifyCommand<'a>> for Vec<u8> {
    fn from(cmd: VerifyCommand<'a>) -> (bytes: Vec<u8>)
        ensures
            bytes@ == cmd@.wire(false),
    {
        Command::from(cmd).to_vec(false)
    }
}

/// The contract of `from` is stated on `from` itself, over the view of its
/// result: ghost code cannot build a vector.
impl<'a> vstd::std_specs::convert::FromSpecImpl<VerifyCommand<'a>> for Vec<u8> {
    open spec fn obeys_from_spec() -> bool {
        false
    }

    open spec fn from_spec(cmd: VerifyCommand<'a>) -> Vec<u8> {
        arbitrary()
    }
}

/// Constructs a `VERIFY` command.
pub fn verify<'a>(p2: u8, payload: &'a [u8]) -> (c: VerifyCommand<'a>)
    ensures
        c@ == command_with_data(INS_VERIFY, 0x00, p2, payload@),
{
    VerifyCommand::new(p2, payload)
}

} // verus!
