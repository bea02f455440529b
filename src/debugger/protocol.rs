use vstd::prelude::*;
use vstd::utf8::{decode_utf8, encode_utf8, valid_utf8};

use crate::cpu::decode::{encode_instruction, mode_of, opcode_of, opcode_table, spec_decode, word};
use crate::cpu::{decode_instruction, flags_of_byte, status_byte, Instruction, Registers, StatusFlags};
use crate::debugger::error::DebuggerError;

verus! {

/// A command from the debugger front end.
#[derive(Debug, PartialEq, Eq, Structural, Clone, Copy)]
pub enum DebuggerCmd {
    Step(u32),
    Continue,
    Restart,
    RequestPage(u8),
    BreakPoint(u16),
    Print(u32),
    RequestCpuState,
    Unknown(u8),
}

/// A response to the debugger front end.
#[derive(Debug)]
pub enum DebuggerResponse {
    Instruction(u16, Instruction),
    Page(u16, Vec<u8>),
    Message(String),
    CpuState(Registers),
    Unknown(u8),
    StreamStart,
    StreamEnd,
}

/// Makes the frame that carries a message.
pub trait IntoDebuggerMessage {
    fn into_debugger_message(&self) -> Result<Vec<u8>, DebuggerError>;
}

/// Reads a message from the start of a frame, giving the bytes it took.
pub trait FromDebuggerMessage: Sized {
    fn from_debugger_message(bytes: &[u8]) -> Result<(usize, Self), DebuggerError>;
}

/// Relies on std::str::from_utf8: it accepts exactly the valid UTF-8 byte
/// sequences, and the string it gives holds the characters they encode.
#[verifier::external_body]
fn str_from_utf8(b: &[u8]) -> (r: Option<&str>)
    ensures
        r is Some <==> valid_utf8(b@),
        r matches Some(s) ==> s@ == decode_utf8(b@),
{
    std::str::from_utf8(b).ok()
}

/// A 32-bit number, least significant byte first.
pub open spec fn le32(n: u32) -> Seq<u8> {
    seq![
        (n % 0x100) as u8,
        ((n / 0x100) % 0x100) as u8,
        ((n / 0x10000) % 0x100) as u8,
        (n / 0x1000000) as u8,
    ]
}

/// A 16-bit number, least significant byte first.
pub open spec fn le16(n: u16) -> Seq<u8> {
    seq![(n % 0x100) as u8, (n / 0x100) as u8]
}

/// The number that four bytes make, least significant first.
pub open spec fn u32_of(b: Seq<u8>) -> u32 {
    (b[0] + b[1] * 0x100 + b[2] * 0x10000 + b[3] * 0x1000000) as u32
}

/// The frame header: an identifier and the payload length.
pub open spec fn header(id: u8, len: nat) -> Seq<u8> {
    seq![id, (len % 0x100) as u8, (len / 0x100) as u8]
}

/// The frame that carries a command.
pub open spec fn cmd_frame(c: DebuggerCmd) -> Seq<u8> {
    match c {
        DebuggerCmd::Step(n) => header(0x01, 4) + le32(n),
        DebuggerCmd::Continue => header(0x02, 0),
        DebuggerCmd::Restart => header(0x03, 0),
        DebuggerCmd::RequestPage(p) => header(0x04, 1) + seq![p],
        DebuggerCmd::BreakPoint(a) => header(0x05, 2) + le16(a),
        DebuggerCmd::Print(n) => header(0x06, 4) + le32(n),
        DebuggerCmd::RequestCpuState => header(0x07, 0),
        DebuggerCmd::Unknown(_) => header(0xff, 0),
    }
}

/// The whole frame at the start of `b`, as (identifier, payload, length).
pub open spec fn split_frame(b: Seq<u8>) -> Option<(u8, Seq<u8>, int)> {
    if b.len() < 3 {
        None
    } else {
        let size = b[1] + b[2] * 0x100;
        if b.len() < 3 + size {
            None
        } else {
            Some((b[0], b.subrange(3, 3 + size), 3 + size))
        }
    }
}

/// The command that a frame carries; `None` when its payload is too short.
pub open spec fn cmd_of(id: u8, p: Seq<u8>) -> Option<DebuggerCmd> {
    if id == 0x01 {
        if p.len() >= 4 {
            Some(DebuggerCmd::Step(u32_of(p)))
        } else {
            None
        }
    } else if id == 0x02 {
        Some(DebuggerCmd::Continue)
    } else if id == 0x03 {
        Some(DebuggerCmd::Restart)
    } else if id == 0x04 {
        if p.len() >= 1 {
            Some(DebuggerCmd::RequestPage(p[0]))
        } else {
            None
        }
    } else if id == 0x05 {
        if p.len() >= 2 {
            Some(DebuggerCmd::BreakPoint(word(p[0], p[1])))
        } else {
            None
        }
    } else if id == 0x06 {
        if p.len() >= 4 {
            Some(DebuggerCmd::Print(u32_of(p)))
        } else {
            None
        }
    } else if id == 0x07 {
        Some(DebuggerCmd::RequestCpuState)
    } else {
        Some(DebuggerCmd::Unknown(id))
    }
}

/// The command at the start of `b`, with the length of its frame.
pub open spec fn read_cmd(b: Seq<u8>) -> Option<(usize, DebuggerCmd)> {
    match split_frame(b) {
        None => None,
        Some((id, p, n)) => match cmd_of(id, p) {
            None => None,
            Some(c) => Some((n as usize, c)),
        },
    }
}

/// Reads the little-endian number in the first four bytes.
fn read_u32(p: &[u8]) -> (n: u32)
    requires
        p@.len() >= 4,
    ensures
        n == u32_of(p@),
{
    p[0] as u32 + p[1] as u32 * 0x100 + p[2] as u32 * 0x10000 + p[3] as u32 * 0x1000000
}

/// Appends a 32-bit number, least significant byte first.
fn push_u32(v: &mut Vec<u8>, n: u32)
    ensures
        final(v)@ == old(v)@ + le32(n),
{
    v.push((n % 0x100) as u8);
    v.push(((n / 0x100) % 0x100) as u8);
    v.push(((n / 0x10000) % 0x100) as u8);
    v.push((n / 0x1000000) as u8);
    assert(final(v)@ =~= old(v)@ + le32(n));
}

/// The whole frame at the start of `b`: its identifier, its payload, and its
/// length.
fn frame_at(b: &[u8]) -> (r: Option<(u8, &[u8], usize)>)
    ensures
        match split_frame(b@) {
            None => r is None,
            Some((id, p, n)) => r matches Some((i, q, m)) && i == id && q@ == p && m == n,
        },
{
    if b.len() < 3 {
        return None;
    }
    let size = b[1] as usize + b[2] as usize * 0x100;
    if b.len() < 3 + size {
        return None;
    }
    Some((b[0], vstd::slice::slice_subrange(b, 3, 3 + size), 3 + size))
}

impl DebuggerCmd {
    /// The frame that carries this command.
    pub fn to_frame(&self) -> (v: Vec<u8>)
        ensures
            v@ == cmd_frame(*self),
    {
        let mut v: Vec<u8> = Vec::new();
        match *self {
            DebuggerCmd::Step(n) => {
                v.push(0x01);
                v.push(0x04);
                v.push(0x00);
                push_u32(&mut v, n);
            },
            DebuggerCmd::Continue => {
                v.push(0x02);
                v.push(0x00);
                v.push(0x00);
            },
            DebuggerCmd::Restart => {
                v.push(0x03);
                v.push(0x00);
                v.push(0x00);
            },
            DebuggerCmd::RequestPage(p) => {
                v.push(0x04);
                v.push(0x01);
                v.push(0x00);
                v.push(p);
            },
            DebuggerCmd::BreakPoint(a) => {
                v.push(0x05);
                v.push(0x02);
                v.push(0x00);
                v.push((a % 0x100) as u8);
                v.push((a / 0x100) as u8);
            },
            DebuggerCmd::Print(n) => {
                v.push(0x06);
                v.push(0x04);
                v.push(0x00);
                push_u32(&mut v, n);
            },
            DebuggerCmd::RequestCpuState => {
                v.push(0x07);
                v.push(0x00);
                v.push(0x00);
            },
            DebuggerCmd::Unknown(_) => {
                v.push(0xff);
                v.push(0x00);
                v.push(0x00);
            },
        }
        assert(v@ =~= cmd_frame(*self));
        v
    }

    /// The command at the start of `b`, with the length of its frame; a
    /// protocol error when the frame is cut short or its payload is too short
    /// for its command.
    pub fn from_frame(b: &[u8]) -> (r: Result<(usize, DebuggerCmd), DebuggerError>)
        ensures
            match read_cmd(b@) {
                None => r matches Err(DebuggerError::Protocol),
                Some(x) => r matches Ok(y) && y == x,
            },
    {
        let (id, p, n) = match frame_at(b) {
            Some(f) => f,
            None => return Err(DebuggerError::Protocol),
        };
        let cmd = if id == 0x01 {
            if p.len() < 4 {
                return Err(DebuggerError::Protocol);
            }
            DebuggerCmd::Step(read_u32(p))
        } else if id == 0x02 {
            DebuggerCmd::Continue
        } else if id == 0x03 {
            DebuggerCmd::Restart
        } else if id == 0x04 {
            if p.len() < 1 {
                return Err(DebuggerError::Protocol);
            }
            DebuggerCmd::RequestPage(p[0])
        } else if id == 0x05 {
            if p.len() < 2 {
                return Err(DebuggerError::Protocol);
            }
            DebuggerCmd::BreakPoint(p[0] as u16 + p[1] as u16 * 0x100)
        } else if id == 0x06 {
            if p.len() < 4 {
                return Err(DebuggerError::Protocol);
            }
            DebuggerCmd::Print(read_u32(p))
        } else if id == 0x07 {
            DebuggerCmd::RequestCpuState
        } else {
            DebuggerCmd::Unknown(id)
        };
        Ok((n, cmd))
    }
}

proof fn lemma_le32(n: u32)
    ensures
        u32_of(le32(n)) == n,
{
    let b0 = (n % 0x100) as u8;
    let b1 = ((n / 0x100) % 0x100) as u8;
    let b2 = ((n / 0x10000) % 0x100) as u8;
    let b3 = (n / 0x1000000) as u8;
    assert(b0 + b1 * 0x100u64 + b2 * 0x10000u64 + b3 * 0x1000000u64 == n) by (bit_vector)
        requires
            b0 == n % 0x100,
            b1 == (n / 0x100) % 0x100,
            b2 == (n / 0x10000) % 0x100,
            b3 == n / 0x1000000,
    ;
}

/// Reading the frame of any command but an unknown one gives the command back,
/// with the length of the frame.
#[verifier::rlimit(50)]
pub proof fn lemma_cmd_round_trip(c: DebuggerCmd)
    requires
        !(c is Unknown),
    ensures
        read_cmd(cmd_frame(c)) == Some((cmd_frame(c).len() as usize, c)),
{
    let f = cmd_frame(c);
    match c {
        DebuggerCmd::Step(n) | DebuggerCmd::Print(n) => {
            assert(f.subrange(3, 7) =~= le32(n));
            lemma_le32(n);
        },
        DebuggerCmd::BreakPoint(a) => {
            assert(f.subrange(3, 5) =~= le16(a));
        },
        DebuggerCmd::RequestPage(p) => {
            assert(f.subrange(3, 4) =~= seq![p]);
        },
        _ => {},
    }
}

impl IntoDebuggerMessage for DebuggerCmd {
    fn into_debugger_message(&self) -> (r: Result<Vec<u8>, DebuggerError>)
        ensures
            r matches Ok(v) && v@ == cmd_frame(*self),
    {
        Ok(self.to_frame())
    }
}

impl FromDebuggerMessage for DebuggerCmd {
    fn from_debugger_message(bytes: &[u8]) -> (r: Result<(usize, DebuggerCmd), DebuggerError>)
        ensures
            match read_cmd(bytes@) {
                None => r matches Err(DebuggerError::Protocol),
                Some(x) => r matches Ok(y) && y == x,
            },
    {
        DebuggerCmd::from_frame(bytes)
    }
}

/// The abstract content of a response.
pub enum ResponseView {
    Instruction(u16, Instruction),
    Page(u16, Seq<u8>),
    Message(Seq<char>),
    CpuState(Registers),
    Unknown(u8),
    StreamStart,
    StreamEnd,
}

impl View for DebuggerResponse {
    type V = ResponseView;

    open spec fn view(&self) -> ResponseView {
        match self {
            DebuggerResponse::Instruction(a, i) => ResponseView::Instruction(*a, *i),
            DebuggerResponse::Page(a, m) => ResponseView::Page(*a, m@),
            DebuggerResponse::Message(s) => ResponseView::Message(s@),
            DebuggerResponse::CpuState(r) => ResponseView::CpuState(*r),
            DebuggerResponse::Unknown(id) => ResponseView::Unknown(*id),
            DebuggerResponse::StreamStart => ResponseView::StreamStart,
            DebuggerResponse::StreamEnd => ResponseView::StreamEnd,
        }
    }
}

/// The registers as a frame payload: program counter, stack pointer,
/// accumulator, X, Y and the status byte.
pub open spec fn registers_payload(r: Registers) -> Seq<u8> {
    le16(r.pc) + seq![r.sp, r.acc, r.x, r.y, status_byte(r.status)]
}

/// The frame that carries a response, for the responses whose frame is fixed
/// by their content alone; an instruction's frame is described by
/// `instruction_frame`.
pub open spec fn resp_frame(r: ResponseView) -> Option<Seq<u8>> {
    match r {
        ResponseView::Instruction(_, _) => None,
        ResponseView::Page(a, m) => if m.len() + 2 <= 0xffff {
            Some(header(0x02, m.len() + 2) + le16(a) + m)
        } else {
            None
        },
        ResponseView::Message(s) => if encode_utf8(s).len() <= 0xffff {
            Some(header(0x03, encode_utf8(s).len()) + encode_utf8(s))
        } else {
            None
        },
        ResponseView::CpuState(regs) => Some(header(0x04, 7) + registers_payload(regs)),
        ResponseView::Unknown(_) => Some(header(0xff, 0)),
        ResponseView::StreamStart => Some(header(0xfd, 0)),
        ResponseView::StreamEnd => Some(header(0xfe, 0)),
    }
}

/// Whether `f` is a frame of the instruction `ins` at `loc`: the address, then
/// the instruction's encoding, which decodes back to it.
pub open spec fn instruction_frame(f: Seq<u8>, loc: u16, ins: Instruction) -> bool {
    &&& f.len() >= 6
    &&& f.subrange(0, 3) == header(0x01, (f.len() - 3) as nat)
    &&& f.subrange(3, 5) == le16(loc)
    &&& spec_decode(f.subrange(5, f.len() as int)) matches Some((n, d)) && n == f.len() - 5 && d.0
        == ins.0 && d.1 == ins.1
}

/// The response that a frame carries; `None` when its payload does not hold
/// what its identifier calls for.
pub open spec fn resp_of(id: u8, p: Seq<u8>) -> Option<ResponseView> {
    if id == 0x01 {
        if p.len() >= 2 {
            match spec_decode(p.subrange(2, p.len() as int)) {
                Some((_, ins)) => Some(ResponseView::Instruction(word(p[0], p[1]), ins)),
                None => None,
            }
        } else {
            None
        }
    } else if id == 0x02 {
        if p.len() >= 2 {
            Some(ResponseView::Page(word(p[0], p[1]), p.subrange(2, p.len() as int)))
        } else {
            None
        }
    } else if id == 0x03 {
        if valid_utf8(p) {
            Some(ResponseView::Message(decode_utf8(p)))
        } else {
            None
        }
    } else if id == 0x04 {
        if p.len() >= 7 {
            Some(
                ResponseView::CpuState(
                    Registers {
                        pc: word(p[0], p[1]),
                        sp: p[2],
                        acc: p[3],
                        x: p[4],
                        y: p[5],
                        status: flags_of_byte(p[6]),
                    },
                ),
            )
        } else {
            None
        }
    } else if id == 0xfd {
        Some(ResponseView::StreamStart)
    } else if id == 0xfe {
        Some(ResponseView::StreamEnd)
    } else {
        Some(ResponseView::Unknown(id))
    }
}

/// The response at the start of `b`, with the length of its frame.
pub open spec fn read_response(b: Seq<u8>) -> Option<(usize, ResponseView)> {
    match split_frame(b) {
        None => None,
        Some((id, p, n)) => match resp_of(id, p) {
            None => None,
            Some(r) => Some((n as usize, r)),
        },
    }
}

/// Appends the frame header for a payload of `len` bytes.
fn push_header(v: &mut Vec<u8>, id: u8, len: usize)
    requires
        len <= 0xffff,
    ensures
        final(v)@ == old(v)@ + header(id, len as nat),
{
    v.push(id);
    v.push((len % 0x100) as u8);
    v.push((len / 0x100) as u8);
    assert(final(v)@ =~= old(v)@ + header(id, len as nat));
}

/// Appends a 16-bit number, least significant byte first.
fn push_u16(v: &mut Vec<u8>, n: u16)
    ensures
        final(v)@ == old(v)@ + le16(n),
{
    v.push((n % 0x100) as u8);
    v.push((n / 0x100) as u8);
    assert(final(v)@ =~= old(v)@ + le16(n));
}

/// Appends bytes.
fn push_bytes(v: &mut Vec<u8>, b: &[u8])
    ensures
        final(v)@ == old(v)@ + b@,
{
    let mut i: usize = 0;
    while i < b.len()
        invariant
            i <= b@.len(),
            v@ == old(v)@ + b@.take(i as int),
        decreases b.len() - i,
    {
        v.push(b[i]);
        i = i + 1;
        assert(b@.take(i as int) =~= b@.take(i - 1).push(b@[i - 1]));
        assert(v@ =~= old(v)@ + b@.take(i as int));
    }
    assert(b@.take(i as int) =~= b@);
}

/// Whether `r` is what framing the response `v` gives: its frame, or a
/// protocol error exactly when the frame cannot be made.
pub open spec fn framed(v: ResponseView, r: Result<Vec<u8>, DebuggerError>) -> bool {
    match v {
        ResponseView::Instruction(loc, ins) => (r is Ok <==> opcode_of(ins.0, mode_of(ins.1))
            is Some) && match r {
            Ok(f) => instruction_frame(f@, loc, ins),
            Err(e) => e is Protocol,
        },
        _ => match resp_frame(v) {
            Some(f) => r matches Ok(w) && w@ == f,
            None => r matches Err(DebuggerError::Protocol),
        },
    }
}

/// Whether `r` is what reading a response from the start of `b` gives.
pub open spec fn read_back(b: Seq<u8>, r: Result<(usize, DebuggerResponse), DebuggerError>) -> bool {
    match read_response(b) {
        None => r matches Err(DebuggerError::Protocol),
        Some((n, v)) => r matches Ok((m, x)) && m == n && x@ == v,
    }
}

impl DebuggerResponse {
    /// The frame that carries this response; a protocol error when its payload
    /// would not fit a frame, or for an instruction outside the instruction set.
    pub fn to_frame(&self) -> (r: Result<Vec<u8>, DebuggerError>)
        ensures
            framed(self@, r),
    {
        let mut v: Vec<u8> = Vec::new();
        match self {
            DebuggerResponse::Instruction(loc, ins) => {
                let bytes = match encode_instruction(ins) {
                    Some(b) => b,
                    None => return Err(DebuggerError::Protocol),
                };
                let len = bytes.len() + 2;
                if len > 0xffff {
                    return Err(DebuggerError::Protocol);
                }
                push_header(&mut v, 0x01, len);
                push_u16(&mut v, *loc);
                push_bytes(&mut v, bytes.as_slice());
                proof {
                    assert(v@.subrange(0, 3) =~= header(0x01, (v@.len() - 3) as nat));
                    assert(v@.subrange(3, 5) =~= le16(*loc));
                    assert(v@.subrange(5, v@.len() as int) =~= bytes@);
                }
            },
            DebuggerResponse::Page(loc, mem) => {
                if mem.len() > 0xffff - 2 {
                    return Err(DebuggerError::Protocol);
                }
                push_header(&mut v, 0x02, mem.len() + 2);
                push_u16(&mut v, *loc);
                push_bytes(&mut v, mem.as_slice());
            },
            DebuggerResponse::Message(s) => {
                let bytes = s.as_str().as_bytes();
                if bytes.len() > 0xffff {
                    return Err(DebuggerError::Protocol);
                }
                push_header(&mut v, 0x03, bytes.len());
                push_bytes(&mut v, bytes);
            },
            DebuggerResponse::CpuState(r) => {
                push_header(&mut v, 0x04, 7);
                push_u16(&mut v, r.pc);
                v.push(r.sp);
                v.push(r.acc);
                v.push(r.x);
                v.push(r.y);
                v.push(r.status.to_byte());
            },
            DebuggerResponse::Unknown(_) => push_header(&mut v, 0xff, 0),
            DebuggerResponse::StreamStart => push_header(&mut v, 0xfd, 0),
            DebuggerResponse::StreamEnd => push_header(&mut v, 0xfe, 0),
        }
        proof {
            match self@ {
                ResponseView::Instruction(_, _) => {},
                _ => {
                    assert(v@ =~= resp_frame(self@).unwrap());
                },
            }
        }
        Ok(v)
    }

    /// The response at the start of `b`, with the length of its frame; a
    /// protocol error when the frame is cut short or its payload does not hold
    /// what its identifier calls for.
    pub fn from_frame(b: &[u8]) -> (r: Result<(usize, DebuggerResponse), DebuggerError>)
        ensures
            read_back(b@, r),
    {
        let (id, p, n) = match frame_at(b) {
            Some(f) => f,
            None => return Err(DebuggerError::Protocol),
        };
        let resp = if id == 0x01 {
            if p.len() < 2 {
                return Err(DebuggerError::Protocol);
            }
            let loc = p[0] as u16 + p[1] as u16 * 0x100;
            match decode_instruction(vstd::slice::slice_subrange(p, 2, p.len())) {
                Ok((_, ins)) => DebuggerResponse::Instruction(loc, ins),
                Err(_) => return Err(DebuggerError::Protocol),
            }
        } else if id == 0x02 {
            if p.len() < 2 {
                return Err(DebuggerError::Protocol);
            }
            let loc = p[0] as u16 + p[1] as u16 * 0x100;
            DebuggerResponse::Page(loc, vstd::slice::slice_to_vec(vstd::slice::slice_subrange(p, 2, p.len())))
        } else if id == 0x03 {
            match str_from_utf8(p) {
                Some(s) => DebuggerResponse::Message(s.to_owned()),
                None => return Err(DebuggerError::Protocol),
            }
        } else if id == 0x04 {
            if p.len() < 7 {
                return Err(DebuggerError::Protocol);
            }
            DebuggerResponse::CpuState(
                Registers {
                    pc: p[0] as u16 + p[1] as u16 * 0x100,
                    sp: p[2],
                    acc: p[3],
                    x: p[4],
                    y: p[5],
                    status: StatusFlags::from_byte(p[6]),
                },
            )
        } else if id == 0xfd {
            DebuggerResponse::StreamStart
        } else if id == 0xfe {
            DebuggerResponse::StreamEnd
        } else {
            DebuggerResponse::Unknown(id)
        };
        Ok((n, resp))
    }
}

impl IntoDebuggerMessage for DebuggerResponse {
    fn into_debugger_message(&self) -> (r: Result<Vec<u8>, DebuggerError>)
        ensures
            framed(self@, r),
    {
        self.to_frame()
    }
}

impl FromDebuggerMessage for DebuggerResponse {
    fn from_debugger_message(bytes: &[u8]) -> (r: Result<(usize, DebuggerResponse), DebuggerError>)
        ensures
            read_back(bytes@, r),
    {
        DebuggerResponse::from_frame(bytes)
    }
}

proof fn lemma_status_round_trip(f: StatusFlags)
    ensures
        flags_of_byte(status_byte(f)) == f,
{
    let b = status_byte(f);
    let c: u8 = if f.carry { 1 } else { 0 };
    let z: u8 = if f.zero { 2 } else { 0 };
    let i: u8 = if f.interrupt { 4 } else { 0 };
    let d: u8 = if f.decimal { 8 } else { 0 };
    let k: u8 = if f.brk { 16 } else { 0 };
    let v: u8 = if f.overflow { 64 } else { 0 };
    let n: u8 = if f.negative { 128 } else { 0 };
    assert(b == c + z + i + d + k + 32 + v + n);
    assert({
        let s = (c + z + i + d + k + 32 + v + n) as u8;
        &&& (s & 0x01 != 0) == (c == 1)
        &&& (s & 0x02 != 0) == (z == 2)
        &&& (s & 0x04 != 0) == (i == 4)
        &&& (s & 0x08 != 0) == (d == 8)
        &&& (s & 0x10 != 0) == (k == 16)
        &&& (s & 0x40 != 0) == (v == 64)
        &&& (s & 0x80 != 0) == (n == 128)
    }) by (bit_vector)
        requires
            c == 0 || c == 1,
            z == 0 || z == 2,
            i == 0 || i == 4,
            d == 0 || d == 8,
            k == 0 || k == 16,
            v == 0 || v == 64,
            n == 0 || n == 128,
    ;
}

/// Reading the frame of a page of memory, of a text message or of the
/// registers gives the response back, with the length of the frame.
#[verifier::rlimit(50)]
pub proof fn lemma_response_round_trip(r: ResponseView)
    requires
        r is Page || r is Message || r is CpuState,
        resp_frame(r) is Some,
    ensures
        read_response(resp_frame(r).unwrap()) == Some(
            (resp_frame(r).unwrap().len() as usize, r),
        ),
{
    let f = resp_frame(r).unwrap();
    match r {
        ResponseView::Page(a, m) => {
            assert(f.subrange(3, f.len() as int) =~= le16(a) + m);
            assert((le16(a) + m).subrange(2, (le16(a) + m).len() as int) =~= m);
        },
        ResponseView::Message(s) => {
            vstd::utf8::encode_utf8_valid_utf8(s);
            vstd::utf8::encode_utf8_decode_utf8(s);
            assert(f.subrange(3, f.len() as int) =~= encode_utf8(s));
        },
        ResponseView::CpuState(regs) => {
            assert(f.subrange(3, 10) =~= registers_payload(regs));
            lemma_status_round_trip(regs.status);
        },
        _ => {},
    }
}

} // verus!
