use vstd::prelude::*;
use vstd::string::StringSliceAdditionalSpecFns;

use crate::cpu::CpuError;
use crate::debugger::error::DebuggerError;
use crate::debugger::protocol::DebuggerCmd;

verus! {

/// A line typed at the debugger prompt is not a command.
#[derive(Debug, PartialEq, Eq, Structural, Clone, Copy)]
pub struct MalformedCommandError;

/// A hexadecimal address is malformed or does not fit 16 bits.
#[derive(Debug, PartialEq, Eq, Structural, Clone, Copy)]
pub struct MemoryLocationParseError;

/// An address typed in hexadecimal.
#[derive(Debug, PartialEq, Eq, Structural, Clone, Copy)]
pub struct MemoryLocation(pub u16);

/// A failure of the debugger front end.
#[derive(Debug)]
pub enum FrontEndError {
    MissingRom(&'static str),
    Io(std::io::Error),
    Emulator(CpuError),
    Debugger(DebuggerError),
    DebuggerCommand(MalformedCommandError),
}

/// The debugger front end, with the command line it was started with.
pub struct FrontEnd<'a>(pub &'a [String]);

impl<'a> FrontEnd<'a> {
    pub fn with_args(args: &'a [String]) -> (f: FrontEnd<'a>)
        ensures
            f.0 == args,
    {
        FrontEnd(args)
    }
}

/// The byte that separates fields of a command.
pub const SPACE: u8 = 0x20;

/// The index of the first space at or after `from`, or the length.
pub open spec fn find_space(s: Seq<u8>, from: int) -> int
    decreases s.len() - from,
{
    if from >= s.len() {
        s.len() as int
    } else if s[from] == SPACE {
        from
    } else {
        find_space(s, from + 1)
    }
}

/// The second of the space-separated fields of `s`, if there is one.
pub open spec fn second_field(s: Seq<u8>) -> Option<Seq<u8>> {
    let i = find_space(s, 0);
    if i >= s.len() {
        None
    } else {
        Some(s.subrange(i + 1, find_space(s, i + 1)))
    }
}

pub open spec fn is_digit(b: u8) -> bool {
    0x30 <= b <= 0x39
}

/// The value of a run of decimal digits.
pub open spec fn digits_value(s: Seq<u8>) -> int
    decreases s.len(),
{
    if s.len() == 0 {
        0
    } else {
        digits_value(s.drop_last()) * 10 + (s.last() - 0x30)
    }
}

/// A run of decimal digits whose value fits 32 bits.
pub open spec fn parse_digits(d: Seq<u8>) -> Option<u32> {
    if d.len() > 0 && (forall|i: int| 0 <= i < d.len() ==> is_digit(#[trigger] d[i]))
        && digits_value(d) <= u32::MAX {
        Some(digits_value(d) as u32)
    } else {
        None
    }
}

/// `s` without a leading plus sign.
pub open spec fn unsigned_part(s: Seq<u8>) -> Seq<u8> {
    if s.len() > 0 && s[0] == 0x2b {
        s.subrange(1, s.len() as int)
    } else {
        s
    }
}

/// A decimal number that fits 32 bits, with an optional leading plus sign.
pub open spec fn parse_decimal(s: Seq<u8>) -> Option<u32> {
    parse_digits(unsigned_part(s))
}

/// The value of a hexadecimal digit, in either case.
pub open spec fn hex_digit(b: u8) -> Option<int> {
    if 0x30 <= b <= 0x39 {
        Some(b - 0x30)
    } else if 0x61 <= b <= 0x66 {
        Some(b - 0x61 + 10)
    } else if 0x41 <= b <= 0x46 {
        Some(b - 0x41 + 10)
    } else {
        None
    }
}

/// The value of a run of hexadecimal digits.
pub open spec fn hex_value(s: Seq<u8>) -> int
    decreases s.len(),
{
    if s.len() == 0 {
        0
    } else {
        hex_value(s.drop_last()) * 16 + hex_digit(s.last()).unwrap()
    }
}

/// A hexadecimal number that fits 16 bits; no digits at all read as zero.
pub open spec fn parse_hex(s: Seq<u8>) -> Option<u16> {
    if (forall|i: int| 0 <= i < s.len() ==> (#[trigger] hex_digit(s[i])) is Some) && hex_value(s)
        <= 0xffff {
        Some(hex_value(s) as u16)
    } else {
        None
    }
}

pub open spec fn starts_with(s: Seq<u8>, prefix: Seq<u8>) -> bool {
    s.len() >= prefix.len() && s.subrange(0, prefix.len() as int) == prefix
}

pub open spec fn word_next() -> Seq<u8> {
    seq![0x6eu8, 0x65, 0x78, 0x74]
}

pub open spec fn word_page() -> Seq<u8> {
    seq![0x70u8, 0x61, 0x67, 0x65]
}

pub open spec fn word_break() -> Seq<u8> {
    seq![0x62u8, 0x72, 0x65, 0x61, 0x6b]
}

pub open spec fn word_print() -> Seq<u8> {
    seq![0x70u8, 0x72, 0x69, 0x6e, 0x74]
}

pub open spec fn word_continue() -> Seq<u8> {
    seq![0x63u8, 0x6f, 0x6e, 0x74, 0x69, 0x6e, 0x75, 0x65]
}

pub open spec fn word_cpu() -> Seq<u8> {
    seq![0x63u8, 0x70, 0x75]
}

/// The command that a line typed at the prompt asks for:
/// `continue` (or `c`) runs on; `next [n]` (or `n [n]`) steps n instructions, one by default;
/// `page <hex>` asks for a page of memory; `break <hex>` sets a breakpoint;
/// `print [n]` (or `p [n]`) lists n instructions, one by default; `cpu` asks
/// for the registers.
pub open spec fn command_of(s: Seq<u8>) -> Option<DebuggerCmd> {
    if s == word_continue() || s == seq![0x63u8] {
        Some(DebuggerCmd::Continue)
    } else if starts_with(s, word_next()) || starts_with(s, seq![0x6eu8, 0x20]) || s == seq![0x6eu8] {
        match second_field(s) {
            None => Some(DebuggerCmd::Step(1)),
            Some(f) => match parse_decimal(f) {
                Some(n) => Some(DebuggerCmd::Step(n)),
                None => None,
            },
        }
    } else if starts_with(s, word_page()) {
        match second_field(s) {
            None => None,
            Some(f) => match parse_hex(f) {
                Some(a) => Some(DebuggerCmd::RequestPage((a % 256) as u8)),
                None => None,
            },
        }
    } else if starts_with(s, word_break()) {
        match second_field(s) {
            None => None,
            Some(f) => match parse_hex(f) {
                Some(a) => Some(DebuggerCmd::BreakPoint(a)),
                None => None,
            },
        }
    } else if starts_with(s, word_print()) || starts_with(s, seq![0x70u8, 0x20]) {
        match second_field(s) {
            None => Some(DebuggerCmd::Print(1)),
            Some(f) => match parse_decimal(f) {
                Some(n) => Some(DebuggerCmd::Print(n)),
                None => None,
            },
        }
    } else if s == word_cpu() {
        Some(DebuggerCmd::RequestCpuState)
    } else {
        None
    }
}

/// The index of the first space at or after `from`, or the length.
fn space_from(s: &[u8], from: usize) -> (i: usize)
    requires
        from <= s@.len(),
    ensures
        i == find_space(s@, from as int),
{
    let mut i = from;
    while i < s.len()
        invariant
            from <= i <= s@.len(),
            find_space(s@, from as int) == find_space(s@, i as int),
        decreases s.len() - i,
    {
        if s[i] == SPACE {
            return i;
        }
        i = i + 1;
    }
    i
}

/// Where the second space-separated field of `s` lies, if there is one.
fn field_bounds(s: &[u8]) -> (r: Option<(usize, usize)>)
    ensures
        match second_field(s@) {
            None => r is None,
            Some(f) => r matches Some((a, b)) && a <= b <= s@.len() && s@.subrange(a as int, b as int)
                == f,
        },
{
    let i = space_from(s, 0);
    if i >= s.len() {
        return None;
    }
    proof {
        lemma_find_space_bounds(s@, (i + 1) as int);
    }
    let j = space_from(s, i + 1);
    Some((i + 1, j))
}

proof fn lemma_find_space_bounds(s: Seq<u8>, from: int)
    requires
        0 <= from <= s.len(),
    ensures
        from <= find_space(s, from) <= s.len(),
    decreases s.len() - from,
{
    if from < s.len() && s[from] != SPACE {
        lemma_find_space_bounds(s, from + 1);
    }
}

/// Parses a decimal number that fits 32 bits, with an optional plus sign.
pub fn parse_u32(s: &[u8]) -> (r: Option<u32>)
    ensures
        r == parse_decimal(s@),
{
    let start: usize = if s.len() > 0 && s[0] == 0x2b {
        1
    } else {
        0
    };
    let ghost d = s@.subrange(start as int, s@.len() as int);
    assert(d =~= unsigned_part(s@));
    if start >= s.len() {
        return None;
    }
    let mut acc: u64 = 0;
    let mut i = start;
    while i < s.len()
        invariant
            start <= i <= s@.len(),
            d == s@.subrange(start as int, s@.len() as int),
            d == unsigned_part(s@),
            d.len() > 0,
            acc == digits_value(d.take(i - start)),
            acc <= u32::MAX,
            forall|k: int| 0 <= k < i - start ==> is_digit(#[trigger] d[k]),
        decreases s.len() - i,
    {
        let b = s[i];
        if b < 0x30 || b > 0x39 {
            assert(!is_digit(d[i - start]));
            assert(!(forall|k: int| 0 <= k < d.len() ==> is_digit(#[trigger] d[k])));
            assert(parse_digits(d) is None);
            return None;
        }
        assert(d.take(i - start + 1).drop_last() =~= d.take(i - start));
        acc = acc * 10 + (b - 0x30) as u64;
        if acc > u32::MAX as u64 {
            proof {
                if (forall|k: int| 0 <= k < d.len() ==> is_digit(#[trigger] d[k])) {
                    lemma_digits_grow(d, (i - start + 1) as int);
                    assert(digits_value(d) > u32::MAX);
                }
                assert(parse_digits(d) is None);
            }
            return None;
        }
        i = i + 1;
    }
    assert(d.take(i - start) =~= d);
    Some(acc as u32)
}

/// A prefix of digits is worth no more than the whole run.
proof fn lemma_digits_grow(d: Seq<u8>, k: int)
    requires
        0 <= k <= d.len(),
        forall|i: int| 0 <= i < d.len() ==> is_digit(#[trigger] d[i]),
    ensures
        digits_value(d.take(k)) <= digits_value(d),
    decreases d.len() - k,
{
    if k < d.len() {
        lemma_digits_grow(d, k + 1);
        assert(d.take(k + 1).drop_last() =~= d.take(k));
        lemma_digits_nonneg(d.take(k));
    } else {
        assert(d.take(k) =~= d);
    }
}

proof fn lemma_digits_nonneg(d: Seq<u8>)
    requires
        forall|i: int| 0 <= i < d.len() ==> is_digit(#[trigger] d[i]),
    ensures
        digits_value(d) >= 0,
    decreases d.len(),
{
    if d.len() > 0 {
        lemma_digits_nonneg(d.drop_last());
    }
}

proof fn lemma_hex_nonneg(d: Seq<u8>)
    requires
        forall|i: int| 0 <= i < d.len() ==> (#[trigger] hex_digit(d[i])) is Some,
    ensures
        hex_value(d) >= 0,
    decreases d.len(),
{
    if d.len() > 0 {
        lemma_hex_nonneg(d.drop_last());
    }
}

/// A prefix of hexadecimal digits is worth no more than the whole run.
proof fn lemma_hex_grow(d: Seq<u8>, k: int)
    requires
        0 <= k <= d.len(),
        forall|i: int| 0 <= i < d.len() ==> (#[trigger] hex_digit(d[i])) is Some,
    ensures
        hex_value(d.take(k)) <= hex_value(d),
    decreases d.len() - k,
{
    if k < d.len() {
        lemma_hex_grow(d, k + 1);
        assert(d.take(k + 1).drop_last() =~= d.take(k));
        lemma_hex_nonneg(d.take(k));
    } else {
        assert(d.take(k) =~= d);
    }
}

impl MemoryLocation {
    /// Parses a hexadecimal address; no digits at all read as zero.
    pub fn parse(s: &[u8]) -> (r: Result<MemoryLocation, MemoryLocationParseError>)
        ensures
            match parse_hex(s@) {
                Some(a) => r == Ok::<MemoryLocation, MemoryLocationParseError>(MemoryLocation(a)),
                None => r is Err,
            },
    {
        let mut addr: u16 = 0;
        let mut i: usize = 0;
        while i < s.len()
            invariant
                i <= s@.len(),
                addr == hex_value(s@.take(i as int)),
                forall|k: int| 0 <= k < i ==> (#[trigger] hex_digit(s@[k])) is Some,
            decreases s.len() - i,
        {
            let b = s[i];
            let val: u16 = if 0x30 <= b && b <= 0x39 {
                (b - 0x30) as u16
            } else if 0x61 <= b && b <= 0x66 {
                (b - 0x61 + 10) as u16
            } else if 0x41 <= b && b <= 0x46 {
                (b - 0x41 + 10) as u16
            } else {
                assert(hex_digit(s@[i as int]) is None);
                return Err(MemoryLocationParseError);
            };
            assert(s@.take(i + 1).drop_last() =~= s@.take(i as int));
            if addr > 0xfff || addr * 16 > 0xffff - val {
                proof {
                    if (forall|k: int| 0 <= k < s@.len() ==> (#[trigger] hex_digit(s@[k])) is Some) {
                        lemma_hex_grow(s@, i + 1);
                    }
                }
                return Err(MemoryLocationParseError);
            }
            addr = addr * 16 + val;
            i = i + 1;
        }
        assert(s@.take(i as int) =~= s@);
        Ok(MemoryLocation(addr))
    }
}

impl std::str::FromStr for MemoryLocation {
    type Err = MemoryLocationParseError;

    fn from_str(s: &str) -> (r: Result<MemoryLocation, MemoryLocationParseError>) {
        MemoryLocation::parse(s.as_bytes())
    }
}

/// Whether `s` begins with `prefix`.
fn has_prefix(s: &[u8], prefix: &[u8]) -> (b: bool)
    ensures
        b == starts_with(s@, prefix@),
{
    if s.len() < prefix.len() {
        return false;
    }
    let mut i: usize = 0;
    while i < prefix.len()
        invariant
            i <= prefix@.len() <= s@.len(),
            forall|k: int| 0 <= k < i ==> s@[k] == prefix@[k],
        decreases prefix.len() - i,
    {
        if s[i] != prefix[i] {
            assert(s@.subrange(0, prefix@.len() as int)[i as int] != prefix@[i as int]);
            return false;
        }
        i = i + 1;
    }
    assert(s@.subrange(0, prefix@.len() as int) =~= prefix@);
    true
}

/// Whether `s` is exactly `w`.
fn is_word(s: &[u8], w: &[u8]) -> (b: bool)
    ensures
        b == (s@ == w@),
{
    if s.len() != w.len() {
        return false;
    }
    let r = has_prefix(s, w);
    assert(s@ =~= s@.subrange(0, w@.len() as int));
    r
}

/// The count after a stepping or listing command: one when none is given.
fn count_field(s: &[u8]) -> (r: Result<u32, MalformedCommandError>)
    ensures
        match second_field(s@) {
            None => r == Ok::<u32, MalformedCommandError>(1),
            Some(f) => match parse_decimal(f) {
                Some(n) => r == Ok::<u32, MalformedCommandError>(n),
                None => r is Err,
            },
        },
{
    match field_bounds(s) {
        None => Ok(1),
        Some((a, b)) => match parse_u32(vstd::slice::slice_subrange(s, a, b)) {
            Some(n) => Ok(n),
            None => Err(MalformedCommandError),
        },
    }
}

/// The address after a page or breakpoint command, which must be given.
fn address_field(s: &[u8]) -> (r: Result<u16, MalformedCommandError>)
    ensures
        match second_field(s@) {
            None => r is Err,
            Some(f) => match parse_hex(f) {
                Some(a) => r == Ok::<u16, MalformedCommandError>(a),
                None => r is Err,
            },
        },
{
    match field_bounds(s) {
        None => Err(MalformedCommandError),
        Some((a, b)) => match MemoryLocation::parse(vstd::slice::slice_subrange(s, a, b)) {
            Ok(loc) => Ok(loc.0),
            Err(_) => Err(MalformedCommandError),
        },
    }
}

/// The command that a line typed at the prompt asks for.
pub fn parse_command(s: &[u8]) -> (r: Result<DebuggerCmd, MalformedCommandError>)
    ensures
        match command_of(s@) {
            Some(c) => r == Ok::<DebuggerCmd, MalformedCommandError>(c),
            None => r is Err,
        },
{
    let next: [u8; 4] = [0x6e, 0x65, 0x78, 0x74];
    let n_space: [u8; 2] = [0x6e, 0x20];
    let n_alone: [u8; 1] = [0x6e];
    let page: [u8; 4] = [0x70, 0x61, 0x67, 0x65];
    let brk: [u8; 5] = [0x62, 0x72, 0x65, 0x61, 0x6b];
    let print: [u8; 5] = [0x70, 0x72, 0x69, 0x6e, 0x74];
    let p_space: [u8; 2] = [0x70, 0x20];
    let cpu: [u8; 3] = [0x63, 0x70, 0x75];
    let cont: [u8; 8] = [0x63, 0x6f, 0x6e, 0x74, 0x69, 0x6e, 0x75, 0x65];
    let c_alone: [u8; 1] = [0x63];
    assert(cont@ =~= word_continue());
    assert(c_alone@ =~= seq![0x63u8]);
    assert(next@ =~= word_next());
    assert(n_space@ =~= seq![0x6eu8, 0x20]);
    assert(n_alone@ =~= seq![0x6eu8]);
    assert(page@ =~= word_page());
    assert(brk@ =~= word_break());
    assert(print@ =~= word_print());
    assert(p_space@ =~= seq![0x70u8, 0x20]);
    assert(cpu@ =~= word_cpu());
    if is_word(s, &cont) || is_word(s, &c_alone) {
        Ok(DebuggerCmd::Continue)
    } else if has_prefix(s, &next) || has_prefix(s, &n_space) || is_word(s, &n_alone) {
        Ok(DebuggerCmd::Step(count_field(s)?))
    } else if has_prefix(s, &page) {
        let a = address_field(s)?;
        Ok(DebuggerCmd::RequestPage((a % 256) as u8))
    } else if has_prefix(s, &brk) {
        Ok(DebuggerCmd::BreakPoint(address_field(s)?))
    } else if has_prefix(s, &print) || has_prefix(s, &p_space) {
        Ok(DebuggerCmd::Print(count_field(s)?))
    } else if is_word(s, &cpu) {
        Ok(DebuggerCmd::RequestCpuState)
    } else {
        Err(MalformedCommandError)
    }
}

/// The command that a line typed at the prompt asks for.
pub fn process_cmd(s: &str) -> (r: Result<DebuggerCmd, MalformedCommandError>)
    ensures
        match command_of(s.spec_bytes()) {
            Some(c) => r == Ok::<DebuggerCmd, MalformedCommandError>(c),
            None => r is Err,
        },
{
    parse_command(s.as_bytes())
}

impl From<MalformedCommandError> for FrontEndError {
    fn from(e: MalformedCommandError) -> (r: FrontEndError) {
        FrontEndError::DebuggerCommand(e)
    }
}

impl vstd::std_specs::convert::FromSpecImpl<MalformedCommandError> for FrontEndError {
    open spec fn obeys_from_spec() -> bool {
        true
    }

    open spec fn from_spec(e: MalformedCommandError) -> FrontEndError {
        FrontEndError::DebuggerCommand(e)
    }
}

impl From<CpuError> for FrontEndError {
    fn from(e: CpuError) -> (r: FrontEndError) {
        FrontEndError::Emulator(e)
    }
}

impl vstd::std_specs::convert::FromSpecImpl<CpuError> for FrontEndError {
    open spec fn obeys_from_spec() -> bool {
        true
    }

    open spec fn from_spec(e: CpuError) -> FrontEndError {
        FrontEndError::Emulator(e)
    }
}

impl From<DebuggerError> for FrontEndError {
    fn from(e: DebuggerError) -> (r: FrontEndError) {
        FrontEndError::Debugger(e)
    }
}

impl vstd::std_specs::convert::FromSpecImpl<DebuggerError> for FrontEndError {
    open spec fn obeys_from_spec() -> bool {
        true
    }

    open spec fn from_spec(e: DebuggerError) -> FrontEndError {
        FrontEndError::Debugger(e)
    }
}

impl From<std::io::Error> for FrontEndError {
    fn from(e: std::io::Error) -> (r: FrontEndError) {
        FrontEndError::Io(e)
    }
}

impl vstd::std_specs::convert::FromSpecImpl<std::io::Error> for FrontEndError {
    open spec fn obeys_from_spec() -> bool {
        true
    }

    open spec fn from_spec(e: std::io::Error) -> FrontEndError {
        FrontEndError::Io(e)
    }
}

impl From<MemoryLocationParseError> for MalformedCommandError {
    fn from(e: MemoryLocationParseError) -> (r: MalformedCommandError) {
        MalformedCommandError
    }
}

impl vstd::std_specs::convert::FromSpecImpl<MemoryLocationParseError> for MalformedCommandError {
    open spec fn obeys_from_spec() -> bool {
        true
    }

    open spec fn from_spec(e: MemoryLocationParseError) -> MalformedCommandError {
        MalformedCommandError
    }
}

} // verus!
