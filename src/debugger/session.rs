use vstd::prelude::*;

use crate::cpu::decode::spec_decode;
use crate::cpu::{decode_instruction, Instruction};
use crate::debugger::protocol::DebuggerCmd;
use crate::memory::map::MemMap;

verus! {

/// Whether the emulator under the debugger runs.
#[derive(Debug, PartialEq, Eq, Structural, Clone, Copy)]
pub enum DebuggerState {
    Stop,
    Run,
    /// Runs this many more instructions, reporting each.
    Step(u32),
}

/// What the back end does about a command from the front end.
#[derive(Debug, PartialEq, Eq, Structural, Clone, Copy)]
pub enum CommandAction {
    Nothing,
    /// Start a stream of reports.
    StartStream,
    /// Send the page of memory that starts at this address.
    SendPage(u16),
    /// Confirm the breakpoint set at this address.
    BreakpointSet(u16),
    /// Send the registers.
    SendCpuState,
    /// List this many instructions from the program counter.
    List(u32),
}

/// What the back end does before a step of the emulator.
#[derive(Debug, PartialEq, Eq, Structural, Clone, Copy)]
pub enum StepDecision {
    /// Do not step.
    Pause,
    /// End the stream of reports, and do not step.
    EndStream,
    /// Step, then report the instruction at the program counter.
    StepAndReport,
    /// Step, then look for a breakpoint at the program counter.
    Run,
}

/// The state of a debugging session: whether the emulator runs, the
/// breakpoints, and the breakpoint that stopped it, if any.
pub struct Session {
    state: DebuggerState,
    breakpoints: Vec<u16>,
    active_breakpoint: Option<u16>,
}

/// The abstract state of a session.
pub struct SessionView {
    pub state: DebuggerState,
    pub breakpoints: Seq<u16>,
    pub active_breakpoint: Option<u16>,
}

impl View for Session {
    type V = SessionView;

    closed spec fn view(&self) -> SessionView {
        SessionView {
            state: self.state,
            breakpoints: self.breakpoints@,
            active_breakpoint: self.active_breakpoint,
        }
    }
}

/// The session after a command, and what to do about it.
pub open spec fn commanded(s: SessionView, cmd: DebuggerCmd) -> (SessionView, CommandAction) {
    match cmd {
        DebuggerCmd::Step(n) => (
            SessionView { state: DebuggerState::Step(n), active_breakpoint: None, ..s },
            CommandAction::StartStream,
        ),
        DebuggerCmd::Continue => (
            SessionView { state: DebuggerState::Run, active_breakpoint: None, ..s },
            CommandAction::Nothing,
        ),
        DebuggerCmd::RequestPage(p) => (s, CommandAction::SendPage((p * 256) as u16)),
        DebuggerCmd::BreakPoint(a) => (
            SessionView { breakpoints: s.breakpoints.push(a), ..s },
            CommandAction::BreakpointSet(a),
        ),
        DebuggerCmd::RequestCpuState => (s, CommandAction::SendCpuState),
        DebuggerCmd::Print(n) => (s, CommandAction::List(n)),
        _ => (s, CommandAction::Nothing),
    }
}

/// The session before a step, and what to do about the step.
pub open spec fn deciding(s: SessionView) -> (SessionView, StepDecision) {
    match s.state {
        DebuggerState::Stop => (s, StepDecision::Pause),
        DebuggerState::Step(n) => if n == 0 {
            (SessionView { state: DebuggerState::Stop, ..s }, StepDecision::EndStream)
        } else {
            (SessionView { state: DebuggerState::Step((n - 1) as u32), ..s }, StepDecision::StepAndReport)
        },
        DebuggerState::Run => if s.active_breakpoint is Some {
            (s, StepDecision::Pause)
        } else {
            (s, StepDecision::Run)
        },
    }
}

impl Session {
    /// A session that starts stopped, with no breakpoints.
    pub fn new() -> (s: Session)
        ensures
            s@.state == DebuggerState::Stop,
            s@.breakpoints.len() == 0,
            s@.active_breakpoint is None,
    {
        Session { state: DebuggerState::Stop, breakpoints: Vec::new(), active_breakpoint: None }
    }

    pub fn state(&self) -> (s: DebuggerState)
        ensures
            s == self@.state,
    {
        self.state
    }

    /// Takes a command from the front end.
    pub fn on_command(&mut self, cmd: DebuggerCmd) -> (a: CommandAction)
        ensures
            (final(self)@, a) == commanded(old(self)@, cmd),
    {
        match cmd {
            DebuggerCmd::Step(n) => {
                self.state = DebuggerState::Step(n);
                self.active_breakpoint = None;
                CommandAction::StartStream
            },
            DebuggerCmd::Continue => {
                self.state = DebuggerState::Run;
                self.active_breakpoint = None;
                CommandAction::Nothing
            },
            DebuggerCmd::RequestPage(p) => CommandAction::SendPage(p as u16 * 256),
            DebuggerCmd::BreakPoint(a) => {
                self.breakpoints.push(a);
                CommandAction::BreakpointSet(a)
            },
            DebuggerCmd::RequestCpuState => CommandAction::SendCpuState,
            DebuggerCmd::Print(n) => CommandAction::List(n),
            _ => CommandAction::Nothing,
        }
    }

    /// Decides whether the emulator steps.
    pub fn before_step(&mut self) -> (d: StepDecision)
        ensures
            (final(self)@, d) == deciding(old(self)@),
    {
        match self.state {
            DebuggerState::Stop => StepDecision::Pause,
            DebuggerState::Step(n) => {
                if n == 0 {
                    self.state = DebuggerState::Stop;
                    StepDecision::EndStream
                } else {
                    self.state = DebuggerState::Step(n - 1);
                    StepDecision::StepAndReport
                }
            },
            DebuggerState::Run => {
                if self.active_breakpoint.is_some() {
                    StepDecision::Pause
                } else {
                    StepDecision::Run
                }
            },
        }
    }

    /// After a step in run mode: a breakpoint at the program counter stops the
    /// emulator, and true is returned.
    pub fn after_step(&mut self, pc: u16) -> (hit: bool)
        ensures
            hit == old(self)@.breakpoints.contains(pc),
            final(self)@ == if hit {
                SessionView {
                    state: DebuggerState::Stop,
                    active_breakpoint: Some(pc),
                    ..old(self)@
                }
            } else {
                old(self)@
            },
    {
        let mut i: usize = 0;
        while i < self.breakpoints.len()
            invariant
                self@ == old(self)@,
                i <= self.breakpoints@.len(),
                forall|k: int| 0 <= k < i ==> self.breakpoints@[k] != pc,
            decreases self.breakpoints.len() - i,
        {
            if self.breakpoints[i] == pc {
                self.active_breakpoint = Some(pc);
                self.state = DebuggerState::Stop;
                assert(old(self)@.breakpoints[i as int] == pc);
                return true;
            }
            i = i + 1;
        }
        false
    }
}

/// A listing of `count` instructions from `addr`, each with its address: the
/// instruction there, or none when the bytes do not decode, in which case the
/// listing moves on by one byte. It stops at the end of memory.
pub open spec fn listing(bytes: Seq<u8>, addr: int, count: nat) -> Seq<(u16, Option<Instruction>)>
    decreases count,
{
    if count == 0 || addr < 0 || addr >= 0x10000 {
        Seq::empty()
    } else {
        match spec_decode(bytes.subrange(addr, 0x10000)) {
            Some((n, ins)) => seq![(addr as u16, Some(ins))] + listing(
                bytes,
                addr + n,
                (count - 1) as nat,
            ),
            None => seq![(addr as u16, None::<Instruction>)] + listing(
                bytes,
                addr + 1,
                (count - 1) as nat,
            ),
        }
    }
}

/// Lists `count` instructions from `pc`.
pub fn list_instructions(mem: &MemMap, pc: u16, count: u32) -> (v: Vec<(u16, Option<Instruction>)>)
    requires
        mem.wf(),
    ensures
        v@ == listing(mem@.bytes, pc as int, count as nat),
{
    proof {
        mem.lemma_wf();
    }
    let mut out: Vec<(u16, Option<Instruction>)> = Vec::new();
    let mut addr: usize = pc as usize;
    let mut num: u32 = count;
    while num > 0 && addr < 0x10000
        invariant
            mem.wf(),
            mem@.bytes.len() == 0x10000,
            addr <= 0x10000,
            out@ + listing(mem@.bytes, addr as int, num as nat) == listing(
                mem@.bytes,
                pc as int,
                count as nat,
            ),
        decreases num,
    {
        let region = match mem.region_from(addr..) {
            Ok(r) => r.0,
            Err(e) => e.0.0,
        };
        let ghost rest = listing(mem@.bytes, addr as int, num as nat);
        let ghost before = out@;
        match decode_instruction(region) {
            Ok((n, ins)) => {
                out.push((addr as u16, Some(ins)));
                addr = addr + n;
            },
            Err(_) => {
                out.push((addr as u16, None));
                addr = addr + 1;
            },
        }
        num = num - 1;
        assert(before + rest =~= out@ + listing(mem@.bytes, addr as int, num as nat));
    }
    assert(listing(mem@.bytes, addr as int, num as nat) =~= Seq::<(u16, Option<Instruction>)>::empty());
    assert(out@ =~= out@ + Seq::<(u16, Option<Instruction>)>::empty());
    out
}

} // verus!
