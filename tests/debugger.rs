use bbc_em::cpu::{Addressing, Instruction, OpCode, Registers};
use bbc_em::debugger::command::process_cmd;
use bbc_em::debugger::protocol::{DebuggerCmd, DebuggerResponse};
use bbc_em::debugger::Error;

#[test]
fn commands_parse() {
    assert_eq!(process_cmd("n"), Ok(DebuggerCmd::Step(1)));
    assert_eq!(process_cmd("next 5"), Ok(DebuggerCmd::Step(5)));
    assert_eq!(process_cmd("n 12"), Ok(DebuggerCmd::Step(12)));
    assert_eq!(process_cmd("page 1f"), Ok(DebuggerCmd::RequestPage(0x1f)));
    assert_eq!(process_cmd("page 1F2"), Ok(DebuggerCmd::RequestPage(0xf2)));
    assert_eq!(process_cmd("break c000"), Ok(DebuggerCmd::BreakPoint(0xc000)));
    assert_eq!(process_cmd("print"), Ok(DebuggerCmd::Print(1)));
    assert_eq!(process_cmd("p 3"), Ok(DebuggerCmd::Print(3)));
    assert_eq!(process_cmd("cpu"), Ok(DebuggerCmd::RequestCpuState));
}

#[test]
fn malformed_commands_are_refused() {
    assert!(process_cmd("next x").is_err());
    assert!(process_cmd("next 4294967296").is_err());
    assert!(process_cmd("page").is_err());
    assert!(process_cmd("break 10000").is_err());
    assert!(process_cmd("break zz").is_err());
    assert!(process_cmd("cpus").is_err());
    assert!(process_cmd("hello").is_err());
}

#[test]
fn command_frames_round_trip() {
    let cmds = [
        DebuggerCmd::Step(0x01020304),
        DebuggerCmd::Continue,
        DebuggerCmd::Restart,
        DebuggerCmd::RequestPage(7),
        DebuggerCmd::BreakPoint(0xc0de),
        DebuggerCmd::Print(9),
        DebuggerCmd::RequestCpuState,
    ];
    for c in cmds.iter() {
        let f = c.to_frame();
        assert_eq!(DebuggerCmd::from_frame(&f).unwrap(), (f.len(), *c));
    }
    assert_eq!(DebuggerCmd::Step(0x01020304).to_frame(), vec![1, 4, 0, 4, 3, 2, 1]);
    assert_eq!(DebuggerCmd::BreakPoint(0xc0de).to_frame(), vec![5, 2, 0, 0xde, 0xc0]);
    assert_eq!(DebuggerCmd::from_frame(&[0x42, 0, 0]).unwrap(), (3, DebuggerCmd::Unknown(0x42)));
}

#[test]
fn short_frames_are_protocol_errors() {
    assert!(matches!(DebuggerCmd::from_frame(&[1, 4, 0, 1]), Err(Error::Protocol)));
    assert!(matches!(DebuggerCmd::from_frame(&[1, 2, 0, 1, 2]), Err(Error::Protocol)));
    assert!(matches!(DebuggerCmd::from_frame(&[2]), Err(Error::Protocol)));
}

#[test]
fn message_frames_carry_utf8() {
    let f = DebuggerResponse::Message("hi".to_string()).to_frame().unwrap();
    assert_eq!(f, vec![3, 2, 0, b'h', b'i']);
    match DebuggerResponse::from_frame(&f).unwrap() {
        (5, DebuggerResponse::Message(s)) => assert_eq!(s, "hi"),
        _ => panic!("not a message"),
    }
    assert!(matches!(DebuggerResponse::from_frame(&[3, 1, 0, 0xff]), Err(Error::Protocol)));
}

#[test]
fn response_frames_round_trip() {
    let f = DebuggerResponse::Page(0x1200, vec![1, 2, 3]).to_frame().unwrap();
    assert_eq!(f, vec![2, 5, 0, 0x00, 0x12, 1, 2, 3]);
    match DebuggerResponse::from_frame(&f).unwrap() {
        (8, DebuggerResponse::Page(0x1200, m)) => assert_eq!(m, vec![1, 2, 3]),
        _ => panic!("not a page"),
    }
    let mut regs = Registers::new();
    regs.pc = 0xc0de;
    regs.acc = 7;
    regs.status.carry = true;
    let f = DebuggerResponse::CpuState(regs).to_frame().unwrap();
    match DebuggerResponse::from_frame(&f).unwrap() {
        (10, DebuggerResponse::CpuState(r)) => assert_eq!(r, regs),
        _ => panic!("not a register dump"),
    }
    let ins = Instruction(OpCode::Jmp, Addressing::Indirect(0x1234), 5);
    let f = DebuggerResponse::Instruction(0x8000, ins).to_frame().unwrap();
    assert_eq!(f, vec![1, 5, 0, 0x00, 0x80, 0x6c, 0x34, 0x12]);
    match DebuggerResponse::from_frame(&f).unwrap() {
        (8, DebuggerResponse::Instruction(0x8000, i)) => assert_eq!(i, ins),
        _ => panic!("not an instruction"),
    }
    assert_eq!(DebuggerResponse::StreamStart.to_frame().unwrap(), vec![0xfd, 0, 0]);
    assert_eq!(DebuggerResponse::StreamEnd.to_frame().unwrap(), vec![0xfe, 0, 0]);
}

#[test]
fn continue_commands_parse() {
    assert_eq!(process_cmd("continue"), Ok(DebuggerCmd::Continue));
    assert_eq!(process_cmd("c"), Ok(DebuggerCmd::Continue));
    assert!(process_cmd("cont").is_err());
}

#[test]
fn listing_decodes_from_the_program_counter() {
    let mut mem = bbc_em::memory::MemMap::new();
    mem.copy_into(0x2000, &[0xa9, 0x01, 0x02, 0xea]);
    let l = bbc_em::debugger::session::list_instructions(&mem, 0x2000, 3);
    assert_eq!(l.len(), 3);
    assert_eq!(l[0], (0x2000, Some(Instruction(OpCode::Lda, Addressing::Immediate(1), 2))));
    assert_eq!(l[1], (0x2002, None));
    assert_eq!(l[2], (0x2003, Some(Instruction(OpCode::Nop, Addressing::Implied, 2))));
    assert_eq!(bbc_em::debugger::session::list_instructions(&mem, 0xffff, 5).len(), 1);
}
