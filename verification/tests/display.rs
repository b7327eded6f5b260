use vm::debug::{Debugger, Statistics};
use vm::error::VmError;
use vm::exec::{Instruction, State};
use vm::loader::decode_image;
use vm::model::StepOutcome;
use vm::opcode::Opcode;
use vm::util::{maybe_to_ascii, maybe_to_ascii_coded, register_pretty, to_ascii, u64_to_string};

#[test]
fn opcode_table_maps_every_raw_code() {
    assert!(matches!(Opcode::from(0), Opcode::Halt));
    assert!(matches!(Opcode::from(1), Opcode::SetReg));
    assert!(matches!(Opcode::from(9), Opcode::Add));
    assert!(matches!(Opcode::from(18), Opcode::Ret));
    assert!(matches!(Opcode::from(21), Opcode::Noop));
    assert!(matches!(Opcode::from(22), Opcode::Unknown));
    assert!(matches!(Opcode::from(65535), Opcode::Unknown));
}

#[test]
fn arg_counts_match_the_instruction_set() {
    assert_eq!(Opcode::Halt.arg_count(), 0);
    assert_eq!(Opcode::SetReg.arg_count(), 2);
    assert_eq!(Opcode::Add.arg_count(), 3);
    assert_eq!(Opcode::Jmp.arg_count(), 1);
    assert_eq!(Opcode::JmpIfTrue.arg_count(), 2);
    assert_eq!(Opcode::Ret.arg_count(), 0);
    assert_eq!(Opcode::Unknown.arg_count(), 0);
}

#[test]
fn to_ascii_maps_only_low_words() {
    assert_eq!(to_ascii(65), Some('A'));
    assert_eq!(to_ascii(10), Some('\n'));
    assert_eq!(to_ascii(127), Some('\u{7f}'));
    assert_eq!(to_ascii(128), None);
    assert_eq!(to_ascii(32768), None);
}

#[test]
fn maybe_to_ascii_uses_placeholder() {
    assert_eq!(maybe_to_ascii(66), 'B');
    assert_eq!(maybe_to_ascii(128), '.');
    assert_eq!(maybe_to_ascii(65535), '.');
}

#[test]
fn masking_transform_is_exclusive_or() {
    // (n | key) & !(n & key) is n XOR key, so masking twice gives n back.
    assert_eq!(maybe_to_ascii_coded(70, 0), 'F');
    assert_eq!(maybe_to_ascii_coded(1, 3), '\u{2}');
    assert_eq!(maybe_to_ascii_coded(70 ^ 13, 13), 'F');
}

#[test]
fn register_pretty_names_registers() {
    assert_eq!(register_pretty(&32768), "r0");
    assert_eq!(register_pretty(&32775), "r7");
    assert_eq!(register_pretty(&123), "123");
    assert_eq!(register_pretty(&0), "0");
}

#[test]
fn decimal_rendering_is_exact() {
    assert_eq!(u64_to_string(0), "0");
    assert_eq!(u64_to_string(7), "7");
    assert_eq!(u64_to_string(65535), "65535");
    assert_eq!(u64_to_string(100000), "100000");
}

#[test]
fn instruction_disassembles_resolved_and_raw_operands() {
    let mut s = State::build(vec![9, 32768, 4, 5]);
    let ins = Instruction::build(Opcode::from(9), &mut s).unwrap();
    assert_eq!(ins.disassemble(), "Add / 32768, 4, 5 / r0, 4, 5");
}

#[test]
fn instruction_build_resolves_register_operands() {
    let mut s = State::build(vec![9, 32768, 32769, 5]);
    s.write_register(1, 40);
    let ins = Instruction::build(Opcode::from(9), &mut s).unwrap();
    assert_eq!(ins.args, vec![32768, 40, 5]);
    assert_eq!(ins.unresolved_args, vec![32768, 32769, 5]);
    assert_eq!(s.get_ip(), 4);
}

#[test]
fn instruction_build_reports_illegal_operand() {
    let mut s = State::build(vec![9, 32768, 32776, 5]);
    let r = Instruction::build(Opcode::from(9), &mut s);
    assert_eq!(r.err(), Some(VmError::InvalidOperand(32776)));
    assert_eq!(s.get_ip(), 0);
}

#[test]
fn listing_renders_addresses_opcodes_and_operands() {
    let lines = vm::disasm::disassemble_instructions(vec![9, 32768, 4, 5, 19, 32768, 0]);
    assert_eq!(
        lines,
        vec![
            "    0: Add r0, (\u{4})4, (\u{5})5".to_string(),
            "    4: Out r0".to_string(),
            "    6: Halt ".to_string(),
        ]
    );
}

#[test]
fn listing_echoes_unknown_opcodes_and_blanks_after_ret() {
    let lines = vm::disasm::disassemble_instructions(vec![18, 99]);
    assert_eq!(
        lines,
        vec!["    0: Ret ".to_string(), "".to_string(), "    1: 99 ".to_string()]
    );
}

#[test]
fn listing_tolerates_truncated_operands() {
    let lines = vm::disasm::disassemble_instructions(vec![9, 32768]);
    assert_eq!(lines, vec!["    0: Add r0".to_string()]);
}

#[test]
fn dump_renders_the_whole_snapshot() {
    let s = State::build(vec![9, 32768, 4, 5]);
    let expected = "IP\n0\n9\n\nRegisters\n[0,0,0,0,0,0,0,0]\n\nStack\n[]\n\nMemory\n[[0,9],[1,32768],[2,4],[3,5]]";
    assert_eq!(s.dump(), expected);
}

#[test]
fn dump_reflects_executed_state() {
    let mut s = State::build(vec![2, 42, 21, 0]);
    assert_eq!(s.run_steps(10), Ok(StepOutcome::Halted));
    let expected = "IP\n4\n?\n\nRegisters\n[0,0,0,0,0,0,0,0]\n\nStack\n[42]\n\nMemory\n[[0,2],[1,42],[2,21],[3,0]]";
    assert_eq!(s.dump(), expected);
}

#[test]
fn loader_decodes_little_endian_pairs() {
    let words = decode_image(&vec![0x09, 0x00, 0x00, 0x80, 0x04, 0x00]).unwrap();
    assert_eq!(words, vec![9, 32768, 4]);
    assert_eq!(decode_image(&Vec::new()).unwrap(), Vec::<u16>::new());
}

#[test]
fn loader_rejects_a_trailing_odd_byte() {
    assert_eq!(decode_image(&vec![0x09, 0x00, 0x01]), Err(VmError::LoadError));
}

#[test]
fn loaded_image_runs_end_to_end() {
    let bytes = vec![
        0x09, 0x00, 0x00, 0x80, 0x04, 0x00, 0x05, 0x00, 0x13, 0x00, 0x00, 0x80, 0x00, 0x00,
    ];
    let words = decode_image(&bytes).unwrap();
    let mut s = State::build(words);
    assert_eq!(s.run_steps(100), Ok(StepOutcome::Halted));
    assert_eq!(s.read_register(0), 9);
    assert_eq!(s.read_output().as_slice(), &[9u8]);
}

#[test]
fn statistics_count_calls_and_instructions() {
    let mut stats = Statistics::new();
    assert_eq!(stats.get_call_count(1500), 0);
    assert_eq!(stats.get_instruction_count(), 0);
    stats.record_call(1500);
    stats.record_call(1500);
    stats.record_call(7);
    stats.record_instruction();
    assert_eq!(stats.get_call_count(1500), 2);
    assert_eq!(stats.get_call_count(7), 1);
    assert_eq!(stats.get_call_count(8), 0);
    assert_eq!(stats.get_instruction_count(), 1);
}

#[test]
fn debugger_enables_on_registered_breakpoint() {
    let mut d = Debugger::build();
    assert!(!d.enabled);
    d.check_for_breakpoints(5);
    assert!(!d.enabled);
    d.register_breakpoint(5);
    d.register_breakpoint(5);
    assert_eq!(d.breakpoints, vec![5]);
    d.check_for_breakpoints(4);
    assert!(!d.enabled);
    d.check_for_breakpoints(5);
    assert!(d.enabled);
}

#[test]
fn debugger_enable_is_sticky() {
    let mut d = Debugger::build();
    d.enable();
    assert!(d.enabled);
    d.check_for_breakpoints(0);
    assert!(d.enabled);
}
