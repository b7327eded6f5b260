use vm::error::VmError;
use vm::exec::State;
use vm::model::StepOutcome;

fn fresh(words: Vec<u16>) -> State {
    State::build(words)
}

#[test]
fn resolve_literal_is_itself() {
    let s = fresh(vec![]);
    assert_eq!(s.resolve_value(0), Ok(0));
    assert_eq!(s.resolve_value(5), Ok(5));
    assert_eq!(s.resolve_value(32767), Ok(32767));
}

#[test]
fn resolve_register_reads_register() {
    let mut s = fresh(vec![]);
    for k in 0..8usize {
        assert_eq!(s.resolve_value(32768 + k as u16), Ok(0));
    }
    s.write_register(3, 77);
    assert_eq!(s.resolve_value(32771), Ok(77));
    assert_eq!(s.resolve_value(32768), Ok(0));
}

#[test]
fn resolve_above_register_range_is_fatal() {
    let s = fresh(vec![]);
    assert_eq!(s.resolve_value(32776), Err(VmError::InvalidOperand(32776)));
    assert_eq!(s.resolve_value(65535), Err(VmError::InvalidOperand(65535)));
}

#[test]
fn add_out_halt_scenario() {
    // Add r0, 4, 5; Out r0; Halt.
    let mut s = fresh(vec![9, 32768, 4, 5, 19, 32768, 0]);
    assert_eq!(s.run_steps(100), Ok(StepOutcome::Halted));
    assert!(s.is_halted());
    assert_eq!(s.read_register(0), 9);
    assert_eq!(s.read_output().as_slice(), &[9u8]);
}

#[test]
fn noop_halt_advances_ip() {
    let mut s = fresh(vec![21, 0]);
    assert_eq!(s.get_ip(), 0);
    assert_eq!(s.step_one_instruction(), Ok(StepOutcome::Continue));
    assert_eq!(s.get_ip(), 1);
    assert_eq!(s.step_one_instruction(), Ok(StepOutcome::Halted));
    assert_eq!(s.get_ip(), 2);
    assert!(s.is_halted());
    assert!(s.read_output().is_empty());
    for k in 0..8usize {
        assert_eq!(s.read_register(k), 0);
    }
}

#[test]
fn halted_machine_stays_halted() {
    let mut s = fresh(vec![0]);
    assert_eq!(s.step_one_instruction(), Ok(StepOutcome::Halted));
    assert_eq!(s.step_one_instruction(), Ok(StepOutcome::Halted));
    assert!(s.is_halted());
}

#[test]
fn add_is_commutative_mod_32768() {
    let mut a = fresh(vec![9, 32768, 32000, 32000, 0]);
    let mut b = fresh(vec![9, 32768, 32000, 32000, 0]);
    assert_eq!(a.run_steps(10), Ok(StepOutcome::Halted));
    assert_eq!(b.run_steps(10), Ok(StepOutcome::Halted));
    assert_eq!(a.read_register(0), b.read_register(0));
    assert_eq!(a.read_register(0), 31232); // (32000 + 32000) mod 32768
}

#[test]
fn mult_is_commutative_mod_32768() {
    let mut a = fresh(vec![10, 32768, 300, 200, 0]);
    let mut b = fresh(vec![10, 32768, 200, 300, 0]);
    assert_eq!(a.run_steps(10), Ok(StepOutcome::Halted));
    assert_eq!(b.run_steps(10), Ok(StepOutcome::Halted));
    assert_eq!(a.read_register(0), b.read_register(0));
    assert_eq!(a.read_register(0), 27232); // (300 * 200) mod 32768
}

#[test]
fn mod_with_zero_divisor_is_fatal() {
    let mut s = fresh(vec![11, 32768, 5, 0, 0]);
    assert_eq!(s.run_steps(10), Err(VmError::DivideByZero));
    assert!(!s.is_halted());
    assert_eq!(s.read_register(0), 0);
}

#[test]
fn mod_with_nonzero_divisor() {
    let mut s = fresh(vec![11, 32768, 17, 5, 0]);
    assert_eq!(s.run_steps(10), Ok(StepOutcome::Halted));
    assert_eq!(s.read_register(0), 2);
}

#[test]
fn self_modification_is_observed_by_decode() {
    // WMem 4, 65 overwrites the operand of the Out at address 3; the
    // decoder re-reads memory, so the Out emits 65.
    let mut s = fresh(vec![16, 4, 65, 19, 0, 0]);
    assert_eq!(s.run_steps(10), Ok(StepOutcome::Halted));
    assert_eq!(s.read_memory_word(4), Some(65));
    assert_eq!(s.read_output().as_slice(), &[65u8]);
}

#[test]
fn call_pushes_return_address_and_ret_comes_back() {
    // Call 3; Halt at 2; Ret at 3.
    let mut s = fresh(vec![17, 3, 0, 18]);
    assert_eq!(s.step_one_instruction(), Ok(StepOutcome::Continue));
    assert_eq!(s.get_ip(), 3);
    assert_eq!(s.read_stack().as_slice(), &[2u16]);
    assert_eq!(s.step_one_instruction(), Ok(StepOutcome::Continue));
    assert_eq!(s.get_ip(), 2);
    assert!(s.read_stack().is_empty());
    assert_eq!(s.step_one_instruction(), Ok(StepOutcome::Halted));
}

#[test]
fn nested_calls_return_in_order() {
    // Call 3; Halt at 2; Call 6 at 3; Ret at 5; Ret at 6.
    let mut s = fresh(vec![17, 3, 0, 17, 6, 18, 18]);
    assert_eq!(s.step_one_instruction(), Ok(StepOutcome::Continue)); // Call 3
    assert_eq!(s.step_one_instruction(), Ok(StepOutcome::Continue)); // Call 6
    assert_eq!(s.read_stack().as_slice(), &[2u16, 5u16]);
    assert_eq!(s.step_one_instruction(), Ok(StepOutcome::Continue)); // Ret -> 5
    assert_eq!(s.get_ip(), 5);
    assert_eq!(s.step_one_instruction(), Ok(StepOutcome::Continue)); // Ret -> 2
    assert_eq!(s.get_ip(), 2);
    assert!(s.read_stack().is_empty());
    assert_eq!(s.step_one_instruction(), Ok(StepOutcome::Halted));
}

#[test]
fn ret_on_empty_stack_halts_without_error() {
    let mut s = fresh(vec![18]);
    assert_eq!(s.step_one_instruction(), Ok(StepOutcome::Halted));
    assert!(s.is_halted());
}

#[test]
fn input_delivers_one_character_per_in() {
    // Four In r0 instructions, then Halt.
    let mut s = fresh(vec![20, 32768, 20, 32768, 20, 32768, 20, 32768, 0]);
    assert_eq!(s.run_steps(100), Ok(StepOutcome::NeedInput));
    s.start_buffering_string(b"AB\n".to_vec());
    assert_eq!(s.step_one_instruction(), Ok(StepOutcome::Continue));
    assert_eq!(s.read_register(0), b'A' as u16);
    assert_eq!(s.step_one_instruction(), Ok(StepOutcome::Continue));
    assert_eq!(s.read_register(0), b'B' as u16);
    assert_eq!(s.step_one_instruction(), Ok(StepOutcome::Continue));
    assert_eq!(s.read_register(0), b'\n' as u16);
    assert!(!s.is_buffering_string());
    // The fourth In asks for a fresh line.
    assert_eq!(s.run_steps(100), Ok(StepOutcome::NeedInput));
}

#[test]
fn input_line_without_newline_empties_buffer() {
    let mut s = fresh(vec![20, 32768, 20, 32768, 20, 32768, 0]);
    assert_eq!(s.run_steps(100), Ok(StepOutcome::NeedInput));
    s.start_buffering_string(b"AB".to_vec());
    assert_eq!(s.step_one_instruction(), Ok(StepOutcome::Continue));
    assert_eq!(s.step_one_instruction(), Ok(StepOutcome::Continue));
    assert_eq!(s.read_register(0), b'B' as u16);
    assert!(!s.is_buffering_string());
    assert_eq!(s.run_steps(100), Ok(StepOutcome::NeedInput));
}

#[test]
fn buffering_an_empty_line_buffers_nothing() {
    let mut s = fresh(vec![20, 32768, 0]);
    s.start_buffering_string(Vec::new());
    assert!(!s.is_buffering_string());
    assert_eq!(s.run_steps(10), Ok(StepOutcome::NeedInput));
}

#[test]
fn in_with_literal_destination_is_fatal() {
    let mut s = fresh(vec![20, 5]);
    s.start_buffering_string(b"x\n".to_vec());
    assert_eq!(s.step_one_instruction(), Err(VmError::InvalidOperand(5)));
}

#[test]
fn pop_on_empty_stack_is_fatal() {
    let mut s = fresh(vec![3, 32768]);
    assert_eq!(s.run_steps(10), Err(VmError::StackUnderflow));
}

#[test]
fn push_then_pop_round_trips() {
    let mut s = fresh(vec![2, 42, 3, 32770, 0]);
    assert_eq!(s.run_steps(10), Ok(StepOutcome::Halted));
    assert_eq!(s.read_register(2), 42);
    assert!(s.read_stack().is_empty());
}

#[test]
fn unknown_opcode_is_fatal() {
    let mut s = fresh(vec![22]);
    assert_eq!(s.step_one_instruction(), Err(VmError::InvalidOpcode(22)));
    assert_eq!(s.get_ip(), 0);
}

#[test]
fn illegal_operand_is_fatal() {
    let mut s = fresh(vec![1, 32768, 32776]);
    assert_eq!(s.run_steps(10), Err(VmError::InvalidOperand(32776)));
}

#[test]
fn fetch_at_unset_address_is_fatal() {
    let mut s = fresh(vec![6, 100]);
    assert_eq!(s.step_one_instruction(), Ok(StepOutcome::Continue));
    assert_eq!(s.get_ip(), 100);
    assert_eq!(s.step_one_instruction(), Err(VmError::InvalidAddress(100)));
}

#[test]
fn conditional_jumps_test_the_condition() {
    let mut taken = fresh(vec![7, 1, 4, 0, 21, 0]);
    assert_eq!(taken.run_steps(10), Ok(StepOutcome::Halted));
    assert_eq!(taken.get_ip(), 6);

    let mut not_taken = fresh(vec![7, 0, 4, 0]);
    assert_eq!(not_taken.run_steps(10), Ok(StepOutcome::Halted));
    assert_eq!(not_taken.get_ip(), 4);

    let mut false_taken = fresh(vec![8, 0, 4, 0, 21, 0]);
    assert_eq!(false_taken.run_steps(10), Ok(StepOutcome::Halted));
    assert_eq!(false_taken.get_ip(), 6);
}

#[test]
fn bitwise_operations() {
    let mut and = fresh(vec![12, 32768, 12, 10, 0]);
    assert_eq!(and.run_steps(10), Ok(StepOutcome::Halted));
    assert_eq!(and.read_register(0), 8);

    let mut or = fresh(vec![13, 32768, 12, 10, 0]);
    assert_eq!(or.run_steps(10), Ok(StepOutcome::Halted));
    assert_eq!(or.read_register(0), 14);

    let mut not = fresh(vec![14, 32768, 5, 0]);
    assert_eq!(not.run_steps(10), Ok(StepOutcome::Halted));
    assert_eq!(not.read_register(0), 32762);
}

#[test]
fn comparisons_write_one_or_zero() {
    let mut eq = fresh(vec![4, 32768, 5, 5, 0]);
    assert_eq!(eq.run_steps(10), Ok(StepOutcome::Halted));
    assert_eq!(eq.read_register(0), 1);

    let mut gt = fresh(vec![5, 32768, 7, 5, 0]);
    assert_eq!(gt.run_steps(10), Ok(StepOutcome::Halted));
    assert_eq!(gt.read_register(0), 1);

    let mut ngt = fresh(vec![5, 32768, 5, 7, 0]);
    assert_eq!(ngt.run_steps(10), Ok(StepOutcome::Halted));
    assert_eq!(ngt.read_register(0), 0);
}

#[test]
fn set_writes_register() {
    let mut s = fresh(vec![1, 32768, 12345, 0]);
    assert_eq!(s.run_steps(10), Ok(StepOutcome::Halted));
    assert_eq!(s.read_register(0), 12345);
}

#[test]
fn rmem_reads_current_memory() {
    let mut s = fresh(vec![15, 32768, 0, 0]);
    assert_eq!(s.run_steps(10), Ok(StepOutcome::Halted));
    assert_eq!(s.read_register(0), 15);
}

#[test]
fn out_emits_low_eight_bits() {
    let mut s = fresh(vec![1, 32768, 321, 19, 32768, 0]);
    assert_eq!(s.run_steps(10), Ok(StepOutcome::Halted));
    assert_eq!(s.read_output().as_slice(), &[65u8]);
}

#[test]
fn run_steps_stops_at_fuel() {
    let mut s = fresh(vec![6, 0]);
    assert_eq!(s.run_steps(10), Ok(StepOutcome::Continue));
    assert!(!s.is_halted());
}

#[test]
fn run_steps_with_no_fuel_changes_nothing() {
    let mut s = fresh(vec![21, 0]);
    assert_eq!(s.run_steps(0), Ok(StepOutcome::Continue));
    assert_eq!(s.get_ip(), 0);
    assert!(!s.is_halted());
}

#[test]
fn inspection_interface_edits_state() {
    let mut s = fresh(vec![21, 21, 0]);
    s.set_ip(2);
    assert_eq!(s.get_ip(), 2);
    assert_eq!(s.step_one_instruction(), Ok(StepOutcome::Halted));

    let mut t = fresh(vec![21]);
    t.write_mem(1, 0);
    assert_eq!(t.read_memory_word(1), Some(0));
    assert_eq!(t.read_memory_word(2), None);
    assert_eq!(t.run_steps(10), Ok(StepOutcome::Halted));

    let mut u = fresh(vec![]);
    u.write_register(7, 999);
    assert_eq!(u.read_register(7), 999);
}
