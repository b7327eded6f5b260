use vstd::prelude::*;

use crate::error::VmError;
use crate::disasm::{disassemble_spec, join_dec, join_pretty};
use crate::model::{
    advance, decode_raws, decode_spec, initial_model, lemma_decode_raws_err,
    lemma_resolve_args_err, lemma_run_n_snoc, lemma_run_n_stable, reg_index_ok, resolve_args,
    resolve_spec, run_n, step_spec, word_at, Model, StepOutcome, ADDRESS_SPACE, REGISTER_BASE,
    REGISTER_COUNT, REGISTER_TOP,
};
use crate::opcode::{arity, Opcode};
use crate::snapshot::{dump_spec, json_cells, json_words, mem_cells};
use crate::util::u64_to_string;
use vstd::string::StringExecFns;

verus! {

/// A decoded instruction: the opcode tag, the operand words exactly as
/// they stood in memory, and the operand values after the per-opcode
/// resolution policy (a read operand dereferenced through the register
/// file, a write target kept raw).
pub struct Instruction {
    pub opcode: Opcode,
    pub unresolved_args: Vec<u16>,
    pub args: Vec<u16>,
}

impl Instruction {
    /// Reads and resolves the operands of `opcode`, whose word stands at
    /// the instruction pointer, re-reading current memory for every
    /// operand, and moves the instruction pointer past the instruction.
    /// On a fatal condition (an unset operand slot, an illegal operand)
    /// the machine is left exactly as it was.
    pub fn build(opcode: Opcode, state: &mut State) -> (r: Result<Instruction, VmError>)
        requires
            old(state).wf(),
        ensures
            final(state).wf(),
            ({
                let d = decode_spec(old(state)@, opcode);
                match (d, r) {
                    (Ok(p), Ok(ins)) => {
                        &&& ins.opcode == opcode
                        &&& ins.unresolved_args@ == p.0
                        &&& ins.args@ == p.1
                        &&& ins.unresolved_args@.len() == arity(opcode)
                        &&& ins.args@.len() == arity(opcode)
                        &&& final(state)@ == advance(old(state)@, opcode)
                    },
                    (Err(e), Err(e2)) => e == e2 && final(state)@ == old(state)@,
                    _ => false,
                }
            }),
    {
        let n = opcode.arg_count();
        let mut raws: Vec<u16> = Vec::new();
        let mut i: usize = 0;
        while i < n
            invariant
                *state == *old(state),
                state.wf(),
                n == arity(opcode),
                i <= n,
                raws@.len() == i,
                decode_raws(state@, i as nat) == Ok::<Seq<u16>, VmError>(raws@),
            decreases n - i,
        {
            let slot = (state.ip + 1 + i) % ADDRESS_SPACE;
            match state.memory[slot] {
                None => {
                    proof {
                        lemma_decode_raws_err(state@, i as nat, n as nat);
                    }
                    return Err(VmError::InvalidAddress(slot as u16));
                },
                Some(w) => {
                    raws.push(w);
                },
            }
            i += 1;
        }
        let mut args: Vec<u16> = Vec::new();
        i = 0;
        while i < n
            invariant
                *state == *old(state),
                state.wf(),
                n == arity(opcode),
                i <= n,
                raws@.len() == n,
                args@.len() == i,
                decode_raws(state@, n as nat) == Ok::<Seq<u16>, VmError>(raws@),
                resolve_args(state@.regs, opcode, raws@, i as nat) == Ok::<Seq<u16>, VmError>(
                    args@,
                ),
            decreases n - i,
        {
            let raw = raws[i];
            if opcode.resolves_arg(i) {
                match state.resolve_value(raw) {
                    Ok(v) => args.push(v),
                    Err(e) => {
                        proof {
                            lemma_resolve_args_err(state@.regs, opcode, raws@, i as nat, n as nat);
                        }
                        return Err(e);
                    },
                }
            } else {
                args.push(raw);
            }
            i += 1;
        }
        state.ip = (state.ip + 1 + n) % ADDRESS_SPACE;
        proof {
            assert(state@ =~= advance(old(state)@, opcode));
        }
        Ok(Instruction { opcode, unresolved_args: raws, args })
    }

    /// Renders this instruction for display: the opcode name, the
    /// resolved operand values, and the raw operand words.
    pub fn disassemble(&self) -> (r: String)
        ensures
            r@ == disassemble_spec(self.opcode, self.args@, self.unresolved_args@),
    {
        let mut s = String::new();
        s.append(self.opcode.name());
        s.append(" / ");
        let resolved = join_dec(&self.args);
        s.append(resolved.as_str());
        s.append(" / ");
        let raw = join_pretty(&self.unresolved_args);
        s.append(raw.as_str());
        s
    }
}

/// The machine: word-addressable self-modifiable memory, eight registers,
/// the instruction pointer, the operand/return stack, the buffered input
/// line (stored reversed), the output byte stream, and the halt flag.
///
/// Its mathematical value is a `Model`; every operation says in its
/// contract what it does to that model.
pub struct State {
    memory: Vec<Option<u16>>,
    registers: Vec<u16>,
    ip: usize,
    stack: Vec<u16>,
    text_buffer: Option<Vec<u8>>,
    output: Vec<u8>,
    halted: bool,
}

impl View for State {
    type V = Model;

    closed spec fn view(&self) -> Model {
        Model {
            mem: self.memory@,
            regs: self.registers@,
            ip: self.ip as nat,
            stack: self.stack@,
            buffer: match self.text_buffer {
                Some(b) => Some(b@),
                None => None,
            },
            output: self.output@,
            halted: self.halted,
        }
    }
}

impl State {
    /// Well-formedness of the machine: see `Model::wf`.
    pub open spec fn wf(&self) -> bool {
        self@.wf()
    }

    /// The initial machine for a loaded image: word `i` of the image at
    /// address `i`, every other address unset, registers zero, stack
    /// empty, instruction pointer zero, no buffered input, no output.
    pub fn build(words: Vec<u16>) -> (r: State)
        requires
            words@.len() <= ADDRESS_SPACE,
        ensures
            r.wf(),
            r@ == initial_model(words@),
    {
        let mut memory: Vec<Option<u16>> = Vec::new();
        let mut i: usize = 0;
        while i < ADDRESS_SPACE
            invariant
                i <= ADDRESS_SPACE,
                words@.len() <= ADDRESS_SPACE,
                memory@.len() == i,
                forall|j: int|
                    0 <= j < i ==> memory@[j] == (if j < words@.len() {
                        Some(words@[j])
                    } else {
                        None::<u16>
                    }),
            decreases ADDRESS_SPACE - i,
        {
            if i < words.len() {
                memory.push(Some(words[i]));
            } else {
                memory.push(None);
            }
            i += 1;
        }
        let mut registers: Vec<u16> = Vec::new();
        let mut k: usize = 0;
        while k < REGISTER_COUNT
            invariant
                k <= REGISTER_COUNT,
                registers@.len() == k,
                forall|j: int| 0 <= j < k ==> registers@[j] == 0u16,
            decreases REGISTER_COUNT - k,
        {
            registers.push(0);
            k += 1;
        }
        let r = State {
            memory,
            registers,
            ip: 0,
            stack: Vec::new(),
            text_buffer: None,
            output: Vec::new(),
            halted: false,
        };
        proof {
            assert(r@.mem =~= initial_model(words@).mem);
            assert(r@.regs =~= initial_model(words@).regs);
            assert(r@ =~= initial_model(words@));
        }
        r
    }

    /// Operand resolution: a word at most 32767 is the literal itself;
    /// 32768 + k for k in 0..8 reads register k; anything above is the
    /// fatal `InvalidOperand`.
    pub fn resolve_value(&self, value: u16) -> (r: Result<u16, VmError>)
        requires
            self.wf(),
        ensures
            r == resolve_spec(self@.regs, value),
            value < REGISTER_BASE ==> r == Ok::<u16, VmError>(value),
            REGISTER_BASE <= value <= REGISTER_TOP ==> r == Ok::<u16, VmError>(
                self@.regs[value - REGISTER_BASE],
            ),
            value > REGISTER_TOP ==> r == Err::<u16, VmError>(VmError::InvalidOperand(value)),
    {
        if value < REGISTER_BASE {
            Ok(value)
        } else if value <= REGISTER_TOP {
            Ok(self.registers[(value - REGISTER_BASE) as usize])
        } else {
            Err(VmError::InvalidOperand(value))
        }
    }

    /// Writes through a raw encoded register address: the only way an
    /// instruction's write target takes effect.  A target outside the
    /// register range is the fatal `InvalidOperand` and changes nothing.
    pub fn set_register(&mut self, index: u16, value: u16) -> (r: Result<(), VmError>)
        requires
            old(self).wf(),
        ensures
            final(self).wf(),
            reg_index_ok(index) ==> r is Ok && final(self)@ == (Model {
                regs: old(self)@.regs.update(index - REGISTER_BASE, value),
                ..old(self)@
            }),
            !reg_index_ok(index) ==> r == Err::<(), VmError>(VmError::InvalidOperand(index))
                && final(self)@ == old(self)@,
    {
        if REGISTER_BASE <= index && index <= REGISTER_TOP {
            let i = (index - REGISTER_BASE) as usize;
            self.registers[i] = value;
            Ok(())
        } else {
            Err(VmError::InvalidOperand(index))
        }
    }

    /// The word at `address`, or the fatal `InvalidAddress` when that
    /// address was never written: the execution-facing memory read.
    pub fn read_mem(&self, address: u16) -> (r: Result<u16, VmError>)
        requires
            self.wf(),
        ensures
            word_at(self@, address as int) matches Some(w) ==> r == Ok::<u16, VmError>(w),
            word_at(self@, address as int) is None ==> r == Err::<u16, VmError>(
                VmError::InvalidAddress(address),
            ),
    {
        match self.memory[address as usize] {
            Some(w) => Ok(w),
            None => Err(VmError::InvalidAddress(address)),
        }
    }

    /// Stores `value` at `address` unconditionally, including over already
    /// fetched program text: later fetches observe the new value.
    pub fn write_mem(&mut self, address: u16, value: u16)
        requires
            old(self).wf(),
        ensures
            final(self).wf(),
            final(self)@ == (Model {
                mem: old(self)@.mem.update(address as int, Some(value)),
                ..old(self)@
            }),
    {
        let a = address as usize;
        self.memory[a] = Some(value);
    }

    /// The instruction pointer.
    pub fn get_ip(&self) -> (r: usize)
        ensures
            r == self@.ip,
    {
        self.ip
    }

    /// Moves the instruction pointer: the debugger's manual jump.
    pub fn set_ip(&mut self, ip: usize)
        requires
            old(self).wf(),
            ip < ADDRESS_SPACE,
        ensures
            final(self).wf(),
            final(self)@ == (Model { ip: ip as nat, ..old(self)@ }),
    {
        self.ip = ip;
    }

    /// The word at `address`, if any: the inspection-facing memory read.
    pub fn read_memory_word(&self, address: u16) -> (r: Option<u16>)
        requires
            self.wf(),
        ensures
            r == word_at(self@, address as int),
    {
        self.memory[address as usize]
    }

    /// Register `index`.
    pub fn read_register(&self, index: usize) -> (r: u16)
        requires
            self.wf(),
            index < REGISTER_COUNT,
        ensures
            r == self@.regs[index as int],
    {
        self.registers[index]
    }

    /// Overwrites register `index`: the debugger's manual edit.
    pub fn write_register(&mut self, index: usize, value: u16)
        requires
            old(self).wf(),
            index < REGISTER_COUNT,
        ensures
            final(self).wf(),
            final(self)@ == (Model {
                regs: old(self)@.regs.update(index as int, value),
                ..old(self)@
            }),
    {
        self.registers[index] = value;
    }

    /// The operand/return stack, bottom first.
    pub fn read_stack(&self) -> (r: &Vec<u16>)
        ensures
            r@ == self@.stack,
    {
        &self.stack
    }

    /// Everything the machine has written to the output stream so far.
    pub fn read_output(&self) -> (r: &Vec<u8>)
        ensures
            r@ == self@.output,
    {
        &self.output
    }

    /// Whether the machine has reached its terminal state.
    pub fn is_halted(&self) -> (r: bool)
        ensures
            r == self@.halted,
    {
        self.halted
    }

    /// Whether part of an input line is still buffered.
    pub fn is_buffering_string(&self) -> (r: bool)
        ensures
            r == (self@.buffer is Some),
    {
        self.text_buffer.is_some()
    }

    /// Buffers one externally supplied line, reversed, so that repeated
    /// tail-removals by `In` yield the original character order.  An
    /// empty line buffers nothing.
    pub fn start_buffering_string(&mut self, line: Vec<u8>)
        requires
            old(self).wf(),
        ensures
            final(self).wf(),
            line@.len() == 0 ==> final(self)@ == (Model { buffer: None, ..old(self)@ }),
            line@.len() > 0 ==> final(self)@ == (Model {
                buffer: Some(line@.reverse()),
                ..old(self)@
            }),
    {
        let n = line.len();
        let mut rev: Vec<u8> = Vec::new();
        let mut i: usize = n;
        while i > 0
            invariant
                i <= n,
                n == line@.len(),
                rev@.len() == n - i,
                forall|j: int| 0 <= j < n - i ==> rev@[j] == line@[n - 1 - j],
            decreases i,
        {
            i -= 1;
            rev.push(line[i]);
        }
        if rev.len() == 0 {
            self.text_buffer = None;
        } else {
            proof {
                assert(rev@ =~= line@.reverse());
            }
            self.text_buffer = Some(rev);
        }
    }

    /// One fetch-decode-execute step, exactly as `step_spec` describes
    /// it: a halted machine stays halted; an `In` with no buffered line
    /// reports `NeedInput` and changes nothing; otherwise the instruction
    /// at the instruction pointer is decoded against current memory and
    /// executed.  Every fatal condition is reported as the error
    /// `step_spec` names, with the machine left for inspection in the
    /// state `step_spec` gives it.
    pub fn step_one_instruction(&mut self) -> (r: Result<StepOutcome, VmError>)
        requires
            old(self).wf(),
        ensures
            final(self).wf(),
            step_spec(old(self)@) == (final(self)@, r),
    {
        if self.halted {
            return Ok(StepOutcome::Halted);
        }
        let w = match self.memory[self.ip] {
            None => {
                return Err(VmError::InvalidAddress(self.ip as u16));
            },
            Some(w) => w,
        };
        let op = Opcode::from(w);
        if op == Opcode::Unknown {
            return Err(VmError::InvalidOpcode(w));
        }
        if op == Opcode::In && !self.is_buffering_string() {
            return Ok(StepOutcome::NeedInput);
        }
        let ins = match Instruction::build(op, self) {
            Ok(ins) => ins,
            Err(e) => {
                return Err(e);
            },
        };
        match ins.opcode {
            Opcode::Halt => {
                self.halted = true;
                Ok(StepOutcome::Halted)
            },
            Opcode::SetReg => {
                match self.set_register(ins.args[0], ins.args[1]) {
                    Ok(()) => Ok(StepOutcome::Continue),
                    Err(e) => Err(e),
                }
            },
            Opcode::Push => {
                self.stack.push(ins.args[0]);
                Ok(StepOutcome::Continue)
            },
            Opcode::Pop => {
                if self.stack.len() == 0 {
                    return Err(VmError::StackUnderflow);
                }
                let a = ins.args[0];
                if !(REGISTER_BASE <= a && a <= REGISTER_TOP) {
                    return Err(VmError::InvalidOperand(a));
                }
                let v = match self.stack.pop() {
                    Some(v) => v,
                    None => 0,
                };
                match self.set_register(a, v) {
                    Ok(()) => Ok(StepOutcome::Continue),
                    Err(e) => Err(e),
                }
            },
            Opcode::Eq => {
                let v: u16 = if ins.args[1] == ins.args[2] {
                    1
                } else {
                    0
                };
                match self.set_register(ins.args[0], v) {
                    Ok(()) => Ok(StepOutcome::Continue),
                    Err(e) => Err(e),
                }
            },
            Opcode::Gt => {
                let v: u16 = if ins.args[1] > ins.args[2] {
                    1
                } else {
                    0
                };
                match self.set_register(ins.args[0], v) {
                    Ok(()) => Ok(StepOutcome::Continue),
                    Err(e) => Err(e),
                }
            },
            Opcode::Jmp => {
                self.ip = ins.args[0] as usize;
                Ok(StepOutcome::Continue)
            },
            Opcode::JmpIfTrue => {
                if ins.args[0] != 0 {
                    self.ip = ins.args[1] as usize;
                }
                Ok(StepOutcome::Continue)
            },
            Opcode::JmpIfFalse => {
                if ins.args[0] == 0 {
                    self.ip = ins.args[1] as usize;
                }
                Ok(StepOutcome::Continue)
            },
            Opcode::Add => {
                let v = ((ins.args[1] as u32 + ins.args[2] as u32) % 32768) as u16;
                match self.set_register(ins.args[0], v) {
                    Ok(()) => Ok(StepOutcome::Continue),
                    Err(e) => Err(e),
                }
            },
            Opcode::Mult => {
                let b = ins.args[1];
                let c = ins.args[2];
                proof {
                    assert(b as int * c as int <= 65535 * 65535) by (nonlinear_arith)
                        requires
                            b <= 65535,
                            c <= 65535,
                    ;
                }
                let v = ((b as u32 * c as u32) % 32768) as u16;
                match self.set_register(ins.args[0], v) {
                    Ok(()) => Ok(StepOutcome::Continue),
                    Err(e) => Err(e),
                }
            },
            Opcode::Mod => {
                if ins.args[2] == 0 {
                    return Err(VmError::DivideByZero);
                }
                let v = ins.args[1] % ins.args[2];
                match self.set_register(ins.args[0], v) {
                    Ok(()) => Ok(StepOutcome::Continue),
                    Err(e) => Err(e),
                }
            },
            Opcode::And => {
                match self.set_register(ins.args[0], ins.args[1] & ins.args[2]) {
                    Ok(()) => Ok(StepOutcome::Continue),
                    Err(e) => Err(e),
                }
            },
            Opcode::Or => {
                match self.set_register(ins.args[0], ins.args[1] | ins.args[2]) {
                    Ok(()) => Ok(StepOutcome::Continue),
                    Err(e) => Err(e),
                }
            },
            Opcode::Not => {
                match self.set_register(ins.args[0], !ins.args[1] & 32767) {
                    Ok(()) => Ok(StepOutcome::Continue),
                    Err(e) => Err(e),
                }
            },
            Opcode::RMem => {
                let w = match self.read_mem(ins.args[1]) {
                    Ok(w) => w,
                    Err(e) => {
                        return Err(e);
                    },
                };
                match self.set_register(ins.args[0], w) {
                    Ok(()) => Ok(StepOutcome::Continue),
                    Err(e) => Err(e),
                }
            },
            Opcode::WMem => {
                self.write_mem(ins.args[0], ins.args[1]);
                Ok(StepOutcome::Continue)
            },
            Opcode::Call => {
                self.stack.push(self.ip as u16);
                self.ip = ins.args[0] as usize;
                Ok(StepOutcome::Continue)
            },
            Opcode::Ret => {
                match self.stack.pop() {
                    Some(t) => {
                        self.ip = t as usize;
                        Ok(StepOutcome::Continue)
                    },
                    None => {
                        self.halted = true;
                        Ok(StepOutcome::Halted)
                    },
                }
            },
            Opcode::Out => {
                self.output.push((ins.args[0] % 256) as u8);
                Ok(StepOutcome::Continue)
            },
            Opcode::In => {
                let a = ins.args[0];
                if !(REGISTER_BASE <= a && a <= REGISTER_TOP) {
                    return Err(VmError::InvalidOperand(a));
                }
                let v = self.text_buffer_char();
                match self.set_register(a, v) {
                    Ok(()) => Ok(StepOutcome::Continue),
                    Err(e) => Err(e),
                }
            },
            Opcode::Noop => Ok(StepOutcome::Continue),
            // Unreachable: an unknown opcode was reported before decoding.
            Opcode::Unknown => Err(VmError::InvalidOpcode(w)),
        }
    }

    /// Runs the fetch-decode-execute loop for at most `fuel` steps: the
    /// result and the final state are exactly those of `run_n`.  The loop
    /// stops early when the machine halts (`Halt`, or `Ret` on an empty
    /// stack), when the next `In` needs a line the caller must supply, or
    /// when a fatal condition ends execution; `Ok(Continue)` means all
    /// `fuel` steps completed and the machine can still run.
    pub fn run_steps(&mut self, fuel: u64) -> (r: Result<StepOutcome, VmError>)
        requires
            old(self).wf(),
        ensures
            final(self).wf(),
            run_n(old(self)@, fuel as nat) == (final(self)@, r),
    {
        let mut left: u64 = fuel;
        while left > 0
            invariant
                self.wf(),
                left <= fuel,
                run_n(old(self)@, (fuel - left) as nat) == (
                    self@,
                    Ok::<StepOutcome, VmError>(StepOutcome::Continue),
                ),
            decreases left,
        {
            let r = self.step_one_instruction();
            proof {
                lemma_run_n_snoc(old(self)@, (fuel - left) as nat);
            }
            left = left - 1;
            match r {
                Ok(StepOutcome::Continue) => {},
                _ => {
                    proof {
                        lemma_run_n_stable(old(self)@, (fuel - left) as nat, fuel as nat);
                    }
                    return r;
                },
            }
        }
        Ok(StepOutcome::Continue)
    }

    /// The inspection snapshot: the instruction pointer and the word it
    /// addresses, the registers, the stack, and every set memory cell,
    /// rendered exactly as `dump_spec` says.  Writing it anywhere is the
    /// caller's business.
    pub fn dump(&self) -> (r: String)
        requires
            self.wf(),
        ensures
            r@ == dump_spec(self@),
    {
        let mut cells: Vec<(u16, u16)> = Vec::new();
        let mut i: usize = 0;
        while i < ADDRESS_SPACE
            invariant
                self.wf(),
                i <= ADDRESS_SPACE,
                cells@ == mem_cells(self@.mem, i as nat),
            decreases ADDRESS_SPACE - i,
        {
            match self.memory[i] {
                Some(w) => {
                    cells.push((i as u16, w));
                },
                None => {},
            }
            i += 1;
        }
        let mut s = String::new();
        s.append("IP\n");
        let ip_str = u64_to_string(self.ip as u64);
        s.append(ip_str.as_str());
        s.append("\n");
        match self.memory[self.ip] {
            Some(w) => {
                let w_str = u64_to_string(w as u64);
                s.append(w_str.as_str());
            },
            None => {
                s.append("?");
            },
        }
        s.append("\n\nRegisters\n");
        let regs_json = json_words(&self.registers);
        s.append(regs_json.as_str());
        s.append("\n\nStack\n");
        let stack_json = json_words(&self.stack);
        s.append(stack_json.as_str());
        s.append("\n\nMemory\n");
        let cells_json = json_cells(&cells);
        s.append(cells_json.as_str());
        s
    }

    /// Delivers the next character of the buffered line: pops the stored
    /// tail (the next character in original order) and returns its code.
    /// Popping the newline — or the last character of a line that had
    /// none — clears the buffer, so the next `In` requests a fresh line.
    fn text_buffer_char(&mut self) -> (r: u16)
        requires
            old(self).wf(),
            old(self)@.buffer is Some,
        ensures
            final(self).wf(),
            ({
                let b = old(self)@.buffer.unwrap();
                let ch = b.last();
                let rest = b.drop_last();
                r == ch as u16 && final(self)@ == (Model {
                    buffer: if ch == 10 || rest.len() == 0 {
                        None
                    } else {
                        Some(rest)
                    },
                    ..old(self)@
                })
            }),
    {
        let mut taken: Option<Vec<u8>> = None;
        core::mem::swap(&mut taken, &mut self.text_buffer);
        let mut buf = match taken {
            Some(b) => b,
            None => Vec::new(),
        };
        let c = match buf.pop() {
            Some(c) => c,
            None => 0,
        };
        if c != 10 && buf.len() > 0 {
            self.text_buffer = Some(buf);
        }
        c as u16
    }
}

} // verus!
