use vstd::prelude::*;

use crate::error::VmError;
use crate::opcode::{arity, opcode_of, resolves_operand, Opcode};

verus! {

/// How many words the machine can address: one per 16-bit address.
pub const ADDRESS_SPACE: usize = 65536;

/// Number of general-purpose registers.
pub const REGISTER_COUNT: usize = 8;

/// First word that encodes a register address.
pub const REGISTER_BASE: u16 = 32768;

/// Last word that encodes a register address.
pub const REGISTER_TOP: u16 = 32775;

/// Modulus for `Add` and `Mult` results.
pub const ARITH_MODULUS: u16 = 32768;

/// What one step of the machine reported.
#[derive(Clone, Copy, Debug, PartialEq, Eq, Structural)]
pub enum StepOutcome {
    /// The instruction completed and the machine can keep running.
    Continue,
    /// The next instruction is `In` and no line is buffered; the caller
    /// must supply a line before stepping again.  The state is unchanged.
    NeedInput,
    /// The machine is halted (`Halt`, or `Ret` on an empty stack).
    Halted,
}

/// The mathematical state of the machine: word-addressable memory (an
/// unset address holds `None`), the register file, the instruction
/// pointer, the operand/return stack, the buffered input line (stored
/// reversed, so its last element is the next character delivered), the
/// output byte stream, and the halt flag.
#[verifier::ext_equal]
pub ghost struct Model {
    pub mem: Seq<Option<u16>>,
    pub regs: Seq<u16>,
    pub ip: nat,
    pub stack: Seq<u16>,
    pub buffer: Option<Seq<u8>>,
    pub output: Seq<u8>,
    pub halted: bool,
}

impl Model {
    /// Well-formedness: full 16-bit address space, eight registers, the
    /// instruction pointer inside the address space, and a buffered line
    /// never empty (an exhausted line is dropped, not kept empty).
    pub open spec fn wf(self) -> bool {
        &&& self.mem.len() == ADDRESS_SPACE
        &&& self.regs.len() == REGISTER_COUNT
        &&& self.ip < ADDRESS_SPACE
        &&& (self.buffer matches Some(b) ==> b.len() > 0)
    }
}

/// The initial machine for a loaded image: word `i` of the image at
/// address `i`, every other address unset, registers zero, stack empty,
/// instruction pointer zero, no buffered input, no output, running.
pub open spec fn initial_model(words: Seq<u16>) -> Model {
    Model {
        mem: Seq::new(
            ADDRESS_SPACE as nat,
            |i: int|
                if i < words.len() {
                    Some(words[i])
                } else {
                    None
                },
        ),
        regs: Seq::new(REGISTER_COUNT as nat, |i: int| 0u16),
        ip: 0,
        stack: Seq::empty(),
        buffer: None,
        output: Seq::empty(),
        halted: false,
    }
}

/// Whether a word encodes a register address.
pub open spec fn reg_index_ok(v: u16) -> bool {
    REGISTER_BASE <= v <= REGISTER_TOP
}

/// Operand resolution: a literal stands for itself, a register address
/// for the register's current content, anything above is illegal.
pub open spec fn resolve_spec(regs: Seq<u16>, v: u16) -> Result<u16, VmError> {
    if v < REGISTER_BASE {
        Ok(v)
    } else if v <= REGISTER_TOP {
        Ok(regs[v - REGISTER_BASE])
    } else {
        Err(VmError::InvalidOperand(v))
    }
}

/// The word stored at address `a`, `None` when unset or out of range.
pub open spec fn word_at(m: Model, a: int) -> Option<u16> {
    if 0 <= a < m.mem.len() {
        m.mem[a]
    } else {
        None
    }
}

/// Address of operand `i` of the instruction at `m.ip` (the address
/// space wraps at 65536).
pub open spec fn operand_addr(m: Model, i: int) -> int {
    (m.ip + 1 + i) % (ADDRESS_SPACE as int)
}

/// The raw word of operand `i`, freshly read from current memory.
pub open spec fn raw_operand(m: Model, i: int) -> Option<u16> {
    word_at(m, operand_addr(m, i))
}

/// The first `n` raw operand words, or `InvalidAddress` at the first
/// unset operand slot.
pub open spec fn decode_raws(m: Model, n: nat) -> Result<Seq<u16>, VmError>
    decreases n,
{
    if n == 0 {
        Ok(Seq::empty())
    } else {
        match decode_raws(m, (n - 1) as nat) {
            Err(e) => Err(e),
            Ok(s) => match raw_operand(m, n - 1) {
                None => Err(VmError::InvalidAddress(operand_addr(m, n - 1) as u16)),
                Some(w) => Ok(s.push(w)),
            },
        }
    }
}

/// The first `n` operands after per-opcode resolution: a read operand is
/// resolved through the register file, a write target is kept raw.  The
/// first illegal operand yields `InvalidOperand`.
pub open spec fn resolve_args(regs: Seq<u16>, op: Opcode, raws: Seq<u16>, n: nat) -> Result<
    Seq<u16>,
    VmError,
>
    decreases n,
{
    if n == 0 {
        Ok(Seq::empty())
    } else {
        match resolve_args(regs, op, raws, (n - 1) as nat) {
            Err(e) => Err(e),
            Ok(s) => {
                if resolves_operand(op, n - 1) {
                    match resolve_spec(regs, raws[n - 1]) {
                        Err(e) => Err(e),
                        Ok(v) => Ok(s.push(v)),
                    }
                } else {
                    Ok(s.push(raws[n - 1]))
                }
            },
        }
    }
}

/// An unset operand slot poisons the whole raw read: the first failure
/// is the one reported, however many operands follow.
pub proof fn lemma_decode_raws_err(m: Model, i: nat, n: nat)
    requires
        decode_raws(m, i) is Ok,
        raw_operand(m, i as int) is None,
        i < n,
    ensures
        decode_raws(m, n) == Err::<Seq<u16>, VmError>(
            VmError::InvalidAddress(operand_addr(m, i as int) as u16),
        ),
    decreases n,
{
    if n > i + 1 {
        lemma_decode_raws_err(m, i, (n - 1) as nat);
    }
}

/// An illegal operand poisons the whole resolution: the first failure is
/// the one reported, however many operands follow.
pub proof fn lemma_resolve_args_err(regs: Seq<u16>, op: Opcode, raws: Seq<u16>, i: nat, n: nat)
    requires
        resolve_args(regs, op, raws, i) is Ok,
        resolves_operand(op, i as int),
        resolve_spec(regs, raws[i as int]) is Err,
        i < n,
    ensures
        resolve_args(regs, op, raws, n) == Err::<Seq<u16>, VmError>(
            resolve_spec(regs, raws[i as int]).unwrap_err(),
        ),
    decreases n,
{
    if n > i + 1 {
        lemma_resolve_args_err(regs, op, raws, i, (n - 1) as nat);
    }
}

/// Decoding the instruction at `m.ip` whose opcode is `op`: the raw
/// operand words and their resolved counterparts.
pub open spec fn decode_spec(m: Model, op: Opcode) -> Result<(Seq<u16>, Seq<u16>), VmError> {
    match decode_raws(m, arity(op)) {
        Err(e) => Err(e),
        Ok(raws) => match resolve_args(m.regs, op, raws, arity(op)) {
            Err(e) => Err(e),
            Ok(args) => Ok((raws, args)),
        },
    }
}

/// The state after consuming the opcode word and its operands: the
/// instruction pointer moves past them (wrapping with the address space).
pub open spec fn advance(m: Model, op: Opcode) -> Model {
    Model { ip: (((m.ip + 1 + arity(op)) as int) % (ADDRESS_SPACE as int)) as nat, ..m }
}

/// `Add` result: sum modulo 32768.
pub open spec fn add_result(b: u16, c: u16) -> u16 {
    ((b + c) % (ARITH_MODULUS as int)) as u16
}

/// `Mult` result: product modulo 32768.
pub open spec fn mult_result(b: u16, c: u16) -> u16 {
    ((b * c) % (ARITH_MODULUS as int)) as u16
}

/// Writing `v` to the register encoded by `dst`, the common tail of every
/// register-writing instruction; a non-register target is fatal.
pub open spec fn write_reg(m: Model, dst: u16, v: u16) -> (Model, Result<StepOutcome, VmError>) {
    if reg_index_ok(dst) {
        (Model { regs: m.regs.update(dst - REGISTER_BASE, v), ..m }, Ok(StepOutcome::Continue))
    } else {
        (m, Err(VmError::InvalidOperand(dst)))
    }
}

/// The effect of executing `op` with resolved operands `args` from the
/// state `m` in which the instruction pointer has already moved past the
/// instruction.  On a fatal condition the returned model is `m` itself:
/// operands are consumed, nothing else has changed.
pub open spec fn exec_spec(m: Model, op: Opcode, args: Seq<u16>) -> (
    Model,
    Result<StepOutcome, VmError>,
) {
    match op {
        Opcode::Halt => (Model { halted: true, ..m }, Ok(StepOutcome::Halted)),
        Opcode::SetReg => write_reg(m, args[0], args[1]),
        Opcode::Push => (Model { stack: m.stack.push(args[0]), ..m }, Ok(StepOutcome::Continue)),
        Opcode::Pop => {
            if m.stack.len() == 0 {
                (m, Err(VmError::StackUnderflow))
            } else if !reg_index_ok(args[0]) {
                (m, Err(VmError::InvalidOperand(args[0])))
            } else {
                (
                    Model {
                        stack: m.stack.drop_last(),
                        regs: m.regs.update(args[0] - REGISTER_BASE, m.stack.last()),
                        ..m
                    },
                    Ok(StepOutcome::Continue),
                )
            }
        },
        Opcode::Eq => write_reg(m, args[0], if args[1] == args[2] { 1u16 } else { 0u16 }),
        Opcode::Gt => write_reg(m, args[0], if args[1] > args[2] { 1u16 } else { 0u16 }),
        Opcode::Jmp => (Model { ip: args[0] as nat, ..m }, Ok(StepOutcome::Continue)),
        Opcode::JmpIfTrue => (
            Model { ip: if args[0] != 0 { args[1] as nat } else { m.ip }, ..m },
            Ok(StepOutcome::Continue),
        ),
        Opcode::JmpIfFalse => (
            Model { ip: if args[0] == 0 { args[1] as nat } else { m.ip }, ..m },
            Ok(StepOutcome::Continue),
        ),
        Opcode::Add => write_reg(m, args[0], add_result(args[1], args[2])),
        Opcode::Mult => write_reg(m, args[0], mult_result(args[1], args[2])),
        Opcode::Mod => {
            if args[2] == 0 {
                (m, Err(VmError::DivideByZero))
            } else {
                write_reg(m, args[0], (args[1] % args[2]) as u16)
            }
        },
        Opcode::And => write_reg(m, args[0], args[1] & args[2]),
        Opcode::Or => write_reg(m, args[0], args[1] | args[2]),
        Opcode::Not => write_reg(m, args[0], !args[1] & 32767),
        Opcode::RMem => {
            match word_at(m, args[1] as int) {
                None => (m, Err(VmError::InvalidAddress(args[1]))),
                Some(w) => write_reg(m, args[0], w),
            }
        },
        Opcode::WMem => (
            Model { mem: m.mem.update(args[0] as int, Some(args[1])), ..m },
            Ok(StepOutcome::Continue),
        ),
        Opcode::Call => (
            Model { stack: m.stack.push(m.ip as u16), ip: args[0] as nat, ..m },
            Ok(StepOutcome::Continue),
        ),
        Opcode::Ret => {
            if m.stack.len() == 0 {
                (Model { halted: true, ..m }, Ok(StepOutcome::Halted))
            } else {
                (
                    Model { ip: m.stack.last() as nat, stack: m.stack.drop_last(), ..m },
                    Ok(StepOutcome::Continue),
                )
            }
        },
        Opcode::Out => (
            Model { output: m.output.push((args[0] % 256) as u8), ..m },
            Ok(StepOutcome::Continue),
        ),
        Opcode::In => {
            // The fetch stage only reaches this arm with a buffered line,
            // which well-formedness keeps non-empty.
            let b = m.buffer.unwrap();
            if !reg_index_ok(args[0]) {
                (m, Err(VmError::InvalidOperand(args[0])))
            } else {
                let ch = b.last();
                let rest = b.drop_last();
                (
                    Model {
                        regs: m.regs.update(args[0] - REGISTER_BASE, ch as u16),
                        buffer: if ch == 10 || rest.len() == 0 {
                            None
                        } else {
                            Some(rest)
                        },
                        ..m
                    },
                    Ok(StepOutcome::Continue),
                )
            }
        },
        Opcode::Noop => (m, Ok(StepOutcome::Continue)),
        // Unreachable: `step_spec` reports an unknown opcode before decoding.
        Opcode::Unknown => (m, Err(VmError::InvalidOpcode(0))),
    }
}

/// One fetch-decode-execute step of the machine.  A halted machine stays
/// halted; an `In` with no buffered line asks for input without touching
/// the state; every fatal condition leaves the state exactly as this
/// function says, so the caller can still inspect it.
pub open spec fn step_spec(m: Model) -> (Model, Result<StepOutcome, VmError>) {
    if m.halted {
        (m, Ok(StepOutcome::Halted))
    } else {
        match word_at(m, m.ip as int) {
            None => (m, Err(VmError::InvalidAddress(m.ip as u16))),
            Some(w) => {
                let op = opcode_of(w);
                if op == Opcode::Unknown {
                    (m, Err(VmError::InvalidOpcode(w)))
                } else if op == Opcode::In && m.buffer is None {
                    (m, Ok(StepOutcome::NeedInput))
                } else {
                    match decode_spec(m, op) {
                        Err(e) => (m, Err(e)),
                        Ok(p) => exec_spec(advance(m, op), op, p.1),
                    }
                }
            },
        }
    }
}

/// Up to `n` steps of the machine, stopping early at the first step whose
/// report is not `Ok(Continue)`.  `Ok(Continue)` as the overall result
/// means all `n` steps completed and the machine can still run.
pub open spec fn run_n(m: Model, n: nat) -> (Model, Result<StepOutcome, VmError>)
    decreases n,
{
    if n == 0 {
        (m, Ok(StepOutcome::Continue))
    } else {
        let s = step_spec(m);
        if s.1 == Ok::<StepOutcome, VmError>(StepOutcome::Continue) {
            run_n(s.0, (n - 1) as nat)
        } else {
            s
        }
    }
}

/// Once a run has stopped — halted, waiting for input, or failed —
/// granting it more steps changes nothing.
pub proof fn lemma_run_n_stable(m: Model, k: nat, n: nat)
    requires
        run_n(m, k).1 != Ok::<StepOutcome, VmError>(StepOutcome::Continue),
        k <= n,
    ensures
        run_n(m, n) == run_n(m, k),
    decreases k,
{
    let s = step_spec(m);
    if s.1 == Ok::<StepOutcome, VmError>(StepOutcome::Continue) {
        lemma_run_n_stable(s.0, (k - 1) as nat, (n - 1) as nat);
    }
}

/// Running `n` continuing steps and then one more is running `n + 1`
/// steps: the witness a run loop extends at every iteration.
pub proof fn lemma_run_n_snoc(m: Model, n: nat)
    requires
        run_n(m, n).1 == Ok::<StepOutcome, VmError>(StepOutcome::Continue),
    ensures
        run_n(m, n + 1) == step_spec(run_n(m, n).0),
    decreases n,
{
    let cont = Ok::<StepOutcome, VmError>(StepOutcome::Continue);
    let s = step_spec(m);
    if n == 0 {
        assert(run_n(m, 0) == (m, cont));
        assert(run_n(m, 1) == if s.1 == cont {
            run_n(s.0, 0)
        } else {
            s
        });
        assert(s == (s.0, s.1));
    } else {
        assert(run_n(m, n) == if s.1 == cont {
            run_n(s.0, (n - 1) as nat)
        } else {
            s
        });
        if s.1 == cont {
            lemma_run_n_snoc(s.0, (n - 1) as nat);
            assert(run_n(m, n + 1) == run_n(s.0, n));
        }
    }
}

} // verus!
