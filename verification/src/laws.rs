use vstd::prelude::*;

use crate::error::VmError;
use crate::model::{
    add_result, advance, decode_raws, decode_spec, mult_result, operand_addr, raw_operand,
    resolve_args, resolve_spec, step_spec, word_at, Model, StepOutcome, ADDRESS_SPACE,
};
use crate::opcode::{opcode_of, Opcode};

verus! {

/// Whether the word at the instruction pointer decodes to `op`.
pub open spec fn next_opcode_is(m: Model, op: Opcode) -> bool {
    match word_at(m, m.ip as int) {
        Some(w) => opcode_of(w) == op,
        None => false,
    }
}

/// `Add` and `Mult` are commutative modulo 32768: swapping the two read
/// operands never changes the value written to the destination.
pub proof fn lemma_arith_commutative(b: u16, c: u16)
    ensures
        add_result(b, c) == add_result(c, b),
        mult_result(b, c) == mult_result(c, b),
{
    assert(b * c == c * b) by (nonlinear_arith);
}

/// Self-modification round-trip: after a write to an address that is an
/// upcoming instruction's operand slot, the decoder — which re-reads
/// current memory at every fetch — observes the written value there.
pub proof fn lemma_self_modification(m: Model, addr: u16, value: u16, i: int)
    requires
        m.wf(),
        0 <= i,
        operand_addr(m, i) == addr as int,
    ensures
        raw_operand(Model { mem: m.mem.update(addr as int, Some(value)), ..m }, i) == Some(value),
{
}

/// `Call` pushes the address immediately following its own operand —
/// the return address — and hands control to the resolved target.
pub proof fn lemma_call_pushes_return(m: Model)
    requires
        m.wf(),
        !m.halted,
        next_opcode_is(m, Opcode::Call),
        raw_operand(m, 0) is Some,
        resolve_spec(m.regs, raw_operand(m, 0).unwrap()) is Ok,
    ensures
        ({
            let ret = (((m.ip + 2) as int) % (ADDRESS_SPACE as int)) as u16;
            let target = resolve_spec(m.regs, raw_operand(m, 0).unwrap()).unwrap();
            step_spec(m) == (
                (Model { stack: m.stack.push(ret), ip: target as nat, ..m }),
                Ok::<StepOutcome, VmError>(StepOutcome::Continue),
            )
        }),
{
    let w0 = raw_operand(m, 0).unwrap();
    let v = resolve_spec(m.regs, w0).unwrap();
    assert(decode_raws(m, 0) == Ok::<Seq<u16>, VmError>(Seq::empty()));
    assert(decode_raws(m, 1) == Ok::<Seq<u16>, VmError>(Seq::empty().push(w0)));
    assert(resolve_args(m.regs, Opcode::Call, Seq::empty().push(w0), 0) == Ok::<
        Seq<u16>,
        VmError,
    >(Seq::empty()));
    assert(resolve_args(m.regs, Opcode::Call, Seq::empty().push(w0), 1) == Ok::<
        Seq<u16>,
        VmError,
    >(Seq::empty().push(v)));
    let m1 = advance(m, Opcode::Call);
    let ret = (((m.ip + 2) as int) % (ADDRESS_SPACE as int)) as u16;
    assert(m1.ip as u16 == ret);
    assert(step_spec(m).0 =~= (Model { stack: m.stack.push(ret), ip: v as nat, ..m }));
}

/// `Ret` pops the return address and jumps to it; on an empty stack it
/// halts — the defined termination condition, not an error.
pub proof fn lemma_ret_returns(m: Model)
    requires
        m.wf(),
        !m.halted,
        next_opcode_is(m, Opcode::Ret),
    ensures
        m.stack.len() > 0 ==> step_spec(m) == (
            (Model { ip: m.stack.last() as nat, stack: m.stack.drop_last(), ..m }),
            Ok::<StepOutcome, VmError>(StepOutcome::Continue),
        ),
        m.stack.len() == 0 ==> step_spec(m) == (
            (Model {
                halted: true,
                ip: (((m.ip + 1) as int) % (ADDRESS_SPACE as int)) as nat,
                ..m
            }),
            Ok::<StepOutcome, VmError>(StepOutcome::Halted),
        ),
{
    assert(decode_raws(m, 0) == Ok::<Seq<u16>, VmError>(Seq::empty()));
    assert(resolve_args(m.regs, Opcode::Ret, Seq::empty(), 0) == Ok::<Seq<u16>, VmError>(
        Seq::empty(),
    ));
    let m1 = advance(m, Opcode::Ret);
    if m.stack.len() > 0 {
        assert(step_spec(m).0 =~= (Model {
            ip: m.stack.last() as nat,
            stack: m.stack.drop_last(),
            ..m
        }));
    } else {
        assert(step_spec(m).0 =~= (Model { halted: true, ip: m1.ip, ..m }));
    }
}

/// Call/Ret round trip: from any later state in which the stack has
/// come back to the frame the call pushed — whatever nesting ran in
/// between — `Ret` hands control to the instruction immediately
/// following the call's operand and restores the caller's stack.
pub proof fn lemma_call_ret_round_trip(m: Model, m2: Model)
    requires
        m.wf(),
        !m.halted,
        next_opcode_is(m, Opcode::Call),
        raw_operand(m, 0) is Some,
        resolve_spec(m.regs, raw_operand(m, 0).unwrap()) is Ok,
        m2.wf(),
        !m2.halted,
        next_opcode_is(m2, Opcode::Ret),
        m2.stack == step_spec(m).0.stack,
    ensures
        step_spec(m2).1 == Ok::<StepOutcome, VmError>(StepOutcome::Continue),
        step_spec(m2).0.ip == (((m.ip + 2) as int) % (ADDRESS_SPACE as int)) as nat,
        step_spec(m2).0.stack == m.stack,
{
    lemma_call_pushes_return(m);
    lemma_ret_returns(m2);
    let ret = (((m.ip + 2) as int) % (ADDRESS_SPACE as int)) as u16;
    assert(m2.stack.last() == ret);
    assert(m2.stack.drop_last() =~= m.stack);
}

/// `Mod` with divisor zero is the fatal `DivideByZero`, never a silent
/// result: the step reports the error and writes no register.
pub proof fn lemma_mod_by_zero(m: Model)
    requires
        m.wf(),
        !m.halted,
        next_opcode_is(m, Opcode::Mod),
        decode_spec(m, Opcode::Mod) matches Ok(p) && p.1[2] == 0,
    ensures
        step_spec(m) == (
            advance(m, Opcode::Mod),
            Err::<StepOutcome, VmError>(VmError::DivideByZero),
        ),
{
}

} // verus!
