use vstd::prelude::*;

use crate::opcode::{arity, opcode_name, opcode_of, Opcode};
use crate::util::{dec_len, dec_str, register_pretty, register_pretty_spec, to_ascii, u64_to_string};
use vstd::string::StringExecFns;

verus! {

/// How one operand prints in a disassembly listing: a word that encodes
/// an ASCII character shows the character and the value, anything else
/// prints as `register_pretty_spec`.
pub open spec fn process_arg_spec(arg: u16) -> Seq<char> {
    if arg < 128 {
        seq!['('].push(arg as u8 as char).push(')') + dec_str(arg as int)
    } else {
        register_pretty_spec(arg)
    }
}

/// The operands of one listing line, separated by `", "`.
pub open spec fn join_processed_spec(s: Seq<u16>) -> Seq<char>
    decreases s.len(),
{
    if s.len() == 0 {
        Seq::empty()
    } else if s.len() == 1 {
        process_arg_spec(s[0])
    } else {
        join_processed_spec(s.drop_last()) + ", "@ + process_arg_spec(s.last())
    }
}

/// Resolved operand values separated by `", "`, for `Instruction`
/// display.
pub open spec fn join_dec_spec(s: Seq<u16>) -> Seq<char>
    decreases s.len(),
{
    if s.len() == 0 {
        Seq::empty()
    } else if s.len() == 1 {
        dec_str(s[0] as int)
    } else {
        join_dec_spec(s.drop_last()) + ", "@ + dec_str(s.last() as int)
    }
}

/// Raw operand words separated by `", "`, each through
/// `register_pretty_spec`, for `Instruction` display.
pub open spec fn join_pretty_spec(s: Seq<u16>) -> Seq<char>
    decreases s.len(),
{
    if s.len() == 0 {
        Seq::empty()
    } else if s.len() == 1 {
        register_pretty_spec(s[0])
    } else {
        join_pretty_spec(s.drop_last()) + ", "@ + register_pretty_spec(s.last())
    }
}

/// How a decoded instruction displays: the opcode name, the resolved
/// operand values, and the raw operand words, the three parts separated
/// by `" / "`.
pub open spec fn disassemble_spec(op: Opcode, args: Seq<u16>, raws: Seq<u16>) -> Seq<char> {
    opcode_name(op) + " / "@ + join_dec_spec(args) + " / "@ + join_pretty_spec(raws)
}

/// `k` spaces.
pub open spec fn spaces(k: nat) -> Seq<char>
    decreases k,
{
    if k == 0 {
        Seq::empty()
    } else {
        spaces((k - 1) as nat).push(' ')
    }
}

/// A rendering padded on the left with spaces to at least five
/// characters, as listing line numbers are.
pub open spec fn pad5(s: Seq<char>) -> Seq<char> {
    if s.len() < 5 {
        spaces((5 - s.len()) as nat) + s
    } else {
        s
    }
}

/// One listing line: the padded address, the opcode name — or the raw
/// word echoed numerically when it maps to no opcode — and the operand
/// words that were available.
pub open spec fn line_spec(ip: int, raw: u16, op: Opcode, args: Seq<u16>) -> Seq<char> {
    pad5(dec_str(ip)) + ": "@ + (if op == Opcode::Unknown {
        dec_str(raw as int)
    } else {
        opcode_name(op)
    }) + " "@ + join_processed_spec(args)
}

/// The whole listing of a word image, starting at address `ip`: one line
/// per instruction, the address advancing by one plus the opcode's
/// operand count, a blank line after each `Ret`.  Operand words past the
/// end of the image are simply not shown.
pub open spec fn disasm_lines(words: Seq<u16>, ip: nat) -> Seq<Seq<char>>
    decreases words.len() - ip,
{
    if ip >= words.len() {
        Seq::empty()
    } else {
        let raw = words[ip as int];
        let op = opcode_of(raw);
        let n = arity(op);
        let avail = if ip + 1 + n <= words.len() {
            n
        } else {
            (words.len() - ip - 1) as nat
        };
        let line = line_spec(
            ip as int,
            raw,
            op,
            words.subrange(ip as int + 1, ip as int + 1 + avail as int),
        );
        let next = if ip + 1 + n <= words.len() {
            (ip + 1 + n) as nat
        } else {
            words.len()
        };
        let rest = disasm_lines(words, next);
        if op == Opcode::Ret {
            seq![line, Seq::empty()] + rest
        } else {
            seq![line] + rest
        }
    }
}

/// Renders one operand for a listing: an ASCII-encoding word as its
/// character and value, anything else through `register_pretty`.
fn process_arg(arg: u16) -> (r: String)
    ensures
        r@ == process_arg_spec(arg),
{
    if arg < 128 {
        let mut s = String::new();
        s.push('(');
        match to_ascii(arg) {
            Some(c) => s.push(c),
            None => {},
        }
        s.push(')');
        let num = u64_to_string(arg as u64);
        s.append(num.as_str());
        s
    } else {
        register_pretty(&arg)
    }
}

/// The operands of one listing line, joined with `", "`.
fn join_processed(args: &Vec<u16>) -> (r: String)
    ensures
        r@ == join_processed_spec(args@),
{
    let mut out = String::new();
    let mut i: usize = 0;
    while i < args.len()
        invariant
            i <= args@.len(),
            out@ == join_processed_spec(args@.subrange(0, i as int)),
        decreases args@.len() - i,
    {
        if i > 0 {
            out.append(", ");
        }
        let p = process_arg(args[i]);
        out.append(p.as_str());
        proof {
            let pre = args@.subrange(0, (i + 1) as int);
            assert(pre.drop_last() =~= args@.subrange(0, i as int));
            assert(pre.last() == args@[i as int]);
        }
        i += 1;
    }
    proof {
        assert(args@.subrange(0, args@.len() as int) =~= args@);
    }
    out
}

/// Resolved operand values joined with `", "`.
pub fn join_dec(args: &Vec<u16>) -> (r: String)
    ensures
        r@ == join_dec_spec(args@),
{
    let mut out = String::new();
    let mut i: usize = 0;
    while i < args.len()
        invariant
            i <= args@.len(),
            out@ == join_dec_spec(args@.subrange(0, i as int)),
        decreases args@.len() - i,
    {
        if i > 0 {
            out.append(", ");
        }
        let p = u64_to_string(args[i] as u64);
        out.append(p.as_str());
        proof {
            let pre = args@.subrange(0, (i + 1) as int);
            assert(pre.drop_last() =~= args@.subrange(0, i as int));
            assert(pre.last() == args@[i as int]);
        }
        i += 1;
    }
    proof {
        assert(args@.subrange(0, args@.len() as int) =~= args@);
    }
    out
}

/// Raw operand words joined with `", "`, each through `register_pretty`.
pub fn join_pretty(args: &Vec<u16>) -> (r: String)
    ensures
        r@ == join_pretty_spec(args@),
{
    let mut out = String::new();
    let mut i: usize = 0;
    while i < args.len()
        invariant
            i <= args@.len(),
            out@ == join_pretty_spec(args@.subrange(0, i as int)),
        decreases args@.len() - i,
    {
        if i > 0 {
            out.append(", ");
        }
        let p = register_pretty(&args[i]);
        out.append(p.as_str());
        proof {
            let pre = args@.subrange(0, (i + 1) as int);
            assert(pre.drop_last() =~= args@.subrange(0, i as int));
            assert(pre.last() == args@[i as int]);
        }
        i += 1;
    }
    proof {
        assert(args@.subrange(0, args@.len() as int) =~= args@);
    }
    out
}

/// Renders one listing line.
fn format_instruction(ip: usize, raw: u16, opcode: &Opcode, args: &Vec<u16>) -> (r: String)
    ensures
        r@ == line_spec(ip as int, raw, *opcode, args@),
{
    let l = dec_len(ip as u64);
    let target: usize = if l < 5 {
        5 - l
    } else {
        0
    };
    let mut s = String::new();
    let mut k: usize = 0;
    while k < target
        invariant
            k <= target,
            s@ == spaces(k as nat),
        decreases target - k,
    {
        s.push(' ');
        k += 1;
    }
    let num = u64_to_string(ip as u64);
    s.append(num.as_str());
    proof {
        assert(s@ == pad5(dec_str(ip as int)));
    }
    s.append(": ");
    match opcode {
        Opcode::Unknown => {
            let echoed = u64_to_string(raw as u64);
            s.append(echoed.as_str());
        },
        _ => {
            s.append(opcode.name());
        },
    }
    s.append(" ");
    let joined = join_processed(args);
    s.append(joined.as_str());
    s
}

/// The listing of a word image for display: one entry per line of
/// `disasm_lines`, in order.
pub fn disassemble_instructions(instructions: Vec<u16>) -> (r: Vec<String>)
    ensures
        r@.len() == disasm_lines(instructions@, 0).len(),
        forall|i: int|
            0 <= i < r@.len() ==> r@[i]@ == disasm_lines(instructions@, 0)[i],
{
    let len = instructions.len();
    let mut out: Vec<String> = Vec::new();
    let mut ip: usize = 0;
    while ip < len
        invariant
            len == instructions@.len(),
            ip <= len,
            disasm_lines(instructions@, 0) =~= out@.map_values(|s: String| s@) + disasm_lines(
                instructions@,
                ip as nat,
            ),
        decreases len - ip,
    {
        let raw = instructions[ip];
        let op = Opcode::from(raw);
        let n = op.arg_count();
        let avail: usize = if len - ip - 1 >= n {
            n
        } else {
            len - ip - 1
        };
        let mut args: Vec<u16> = Vec::new();
        let mut j: usize = 0;
        while j < avail
            invariant
                j <= avail,
                ip + 1 + avail <= len,
                len == instructions@.len(),
                args@.len() == j,
                forall|t: int| 0 <= t < j ==> args@[t] == instructions@[ip + 1 + t],
            decreases avail - j,
        {
            args.push(instructions[ip + 1 + j]);
            j += 1;
        }
        proof {
            assert(args@ =~= instructions@.subrange(
                ip + 1,
                ip + 1 + avail as int,
            ));
        }
        let line = format_instruction(ip, raw, &op, &args);
        let ghost out_pre = out@;
        out.push(line);
        let mut blank = false;
        match op {
            Opcode::Ret => {
                blank = true;
            },
            _ => {},
        }
        if blank {
            out.push(String::new());
        }
        let next: usize = if len - ip - 1 >= n {
            ip + 1 + n
        } else {
            len
        };
        proof {
            let f = |s: String| s@;
            assert(out@.map_values(f) =~= out_pre.map_values(f) + if blank {
                seq![line@, Seq::<char>::empty()]
            } else {
                seq![line@]
            });
            assert(disasm_lines(instructions@, 0) =~= out@.map_values(f) + disasm_lines(
                instructions@,
                next as nat,
            ));
        }
        ip = next;
    }
    proof {
        assert(disasm_lines(instructions@, ip as nat) =~= Seq::<Seq<char>>::empty());
        assert(disasm_lines(instructions@, 0) =~= out@.map_values(|s: String| s@));
    }
    out
}

} // verus!
