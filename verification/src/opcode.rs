use vstd::prelude::*;

verus! {

/// The closed set of instruction tags.  A raw word maps to exactly one tag;
/// every word outside 0..=21 maps to `Unknown`, which is fatal when executed
/// but tolerated (echoed numerically) by the display-only disassembler.
#[derive(Clone, Copy, Debug, PartialEq, Eq, Structural)]
pub enum Opcode {
    Halt,
    SetReg,
    Out,
    Jmp,
    JmpIfTrue,
    JmpIfFalse,
    Noop,
    Add,
    Mult,
    Mod,
    Eq,
    Push,
    Pop,
    Gt,
    And,
    Or,
    Not,
    Call,
    RMem,
    WMem,
    Ret,
    In,
    Unknown,
}

/// The opcode a raw word denotes.
pub open spec fn opcode_of(code: u16) -> Opcode {
    if code == 0 {
        Opcode::Halt
    } else if code == 1 {
        Opcode::SetReg
    } else if code == 2 {
        Opcode::Push
    } else if code == 3 {
        Opcode::Pop
    } else if code == 4 {
        Opcode::Eq
    } else if code == 5 {
        Opcode::Gt
    } else if code == 6 {
        Opcode::Jmp
    } else if code == 7 {
        Opcode::JmpIfTrue
    } else if code == 8 {
        Opcode::JmpIfFalse
    } else if code == 9 {
        Opcode::Add
    } else if code == 10 {
        Opcode::Mult
    } else if code == 11 {
        Opcode::Mod
    } else if code == 12 {
        Opcode::And
    } else if code == 13 {
        Opcode::Or
    } else if code == 14 {
        Opcode::Not
    } else if code == 15 {
        Opcode::RMem
    } else if code == 16 {
        Opcode::WMem
    } else if code == 17 {
        Opcode::Call
    } else if code == 18 {
        Opcode::Ret
    } else if code == 19 {
        Opcode::Out
    } else if code == 20 {
        Opcode::In
    } else if code == 21 {
        Opcode::Noop
    } else {
        Opcode::Unknown
    }
}

/// How many operand words follow an opcode in memory.
pub open spec fn arity(op: Opcode) -> nat {
    match op {
        Opcode::Halt => 0,
        Opcode::SetReg => 2,
        Opcode::Push => 1,
        Opcode::Pop => 1,
        Opcode::Eq => 3,
        Opcode::Gt => 3,
        Opcode::Jmp => 1,
        Opcode::JmpIfTrue => 2,
        Opcode::JmpIfFalse => 2,
        Opcode::Add => 3,
        Opcode::Mult => 3,
        Opcode::Mod => 3,
        Opcode::And => 3,
        Opcode::Or => 3,
        Opcode::Not => 2,
        Opcode::RMem => 2,
        Opcode::WMem => 2,
        Opcode::Call => 1,
        Opcode::Ret => 0,
        Opcode::Out => 1,
        Opcode::In => 1,
        Opcode::Noop => 0,
        Opcode::Unknown => 0,
    }
}

/// Whether operand `i` of `op` is resolved when decoded (dereferenced
/// through the register file if it is a register address), as opposed to
/// kept raw because it is a write target.
pub open spec fn resolves_operand(op: Opcode, i: int) -> bool {
    match op {
        Opcode::Halt => false,
        Opcode::SetReg => i == 1,
        Opcode::Push => i == 0,
        Opcode::Pop => false,
        Opcode::Eq => i == 1 || i == 2,
        Opcode::Gt => i == 1 || i == 2,
        Opcode::Jmp => i == 0,
        Opcode::JmpIfTrue => i == 0 || i == 1,
        Opcode::JmpIfFalse => i == 0 || i == 1,
        Opcode::Add => i == 1 || i == 2,
        Opcode::Mult => i == 1 || i == 2,
        Opcode::Mod => i == 1 || i == 2,
        Opcode::And => i == 1 || i == 2,
        Opcode::Or => i == 1 || i == 2,
        Opcode::Not => i == 1,
        Opcode::RMem => i == 1,
        Opcode::WMem => i == 0 || i == 1,
        Opcode::Call => i == 0,
        Opcode::Ret => false,
        Opcode::Out => i == 0,
        Opcode::In => false,
        Opcode::Noop => false,
        Opcode::Unknown => false,
    }
}

impl Opcode {
    /// The number of operand words this opcode consumes.
    pub fn arg_count(&self) -> (n: usize)
        ensures
            n == arity(*self),
    {
        match self {
            Opcode::Halt => 0,
            Opcode::SetReg => 2,
            Opcode::Push => 1,
            Opcode::Pop => 1,
            Opcode::Eq => 3,
            Opcode::Gt => 3,
            Opcode::Jmp => 1,
            Opcode::JmpIfTrue => 2,
            Opcode::JmpIfFalse => 2,
            Opcode::Add => 3,
            Opcode::Mult => 3,
            Opcode::Mod => 3,
            Opcode::And => 3,
            Opcode::Or => 3,
            Opcode::Not => 2,
            Opcode::RMem => 2,
            Opcode::WMem => 2,
            Opcode::Call => 1,
            Opcode::Ret => 0,
            Opcode::Out => 1,
            Opcode::In => 1,
            Opcode::Noop => 0,
            Opcode::Unknown => 0,
        }
    }

    /// Whether operand `i` is resolved at decode time (see
    /// `resolves_operand`).
    pub fn resolves_arg(&self, i: usize) -> (r: bool)
        ensures
            r == resolves_operand(*self, i as int),
    {
        match self {
            Opcode::Halt => false,
            Opcode::SetReg => i == 1,
            Opcode::Push => i == 0,
            Opcode::Pop => false,
            Opcode::Eq => i == 1 || i == 2,
            Opcode::Gt => i == 1 || i == 2,
            Opcode::Jmp => i == 0,
            Opcode::JmpIfTrue => i == 0 || i == 1,
            Opcode::JmpIfFalse => i == 0 || i == 1,
            Opcode::Add => i == 1 || i == 2,
            Opcode::Mult => i == 1 || i == 2,
            Opcode::Mod => i == 1 || i == 2,
            Opcode::And => i == 1 || i == 2,
            Opcode::Not => i == 1,
            Opcode::Or => i == 1 || i == 2,
            Opcode::RMem => i == 1,
            Opcode::WMem => i == 0 || i == 1,
            Opcode::Call => i == 0,
            Opcode::Ret => false,
            Opcode::Out => i == 0,
            Opcode::In => false,
            Opcode::Noop => false,
            Opcode::Unknown => false,
        }
    }
}

/// The display name of an opcode.
pub open spec fn opcode_name(op: Opcode) -> Seq<char> {
    match op {
        Opcode::Halt => "Halt"@,
        Opcode::SetReg => "Set"@,
        Opcode::Push => "Push"@,
        Opcode::Pop => "Pop"@,
        Opcode::Eq => "Eq"@,
        Opcode::Gt => "Gt"@,
        Opcode::Jmp => "Jmp"@,
        Opcode::JmpIfTrue => "JmpIfTrue"@,
        Opcode::JmpIfFalse => "JmpIfFalse"@,
        Opcode::Add => "Add"@,
        Opcode::Mult => "Mult"@,
        Opcode::Mod => "Mod"@,
        Opcode::And => "And"@,
        Opcode::Or => "Or"@,
        Opcode::Not => "Not"@,
        Opcode::RMem => "RMem"@,
        Opcode::WMem => "WMem"@,
        Opcode::Call => "Call"@,
        Opcode::Ret => "Ret"@,
        Opcode::Out => "Out"@,
        Opcode::In => "In"@,
        Opcode::Noop => "Noop"@,
        Opcode::Unknown => "Unknown"@,
    }
}

impl Opcode {
    /// The display name of this opcode.
    pub fn name(&self) -> (r: &'static str)
        ensures
            r@ == opcode_name(*self),
    {
        match self {
            Opcode::Halt => "Halt",
            Opcode::SetReg => "Set",
            Opcode::Push => "Push",
            Opcode::Pop => "Pop",
            Opcode::Eq => "Eq",
            Opcode::Gt => "Gt",
            Opcode::Jmp => "Jmp",
            Opcode::JmpIfTrue => "JmpIfTrue",
            Opcode::JmpIfFalse => "JmpIfFalse",
            Opcode::Add => "Add",
            Opcode::Mult => "Mult",
            Opcode::Mod => "Mod",
            Opcode::And => "And",
            Opcode::Or => "Or",
            Opcode::Not => "Not",
            Opcode::RMem => "RMem",
            Opcode::WMem => "WMem",
            Opcode::Call => "Call",
            Opcode::Ret => "Ret",
            Opcode::Out => "Out",
            Opcode::In => "In",
            Opcode::Noop => "Noop",
            Opcode::Unknown => "Unknown",
        }
    }
}

impl From<u16> for Opcode {
    /// The opcode table: raw word to instruction tag.
    fn from(code: u16) -> (r: Opcode)
        ensures
            r == opcode_of(code),
    {
        match code {
            0 => Opcode::Halt,
            1 => Opcode::SetReg,
            2 => Opcode::Push,
            3 => Opcode::Pop,
            4 => Opcode::Eq,
            5 => Opcode::Gt,
            6 => Opcode::Jmp,
            7 => Opcode::JmpIfTrue,
            8 => Opcode::JmpIfFalse,
            9 => Opcode::Add,
            10 => Opcode::Mult,
            11 => Opcode::Mod,
            12 => Opcode::And,
            13 => Opcode::Or,
            14 => Opcode::Not,
            15 => Opcode::RMem,
            16 => Opcode::WMem,
            17 => Opcode::Call,
            18 => Opcode::Ret,
            19 => Opcode::Out,
            20 => Opcode::In,
            21 => Opcode::Noop,
            _ => Opcode::Unknown,
        }
    }
}

impl vstd::std_specs::convert::FromSpecImpl<u16> for Opcode {
    open spec fn obeys_from_spec() -> bool {
        true
    }

    open spec fn from_spec(code: u16) -> Opcode {
        opcode_of(code)
    }
}

} // verus!
