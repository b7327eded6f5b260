use vstd::prelude::*;

verus! {

/// A fatal condition that stops the machine.
///
/// `LoadError` is raised while decoding a binary image; the others are
/// raised during execution.  An empty-stack `Ret` is *not* an error: it is
/// the defined termination condition and never produces a `VmError`.
#[derive(Clone, Copy, Debug, PartialEq, Eq, Structural)]
pub enum VmError {
    /// The binary image is malformed (a trailing odd byte).
    LoadError,
    /// The word fetched at the instruction pointer maps to no opcode.
    InvalidOpcode(u16),
    /// An operand is outside the legal literal/register range, or a
    /// write-target operand is not a register address.
    InvalidOperand(u16),
    /// A memory fetch touched an address that was never written.
    InvalidAddress(u16),
    /// `Pop` was executed with an empty stack.
    StackUnderflow,
    /// `Mod` was executed with divisor zero.
    DivideByZero,
}

} // verus!
