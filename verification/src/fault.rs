use vstd::prelude::*;

verus! {

/// A fatal condition. It ends execution at once: nothing is retried, and what
/// the faulting instruction had already changed stays changed.
#[derive(Clone, Copy, Debug, PartialEq, Eq)]
pub enum Fault {
    /// A fetch addressed memory beyond its last byte.
    OutOfBounds,
    /// A call was attempted while every stack slot was occupied.
    StackOverflow,
    /// A return was attempted while the stack was empty.
    StackUnderflow,
    /// The opcode, carried here, is not an instruction of this machine.
    UnimplementedOpcode(u16),
}

/// Where the machine stands after an instruction, or after a run.
#[derive(Clone, Copy, Debug, PartialEq, Eq)]
pub enum Status {
    /// The last instruction completed and the next one can be fetched.
    Running,
    /// The halt opcode was executed.
    Halted,
    /// A fatal condition arose.
    Faulted(Fault),
}

} // verus!
