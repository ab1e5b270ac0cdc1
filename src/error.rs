use vstd::prelude::*;

verus! {

/// The ways in which loading or running a program can fail.
#[derive(Clone, Copy, Debug, PartialEq, Eq, Structural)]
pub enum Chip8Error {
    /// The program does not fit in memory above the load origin.
    RomTooLarge,
    /// A subroutine call with all sixteen stack slots in use.
    StackOverflow,
    /// A return with no subroutine call to return from.
    StackUnderflow,
    /// The instruction word matches no known instruction.
    UnknownOpcode(u16),
    /// An instruction or its data lies outside the address space.
    AddressOutOfRange,
    /// A key index outside 0 to 15.
    InvalidKey,
}

} // verus!
