use vstd::prelude::*;

verus! {

/// Why a multi-architecture container could not give up its x86-64 slice.
#[derive(Debug, Clone, Copy, PartialEq, Eq, Structural)]
pub enum FormatError {
    /// The bytes are not a multi-architecture (fat) container.
    NotFat,
    /// The container holds no slice for the x86-64 architecture.
    MissingArch,
    /// The x86-64 slice does not start with the 64-bit Mach-O magic.
    BadSliceMagic,
}

/// An internal consistency check of the emulation failed.
#[derive(Debug, Clone, Copy, PartialEq, Eq, Structural)]
pub enum EmulationFault {
    /// A handle that the object table never issued.
    InvalidHandle,
    /// An object of another kind than the operation needs.
    WrongObjectType,
    /// A dictionary lookup of a key the dictionary does not hold.
    KeyNotFound,
    /// A hook was handed another number of arguments than it declares.
    InvalidHookArity,
    /// Control reached a trampoline address that no hook was assigned to.
    UnresolvedHook,
    /// A read or write of guest memory failed.
    UnmappedMemory,
    /// A byte range past the end of a buffer object.
    OutOfRange,
}

/// Every way a validation-data run can fail.
#[derive(Debug, Clone, Copy, PartialEq, Eq, Structural)]
pub enum EmuError {
    Format(FormatError),
    Fault(EmulationFault),
}

} // verus!
