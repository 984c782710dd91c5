//! A loader for relocatable 64-bit ELF kernel modules: section layout, symbol
//! resolution, the per-architecture relocation engines and the module
//! parameter parser.
use vstd::prelude::*;

pub mod aarch64;
pub mod elf;
pub mod kbindings;
pub mod laws;
pub mod loader;
pub mod loongarch64;
pub mod mem;
pub mod module;
pub mod param;
pub mod riscv64;
pub mod x86_64;

verus! {

/// Why a single relocation could not be applied.
#[derive(Debug, Clone, Copy, PartialEq, Eq, Structural)]
pub enum RelocFailure {
    /// The relocation type number names no kind of this architecture.
    UnknownType,
    /// The kind is known but this engine does not implement it.
    Unsupported,
    /// The result does not fit the field it is written to.
    Overflow,
    /// The bytes at the target location were not zero before the write.
    NonZeroTarget,
    /// The target location lies outside the section it relocates.
    OutOfBounds,
    /// The result must be a multiple of four and is not.
    Unaligned,
    /// A value was pushed onto a full expression stack.
    StackOverflow,
    /// A value was popped from an empty expression stack.
    StackUnderflow,
    /// The branch is out of reach and would need a veneer, which is not emitted.
    VeneerRequired,
    /// The expression stack was not empty at the end of a relocation section.
    StackNotEmpty,
    /// The relocation names a symbol that the symbol table does not hold.
    BadSymbolIndex,
    /// The low half of a PC-relative pair has no high half at the place it names.
    UnpairedLo12,
}

/// Errors of a module load.
#[derive(Debug, Clone, Copy, PartialEq, Eq, Structural)]
pub enum ModuleLoadErr {
    InvalidElf,
    UnsupportedArch,
    RelocationFailed(RelocFailure),
    MemoryAllocationFailed,
    UnsupportedFeature,
    UndefinedSymbol,
    InvalidOperation,
}

} // verus!
