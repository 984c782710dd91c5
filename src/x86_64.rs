//! The x86-64 relocation engine.
use vstd::prelude::*;
use crate::mem::{put_u32, put_u64, wadd, wsub, zero_range};
use crate::mem::{is_zero_range, write_u32, write_u64};
use crate::{ModuleLoadErr, RelocFailure};
use crate::elf::{Rela, get_rela_sym_idx, get_rela_type, rela_kind, rela_symbol};

verus! {

/// The kinds of x86-64 relocations, by their ELF names.
#[allow(non_camel_case_types)]
#[derive(Debug, Clone, Copy, PartialEq, Eq, Structural)]
pub enum X86_64RelocationType {
    R_X86_64_NONE,
    R_X86_64_64,
    R_X86_64_PC32,
    R_X86_64_GOT32,
    R_X86_64_PLT32,
    R_X86_64_COPY,
    R_X86_64_GLOB_DAT,
    R_X86_64_JUMP_SLOT,
    R_X86_64_RELATIVE,
    R_X86_64_GOTPCREL,
    R_X86_64_32,
    R_X86_64_32S,
    R_X86_64_16,
    R_X86_64_PC16,
    R_X86_64_8,
    R_X86_64_PC8,
    R_X86_64_PC64,
}

impl X86_64RelocationType {
    /// The numeric relocation type of this kind.
    pub open spec fn spec_code(self) -> u32 {
        match self {
            X86_64RelocationType::R_X86_64_NONE => 0,
            X86_64RelocationType::R_X86_64_64 => 1,
            X86_64RelocationType::R_X86_64_PC32 => 2,
            X86_64RelocationType::R_X86_64_GOT32 => 3,
            X86_64RelocationType::R_X86_64_PLT32 => 4,
            X86_64RelocationType::R_X86_64_COPY => 5,
            X86_64RelocationType::R_X86_64_GLOB_DAT => 6,
            X86_64RelocationType::R_X86_64_JUMP_SLOT => 7,
            X86_64RelocationType::R_X86_64_RELATIVE => 8,
            X86_64RelocationType::R_X86_64_GOTPCREL => 9,
            X86_64RelocationType::R_X86_64_32 => 10,
            X86_64RelocationType::R_X86_64_32S => 11,
            X86_64RelocationType::R_X86_64_16 => 12,
            X86_64RelocationType::R_X86_64_PC16 => 13,
            X86_64RelocationType::R_X86_64_8 => 14,
            X86_64RelocationType::R_X86_64_PC8 => 15,
            X86_64RelocationType::R_X86_64_PC64 => 24,
        }
    }

    /// The kind that a numeric relocation type names, if any.
    pub open spec fn from_code(code: u32) -> Option<Self> {
        match code {
            0 => Some(X86_64RelocationType::R_X86_64_NONE),
            1 => Some(X86_64RelocationType::R_X86_64_64),
            2 => Some(X86_64RelocationType::R_X86_64_PC32),
            3 => Some(X86_64RelocationType::R_X86_64_GOT32),
            4 => Some(X86_64RelocationType::R_X86_64_PLT32),
            5 => Some(X86_64RelocationType::R_X86_64_COPY),
            6 => Some(X86_64RelocationType::R_X86_64_GLOB_DAT),
            7 => Some(X86_64RelocationType::R_X86_64_JUMP_SLOT),
            8 => Some(X86_64RelocationType::R_X86_64_RELATIVE),
            9 => Some(X86_64RelocationType::R_X86_64_GOTPCREL),
            10 => Some(X86_64RelocationType::R_X86_64_32),
            11 => Some(X86_64RelocationType::R_X86_64_32S),
            12 => Some(X86_64RelocationType::R_X86_64_16),
            13 => Some(X86_64RelocationType::R_X86_64_PC16),
            14 => Some(X86_64RelocationType::R_X86_64_8),
            15 => Some(X86_64RelocationType::R_X86_64_PC8),
            24 => Some(X86_64RelocationType::R_X86_64_PC64),
            _ => None,
        }
    }

    /// Decodes a numeric relocation type; `None` for a number that names no kind.
    pub fn from_u32(code: u32) -> (r: Option<Self>)
        ensures
            r == Self::from_code(code),
    {
        match code {
            0 => Some(X86_64RelocationType::R_X86_64_NONE),
            1 => Some(X86_64RelocationType::R_X86_64_64),
            2 => Some(X86_64RelocationType::R_X86_64_PC32),
            3 => Some(X86_64RelocationType::R_X86_64_GOT32),
            4 => Some(X86_64RelocationType::R_X86_64_PLT32),
            5 => Some(X86_64RelocationType::R_X86_64_COPY),
            6 => Some(X86_64RelocationType::R_X86_64_GLOB_DAT),
            7 => Some(X86_64RelocationType::R_X86_64_JUMP_SLOT),
            8 => Some(X86_64RelocationType::R_X86_64_RELATIVE),
            9 => Some(X86_64RelocationType::R_X86_64_GOTPCREL),
            10 => Some(X86_64RelocationType::R_X86_64_32),
            11 => Some(X86_64RelocationType::R_X86_64_32S),
            12 => Some(X86_64RelocationType::R_X86_64_16),
            13 => Some(X86_64RelocationType::R_X86_64_PC16),
            14 => Some(X86_64RelocationType::R_X86_64_8),
            15 => Some(X86_64RelocationType::R_X86_64_PC8),
            24 => Some(X86_64RelocationType::R_X86_64_PC64),
            _ => None,
        }
    }

    /// The numeric relocation type of this kind.
    pub fn code(&self) -> (r: u32)
        ensures
            r == self.spec_code(),
    {
        match self {
            X86_64RelocationType::R_X86_64_NONE => 0,
            X86_64RelocationType::R_X86_64_64 => 1,
            X86_64RelocationType::R_X86_64_PC32 => 2,
            X86_64RelocationType::R_X86_64_GOT32 => 3,
            X86_64RelocationType::R_X86_64_PLT32 => 4,
            X86_64RelocationType::R_X86_64_COPY => 5,
            X86_64RelocationType::R_X86_64_GLOB_DAT => 6,
            X86_64RelocationType::R_X86_64_JUMP_SLOT => 7,
            X86_64RelocationType::R_X86_64_RELATIVE => 8,
            X86_64RelocationType::R_X86_64_GOTPCREL => 9,
            X86_64RelocationType::R_X86_64_32 => 10,
            X86_64RelocationType::R_X86_64_32S => 11,
            X86_64RelocationType::R_X86_64_16 => 12,
            X86_64RelocationType::R_X86_64_PC16 => 13,
            X86_64RelocationType::R_X86_64_8 => 14,
            X86_64RelocationType::R_X86_64_PC8 => 15,
            X86_64RelocationType::R_X86_64_PC64 => 24,
        }
    }
}

/// What a relocation of `kind` at `location` towards `target` (S + A) writes:
/// its width in bytes (zero for none) and its value, or why it fails.
pub open spec fn x86_value(kind: X86_64RelocationType, location: u64, target: u64) -> Result<
    (nat, u64),
    RelocFailure,
> {
    match kind {
        X86_64RelocationType::R_X86_64_NONE => Ok((0, 0)),
        X86_64RelocationType::R_X86_64_64 => Ok((8, target)),
        X86_64RelocationType::R_X86_64_32 => if fits_u32(target) {
            Ok((4, target))
        } else {
            Err(RelocFailure::Overflow)
        },
        X86_64RelocationType::R_X86_64_32S => if fits_s32(target) {
            Ok((4, target))
        } else {
            Err(RelocFailure::Overflow)
        },
        X86_64RelocationType::R_X86_64_PC32 | X86_64RelocationType::R_X86_64_PLT32 => {
            let v = wsub(target, location);
            if fits_s32(v) {
                Ok((4, v))
            } else {
                Err(RelocFailure::Overflow)
            }
        },
        X86_64RelocationType::R_X86_64_PC64 => Ok((8, wsub(target, location))),
        _ => Err(RelocFailure::Unsupported),
    }
}

/// `v` read as an unsigned number is below 2^32.
pub open spec fn fits_u32(v: u64) -> bool {
    v < 0x1_0000_0000
}

/// `v` read as a signed 64-bit number lies in [-2^31, 2^31).
pub open spec fn fits_s32(v: u64) -> bool {
    v < 0x8000_0000 || v >= 0xffff_ffff_8000_0000
}

/// The section image after one relocation, or why it fails.
pub open spec fn x86_step(
    kind: X86_64RelocationType,
    mem: Seq<u8>,
    off: int,
    location: u64,
    target: u64,
) -> Result<Seq<u8>, RelocFailure> {
    match x86_value(kind, location, target) {
        Err(e) => Err(e),
        Ok((size, v)) => if size == 0 {
            Ok(mem)
        } else if off + size > mem.len() {
            Err(RelocFailure::OutOfBounds)
        } else if !zero_range(mem, off, size as int) {
            Err(RelocFailure::NonZeroTarget)
        } else if size == 4 {
            Ok(put_u32(mem, off, v as u32))
        } else {
            Ok(put_u64(mem, off, v))
        },
    }
}

impl X86_64RelocationType {
    /// Applies this relocation to the section image `mem` at byte `off`, whose
    /// runtime address is `location`; `target_addr` is S + A.
    pub fn apply_relocation(&self, mem: &mut Vec<u8>, off: usize, location: u64, target_addr: u64) -> (r: Result<(), ModuleLoadErr>)
        ensures
            match x86_step(*self, old(mem)@, off as int, location, target_addr) {
                Ok(m) => r is Ok && final(mem)@ == m,
                Err(e) => r == Err::<(), _>(ModuleLoadErr::RelocationFailed(e)) && final(mem)@ == old(mem)@,
            },
    {
        let size: usize;
        let mut value = target_addr;
        match self {
            X86_64RelocationType::R_X86_64_NONE => return Ok(()),
            X86_64RelocationType::R_X86_64_64 => {
                size = 8;
            },
            X86_64RelocationType::R_X86_64_32 => {
                if target_addr >= 0x1_0000_0000 {
                    return Err(ModuleLoadErr::RelocationFailed(RelocFailure::Overflow));
                }
                size = 4;
            },
            X86_64RelocationType::R_X86_64_32S => {
                if !(target_addr < 0x8000_0000 || target_addr >= 0xffff_ffff_8000_0000) {
                    return Err(ModuleLoadErr::RelocationFailed(RelocFailure::Overflow));
                }
                size = 4;
            },
            X86_64RelocationType::R_X86_64_PC32 | X86_64RelocationType::R_X86_64_PLT32 => {
                value = target_addr.wrapping_sub(location);
                if !(value < 0x8000_0000 || value >= 0xffff_ffff_8000_0000) {
                    return Err(ModuleLoadErr::RelocationFailed(RelocFailure::Overflow));
                }
                size = 4;
            },
            X86_64RelocationType::R_X86_64_PC64 => {
                value = target_addr.wrapping_sub(location);
                size = 8;
            },
            _ => {
                return Err(ModuleLoadErr::RelocationFailed(RelocFailure::Unsupported));
            },
        }
        if off > mem.len() || size > mem.len() - off {
            return Err(ModuleLoadErr::RelocationFailed(RelocFailure::OutOfBounds));
        }
        if !is_zero_range(mem, off, size) {
            return Err(ModuleLoadErr::RelocationFailed(RelocFailure::NonZeroTarget));
        }
        if size == 4 {
            write_u32(mem, off, value as u32);
        } else {
            write_u64(mem, off, value);
        }
        Ok(())
    }
}

/// One rela entry applied to `mem`, the image of the section at `base`, with
/// `syms` the final symbol values.
pub open spec fn x86_rela_step(rela: Rela, mem: Seq<u8>, base: u64, syms: Seq<u64>) -> Result<
    Seq<u8>,
    RelocFailure,
> {
    match X86_64RelocationType::from_code(rela_kind(rela.r_info)) {
        None => Err(RelocFailure::UnknownType),
        Some(kind) => if rela_symbol(rela.r_info) >= syms.len() {
            Err(RelocFailure::BadSymbolIndex)
        } else if rela.r_offset >= mem.len() {
            Err(RelocFailure::OutOfBounds)
        } else {
            x86_step(
                kind,
                mem,
                rela.r_offset as int,
                wadd(base, rela.r_offset),
                wadd(syms[rela_symbol(rela.r_info) as int], rela.r_addend as u64),
            )
        },
    }
}

/// The first `n` entries of `relas` applied in order.
pub open spec fn x86_run(relas: Seq<Rela>, n: nat, mem: Seq<u8>, base: u64, syms: Seq<u64>) -> Result<
    Seq<u8>,
    RelocFailure,
>
    decreases n,
{
    if n == 0 || n > relas.len() {
        Ok(mem)
    } else {
        match x86_run(relas, (n - 1) as nat, mem, base, syms) {
            Err(e) => Err(e),
            Ok(m) => x86_rela_step(relas[n - 1], m, base, syms),
        }
    }
}

/// Once a run has failed, running further entries keeps the same failure.
proof fn lemma_x86_run_stops(relas: Seq<Rela>, n: nat, m: nat, mem: Seq<u8>, base: u64, syms: Seq<u64>)
    requires
        n <= m <= relas.len(),
        x86_run(relas, n, mem, base, syms) is Err,
    ensures
        x86_run(relas, m, mem, base, syms) == x86_run(relas, n, mem, base, syms),
    decreases m - n,
{
    if m > n {
        lemma_x86_run_stops(relas, n, (m - 1) as nat, mem, base, syms);
    }
}

pub struct X86_64ArchRelocate;

impl X86_64ArchRelocate {
    /// Applies every entry of a relocation section, in order, to `mem`, the
    /// image of the section at runtime address `base`; stops at the first failure.
    pub fn apply_relocate_add(relas: &Vec<Rela>, mem: &mut Vec<u8>, base: u64, syms: &Vec<u64>) -> (r: Result<(), ModuleLoadErr>)
        ensures
            match x86_run(relas@, relas@.len(), old(mem)@, base, syms@) {
                Ok(m) => r is Ok && final(mem)@ == m,
                Err(e) => r == Err::<(), _>(ModuleLoadErr::RelocationFailed(e))
                    && exists|k: nat| k < relas@.len() && #[trigger] x86_run(relas@, k, old(mem)@, base, syms@) == Ok::<Seq<u8>, RelocFailure>(final(mem)@)
                        && x86_run(relas@, k + 1, old(mem)@, base, syms@) == Err::<Seq<u8>, RelocFailure>(e),
            },
    {
        let mut i: usize = 0;
        while i < relas.len()
            invariant
                i <= relas@.len(),
                x86_run(relas@, i as nat, old(mem)@, base, syms@) == Ok::<_, RelocFailure>(mem@),
            decreases relas@.len() - i,
        {
            let rela = relas[i];
            let kind = match X86_64RelocationType::from_u32(get_rela_type(rela.r_info)) {
                Some(k) => k,
                None => {
                    proof {
                        lemma_x86_run_stops(relas@, (i + 1) as nat, relas@.len(), old(mem)@, base, syms@);
                    assert(x86_run(relas@, i as nat, old(mem)@, base, syms@) == Ok::<Seq<u8>, RelocFailure>(mem@));
                    }
                    return Err(ModuleLoadErr::RelocationFailed(RelocFailure::UnknownType));
                },
            };
            let sym = get_rela_sym_idx(rela.r_info);
            if sym >= syms.len() as u64 {
                proof {
                    lemma_x86_run_stops(relas@, (i + 1) as nat, relas@.len(), old(mem)@, base, syms@);
                    assert(x86_run(relas@, i as nat, old(mem)@, base, syms@) == Ok::<Seq<u8>, RelocFailure>(mem@));
                }
                return Err(ModuleLoadErr::RelocationFailed(RelocFailure::BadSymbolIndex));
            }
            if rela.r_offset >= mem.len() as u64 {
                proof {
                    lemma_x86_run_stops(relas@, (i + 1) as nat, relas@.len(), old(mem)@, base, syms@);
                    assert(x86_run(relas@, i as nat, old(mem)@, base, syms@) == Ok::<Seq<u8>, RelocFailure>(mem@));
                }
                return Err(ModuleLoadErr::RelocationFailed(RelocFailure::OutOfBounds));
            }
            let location = base.wrapping_add(rela.r_offset);
            let target = syms[sym as usize].wrapping_add(#[verifier::truncate] (rela.r_addend as u64));
            let res = kind.apply_relocation(mem, rela.r_offset as usize, location, target);
            if res.is_err() {
                proof {
                    lemma_x86_run_stops(relas@, (i + 1) as nat, relas@.len(), old(mem)@, base, syms@);
                    assert(x86_run(relas@, i as nat, old(mem)@, base, syms@) == Ok::<Seq<u8>, RelocFailure>(mem@));
                }
                return res;
            }
            i += 1;
        }
        Ok(())
    }
}

} // verus!
