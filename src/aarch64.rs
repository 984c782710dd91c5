//! The AArch64 relocation engine and its instruction-immediate encoder.
use vstd::prelude::*;
use crate::mem::{le_u32, put_u16, put_u32, put_u64, wadd, wsub};
use crate::mem::{read_u32, write_u16, write_u32, write_u64};
use crate::{ModuleLoadErr, RelocFailure};
use crate::elf::{Rela, get_rela_sym_idx, get_rela_type, rela_kind, rela_symbol};

verus! {

/// How the relocation result is computed from S + A and the place P.
#[allow(non_camel_case_types)]
#[derive(Debug, Clone, Copy, PartialEq, Eq, Structural)]
pub enum Aarch64RelocOp {
    RELOC_OP_NONE,
    RELOC_OP_ABS,
    RELOC_OP_PREL,
    RELOC_OP_PAGE,
}

/// How a MOVW relocation treats the sign of its result.
#[allow(non_camel_case_types)]
#[derive(Debug, Clone, Copy, PartialEq, Eq, Structural)]
pub enum Aarch64InsnMovwImmType {
    AARCH64_INSN_IMM_MOVNZ,
    AARCH64_INSN_IMM_MOVKZ,
}

/// The immediate fields of an AArch64 instruction.
#[allow(non_camel_case_types)]
#[derive(Debug, Clone, Copy, PartialEq, Eq, Structural)]
pub enum Aarch64InsnImmType {
    AARCH64_INSN_IMM_ADR,
    AARCH64_INSN_IMM_26,
    AARCH64_INSN_IMM_19,
    AARCH64_INSN_IMM_16,
    AARCH64_INSN_IMM_14,
    AARCH64_INSN_IMM_12,
    AARCH64_INSN_IMM_9,
    AARCH64_INSN_IMM_7,
    AARCH64_INSN_IMM_6,
    AARCH64_INSN_IMM_S,
    AARCH64_INSN_IMM_R,
    AARCH64_INSN_IMM_N,
    AARCH64_INSN_IMM_MAX,
}

/// The break instruction that marks an instruction as already poisoned.
pub const AARCH64_BREAK_FAULT: u32 = 0xd420_0000 | (0x100 << 5);

/// The bits of the split ADR immediate: two low bits at 30:29, nineteen high bits at 23:5.
pub const ADR_IMM_MASK: u32 = (3 << 29) | (0x7ffff << 5);

/// Shift and width mask of each single immediate field.
pub open spec fn imm_shift_mask(t: Aarch64InsnImmType) -> Option<(u32, u32)> {
    match t {
        Aarch64InsnImmType::AARCH64_INSN_IMM_26 => Some((0, 0x3ff_ffff)),
        Aarch64InsnImmType::AARCH64_INSN_IMM_19 => Some((5, 0x7_ffff)),
        Aarch64InsnImmType::AARCH64_INSN_IMM_16 => Some((5, 0xffff)),
        Aarch64InsnImmType::AARCH64_INSN_IMM_14 => Some((5, 0x3fff)),
        Aarch64InsnImmType::AARCH64_INSN_IMM_12 => Some((10, 0xfff)),
        Aarch64InsnImmType::AARCH64_INSN_IMM_9 => Some((12, 0x1ff)),
        Aarch64InsnImmType::AARCH64_INSN_IMM_7 => Some((15, 0x7f)),
        Aarch64InsnImmType::AARCH64_INSN_IMM_6 | Aarch64InsnImmType::AARCH64_INSN_IMM_S => Some((10, 0x3f)),
        Aarch64InsnImmType::AARCH64_INSN_IMM_R => Some((16, 0x3f)),
        Aarch64InsnImmType::AARCH64_INSN_IMM_N => Some((22, 1)),
        _ => None,
    }
}

/// The bits of an instruction that the immediate of type `t` occupies.
pub open spec fn imm_field_mask(t: Aarch64InsnImmType) -> u32 {
    match t {
        Aarch64InsnImmType::AARCH64_INSN_IMM_ADR => ADR_IMM_MASK,
        _ => match imm_shift_mask(t) {
            Some((s, m)) => (m << s) as u32,
            None => 0xffff_ffff,
        },
    }
}

/// `insn` with its immediate field of type `t` replaced by the low bits of `imm`.
pub open spec fn encode_imm(t: Aarch64InsnImmType, insn: u32, imm: u64) -> u32 {
    if insn == AARCH64_BREAK_FAULT {
        insn
    } else {
        match t {
            Aarch64InsnImmType::AARCH64_INSN_IMM_ADR => {
                let lo = (((imm as u32) & 3u32) << 29u32) as u32;
                let hi = ((((imm >> 2u64) as u32) & 0x7ffffu32) << 5u32) as u32;
                (insn & !ADR_IMM_MASK) | ((lo | hi) & ADR_IMM_MASK)
            },
            _ => match imm_shift_mask(t) {
                Some((s, m)) => (insn & !((m << s) as u32)) | ((((imm as u32) & m) << s) as u32),
                None => AARCH64_BREAK_FAULT,
            },
        }
    }
}

pub fn aarch64_get_imm_shift_mask(imm_type: Aarch64InsnImmType) -> (r: Option<(u32, u32)>)
    ensures
        r == imm_shift_mask(imm_type),
{
    match imm_type {
        Aarch64InsnImmType::AARCH64_INSN_IMM_26 => Some((0, 0x3ff_ffff)),
        Aarch64InsnImmType::AARCH64_INSN_IMM_19 => Some((5, 0x7_ffff)),
        Aarch64InsnImmType::AARCH64_INSN_IMM_16 => Some((5, 0xffff)),
        Aarch64InsnImmType::AARCH64_INSN_IMM_14 => Some((5, 0x3fff)),
        Aarch64InsnImmType::AARCH64_INSN_IMM_12 => Some((10, 0xfff)),
        Aarch64InsnImmType::AARCH64_INSN_IMM_9 => Some((12, 0x1ff)),
        Aarch64InsnImmType::AARCH64_INSN_IMM_7 => Some((15, 0x7f)),
        Aarch64InsnImmType::AARCH64_INSN_IMM_6 | Aarch64InsnImmType::AARCH64_INSN_IMM_S => Some((10, 0x3f)),
        Aarch64InsnImmType::AARCH64_INSN_IMM_R => Some((16, 0x3f)),
        Aarch64InsnImmType::AARCH64_INSN_IMM_N => Some((22, 1)),
        _ => None,
    }
}

/// Writes the low bits of `imm` into the immediate field of type `imm_type` of
/// `insn`. The poison break instruction is returned unchanged; an unknown field
/// type gives the poison instruction.
pub fn aarch64_insn_encode_immediate(imm_type: Aarch64InsnImmType, insn: u32, imm: u64) -> (r: u32)
    ensures
        r == encode_imm(imm_type, insn, imm),
        insn != AARCH64_BREAK_FAULT && imm_type != Aarch64InsnImmType::AARCH64_INSN_IMM_MAX ==>
            r & !imm_field_mask(imm_type) == insn & !imm_field_mask(imm_type),
{
    if insn == AARCH64_BREAK_FAULT {
        return insn;
    }
    match imm_type {
        Aarch64InsnImmType::AARCH64_INSN_IMM_ADR => {
            let lo = (#[verifier::truncate] (imm as u32) & 3u32) << 29u32;
            let hi = (#[verifier::truncate] ((imm >> 2u64) as u32) & 0x7ffffu32) << 5u32;
            let r = (insn & !ADR_IMM_MASK) | ((lo | hi) & ADR_IMM_MASK);
            proof {
                lemma_shifted_inside(lo | hi, ADR_IMM_MASK, 0);
                lemma_field_kept(insn, (lo | hi) & ADR_IMM_MASK, ADR_IMM_MASK);
            }
            r
        },
        _ => match aarch64_get_imm_shift_mask(imm_type) {
            Some((s, m)) => {
                let r = (insn & !(m << s)) | ((#[verifier::truncate] (imm as u32) & m) << s);
                proof {
                    lemma_shifted_inside(imm as u32, m, s);
                    lemma_field_kept(insn, ((imm as u32) & m) << s, m << s);
                }
                r
            },
            None => AARCH64_BREAK_FAULT,
        },
    }
}

/// Replacing the bits under `mask` by bits that lie under it keeps the others.
pub proof fn lemma_field_kept(insn: u32, v: u32, mask: u32)
    requires
        v & !mask == 0,
    ensures
        ((insn & !mask) | v) & !mask == insn & !mask,
{
    assert(((insn & !mask) | v) & !mask == insn & !mask) by (bit_vector)
        requires
            v & !mask == 0,
    ;
}

/// Masked bits lie under the mask, also when both are shifted alike.
pub proof fn lemma_shifted_inside(x: u32, m: u32, s: u32)
    requires
        s < 32,
    ensures
        (x & m) & !m == 0,
        ((x & m) << s) & !(m << s) == 0,
{
    assert((x & m) & !m == 0) by (bit_vector);
    assert(((x & m) << s) & !(m << s) == 0) by (bit_vector)
        requires
            s < 32,
    ;
}

/// The relocation result before any shift: S + A, S + A - P, or the page distance.
pub open spec fn do_reloc_spec(op: Aarch64RelocOp, location: u64, address: u64) -> u64 {
    match op {
        Aarch64RelocOp::RELOC_OP_ABS => address,
        Aarch64RelocOp::RELOC_OP_PREL => wsub(address, location),
        Aarch64RelocOp::RELOC_OP_PAGE => wsub(address & !0xfffu64, location & !0xfffu64),
        Aarch64RelocOp::RELOC_OP_NONE => 0,
    }
}

pub fn do_reloc(op: Aarch64RelocOp, location: u64, address: u64) -> (r: u64)
    ensures
        r == do_reloc_spec(op, location, address),
{
    match op {
        Aarch64RelocOp::RELOC_OP_ABS => address,
        Aarch64RelocOp::RELOC_OP_PREL => address.wrapping_sub(location),
        Aarch64RelocOp::RELOC_OP_PAGE => (address & !0xfffu64).wrapping_sub(location & !0xfffu64),
        Aarch64RelocOp::RELOC_OP_NONE => 0,
    }
}

/// Whether an ADRP at this address hits the Cortex-A53 erratum 843419; this
/// loader does not apply the mitigation.
pub fn is_forbidden_offset_for_adrp(_address: u64) -> (r: bool)
    ensures
        !r,
{
    false
}

/// What one relocation kind does, as a row of the relocation table.
#[derive(Debug, Clone, Copy, PartialEq, Eq, Structural)]
pub enum Aarch64Action {
    /// Nothing is written.
    Nothing,
    /// The result is stored as a little-endian integer of `bits` bits.
    Data { op: Aarch64RelocOp, bits: u32, check: bool },
    /// The bits from `lsb` of the result go into a MOVZ/MOVN/MOVK immediate.
    Movw { op: Aarch64RelocOp, lsb: u32, movw_type: Aarch64InsnMovwImmType, check: bool },
    /// `len` bits from `lsb` of the result go into the field `imm_type`;
    /// with `veneer`, an overflow means the branch would need a veneer.
    Imm { op: Aarch64RelocOp, lsb: u32, len: u32, imm_type: Aarch64InsnImmType, check: bool, veneer: bool },
    /// The page distance goes into an ADRP.
    Adrp { check: bool },
    /// The kind is not implemented.
    Unsupported,
}

#[allow(non_camel_case_types)]
#[derive(Debug, Clone, Copy, PartialEq, Eq, Structural)]
pub enum Aarch64RelocationType {
    R_ARM_NONE,
    R_AARCH64_NONE,
    R_AARCH64_ABS64,
    R_AARCH64_ABS32,
    R_AARCH64_ABS16,
    R_AARCH64_PREL64,
    R_AARCH64_PREL32,
    R_AARCH64_PREL16,
    R_AARCH64_MOVW_UABS_G0,
    R_AARCH64_MOVW_UABS_G0_NC,
    R_AARCH64_MOVW_UABS_G1,
    R_AARCH64_MOVW_UABS_G1_NC,
    R_AARCH64_MOVW_UABS_G2,
    R_AARCH64_MOVW_UABS_G2_NC,
    R_AARCH64_MOVW_UABS_G3,
    R_AARCH64_MOVW_SABS_G0,
    R_AARCH64_MOVW_SABS_G1,
    R_AARCH64_MOVW_SABS_G2,
    R_AARCH64_LD_PREL_LO19,
    R_AARCH64_ADR_PREL_LO21,
    R_AARCH64_ADR_PREL_PG_HI21,
    R_AARCH64_ADR_PREL_PG_HI21_NC,
    R_AARCH64_ADD_ABS_LO12_NC,
    R_AARCH64_LDST8_ABS_LO12_NC,
    R_AARCH64_TSTBR14,
    R_AARCH64_CONDBR19,
    R_AARCH64_JUMP26,
    R_AARCH64_CALL26,
    R_AARCH64_LDST16_ABS_LO12_NC,
    R_AARCH64_LDST32_ABS_LO12_NC,
    R_AARCH64_LDST64_ABS_LO12_NC,
    R_AARCH64_LDST128_ABS_LO12_NC,
    R_AARCH64_MOVW_PREL_G0,
    R_AARCH64_MOVW_PREL_G0_NC,
    R_AARCH64_MOVW_PREL_G1,
    R_AARCH64_MOVW_PREL_G1_NC,
    R_AARCH64_MOVW_PREL_G2,
    R_AARCH64_MOVW_PREL_G2_NC,
    R_AARCH64_MOVW_PREL_G3,
    R_AARCH64_RELATIVE,
}

impl Aarch64RelocationType {
    /// The numeric relocation type of this kind.
    pub open spec fn spec_code(self) -> u32 {
        match self {
            Aarch64RelocationType::R_ARM_NONE => 0,
            Aarch64RelocationType::R_AARCH64_NONE => 256,
            Aarch64RelocationType::R_AARCH64_ABS64 => 257,
            Aarch64RelocationType::R_AARCH64_ABS32 => 258,
            Aarch64RelocationType::R_AARCH64_ABS16 => 259,
            Aarch64RelocationType::R_AARCH64_PREL64 => 260,
            Aarch64RelocationType::R_AARCH64_PREL32 => 261,
            Aarch64RelocationType::R_AARCH64_PREL16 => 262,
            Aarch64RelocationType::R_AARCH64_MOVW_UABS_G0 => 263,
            Aarch64RelocationType::R_AARCH64_MOVW_UABS_G0_NC => 264,
            Aarch64RelocationType::R_AARCH64_MOVW_UABS_G1 => 265,
            Aarch64RelocationType::R_AARCH64_MOVW_UABS_G1_NC => 266,
            Aarch64RelocationType::R_AARCH64_MOVW_UABS_G2 => 267,
            Aarch64RelocationType::R_AARCH64_MOVW_UABS_G2_NC => 268,
            Aarch64RelocationType::R_AARCH64_MOVW_UABS_G3 => 269,
            Aarch64RelocationType::R_AARCH64_MOVW_SABS_G0 => 270,
            Aarch64RelocationType::R_AARCH64_MOVW_SABS_G1 => 271,
            Aarch64RelocationType::R_AARCH64_MOVW_SABS_G2 => 272,
            Aarch64RelocationType::R_AARCH64_LD_PREL_LO19 => 273,
            Aarch64RelocationType::R_AARCH64_ADR_PREL_LO21 => 274,
            Aarch64RelocationType::R_AARCH64_ADR_PREL_PG_HI21 => 275,
            Aarch64RelocationType::R_AARCH64_ADR_PREL_PG_HI21_NC => 276,
            Aarch64RelocationType::R_AARCH64_ADD_ABS_LO12_NC => 277,
            Aarch64RelocationType::R_AARCH64_LDST8_ABS_LO12_NC => 278,
            Aarch64RelocationType::R_AARCH64_TSTBR14 => 279,
            Aarch64RelocationType::R_AARCH64_CONDBR19 => 280,
            Aarch64RelocationType::R_AARCH64_JUMP26 => 282,
            Aarch64RelocationType::R_AARCH64_CALL26 => 283,
            Aarch64RelocationType::R_AARCH64_LDST16_ABS_LO12_NC => 284,
            Aarch64RelocationType::R_AARCH64_LDST32_ABS_LO12_NC => 285,
            Aarch64RelocationType::R_AARCH64_LDST64_ABS_LO12_NC => 286,
            Aarch64RelocationType::R_AARCH64_LDST128_ABS_LO12_NC => 299,
            Aarch64RelocationType::R_AARCH64_MOVW_PREL_G0 => 287,
            Aarch64RelocationType::R_AARCH64_MOVW_PREL_G0_NC => 288,
            Aarch64RelocationType::R_AARCH64_MOVW_PREL_G1 => 289,
            Aarch64RelocationType::R_AARCH64_MOVW_PREL_G1_NC => 290,
            Aarch64RelocationType::R_AARCH64_MOVW_PREL_G2 => 291,
            Aarch64RelocationType::R_AARCH64_MOVW_PREL_G2_NC => 292,
            Aarch64RelocationType::R_AARCH64_MOVW_PREL_G3 => 293,
            Aarch64RelocationType::R_AARCH64_RELATIVE => 1027,
        }
    }

    /// The kind that a numeric relocation type names, if any.
    pub open spec fn from_code(code: u32) -> Option<Self> {
        match code {
            0 => Some(Aarch64RelocationType::R_ARM_NONE),
            256 => Some(Aarch64RelocationType::R_AARCH64_NONE),
            257 => Some(Aarch64RelocationType::R_AARCH64_ABS64),
            258 => Some(Aarch64RelocationType::R_AARCH64_ABS32),
            259 => Some(Aarch64RelocationType::R_AARCH64_ABS16),
            260 => Some(Aarch64RelocationType::R_AARCH64_PREL64),
            261 => Some(Aarch64RelocationType::R_AARCH64_PREL32),
            262 => Some(Aarch64RelocationType::R_AARCH64_PREL16),
            263 => Some(Aarch64RelocationType::R_AARCH64_MOVW_UABS_G0),
            264 => Some(Aarch64RelocationType::R_AARCH64_MOVW_UABS_G0_NC),
            265 => Some(Aarch64RelocationType::R_AARCH64_MOVW_UABS_G1),
            266 => Some(Aarch64RelocationType::R_AARCH64_MOVW_UABS_G1_NC),
            267 => Some(Aarch64RelocationType::R_AARCH64_MOVW_UABS_G2),
            268 => Some(Aarch64RelocationType::R_AARCH64_MOVW_UABS_G2_NC),
            269 => Some(Aarch64RelocationType::R_AARCH64_MOVW_UABS_G3),
            270 => Some(Aarch64RelocationType::R_AARCH64_MOVW_SABS_G0),
            271 => Some(Aarch64RelocationType::R_AARCH64_MOVW_SABS_G1),
            272 => Some(Aarch64RelocationType::R_AARCH64_MOVW_SABS_G2),
            273 => Some(Aarch64RelocationType::R_AARCH64_LD_PREL_LO19),
            274 => Some(Aarch64RelocationType::R_AARCH64_ADR_PREL_LO21),
            275 => Some(Aarch64RelocationType::R_AARCH64_ADR_PREL_PG_HI21),
            276 => Some(Aarch64RelocationType::R_AARCH64_ADR_PREL_PG_HI21_NC),
            277 => Some(Aarch64RelocationType::R_AARCH64_ADD_ABS_LO12_NC),
            278 => Some(Aarch64RelocationType::R_AARCH64_LDST8_ABS_LO12_NC),
            279 => Some(Aarch64RelocationType::R_AARCH64_TSTBR14),
            280 => Some(Aarch64RelocationType::R_AARCH64_CONDBR19),
            282 => Some(Aarch64RelocationType::R_AARCH64_JUMP26),
            283 => Some(Aarch64RelocationType::R_AARCH64_CALL26),
            284 => Some(Aarch64RelocationType::R_AARCH64_LDST16_ABS_LO12_NC),
            285 => Some(Aarch64RelocationType::R_AARCH64_LDST32_ABS_LO12_NC),
            286 => Some(Aarch64RelocationType::R_AARCH64_LDST64_ABS_LO12_NC),
            299 => Some(Aarch64RelocationType::R_AARCH64_LDST128_ABS_LO12_NC),
            287 => Some(Aarch64RelocationType::R_AARCH64_MOVW_PREL_G0),
            288 => Some(Aarch64RelocationType::R_AARCH64_MOVW_PREL_G0_NC),
            289 => Some(Aarch64RelocationType::R_AARCH64_MOVW_PREL_G1),
            290 => Some(Aarch64RelocationType::R_AARCH64_MOVW_PREL_G1_NC),
            291 => Some(Aarch64RelocationType::R_AARCH64_MOVW_PREL_G2),
            292 => Some(Aarch64RelocationType::R_AARCH64_MOVW_PREL_G2_NC),
            293 => Some(Aarch64RelocationType::R_AARCH64_MOVW_PREL_G3),
            1027 => Some(Aarch64RelocationType::R_AARCH64_RELATIVE),
            _ => None,
        }
    }

    /// Decodes a numeric relocation type; `None` for a number that names no kind.
    pub fn from_u32(code: u32) -> (r: Option<Self>)
        ensures
            r == Self::from_code(code),
    {
        match code {
            0 => Some(Aarch64RelocationType::R_ARM_NONE),
            256 => Some(Aarch64RelocationType::R_AARCH64_NONE),
            257 => Some(Aarch64RelocationType::R_AARCH64_ABS64),
            258 => Some(Aarch64RelocationType::R_AARCH64_ABS32),
            259 => Some(Aarch64RelocationType::R_AARCH64_ABS16),
            260 => Some(Aarch64RelocationType::R_AARCH64_PREL64),
            261 => Some(Aarch64RelocationType::R_AARCH64_PREL32),
            262 => Some(Aarch64RelocationType::R_AARCH64_PREL16),
            263 => Some(Aarch64RelocationType::R_AARCH64_MOVW_UABS_G0),
            264 => Some(Aarch64RelocationType::R_AARCH64_MOVW_UABS_G0_NC),
            265 => Some(Aarch64RelocationType::R_AARCH64_MOVW_UABS_G1),
            266 => Some(Aarch64RelocationType::R_AARCH64_MOVW_UABS_G1_NC),
            267 => Some(Aarch64RelocationType::R_AARCH64_MOVW_UABS_G2),
            268 => Some(Aarch64RelocationType::R_AARCH64_MOVW_UABS_G2_NC),
            269 => Some(Aarch64RelocationType::R_AARCH64_MOVW_UABS_G3),
            270 => Some(Aarch64RelocationType::R_AARCH64_MOVW_SABS_G0),
            271 => Some(Aarch64RelocationType::R_AARCH64_MOVW_SABS_G1),
            272 => Some(Aarch64RelocationType::R_AARCH64_MOVW_SABS_G2),
            273 => Some(Aarch64RelocationType::R_AARCH64_LD_PREL_LO19),
            274 => Some(Aarch64RelocationType::R_AARCH64_ADR_PREL_LO21),
            275 => Some(Aarch64RelocationType::R_AARCH64_ADR_PREL_PG_HI21),
            276 => Some(Aarch64RelocationType::R_AARCH64_ADR_PREL_PG_HI21_NC),
            277 => Some(Aarch64RelocationType::R_AARCH64_ADD_ABS_LO12_NC),
            278 => Some(Aarch64RelocationType::R_AARCH64_LDST8_ABS_LO12_NC),
            279 => Some(Aarch64RelocationType::R_AARCH64_TSTBR14),
            280 => Some(Aarch64RelocationType::R_AARCH64_CONDBR19),
            282 => Some(Aarch64RelocationType::R_AARCH64_JUMP26),
            283 => Some(Aarch64RelocationType::R_AARCH64_CALL26),
            284 => Some(Aarch64RelocationType::R_AARCH64_LDST16_ABS_LO12_NC),
            285 => Some(Aarch64RelocationType::R_AARCH64_LDST32_ABS_LO12_NC),
            286 => Some(Aarch64RelocationType::R_AARCH64_LDST64_ABS_LO12_NC),
            299 => Some(Aarch64RelocationType::R_AARCH64_LDST128_ABS_LO12_NC),
            287 => Some(Aarch64RelocationType::R_AARCH64_MOVW_PREL_G0),
            288 => Some(Aarch64RelocationType::R_AARCH64_MOVW_PREL_G0_NC),
            289 => Some(Aarch64RelocationType::R_AARCH64_MOVW_PREL_G1),
            290 => Some(Aarch64RelocationType::R_AARCH64_MOVW_PREL_G1_NC),
            291 => Some(Aarch64RelocationType::R_AARCH64_MOVW_PREL_G2),
            292 => Some(Aarch64RelocationType::R_AARCH64_MOVW_PREL_G2_NC),
            293 => Some(Aarch64RelocationType::R_AARCH64_MOVW_PREL_G3),
            1027 => Some(Aarch64RelocationType::R_AARCH64_RELATIVE),
            _ => None,
        }
    }

    /// The numeric relocation type of this kind.
    pub fn code(&self) -> (r: u32)
        ensures
            r == self.spec_code(),
    {
        match self {
            Aarch64RelocationType::R_ARM_NONE => 0,
            Aarch64RelocationType::R_AARCH64_NONE => 256,
            Aarch64RelocationType::R_AARCH64_ABS64 => 257,
            Aarch64RelocationType::R_AARCH64_ABS32 => 258,
            Aarch64RelocationType::R_AARCH64_ABS16 => 259,
            Aarch64RelocationType::R_AARCH64_PREL64 => 260,
            Aarch64RelocationType::R_AARCH64_PREL32 => 261,
            Aarch64RelocationType::R_AARCH64_PREL16 => 262,
            Aarch64RelocationType::R_AARCH64_MOVW_UABS_G0 => 263,
            Aarch64RelocationType::R_AARCH64_MOVW_UABS_G0_NC => 264,
            Aarch64RelocationType::R_AARCH64_MOVW_UABS_G1 => 265,
            Aarch64RelocationType::R_AARCH64_MOVW_UABS_G1_NC => 266,
            Aarch64RelocationType::R_AARCH64_MOVW_UABS_G2 => 267,
            Aarch64RelocationType::R_AARCH64_MOVW_UABS_G2_NC => 268,
            Aarch64RelocationType::R_AARCH64_MOVW_UABS_G3 => 269,
            Aarch64RelocationType::R_AARCH64_MOVW_SABS_G0 => 270,
            Aarch64RelocationType::R_AARCH64_MOVW_SABS_G1 => 271,
            Aarch64RelocationType::R_AARCH64_MOVW_SABS_G2 => 272,
            Aarch64RelocationType::R_AARCH64_LD_PREL_LO19 => 273,
            Aarch64RelocationType::R_AARCH64_ADR_PREL_LO21 => 274,
            Aarch64RelocationType::R_AARCH64_ADR_PREL_PG_HI21 => 275,
            Aarch64RelocationType::R_AARCH64_ADR_PREL_PG_HI21_NC => 276,
            Aarch64RelocationType::R_AARCH64_ADD_ABS_LO12_NC => 277,
            Aarch64RelocationType::R_AARCH64_LDST8_ABS_LO12_NC => 278,
            Aarch64RelocationType::R_AARCH64_TSTBR14 => 279,
            Aarch64RelocationType::R_AARCH64_CONDBR19 => 280,
            Aarch64RelocationType::R_AARCH64_JUMP26 => 282,
            Aarch64RelocationType::R_AARCH64_CALL26 => 283,
            Aarch64RelocationType::R_AARCH64_LDST16_ABS_LO12_NC => 284,
            Aarch64RelocationType::R_AARCH64_LDST32_ABS_LO12_NC => 285,
            Aarch64RelocationType::R_AARCH64_LDST64_ABS_LO12_NC => 286,
            Aarch64RelocationType::R_AARCH64_LDST128_ABS_LO12_NC => 299,
            Aarch64RelocationType::R_AARCH64_MOVW_PREL_G0 => 287,
            Aarch64RelocationType::R_AARCH64_MOVW_PREL_G0_NC => 288,
            Aarch64RelocationType::R_AARCH64_MOVW_PREL_G1 => 289,
            Aarch64RelocationType::R_AARCH64_MOVW_PREL_G1_NC => 290,
            Aarch64RelocationType::R_AARCH64_MOVW_PREL_G2 => 291,
            Aarch64RelocationType::R_AARCH64_MOVW_PREL_G2_NC => 292,
            Aarch64RelocationType::R_AARCH64_MOVW_PREL_G3 => 293,
            Aarch64RelocationType::R_AARCH64_RELATIVE => 1027,
        }
    }
}

/// The row of the relocation table for each kind.
pub open spec fn aarch64_action(kind: Aarch64RelocationType) -> Aarch64Action {
    match kind {
        Aarch64RelocationType::R_ARM_NONE | Aarch64RelocationType::R_AARCH64_NONE => Aarch64Action::Nothing,
        Aarch64RelocationType::R_AARCH64_ABS64 => Aarch64Action::Data { op: Aarch64RelocOp::RELOC_OP_ABS, bits: 64, check: false },
        Aarch64RelocationType::R_AARCH64_ABS32 => Aarch64Action::Data { op: Aarch64RelocOp::RELOC_OP_ABS, bits: 32, check: true },
        Aarch64RelocationType::R_AARCH64_ABS16 => Aarch64Action::Data { op: Aarch64RelocOp::RELOC_OP_ABS, bits: 16, check: true },
        Aarch64RelocationType::R_AARCH64_PREL64 => Aarch64Action::Data { op: Aarch64RelocOp::RELOC_OP_PREL, bits: 64, check: false },
        Aarch64RelocationType::R_AARCH64_PREL32 => Aarch64Action::Data { op: Aarch64RelocOp::RELOC_OP_PREL, bits: 32, check: true },
        Aarch64RelocationType::R_AARCH64_PREL16 => Aarch64Action::Data { op: Aarch64RelocOp::RELOC_OP_PREL, bits: 16, check: true },
        Aarch64RelocationType::R_AARCH64_MOVW_UABS_G0_NC => Aarch64Action::Movw { op: Aarch64RelocOp::RELOC_OP_ABS, lsb: 0, movw_type: Aarch64InsnMovwImmType::AARCH64_INSN_IMM_MOVKZ, check: false },
        Aarch64RelocationType::R_AARCH64_MOVW_UABS_G0 => Aarch64Action::Movw { op: Aarch64RelocOp::RELOC_OP_ABS, lsb: 0, movw_type: Aarch64InsnMovwImmType::AARCH64_INSN_IMM_MOVKZ, check: true },
        Aarch64RelocationType::R_AARCH64_MOVW_UABS_G1_NC => Aarch64Action::Movw { op: Aarch64RelocOp::RELOC_OP_ABS, lsb: 16, movw_type: Aarch64InsnMovwImmType::AARCH64_INSN_IMM_MOVKZ, check: false },
        Aarch64RelocationType::R_AARCH64_MOVW_UABS_G1 => Aarch64Action::Movw { op: Aarch64RelocOp::RELOC_OP_ABS, lsb: 16, movw_type: Aarch64InsnMovwImmType::AARCH64_INSN_IMM_MOVKZ, check: true },
        Aarch64RelocationType::R_AARCH64_MOVW_UABS_G2_NC => Aarch64Action::Movw { op: Aarch64RelocOp::RELOC_OP_ABS, lsb: 32, movw_type: Aarch64InsnMovwImmType::AARCH64_INSN_IMM_MOVKZ, check: false },
        Aarch64RelocationType::R_AARCH64_MOVW_UABS_G2 => Aarch64Action::Movw { op: Aarch64RelocOp::RELOC_OP_ABS, lsb: 32, movw_type: Aarch64InsnMovwImmType::AARCH64_INSN_IMM_MOVKZ, check: true },
        Aarch64RelocationType::R_AARCH64_MOVW_UABS_G3 => Aarch64Action::Movw { op: Aarch64RelocOp::RELOC_OP_ABS, lsb: 48, movw_type: Aarch64InsnMovwImmType::AARCH64_INSN_IMM_MOVKZ, check: false },
        Aarch64RelocationType::R_AARCH64_MOVW_SABS_G0 => Aarch64Action::Movw { op: Aarch64RelocOp::RELOC_OP_ABS, lsb: 0, movw_type: Aarch64InsnMovwImmType::AARCH64_INSN_IMM_MOVNZ, check: true },
        Aarch64RelocationType::R_AARCH64_MOVW_SABS_G1 => Aarch64Action::Movw { op: Aarch64RelocOp::RELOC_OP_ABS, lsb: 16, movw_type: Aarch64InsnMovwImmType::AARCH64_INSN_IMM_MOVNZ, check: true },
        Aarch64RelocationType::R_AARCH64_MOVW_SABS_G2 => Aarch64Action::Movw { op: Aarch64RelocOp::RELOC_OP_ABS, lsb: 32, movw_type: Aarch64InsnMovwImmType::AARCH64_INSN_IMM_MOVNZ, check: true },
        Aarch64RelocationType::R_AARCH64_MOVW_PREL_G0_NC => Aarch64Action::Movw { op: Aarch64RelocOp::RELOC_OP_PREL, lsb: 0, movw_type: Aarch64InsnMovwImmType::AARCH64_INSN_IMM_MOVKZ, check: false },
        Aarch64RelocationType::R_AARCH64_MOVW_PREL_G0 => Aarch64Action::Movw { op: Aarch64RelocOp::RELOC_OP_PREL, lsb: 0, movw_type: Aarch64InsnMovwImmType::AARCH64_INSN_IMM_MOVNZ, check: true },
        Aarch64RelocationType::R_AARCH64_MOVW_PREL_G1_NC => Aarch64Action::Movw { op: Aarch64RelocOp::RELOC_OP_PREL, lsb: 16, movw_type: Aarch64InsnMovwImmType::AARCH64_INSN_IMM_MOVKZ, check: false },
        Aarch64RelocationType::R_AARCH64_MOVW_PREL_G1 => Aarch64Action::Movw { op: Aarch64RelocOp::RELOC_OP_PREL, lsb: 16, movw_type: Aarch64InsnMovwImmType::AARCH64_INSN_IMM_MOVNZ, check: true },
        Aarch64RelocationType::R_AARCH64_MOVW_PREL_G2_NC => Aarch64Action::Movw { op: Aarch64RelocOp::RELOC_OP_PREL, lsb: 32, movw_type: Aarch64InsnMovwImmType::AARCH64_INSN_IMM_MOVKZ, check: false },
        Aarch64RelocationType::R_AARCH64_MOVW_PREL_G2 => Aarch64Action::Movw { op: Aarch64RelocOp::RELOC_OP_PREL, lsb: 32, movw_type: Aarch64InsnMovwImmType::AARCH64_INSN_IMM_MOVNZ, check: true },
        Aarch64RelocationType::R_AARCH64_MOVW_PREL_G3 => Aarch64Action::Movw { op: Aarch64RelocOp::RELOC_OP_PREL, lsb: 48, movw_type: Aarch64InsnMovwImmType::AARCH64_INSN_IMM_MOVNZ, check: false },
        Aarch64RelocationType::R_AARCH64_LD_PREL_LO19 => Aarch64Action::Imm { op: Aarch64RelocOp::RELOC_OP_PREL, lsb: 2, len: 19, imm_type: Aarch64InsnImmType::AARCH64_INSN_IMM_19, check: true, veneer: false },
        Aarch64RelocationType::R_AARCH64_ADR_PREL_LO21 => Aarch64Action::Imm { op: Aarch64RelocOp::RELOC_OP_PREL, lsb: 0, len: 21, imm_type: Aarch64InsnImmType::AARCH64_INSN_IMM_ADR, check: true, veneer: false },
        Aarch64RelocationType::R_AARCH64_ADR_PREL_PG_HI21_NC => Aarch64Action::Adrp { check: false },
        Aarch64RelocationType::R_AARCH64_ADR_PREL_PG_HI21 => Aarch64Action::Adrp { check: true },
        Aarch64RelocationType::R_AARCH64_ADD_ABS_LO12_NC | Aarch64RelocationType::R_AARCH64_LDST8_ABS_LO12_NC => Aarch64Action::Imm { op: Aarch64RelocOp::RELOC_OP_ABS, lsb: 0, len: 12, imm_type: Aarch64InsnImmType::AARCH64_INSN_IMM_12, check: false, veneer: false },
        Aarch64RelocationType::R_AARCH64_LDST16_ABS_LO12_NC => Aarch64Action::Imm { op: Aarch64RelocOp::RELOC_OP_ABS, lsb: 1, len: 11, imm_type: Aarch64InsnImmType::AARCH64_INSN_IMM_12, check: false, veneer: false },
        Aarch64RelocationType::R_AARCH64_LDST32_ABS_LO12_NC => Aarch64Action::Imm { op: Aarch64RelocOp::RELOC_OP_ABS, lsb: 2, len: 10, imm_type: Aarch64InsnImmType::AARCH64_INSN_IMM_12, check: false, veneer: false },
        Aarch64RelocationType::R_AARCH64_LDST64_ABS_LO12_NC => Aarch64Action::Imm { op: Aarch64RelocOp::RELOC_OP_ABS, lsb: 3, len: 9, imm_type: Aarch64InsnImmType::AARCH64_INSN_IMM_12, check: false, veneer: false },
        Aarch64RelocationType::R_AARCH64_LDST128_ABS_LO12_NC => Aarch64Action::Imm { op: Aarch64RelocOp::RELOC_OP_ABS, lsb: 4, len: 8, imm_type: Aarch64InsnImmType::AARCH64_INSN_IMM_12, check: false, veneer: false },
        Aarch64RelocationType::R_AARCH64_TSTBR14 => Aarch64Action::Imm { op: Aarch64RelocOp::RELOC_OP_PREL, lsb: 2, len: 14, imm_type: Aarch64InsnImmType::AARCH64_INSN_IMM_14, check: true, veneer: false },
        Aarch64RelocationType::R_AARCH64_CONDBR19 => Aarch64Action::Imm { op: Aarch64RelocOp::RELOC_OP_PREL, lsb: 2, len: 19, imm_type: Aarch64InsnImmType::AARCH64_INSN_IMM_19, check: true, veneer: false },
        Aarch64RelocationType::R_AARCH64_JUMP26 | Aarch64RelocationType::R_AARCH64_CALL26 => Aarch64Action::Imm {
            op: Aarch64RelocOp::RELOC_OP_PREL,
            lsb: 2,
            len: 26,
            imm_type: Aarch64InsnImmType::AARCH64_INSN_IMM_26,
            check: true,
            veneer: true,
        },
        _ => Aarch64Action::Unsupported,
    }
}

impl Aarch64RelocationType {
    /// The row of the relocation table for this kind.
    pub fn action(&self) -> (r: Aarch64Action)
        ensures
            r == aarch64_action(*self),
            action_wf(r),
    {
        let kind = *self;
    match kind {
        Aarch64RelocationType::R_ARM_NONE | Aarch64RelocationType::R_AARCH64_NONE => Aarch64Action::Nothing,
        Aarch64RelocationType::R_AARCH64_ABS64 => Aarch64Action::Data { op: Aarch64RelocOp::RELOC_OP_ABS, bits: 64, check: false },
        Aarch64RelocationType::R_AARCH64_ABS32 => Aarch64Action::Data { op: Aarch64RelocOp::RELOC_OP_ABS, bits: 32, check: true },
        Aarch64RelocationType::R_AARCH64_ABS16 => Aarch64Action::Data { op: Aarch64RelocOp::RELOC_OP_ABS, bits: 16, check: true },
        Aarch64RelocationType::R_AARCH64_PREL64 => Aarch64Action::Data { op: Aarch64RelocOp::RELOC_OP_PREL, bits: 64, check: false },
        Aarch64RelocationType::R_AARCH64_PREL32 => Aarch64Action::Data { op: Aarch64RelocOp::RELOC_OP_PREL, bits: 32, check: true },
        Aarch64RelocationType::R_AARCH64_PREL16 => Aarch64Action::Data { op: Aarch64RelocOp::RELOC_OP_PREL, bits: 16, check: true },
        Aarch64RelocationType::R_AARCH64_MOVW_UABS_G0_NC => Aarch64Action::Movw { op: Aarch64RelocOp::RELOC_OP_ABS, lsb: 0, movw_type: Aarch64InsnMovwImmType::AARCH64_INSN_IMM_MOVKZ, check: false },
        Aarch64RelocationType::R_AARCH64_MOVW_UABS_G0 => Aarch64Action::Movw { op: Aarch64RelocOp::RELOC_OP_ABS, lsb: 0, movw_type: Aarch64InsnMovwImmType::AARCH64_INSN_IMM_MOVKZ, check: true },
        Aarch64RelocationType::R_AARCH64_MOVW_UABS_G1_NC => Aarch64Action::Movw { op: Aarch64RelocOp::RELOC_OP_ABS, lsb: 16, movw_type: Aarch64InsnMovwImmType::AARCH64_INSN_IMM_MOVKZ, check: false },
        Aarch64RelocationType::R_AARCH64_MOVW_UABS_G1 => Aarch64Action::Movw { op: Aarch64RelocOp::RELOC_OP_ABS, lsb: 16, movw_type: Aarch64InsnMovwImmType::AARCH64_INSN_IMM_MOVKZ, check: true },
        Aarch64RelocationType::R_AARCH64_MOVW_UABS_G2_NC => Aarch64Action::Movw { op: Aarch64RelocOp::RELOC_OP_ABS, lsb: 32, movw_type: Aarch64InsnMovwImmType::AARCH64_INSN_IMM_MOVKZ, check: false },
        Aarch64RelocationType::R_AARCH64_MOVW_UABS_G2 => Aarch64Action::Movw { op: Aarch64RelocOp::RELOC_OP_ABS, lsb: 32, movw_type: Aarch64InsnMovwImmType::AARCH64_INSN_IMM_MOVKZ, check: true },
        Aarch64RelocationType::R_AARCH64_MOVW_UABS_G3 => Aarch64Action::Movw { op: Aarch64RelocOp::RELOC_OP_ABS, lsb: 48, movw_type: Aarch64InsnMovwImmType::AARCH64_INSN_IMM_MOVKZ, check: false },
        Aarch64RelocationType::R_AARCH64_MOVW_SABS_G0 => Aarch64Action::Movw { op: Aarch64RelocOp::RELOC_OP_ABS, lsb: 0, movw_type: Aarch64InsnMovwImmType::AARCH64_INSN_IMM_MOVNZ, check: true },
        Aarch64RelocationType::R_AARCH64_MOVW_SABS_G1 => Aarch64Action::Movw { op: Aarch64RelocOp::RELOC_OP_ABS, lsb: 16, movw_type: Aarch64InsnMovwImmType::AARCH64_INSN_IMM_MOVNZ, check: true },
        Aarch64RelocationType::R_AARCH64_MOVW_SABS_G2 => Aarch64Action::Movw { op: Aarch64RelocOp::RELOC_OP_ABS, lsb: 32, movw_type: Aarch64InsnMovwImmType::AARCH64_INSN_IMM_MOVNZ, check: true },
        Aarch64RelocationType::R_AARCH64_MOVW_PREL_G0_NC => Aarch64Action::Movw { op: Aarch64RelocOp::RELOC_OP_PREL, lsb: 0, movw_type: Aarch64InsnMovwImmType::AARCH64_INSN_IMM_MOVKZ, check: false },
        Aarch64RelocationType::R_AARCH64_MOVW_PREL_G0 => Aarch64Action::Movw { op: Aarch64RelocOp::RELOC_OP_PREL, lsb: 0, movw_type: Aarch64InsnMovwImmType::AARCH64_INSN_IMM_MOVNZ, check: true },
        Aarch64RelocationType::R_AARCH64_MOVW_PREL_G1_NC => Aarch64Action::Movw { op: Aarch64RelocOp::RELOC_OP_PREL, lsb: 16, movw_type: Aarch64InsnMovwImmType::AARCH64_INSN_IMM_MOVKZ, check: false },
        Aarch64RelocationType::R_AARCH64_MOVW_PREL_G1 => Aarch64Action::Movw { op: Aarch64RelocOp::RELOC_OP_PREL, lsb: 16, movw_type: Aarch64InsnMovwImmType::AARCH64_INSN_IMM_MOVNZ, check: true },
        Aarch64RelocationType::R_AARCH64_MOVW_PREL_G2_NC => Aarch64Action::Movw { op: Aarch64RelocOp::RELOC_OP_PREL, lsb: 32, movw_type: Aarch64InsnMovwImmType::AARCH64_INSN_IMM_MOVKZ, check: false },
        Aarch64RelocationType::R_AARCH64_MOVW_PREL_G2 => Aarch64Action::Movw { op: Aarch64RelocOp::RELOC_OP_PREL, lsb: 32, movw_type: Aarch64InsnMovwImmType::AARCH64_INSN_IMM_MOVNZ, check: true },
        Aarch64RelocationType::R_AARCH64_MOVW_PREL_G3 => Aarch64Action::Movw { op: Aarch64RelocOp::RELOC_OP_PREL, lsb: 48, movw_type: Aarch64InsnMovwImmType::AARCH64_INSN_IMM_MOVNZ, check: false },
        Aarch64RelocationType::R_AARCH64_LD_PREL_LO19 => Aarch64Action::Imm { op: Aarch64RelocOp::RELOC_OP_PREL, lsb: 2, len: 19, imm_type: Aarch64InsnImmType::AARCH64_INSN_IMM_19, check: true, veneer: false },
        Aarch64RelocationType::R_AARCH64_ADR_PREL_LO21 => Aarch64Action::Imm { op: Aarch64RelocOp::RELOC_OP_PREL, lsb: 0, len: 21, imm_type: Aarch64InsnImmType::AARCH64_INSN_IMM_ADR, check: true, veneer: false },
        Aarch64RelocationType::R_AARCH64_ADR_PREL_PG_HI21_NC => Aarch64Action::Adrp { check: false },
        Aarch64RelocationType::R_AARCH64_ADR_PREL_PG_HI21 => Aarch64Action::Adrp { check: true },
        Aarch64RelocationType::R_AARCH64_ADD_ABS_LO12_NC | Aarch64RelocationType::R_AARCH64_LDST8_ABS_LO12_NC => Aarch64Action::Imm { op: Aarch64RelocOp::RELOC_OP_ABS, lsb: 0, len: 12, imm_type: Aarch64InsnImmType::AARCH64_INSN_IMM_12, check: false, veneer: false },
        Aarch64RelocationType::R_AARCH64_LDST16_ABS_LO12_NC => Aarch64Action::Imm { op: Aarch64RelocOp::RELOC_OP_ABS, lsb: 1, len: 11, imm_type: Aarch64InsnImmType::AARCH64_INSN_IMM_12, check: false, veneer: false },
        Aarch64RelocationType::R_AARCH64_LDST32_ABS_LO12_NC => Aarch64Action::Imm { op: Aarch64RelocOp::RELOC_OP_ABS, lsb: 2, len: 10, imm_type: Aarch64InsnImmType::AARCH64_INSN_IMM_12, check: false, veneer: false },
        Aarch64RelocationType::R_AARCH64_LDST64_ABS_LO12_NC => Aarch64Action::Imm { op: Aarch64RelocOp::RELOC_OP_ABS, lsb: 3, len: 9, imm_type: Aarch64InsnImmType::AARCH64_INSN_IMM_12, check: false, veneer: false },
        Aarch64RelocationType::R_AARCH64_LDST128_ABS_LO12_NC => Aarch64Action::Imm { op: Aarch64RelocOp::RELOC_OP_ABS, lsb: 4, len: 8, imm_type: Aarch64InsnImmType::AARCH64_INSN_IMM_12, check: false, veneer: false },
        Aarch64RelocationType::R_AARCH64_TSTBR14 => Aarch64Action::Imm { op: Aarch64RelocOp::RELOC_OP_PREL, lsb: 2, len: 14, imm_type: Aarch64InsnImmType::AARCH64_INSN_IMM_14, check: true, veneer: false },
        Aarch64RelocationType::R_AARCH64_CONDBR19 => Aarch64Action::Imm { op: Aarch64RelocOp::RELOC_OP_PREL, lsb: 2, len: 19, imm_type: Aarch64InsnImmType::AARCH64_INSN_IMM_19, check: true, veneer: false },
        Aarch64RelocationType::R_AARCH64_JUMP26 | Aarch64RelocationType::R_AARCH64_CALL26 => Aarch64Action::Imm {
            op: Aarch64RelocOp::RELOC_OP_PREL,
            lsb: 2,
            len: 26,
            imm_type: Aarch64InsnImmType::AARCH64_INSN_IMM_26,
            check: true,
            veneer: true,
        },
        _ => Aarch64Action::Unsupported,
    }
}
}

/// The table's rows stay within what the primitives accept.
pub open spec fn action_wf(a: Aarch64Action) -> bool {
    match a {
        Aarch64Action::Data { bits, .. } => bits == 16 || bits == 32 || bits == 64,
        Aarch64Action::Movw { lsb, .. } => lsb < 64,
        Aarch64Action::Imm { lsb, len, .. } => lsb < 64 && 1 <= len <= 32,
        _ => true,
    }
}

/// Whether a data result `v` of `bits` bits overflows: unsigned range for ABS,
/// signed range for PREL.
pub open spec fn data_overflow(op: Aarch64RelocOp, bits: u32, v: u64) -> bool {
    if bits == 16 {
        if op == Aarch64RelocOp::RELOC_OP_ABS {
            v > 0xffff
        } else {
            !(v < 0x8000 || v >= 0xffff_ffff_ffff_8000)
        }
    } else if bits == 32 {
        if op == Aarch64RelocOp::RELOC_OP_ABS {
            v > 0xffff_ffff
        } else {
            !(v < 0x8000_0000 || v >= 0xffff_ffff_8000_0000)
        }
    } else {
        false
    }
}

/// The image with a data result stored at `off`.
pub open spec fn put_data(mem: Seq<u8>, off: int, bits: u32, v: u64) -> Seq<u8> {
    if bits == 16 {
        put_u16(mem, off, v as u16)
    } else if bits == 32 {
        put_u32(mem, off, v as u32)
    } else {
        put_u64(mem, off, v)
    }
}

/// The 16-bit MOVW immediate taken from result `v` at `lsb`, inverted for a
/// negative signed result.
pub open spec fn movw_imm(v: u64, lsb: u32, imm_type: Aarch64InsnMovwImmType) -> u64 {
    let imm = ((v as i64) >> lsb) as u64;
    if imm_type == Aarch64InsnMovwImmType::AARCH64_INSN_IMM_MOVNZ && (v as i64) < 0 {
        !imm
    } else {
        imm
    }
}

/// The MOVW instruction after the relocation.
pub open spec fn movw_insn(insn: u32, v: u64, lsb: u32, imm_type: Aarch64InsnMovwImmType) -> u32 {
    let base = if imm_type == Aarch64InsnMovwImmType::AARCH64_INSN_IMM_MOVNZ {
        if (v as i64) >= 0 {
            (insn & !(3u32 << 29u32)) | (2u32 << 29u32)
        } else {
            insn & !(3u32 << 29u32)
        }
    } else {
        insn
    };
    encode_imm(Aarch64InsnImmType::AARCH64_INSN_IMM_16, base, movw_imm(v, lsb, imm_type))
}

/// The result `v` shifted right by `lsb`, as a signed number.
pub open spec fn shifted(v: u64, lsb: u32) -> i64 {
    (v as i64) >> lsb
}

/// A mask of the `len` low bits.
pub open spec fn low_mask(len: u32) -> u64 {
    ((1u64 << len) - 1) as u64
}

/// The `len` low bits of the shifted result.
pub open spec fn imm_bits(v: u64, lsb: u32, len: u32) -> u64 {
    (shifted(v, lsb) as u64) & low_mask(len)
}

/// Whether the shifted result lies outside the signed range of `len` bits.
pub open spec fn imm_overflow(v: u64, lsb: u32, len: u32) -> bool {
    !(-(1i64 << ((len - 1) as u32)) <= shifted(v, lsb) < (1i64 << ((len - 1) as u32)))
}

/// The section image after one relocation, or why it fails.
pub open spec fn a64_step(kind: Aarch64RelocationType, mem: Seq<u8>, off: int, location: u64, address: u64) -> Result<Seq<u8>, RelocFailure> {
    match aarch64_action(kind) {
        Aarch64Action::Nothing => Ok(mem),
        Aarch64Action::Unsupported => Err(RelocFailure::Unsupported),
        Aarch64Action::Data { op, bits, check } => if off + bits / 8 > mem.len() {
            Err(RelocFailure::OutOfBounds)
        } else {
            let v = do_reloc_spec(op, location, address);
            if check && data_overflow(op, bits, v) {
                Err(RelocFailure::Overflow)
            } else {
                Ok(put_data(mem, off, bits, v))
            }
        },
        Aarch64Action::Movw { op, lsb, movw_type, check } => if off + 4 > mem.len() {
            Err(RelocFailure::OutOfBounds)
        } else {
            let v = do_reloc_spec(op, location, address);
            if check && movw_imm(v, lsb, movw_type) > 0xffff {
                Err(RelocFailure::Overflow)
            } else {
                Ok(put_u32(mem, off, movw_insn(le_u32(mem, off), v, lsb, movw_type)))
            }
        },
        Aarch64Action::Imm { op, lsb, len, imm_type, check, veneer } => imm_step(mem, off, op, location, address, lsb, len, imm_type, check, veneer),
        Aarch64Action::Adrp { check } => imm_step(mem, off, Aarch64RelocOp::RELOC_OP_PAGE, location, address, 12, 21, Aarch64InsnImmType::AARCH64_INSN_IMM_ADR, check, false),
    }
}

/// An immediate-field relocation on the image.
pub open spec fn imm_step(mem: Seq<u8>, off: int, op: Aarch64RelocOp, location: u64, address: u64, lsb: u32, len: u32, imm_type: Aarch64InsnImmType, check: bool, veneer: bool) -> Result<Seq<u8>, RelocFailure> {
    if off + 4 > mem.len() {
        Err(RelocFailure::OutOfBounds)
    } else {
        let v = do_reloc_spec(op, location, address);
        if imm_overflow(v, lsb, len) && veneer {
            Err(RelocFailure::VeneerRequired)
        } else if imm_overflow(v, lsb, len) && check {
            Err(RelocFailure::Overflow)
        } else {
            Ok(put_u32(mem, off, encode_imm(imm_type, le_u32(mem, off), imm_bits(v, lsb, len))))
        }
    }
}

/// Whether a data result overflows, as `data_overflow` says.
pub fn data_overflows(op: Aarch64RelocOp, bits: u32, v: u64) -> (r: bool)
    ensures
        r == data_overflow(op, bits, v),
{
    if bits == 16 {
        if op == Aarch64RelocOp::RELOC_OP_ABS {
            v > 0xffff
        } else {
            !(v < 0x8000 || v >= 0xffff_ffff_ffff_8000)
        }
    } else if bits == 32 {
        if op == Aarch64RelocOp::RELOC_OP_ABS {
            v > 0xffff_ffff
        } else {
            !(v < 0x8000_0000 || v >= 0xffff_ffff_8000_0000)
        }
    } else {
        false
    }
}

/// Whether the MOVW immediate taken from `v` at `lsb` overflows 16 bits.
pub fn movw_overflows(v: u64, lsb: u32, imm_type: Aarch64InsnMovwImmType) -> (r: bool)
    requires
        lsb < 64,
    ensures
        r == (movw_imm(v, lsb, imm_type) > 0xffff),
{
    let s = #[verifier::truncate] (v as i64);
    let mut imm = #[verifier::truncate] ((s >> lsb) as u64);
    if imm_type == Aarch64InsnMovwImmType::AARCH64_INSN_IMM_MOVNZ && s < 0 {
        imm = !imm;
    }
    imm > 0xffff
}

/// Whether `v` shifted right by `lsb` lies outside the signed range of `len` bits.
pub fn imm_overflows(v: u64, lsb: u32, len: u32) -> (r: bool)
    requires
        lsb < 64,
        1 <= len <= 32,
    ensures
        r == imm_overflow(v, lsb, len),
{
    let s = (#[verifier::truncate] (v as i64)) >> lsb;
    let sh: u32 = len - 1;
    assert(1 <= (1i64 << sh) <= 0x8000_0000) by (bit_vector)
        requires
            sh < 32,
    ;
    let lim: i64 = 1i64 << sh;
    !(-lim <= s && s < lim)
}

impl Aarch64RelocationType {
    /// Stores the data result at `off`; returns whether it overflowed.
    pub fn reloc_data(&self, op: Aarch64RelocOp, mem: &mut Vec<u8>, off: usize, location: u64, address: u64, bits: u32) -> (ovf: bool)
        requires
            bits == 16 || bits == 32 || bits == 64,
            off + bits / 8 <= old(mem)@.len(),
        ensures
            final(mem)@ == put_data(old(mem)@, off as int, bits, do_reloc_spec(op, location, address)),
            ovf == data_overflow(op, bits, do_reloc_spec(op, location, address)),
    {
        let v = do_reloc(op, location, address);
        if bits == 16 {
            write_u16(mem, off, #[verifier::truncate] (v as u16));
            if op == Aarch64RelocOp::RELOC_OP_ABS {
                v > 0xffff
            } else {
                !(v < 0x8000 || v >= 0xffff_ffff_ffff_8000)
            }
        } else if bits == 32 {
            write_u32(mem, off, #[verifier::truncate] (v as u32));
            if op == Aarch64RelocOp::RELOC_OP_ABS {
                v > 0xffff_ffff
            } else {
                !(v < 0x8000_0000 || v >= 0xffff_ffff_8000_0000)
            }
        } else {
            write_u64(mem, off, v);
            false
        }
    }

    /// Rewrites the MOVW instruction at `off`; returns whether its immediate overflowed.
    pub fn reloc_insn_movw(&self, op: Aarch64RelocOp, mem: &mut Vec<u8>, off: usize, location: u64, address: u64, lsb: u32, imm_type: Aarch64InsnMovwImmType) -> (ovf: bool)
        requires
            lsb < 64,
            off + 4 <= old(mem)@.len(),
        ensures
            final(mem)@ == put_u32(old(mem)@, off as int, movw_insn(le_u32(old(mem)@, off as int), do_reloc_spec(op, location, address), lsb, imm_type)),
            ovf == (movw_imm(do_reloc_spec(op, location, address), lsb, imm_type) > 0xffff),
    {
        let insn = read_u32(mem, off);
        let v = do_reloc(op, location, address);
        let s = #[verifier::truncate] (v as i64);
        let mut imm = #[verifier::truncate] ((s >> lsb) as u64);
        let mut base = insn;
        if imm_type == Aarch64InsnMovwImmType::AARCH64_INSN_IMM_MOVNZ {
            base = base & !(3u32 << 29u32);
            if s >= 0 {
                base = base | (2u32 << 29u32);
            } else {
                imm = !imm;
            }
        }
        let new_insn = aarch64_insn_encode_immediate(Aarch64InsnImmType::AARCH64_INSN_IMM_16, base, imm);
        write_u32(mem, off, new_insn);
        imm > 0xffff
    }

    /// Writes `len` bits from `lsb` of the result into the field `imm_type` of
    /// the instruction at `off`; returns whether the result overflowed.
    pub fn reloc_insn_imm(&self, op: Aarch64RelocOp, mem: &mut Vec<u8>, off: usize, location: u64, address: u64, lsb: u32, len: u32, imm_type: Aarch64InsnImmType) -> (ovf: bool)
        requires
            lsb < 64,
            1 <= len <= 32,
            off + 4 <= old(mem)@.len(),
        ensures
            final(mem)@ == put_u32(old(mem)@, off as int, encode_imm(imm_type, le_u32(old(mem)@, off as int), imm_bits(do_reloc_spec(op, location, address), lsb, len))),
            ovf == imm_overflow(do_reloc_spec(op, location, address), lsb, len),
    {
        let insn = read_u32(mem, off);
        let v = do_reloc(op, location, address);
        let s = (#[verifier::truncate] (v as i64)) >> lsb;
        assert(1 <= (1u64 << len) <= 0x1_0000_0000) by (bit_vector)
            requires
                1 <= len <= 32,
        ;
        let imm = (#[verifier::truncate] (s as u64)) & ((1u64 << len) - 1);
        let new_insn = aarch64_insn_encode_immediate(imm_type, insn, imm);
        write_u32(mem, off, new_insn);
        let sh: u32 = len - 1;
        assert(1 <= (1i64 << sh) <= 0x8000_0000) by (bit_vector)
            requires
                sh < 32,
        ;
        let lim: i64 = 1i64 << sh;
        !(-lim <= s && s < lim)
    }

    /// The page relocation of an ADRP.
    pub fn reloc_insn_adrp(&self, mem: &mut Vec<u8>, off: usize, location: u64, address: u64) -> (r: Result<bool, ModuleLoadErr>)
        requires
            off + 4 <= old(mem)@.len(),
        ensures
            r == Ok::<bool, ModuleLoadErr>(imm_overflow(do_reloc_spec(Aarch64RelocOp::RELOC_OP_PAGE, location, address), 12, 21)),
            final(mem)@ == put_u32(old(mem)@, off as int, encode_imm(Aarch64InsnImmType::AARCH64_INSN_IMM_ADR, le_u32(old(mem)@, off as int), imm_bits(do_reloc_spec(Aarch64RelocOp::RELOC_OP_PAGE, location, address), 12, 21))),
    {
        if !is_forbidden_offset_for_adrp(address) {
            let ovf = self.reloc_insn_imm(Aarch64RelocOp::RELOC_OP_PAGE, mem, off, location, address, 12, 21, Aarch64InsnImmType::AARCH64_INSN_IMM_ADR);
            return Ok(ovf);
        }
        // Turn the ADRP into an ADR of the page address when that is in reach.
        let ovf = self.reloc_insn_imm(Aarch64RelocOp::RELOC_OP_PREL, mem, off, location, address & !0xfffu64, 0, 21, Aarch64InsnImmType::AARCH64_INSN_IMM_ADR);
        if !ovf {
            let insn = read_u32(mem, off);
            write_u32(mem, off, insn & !(1u32 << 31u32));
            Ok(false)
        } else {
            Err(ModuleLoadErr::RelocationFailed(RelocFailure::VeneerRequired))
        }
    }

    /// Applies this relocation to the section image `mem` at byte `off`, whose
    /// runtime address is `location`; `address` is S + A.
    pub fn apply_relocation(&self, mem: &mut Vec<u8>, off: usize, location: u64, address: u64) -> (r: Result<(), ModuleLoadErr>)
        ensures
            match a64_step(*self, old(mem)@, off as int, location, address) {
                Ok(m) => r is Ok && final(mem)@ == m,
                Err(e) => r == Err::<(), _>(ModuleLoadErr::RelocationFailed(e)),
            },
            r is Err ==> final(mem)@ == old(mem)@,
    {
        let len = mem.len();
        match self.action() {
            Aarch64Action::Nothing => Ok(()),
            Aarch64Action::Unsupported => Err(ModuleLoadErr::RelocationFailed(RelocFailure::Unsupported)),
            Aarch64Action::Data { op, bits, check } => {
                if off > len || (bits / 8) as usize > len - off {
                    return Err(ModuleLoadErr::RelocationFailed(RelocFailure::OutOfBounds));
                }
                if check && data_overflows(op, bits, do_reloc(op, location, address)) {
                    return Err(ModuleLoadErr::RelocationFailed(RelocFailure::Overflow));
                }
                self.reloc_data(op, mem, off, location, address, bits);
                Ok(())
            },
            Aarch64Action::Movw { op, lsb, movw_type, check } => {
                if off > len || 4 > len - off {
                    return Err(ModuleLoadErr::RelocationFailed(RelocFailure::OutOfBounds));
                }
                if check && movw_overflows(do_reloc(op, location, address), lsb, movw_type) {
                    return Err(ModuleLoadErr::RelocationFailed(RelocFailure::Overflow));
                }
                self.reloc_insn_movw(op, mem, off, location, address, lsb, movw_type);
                Ok(())
            },
            Aarch64Action::Imm { op, lsb, len: bits, imm_type, check, veneer } => {
                if off > len || 4 > len - off {
                    return Err(ModuleLoadErr::RelocationFailed(RelocFailure::OutOfBounds));
                }
                let ovf = imm_overflows(do_reloc(op, location, address), lsb, bits);
                if ovf && veneer {
                    return Err(ModuleLoadErr::RelocationFailed(RelocFailure::VeneerRequired));
                } else if ovf && check {
                    return Err(ModuleLoadErr::RelocationFailed(RelocFailure::Overflow));
                }
                self.reloc_insn_imm(op, mem, off, location, address, lsb, bits, imm_type);
                Ok(())
            },
            Aarch64Action::Adrp { check } => {
                if off > len || 4 > len - off {
                    return Err(ModuleLoadErr::RelocationFailed(RelocFailure::OutOfBounds));
                }
                if check && imm_overflows(do_reloc(Aarch64RelocOp::RELOC_OP_PAGE, location, address), 12, 21) {
                    return Err(ModuleLoadErr::RelocationFailed(RelocFailure::Overflow));
                }
                match self.reloc_insn_adrp(mem, off, location, address) {
                    Ok(_) => Ok(()),
                    Err(e) => Err(e),
                }
            },
        }
    }
}


/// One rela entry applied to `mem`, the image of the section at `base`, with
/// `syms` the final symbol values.
pub open spec fn a64_run_step(rela: Rela, mem: Seq<u8>, base: u64, syms: Seq<u64>) -> Result<Seq<u8>, RelocFailure> {
    match Aarch64RelocationType::from_code(rela_kind(rela.r_info)) {
        None => Err(RelocFailure::UnknownType),
        Some(kind) => if rela_symbol(rela.r_info) >= syms.len() {
            Err(RelocFailure::BadSymbolIndex)
        } else if rela.r_offset >= mem.len() {
            Err(RelocFailure::OutOfBounds)
        } else {
            a64_step(
                kind,
                mem,
                rela.r_offset as int,
                wadd(base, rela.r_offset),
                wadd(syms[rela_symbol(rela.r_info) as int], rela.r_addend as u64),
            )
        },
    }
}

/// The first `n` entries of `relas` applied in order.
pub open spec fn a64_run(relas: Seq<Rela>, n: nat, mem: Seq<u8>, base: u64, syms: Seq<u64>) -> Result<Seq<u8>, RelocFailure>
    decreases n,
{
    if n == 0 || n > relas.len() {
        Ok(mem)
    } else {
        match a64_run(relas, (n - 1) as nat, mem, base, syms) {
            Err(e) => Err(e),
            Ok(m) => a64_run_step(relas[n - 1], m, base, syms),
        }
    }
}

/// Once a run has failed, running further entries keeps the same failure.
proof fn lemma_a64_run_stops(relas: Seq<Rela>, n: nat, m: nat, mem: Seq<u8>, base: u64, syms: Seq<u64>)
    requires
        n <= m <= relas.len(),
        a64_run(relas, n, mem, base, syms) is Err,
    ensures
        a64_run(relas, m, mem, base, syms) == a64_run(relas, n, mem, base, syms),
    decreases m - n,
{
    if m > n {
        lemma_a64_run_stops(relas, n, (m - 1) as nat, mem, base, syms);
    }
}

pub struct Aarch64ArchRelocate;

impl Aarch64ArchRelocate {
    /// Applies every entry of a relocation section, in order, to `mem`, the
    /// image of the section at runtime address `base`; stops at the first failure.
    pub fn apply_relocate_add(relas: &Vec<Rela>, mem: &mut Vec<u8>, base: u64, syms: &Vec<u64>) -> (r: Result<(), ModuleLoadErr>)
        ensures
            match a64_run(relas@, relas@.len(), old(mem)@, base, syms@) {
                Ok(m) => r is Ok && final(mem)@ == m,
                Err(e) => r == Err::<(), _>(ModuleLoadErr::RelocationFailed(e))
                    && exists|k: nat| k < relas@.len() && #[trigger] a64_run(relas@, k, old(mem)@, base, syms@) == Ok::<Seq<u8>, RelocFailure>(final(mem)@)
                        && a64_run(relas@, k + 1, old(mem)@, base, syms@) == Err::<Seq<u8>, RelocFailure>(e),
            },
    {
        let mut i: usize = 0;
        while i < relas.len()
            invariant
                i <= relas@.len(),
                a64_run(relas@, i as nat, old(mem)@, base, syms@) == Ok::<_, RelocFailure>(mem@),
            decreases relas@.len() - i,
        {
            let rela = relas[i];
            let kind = match Aarch64RelocationType::from_u32(get_rela_type(rela.r_info)) {
                Some(k) => k,
                None => {
                    proof {
                        lemma_a64_run_stops(relas@, (i + 1) as nat, relas@.len(), old(mem)@, base, syms@);
                    assert(a64_run(relas@, i as nat, old(mem)@, base, syms@) == Ok::<Seq<u8>, RelocFailure>(mem@));
                    }
                    return Err(ModuleLoadErr::RelocationFailed(RelocFailure::UnknownType));
                },
            };
            let sym = get_rela_sym_idx(rela.r_info);
            if sym >= syms.len() as u64 {
                proof {
                    lemma_a64_run_stops(relas@, (i + 1) as nat, relas@.len(), old(mem)@, base, syms@);
                    assert(a64_run(relas@, i as nat, old(mem)@, base, syms@) == Ok::<Seq<u8>, RelocFailure>(mem@));
                }
                return Err(ModuleLoadErr::RelocationFailed(RelocFailure::BadSymbolIndex));
            }
            if rela.r_offset >= mem.len() as u64 {
                proof {
                    lemma_a64_run_stops(relas@, (i + 1) as nat, relas@.len(), old(mem)@, base, syms@);
                    assert(a64_run(relas@, i as nat, old(mem)@, base, syms@) == Ok::<Seq<u8>, RelocFailure>(mem@));
                }
                return Err(ModuleLoadErr::RelocationFailed(RelocFailure::OutOfBounds));
            }
            let location = base.wrapping_add(rela.r_offset);
            let target = syms[sym as usize].wrapping_add(#[verifier::truncate] (rela.r_addend as u64));
            let res = kind.apply_relocation(mem, rela.r_offset as usize, location, target);
            if res.is_err() {
                proof {
                    lemma_a64_run_stops(relas@, (i + 1) as nat, relas@.len(), old(mem)@, base, syms@);
                    assert(a64_run(relas@, i as nat, old(mem)@, base, syms@) == Ok::<Seq<u8>, RelocFailure>(mem@));
                }
                return res;
            }
            i += 1;
        }
        Ok(())
    }
}

} // verus!
