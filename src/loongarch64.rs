//! The LoongArch relocation engine: direct relocations, the PC-relative page
//! pairs and the stack machine of the `SOP` relocations.
use vstd::prelude::*;
use crate::aarch64::{lemma_field_kept, lemma_shifted_inside};
use crate::mem::{le_u16, le_u32, le_u64, put_u16, put_u32, put_u64, wadd, wsub};
use crate::mem::{read_u16, read_u32, read_u64, write_u16, write_u32, write_u64};
use crate::{ModuleLoadErr, RelocFailure};
use crate::elf::{Rela, get_rela_sym_idx, get_rela_type, rela_kind, rela_symbol};

verus! {

/// The depth of the expression stack of one relocation section.
pub const RELA_STACK_DEPTH: usize = 16;

/// Half the reach of a 28-bit branch: 128 MiB.
pub const SZ_128M: u64 = 0x0800_0000;

/// `insn` with the field of `mask` at `shift` replaced by the low bits of `v`.
pub open spec fn set_field(insn: u32, shift: u32, mask: u32, v: u32) -> u32 {
    (insn & !((mask << shift) as u32)) | (((v & mask) << shift) as u32)
}

/// Replaces one immediate field of an instruction word; the other bits stay.
pub fn insert_field(insn: u32, shift: u32, mask: u32, v: u32) -> (r: u32)
    requires
        shift < 32,
    ensures
        r == set_field(insn, shift, mask, v),
        r & !((mask << shift) as u32) == insn & !((mask << shift) as u32),
{
    proof {
        lemma_shifted_inside(v, mask, shift);
        lemma_field_kept(insn, (v & mask) << shift, mask << shift);
    }
    (insn & !(mask << shift)) | ((v & mask) << shift)
}

/// `reg0i26`: low 16 immediate bits at 25:10, high 10 bits at 9:0.
pub open spec fn reg0i26(insn: u32, imm: u32) -> u32 {
    set_field(set_field(insn, 10, 0xffff, imm), 0, 0x3ff, imm >> 16u32)
}

/// `reg1i21`: low 16 immediate bits at 25:10, high 5 bits at 4:0.
pub open spec fn reg1i21(insn: u32, imm: u32) -> u32 {
    set_field(set_field(insn, 10, 0xffff, imm), 0, 0x1f, imm >> 16u32)
}

/// `reg1i20`: a 20-bit immediate at 24:5.
pub open spec fn reg1i20(insn: u32, imm: u32) -> u32 {
    set_field(insn, 5, 0xfffff, imm)
}

/// `reg2i12`: a 12-bit immediate at 21:10.
pub open spec fn reg2i12(insn: u32, imm: u32) -> u32 {
    set_field(insn, 10, 0xfff, imm)
}

/// `reg2i16`: a 16-bit immediate at 25:10.
pub open spec fn reg2i16(insn: u32, imm: u32) -> u32 {
    set_field(insn, 10, 0xffff, imm)
}

/// `reg2i5`: a 5-bit immediate at 14:10.
pub open spec fn reg2i5(insn: u32, imm: u32) -> u32 {
    set_field(insn, 10, 0x1f, imm)
}

pub fn reg0i26_format(insn: u32, imm: u32) -> (r: u32)
    ensures
        r == reg0i26(insn, imm),
        r & 0xfc00_0000 == insn & 0xfc00_0000,
{
    let a = insert_field(insn, 10, 0xffff, imm);
    let r = insert_field(a, 0, 0x3ff, imm >> 16u32);
    assert(r & 0xfc00_0000 == insn & 0xfc00_0000) by (bit_vector)
        requires
            a & !((0xffffu32 << 10u32) as u32) == insn & !((0xffffu32 << 10u32) as u32),
            r & !((0x3ffu32 << 0u32) as u32) == a & !((0x3ffu32 << 0u32) as u32),
    ;
    r
}

pub fn reg1i21_format(insn: u32, imm: u32) -> (r: u32)
    ensures
        r == reg1i21(insn, imm),
        r & 0xfc00_03e0 == insn & 0xfc00_03e0,
{
    let a = insert_field(insn, 10, 0xffff, imm);
    let r = insert_field(a, 0, 0x1f, imm >> 16u32);
    assert(r & 0xfc00_03e0 == insn & 0xfc00_03e0) by (bit_vector)
        requires
            a & !((0xffffu32 << 10u32) as u32) == insn & !((0xffffu32 << 10u32) as u32),
            r & !((0x1fu32 << 0u32) as u32) == a & !((0x1fu32 << 0u32) as u32),
    ;
    r
}

pub fn reg1i20_format(insn: u32, imm: u32) -> (r: u32)
    ensures
        r == reg1i20(insn, imm),
        r & !((0xfffffu32 << 5u32) as u32) == insn & !((0xfffffu32 << 5u32) as u32),
{
    insert_field(insn, 5, 0xfffff, imm)
}

pub fn reg2i12_format(insn: u32, imm: u32) -> (r: u32)
    ensures
        r == reg2i12(insn, imm),
        r & !((0xfffu32 << 10u32) as u32) == insn & !((0xfffu32 << 10u32) as u32),
{
    insert_field(insn, 10, 0xfff, imm)
}

pub fn reg2i16_format(insn: u32, imm: u32) -> (r: u32)
    ensures
        r == reg2i16(insn, imm),
        r & !((0xffffu32 << 10u32) as u32) == insn & !((0xffffu32 << 10u32) as u32),
{
    insert_field(insn, 10, 0xffff, imm)
}

pub fn reg2i5_format(insn: u32, imm: u32) -> (r: u32)
    ensures
        r == reg2i5(insn, imm),
        r & !((0x1fu32 << 10u32) as u32) == insn & !((0x1fu32 << 10u32) as u32),
{
    insert_field(insn, 10, 0x1f, imm)
}

/// `v` lies in [-2^(bits-1), 2^(bits-1)).
pub open spec fn signed_fits(v: i64, bits: u32) -> bool {
    -(1i64 << ((bits - 1) as u32)) <= v < (1i64 << ((bits - 1) as u32))
}

/// `v`, read as unsigned, lies in [0, 2^bits).
pub open spec fn unsigned_fits(v: u64, bits: u32) -> bool {
    v < (1u64 << bits)
}

pub fn signed_imm_check(value: i64, bits: u32) -> (r: bool)
    requires
        1 <= bits <= 32,
    ensures
        r == signed_fits(value, bits),
{
    let sh: u32 = bits - 1;
    assert(1 <= (1i64 << sh) <= 0x8000_0000) by (bit_vector)
        requires
            sh < 32,
    ;
    let limit: i64 = 1i64 << sh;
    value >= -limit && value < limit
}

pub fn unsigned_imm_check(value: u64, bits: u32) -> (r: bool)
    requires
        bits < 64,
    ensures
        r == unsigned_fits(value, bits),
{
    value < (1u64 << bits)
}

/// Pushing onto the expression stack.
pub open spec fn stack_push(st: Seq<i64>, v: i64) -> Result<Seq<i64>, RelocFailure> {
    if st.len() >= RELA_STACK_DEPTH {
        Err(RelocFailure::StackOverflow)
    } else {
        Ok(st.push(v))
    }
}

/// Popping from the expression stack: the value and the stack left.
pub open spec fn stack_pop(st: Seq<i64>) -> Result<(i64, Seq<i64>), RelocFailure> {
    if st.len() == 0 {
        Err(RelocFailure::StackUnderflow)
    } else {
        Ok((st.last(), st.drop_last()))
    }
}

pub fn rela_stack_push(rela_stack: &mut Vec<i64>, value: i64) -> (r: Result<(), ModuleLoadErr>)
    ensures
        match stack_push(old(rela_stack)@, value) {
            Ok(s) => r is Ok && final(rela_stack)@ == s,
            Err(e) => r == Err::<(), _>(ModuleLoadErr::RelocationFailed(e)) && final(rela_stack)@ == old(rela_stack)@,
        },
{
    if rela_stack.len() >= RELA_STACK_DEPTH {
        return Err(ModuleLoadErr::RelocationFailed(RelocFailure::StackOverflow));
    }
    rela_stack.push(value);
    Ok(())
}

pub fn rela_stack_pop(rela_stack: &mut Vec<i64>) -> (r: Result<i64, ModuleLoadErr>)
    ensures
        match stack_pop(old(rela_stack)@) {
            Ok((v, s)) => r == Ok::<i64, ModuleLoadErr>(v) && final(rela_stack)@ == s,
            Err(e) => r == Err::<i64, _>(ModuleLoadErr::RelocationFailed(e)) && final(rela_stack)@ == old(rela_stack)@,
        },
{
    match rela_stack.pop() {
        Some(v) => Ok(v),
        None => Err(ModuleLoadErr::RelocationFailed(RelocFailure::StackUnderflow)),
    }
}

#[allow(non_camel_case_types)]
#[derive(Debug, Clone, Copy, PartialEq, Eq, Structural)]
pub enum Loongarch64RelocationType {
    R_LARCH_NONE,
    R_LARCH_32,
    R_LARCH_64,
    R_LARCH_RELATIVE,
    R_LARCH_COPY,
    R_LARCH_JUMP_SLOT,
    R_LARCH_TLS_DTPMOD32,
    R_LARCH_TLS_DTPMOD64,
    R_LARCH_TLS_DTPREL32,
    R_LARCH_TLS_DTPREL64,
    R_LARCH_TLS_TPREL32,
    R_LARCH_TLS_TPREL64,
    R_LARCH_IRELATIVE,
    R_LARCH_TLS_DESC32,
    R_LARCH_TLS_DESC64,
    R_LARCH_MARK_LA,
    R_LARCH_MARK_PCREL,
    R_LARCH_SOP_PUSH_PCREL,
    R_LARCH_SOP_PUSH_ABSOLUTE,
    R_LARCH_SOP_PUSH_DUP,
    R_LARCH_SOP_PUSH_GPREL,
    R_LARCH_SOP_PUSH_TLS_TPREL,
    R_LARCH_SOP_PUSH_TLS_GOT,
    R_LARCH_SOP_PUSH_TLS_GD,
    R_LARCH_SOP_PUSH_PLT_PCREL,
    R_LARCH_SOP_ASSERT,
    R_LARCH_SOP_NOT,
    R_LARCH_SOP_SUB,
    R_LARCH_SOP_SL,
    R_LARCH_SOP_SR,
    R_LARCH_SOP_ADD,
    R_LARCH_SOP_AND,
    R_LARCH_SOP_IF_ELSE,
    R_LARCH_SOP_POP_32_S_10_5,
    R_LARCH_SOP_POP_32_U_10_12,
    R_LARCH_SOP_POP_32_S_10_12,
    R_LARCH_SOP_POP_32_S_10_16,
    R_LARCH_SOP_POP_32_S_10_16_S2,
    R_LARCH_SOP_POP_32_S_5_20,
    R_LARCH_SOP_POP_32_S_0_5_10_16_S2,
    R_LARCH_SOP_POP_32_S_0_10_10_16_S2,
    R_LARCH_SOP_POP_32_U,
    R_LARCH_ADD8,
    R_LARCH_ADD16,
    R_LARCH_ADD24,
    R_LARCH_ADD32,
    R_LARCH_ADD64,
    R_LARCH_SUB8,
    R_LARCH_SUB16,
    R_LARCH_SUB24,
    R_LARCH_SUB32,
    R_LARCH_SUB64,
    R_LARCH_GNU_VTINHERIT,
    R_LARCH_GNU_VTENTRY,
    R_LARCH_B16,
    R_LARCH_B21,
    R_LARCH_B26,
    R_LARCH_ABS_HI20,
    R_LARCH_ABS_LO12,
    R_LARCH_ABS64_LO20,
    R_LARCH_ABS64_HI12,
    R_LARCH_PCALA_HI20,
    R_LARCH_PCALA_LO12,
    R_LARCH_PCALA64_LO20,
    R_LARCH_PCALA64_HI12,
    R_LARCH_GOT_PC_HI20,
    R_LARCH_GOT_PC_LO12,
    R_LARCH_GOT64_PC_LO20,
    R_LARCH_GOT64_PC_HI12,
    R_LARCH_GOT_HI20,
    R_LARCH_GOT_LO12,
    R_LARCH_GOT64_LO20,
    R_LARCH_GOT64_HI12,
    R_LARCH_TLS_LE_HI20,
    R_LARCH_TLS_LE_LO12,
    R_LARCH_TLS_LE64_LO20,
    R_LARCH_TLS_LE64_HI12,
    R_LARCH_TLS_IE_PC_HI20,
    R_LARCH_TLS_IE_PC_LO12,
    R_LARCH_TLS_IE64_PC_LO20,
    R_LARCH_TLS_IE64_PC_HI12,
    R_LARCH_TLS_IE_HI20,
    R_LARCH_TLS_IE_LO12,
    R_LARCH_TLS_IE64_LO20,
    R_LARCH_TLS_IE64_HI12,
    R_LARCH_TLS_LD_PC_HI20,
    R_LARCH_TLS_LD_HI20,
    R_LARCH_TLS_GD_PC_HI20,
    R_LARCH_TLS_GD_HI20,
    R_LARCH_32_PCREL,
    R_LARCH_RELAX,
    R_LARCH_DELETE,
    R_LARCH_ALIGN,
    R_LARCH_PCREL20_S2,
    R_LARCH_CFA,
    R_LARCH_ADD6,
    R_LARCH_SUB6,
    R_LARCH_ADD_ULEB128,
    R_LARCH_SUB_ULEB128,
    R_LARCH_64_PCREL,
    R_LARCH_CALL36,
    R_LARCH_TLS_DESC_PC_HI20,
    R_LARCH_TLS_DESC_PC_LO12,
    R_LARCH_TLS_DESC64_PC_LO20,
    R_LARCH_TLS_DESC64_PC_HI12,
    R_LARCH_TLS_DESC_HI20,
    R_LARCH_TLS_DESC_LO12,
    R_LARCH_TLS_DESC64_LO20,
    R_LARCH_TLS_DESC64_HI12,
    R_LARCH_TLS_DESC_LD,
    R_LARCH_TLS_DESC_CALL,
    R_LARCH_TLS_LE_HI20_R,
    R_LARCH_TLS_LE_ADD_R,
    R_LARCH_TLS_LE_LO12_R,
    R_LARCH_TLS_LD_PCREL20_S2,
    R_LARCH_TLS_GD_PCREL20_S2,
    R_LARCH_TLS_DESC_PCREL20_S2,
}

impl Loongarch64RelocationType {
    /// The numeric relocation type of this kind.
    pub open spec fn spec_code(self) -> u32 {
        match self {
            Loongarch64RelocationType::R_LARCH_NONE => 0,
            Loongarch64RelocationType::R_LARCH_32 => 1,
            Loongarch64RelocationType::R_LARCH_64 => 2,
            Loongarch64RelocationType::R_LARCH_RELATIVE => 3,
            Loongarch64RelocationType::R_LARCH_COPY => 4,
            Loongarch64RelocationType::R_LARCH_JUMP_SLOT => 5,
            Loongarch64RelocationType::R_LARCH_TLS_DTPMOD32 => 6,
            Loongarch64RelocationType::R_LARCH_TLS_DTPMOD64 => 7,
            Loongarch64RelocationType::R_LARCH_TLS_DTPREL32 => 8,
            Loongarch64RelocationType::R_LARCH_TLS_DTPREL64 => 9,
            Loongarch64RelocationType::R_LARCH_TLS_TPREL32 => 10,
            Loongarch64RelocationType::R_LARCH_TLS_TPREL64 => 11,
            Loongarch64RelocationType::R_LARCH_IRELATIVE => 12,
            Loongarch64RelocationType::R_LARCH_TLS_DESC32 => 13,
            Loongarch64RelocationType::R_LARCH_TLS_DESC64 => 14,
            Loongarch64RelocationType::R_LARCH_MARK_LA => 20,
            Loongarch64RelocationType::R_LARCH_MARK_PCREL => 21,
            Loongarch64RelocationType::R_LARCH_SOP_PUSH_PCREL => 22,
            Loongarch64RelocationType::R_LARCH_SOP_PUSH_ABSOLUTE => 23,
            Loongarch64RelocationType::R_LARCH_SOP_PUSH_DUP => 24,
            Loongarch64RelocationType::R_LARCH_SOP_PUSH_GPREL => 25,
            Loongarch64RelocationType::R_LARCH_SOP_PUSH_TLS_TPREL => 26,
            Loongarch64RelocationType::R_LARCH_SOP_PUSH_TLS_GOT => 27,
            Loongarch64RelocationType::R_LARCH_SOP_PUSH_TLS_GD => 28,
            Loongarch64RelocationType::R_LARCH_SOP_PUSH_PLT_PCREL => 29,
            Loongarch64RelocationType::R_LARCH_SOP_ASSERT => 30,
            Loongarch64RelocationType::R_LARCH_SOP_NOT => 31,
            Loongarch64RelocationType::R_LARCH_SOP_SUB => 32,
            Loongarch64RelocationType::R_LARCH_SOP_SL => 33,
            Loongarch64RelocationType::R_LARCH_SOP_SR => 34,
            Loongarch64RelocationType::R_LARCH_SOP_ADD => 35,
            Loongarch64RelocationType::R_LARCH_SOP_AND => 36,
            Loongarch64RelocationType::R_LARCH_SOP_IF_ELSE => 37,
            Loongarch64RelocationType::R_LARCH_SOP_POP_32_S_10_5 => 38,
            Loongarch64RelocationType::R_LARCH_SOP_POP_32_U_10_12 => 39,
            Loongarch64RelocationType::R_LARCH_SOP_POP_32_S_10_12 => 40,
            Loongarch64RelocationType::R_LARCH_SOP_POP_32_S_10_16 => 41,
            Loongarch64RelocationType::R_LARCH_SOP_POP_32_S_10_16_S2 => 42,
            Loongarch64RelocationType::R_LARCH_SOP_POP_32_S_5_20 => 43,
            Loongarch64RelocationType::R_LARCH_SOP_POP_32_S_0_5_10_16_S2 => 44,
            Loongarch64RelocationType::R_LARCH_SOP_POP_32_S_0_10_10_16_S2 => 45,
            Loongarch64RelocationType::R_LARCH_SOP_POP_32_U => 46,
            Loongarch64RelocationType::R_LARCH_ADD8 => 47,
            Loongarch64RelocationType::R_LARCH_ADD16 => 48,
            Loongarch64RelocationType::R_LARCH_ADD24 => 49,
            Loongarch64RelocationType::R_LARCH_ADD32 => 50,
            Loongarch64RelocationType::R_LARCH_ADD64 => 51,
            Loongarch64RelocationType::R_LARCH_SUB8 => 52,
            Loongarch64RelocationType::R_LARCH_SUB16 => 53,
            Loongarch64RelocationType::R_LARCH_SUB24 => 54,
            Loongarch64RelocationType::R_LARCH_SUB32 => 55,
            Loongarch64RelocationType::R_LARCH_SUB64 => 56,
            Loongarch64RelocationType::R_LARCH_GNU_VTINHERIT => 57,
            Loongarch64RelocationType::R_LARCH_GNU_VTENTRY => 58,
            Loongarch64RelocationType::R_LARCH_B16 => 64,
            Loongarch64RelocationType::R_LARCH_B21 => 65,
            Loongarch64RelocationType::R_LARCH_B26 => 66,
            Loongarch64RelocationType::R_LARCH_ABS_HI20 => 67,
            Loongarch64RelocationType::R_LARCH_ABS_LO12 => 68,
            Loongarch64RelocationType::R_LARCH_ABS64_LO20 => 69,
            Loongarch64RelocationType::R_LARCH_ABS64_HI12 => 70,
            Loongarch64RelocationType::R_LARCH_PCALA_HI20 => 71,
            Loongarch64RelocationType::R_LARCH_PCALA_LO12 => 72,
            Loongarch64RelocationType::R_LARCH_PCALA64_LO20 => 73,
            Loongarch64RelocationType::R_LARCH_PCALA64_HI12 => 74,
            Loongarch64RelocationType::R_LARCH_GOT_PC_HI20 => 75,
            Loongarch64RelocationType::R_LARCH_GOT_PC_LO12 => 76,
            Loongarch64RelocationType::R_LARCH_GOT64_PC_LO20 => 77,
            Loongarch64RelocationType::R_LARCH_GOT64_PC_HI12 => 78,
            Loongarch64RelocationType::R_LARCH_GOT_HI20 => 79,
            Loongarch64RelocationType::R_LARCH_GOT_LO12 => 80,
            Loongarch64RelocationType::R_LARCH_GOT64_LO20 => 81,
            Loongarch64RelocationType::R_LARCH_GOT64_HI12 => 82,
            Loongarch64RelocationType::R_LARCH_TLS_LE_HI20 => 83,
            Loongarch64RelocationType::R_LARCH_TLS_LE_LO12 => 84,
            Loongarch64RelocationType::R_LARCH_TLS_LE64_LO20 => 85,
            Loongarch64RelocationType::R_LARCH_TLS_LE64_HI12 => 86,
            Loongarch64RelocationType::R_LARCH_TLS_IE_PC_HI20 => 87,
            Loongarch64RelocationType::R_LARCH_TLS_IE_PC_LO12 => 88,
            Loongarch64RelocationType::R_LARCH_TLS_IE64_PC_LO20 => 89,
            Loongarch64RelocationType::R_LARCH_TLS_IE64_PC_HI12 => 90,
            Loongarch64RelocationType::R_LARCH_TLS_IE_HI20 => 91,
            Loongarch64RelocationType::R_LARCH_TLS_IE_LO12 => 92,
            Loongarch64RelocationType::R_LARCH_TLS_IE64_LO20 => 93,
            Loongarch64RelocationType::R_LARCH_TLS_IE64_HI12 => 94,
            Loongarch64RelocationType::R_LARCH_TLS_LD_PC_HI20 => 95,
            Loongarch64RelocationType::R_LARCH_TLS_LD_HI20 => 96,
            Loongarch64RelocationType::R_LARCH_TLS_GD_PC_HI20 => 97,
            Loongarch64RelocationType::R_LARCH_TLS_GD_HI20 => 98,
            Loongarch64RelocationType::R_LARCH_32_PCREL => 99,
            Loongarch64RelocationType::R_LARCH_RELAX => 100,
            Loongarch64RelocationType::R_LARCH_DELETE => 101,
            Loongarch64RelocationType::R_LARCH_ALIGN => 102,
            Loongarch64RelocationType::R_LARCH_PCREL20_S2 => 103,
            Loongarch64RelocationType::R_LARCH_CFA => 104,
            Loongarch64RelocationType::R_LARCH_ADD6 => 105,
            Loongarch64RelocationType::R_LARCH_SUB6 => 106,
            Loongarch64RelocationType::R_LARCH_ADD_ULEB128 => 107,
            Loongarch64RelocationType::R_LARCH_SUB_ULEB128 => 108,
            Loongarch64RelocationType::R_LARCH_64_PCREL => 109,
            Loongarch64RelocationType::R_LARCH_CALL36 => 110,
            Loongarch64RelocationType::R_LARCH_TLS_DESC_PC_HI20 => 111,
            Loongarch64RelocationType::R_LARCH_TLS_DESC_PC_LO12 => 112,
            Loongarch64RelocationType::R_LARCH_TLS_DESC64_PC_LO20 => 113,
            Loongarch64RelocationType::R_LARCH_TLS_DESC64_PC_HI12 => 114,
            Loongarch64RelocationType::R_LARCH_TLS_DESC_HI20 => 115,
            Loongarch64RelocationType::R_LARCH_TLS_DESC_LO12 => 116,
            Loongarch64RelocationType::R_LARCH_TLS_DESC64_LO20 => 117,
            Loongarch64RelocationType::R_LARCH_TLS_DESC64_HI12 => 118,
            Loongarch64RelocationType::R_LARCH_TLS_DESC_LD => 119,
            Loongarch64RelocationType::R_LARCH_TLS_DESC_CALL => 120,
            Loongarch64RelocationType::R_LARCH_TLS_LE_HI20_R => 121,
            Loongarch64RelocationType::R_LARCH_TLS_LE_ADD_R => 122,
            Loongarch64RelocationType::R_LARCH_TLS_LE_LO12_R => 123,
            Loongarch64RelocationType::R_LARCH_TLS_LD_PCREL20_S2 => 124,
            Loongarch64RelocationType::R_LARCH_TLS_GD_PCREL20_S2 => 125,
            Loongarch64RelocationType::R_LARCH_TLS_DESC_PCREL20_S2 => 126,
        }
    }

    /// The kind that a numeric relocation type names, if any.
    pub open spec fn from_code(code: u32) -> Option<Self> {
        match code {
            0 => Some(Loongarch64RelocationType::R_LARCH_NONE),
            1 => Some(Loongarch64RelocationType::R_LARCH_32),
            2 => Some(Loongarch64RelocationType::R_LARCH_64),
            3 => Some(Loongarch64RelocationType::R_LARCH_RELATIVE),
            4 => Some(Loongarch64RelocationType::R_LARCH_COPY),
            5 => Some(Loongarch64RelocationType::R_LARCH_JUMP_SLOT),
            6 => Some(Loongarch64RelocationType::R_LARCH_TLS_DTPMOD32),
            7 => Some(Loongarch64RelocationType::R_LARCH_TLS_DTPMOD64),
            8 => Some(Loongarch64RelocationType::R_LARCH_TLS_DTPREL32),
            9 => Some(Loongarch64RelocationType::R_LARCH_TLS_DTPREL64),
            10 => Some(Loongarch64RelocationType::R_LARCH_TLS_TPREL32),
            11 => Some(Loongarch64RelocationType::R_LARCH_TLS_TPREL64),
            12 => Some(Loongarch64RelocationType::R_LARCH_IRELATIVE),
            13 => Some(Loongarch64RelocationType::R_LARCH_TLS_DESC32),
            14 => Some(Loongarch64RelocationType::R_LARCH_TLS_DESC64),
            20 => Some(Loongarch64RelocationType::R_LARCH_MARK_LA),
            21 => Some(Loongarch64RelocationType::R_LARCH_MARK_PCREL),
            22 => Some(Loongarch64RelocationType::R_LARCH_SOP_PUSH_PCREL),
            23 => Some(Loongarch64RelocationType::R_LARCH_SOP_PUSH_ABSOLUTE),
            24 => Some(Loongarch64RelocationType::R_LARCH_SOP_PUSH_DUP),
            25 => Some(Loongarch64RelocationType::R_LARCH_SOP_PUSH_GPREL),
            26 => Some(Loongarch64RelocationType::R_LARCH_SOP_PUSH_TLS_TPREL),
            27 => Some(Loongarch64RelocationType::R_LARCH_SOP_PUSH_TLS_GOT),
            28 => Some(Loongarch64RelocationType::R_LARCH_SOP_PUSH_TLS_GD),
            29 => Some(Loongarch64RelocationType::R_LARCH_SOP_PUSH_PLT_PCREL),
            30 => Some(Loongarch64RelocationType::R_LARCH_SOP_ASSERT),
            31 => Some(Loongarch64RelocationType::R_LARCH_SOP_NOT),
            32 => Some(Loongarch64RelocationType::R_LARCH_SOP_SUB),
            33 => Some(Loongarch64RelocationType::R_LARCH_SOP_SL),
            34 => Some(Loongarch64RelocationType::R_LARCH_SOP_SR),
            35 => Some(Loongarch64RelocationType::R_LARCH_SOP_ADD),
            36 => Some(Loongarch64RelocationType::R_LARCH_SOP_AND),
            37 => Some(Loongarch64RelocationType::R_LARCH_SOP_IF_ELSE),
            38 => Some(Loongarch64RelocationType::R_LARCH_SOP_POP_32_S_10_5),
            39 => Some(Loongarch64RelocationType::R_LARCH_SOP_POP_32_U_10_12),
            40 => Some(Loongarch64RelocationType::R_LARCH_SOP_POP_32_S_10_12),
            41 => Some(Loongarch64RelocationType::R_LARCH_SOP_POP_32_S_10_16),
            42 => Some(Loongarch64RelocationType::R_LARCH_SOP_POP_32_S_10_16_S2),
            43 => Some(Loongarch64RelocationType::R_LARCH_SOP_POP_32_S_5_20),
            44 => Some(Loongarch64RelocationType::R_LARCH_SOP_POP_32_S_0_5_10_16_S2),
            45 => Some(Loongarch64RelocationType::R_LARCH_SOP_POP_32_S_0_10_10_16_S2),
            46 => Some(Loongarch64RelocationType::R_LARCH_SOP_POP_32_U),
            47 => Some(Loongarch64RelocationType::R_LARCH_ADD8),
            48 => Some(Loongarch64RelocationType::R_LARCH_ADD16),
            49 => Some(Loongarch64RelocationType::R_LARCH_ADD24),
            50 => Some(Loongarch64RelocationType::R_LARCH_ADD32),
            51 => Some(Loongarch64RelocationType::R_LARCH_ADD64),
            52 => Some(Loongarch64RelocationType::R_LARCH_SUB8),
            53 => Some(Loongarch64RelocationType::R_LARCH_SUB16),
            54 => Some(Loongarch64RelocationType::R_LARCH_SUB24),
            55 => Some(Loongarch64RelocationType::R_LARCH_SUB32),
            56 => Some(Loongarch64RelocationType::R_LARCH_SUB64),
            57 => Some(Loongarch64RelocationType::R_LARCH_GNU_VTINHERIT),
            58 => Some(Loongarch64RelocationType::R_LARCH_GNU_VTENTRY),
            64 => Some(Loongarch64RelocationType::R_LARCH_B16),
            65 => Some(Loongarch64RelocationType::R_LARCH_B21),
            66 => Some(Loongarch64RelocationType::R_LARCH_B26),
            67 => Some(Loongarch64RelocationType::R_LARCH_ABS_HI20),
            68 => Some(Loongarch64RelocationType::R_LARCH_ABS_LO12),
            69 => Some(Loongarch64RelocationType::R_LARCH_ABS64_LO20),
            70 => Some(Loongarch64RelocationType::R_LARCH_ABS64_HI12),
            71 => Some(Loongarch64RelocationType::R_LARCH_PCALA_HI20),
            72 => Some(Loongarch64RelocationType::R_LARCH_PCALA_LO12),
            73 => Some(Loongarch64RelocationType::R_LARCH_PCALA64_LO20),
            74 => Some(Loongarch64RelocationType::R_LARCH_PCALA64_HI12),
            75 => Some(Loongarch64RelocationType::R_LARCH_GOT_PC_HI20),
            76 => Some(Loongarch64RelocationType::R_LARCH_GOT_PC_LO12),
            77 => Some(Loongarch64RelocationType::R_LARCH_GOT64_PC_LO20),
            78 => Some(Loongarch64RelocationType::R_LARCH_GOT64_PC_HI12),
            79 => Some(Loongarch64RelocationType::R_LARCH_GOT_HI20),
            80 => Some(Loongarch64RelocationType::R_LARCH_GOT_LO12),
            81 => Some(Loongarch64RelocationType::R_LARCH_GOT64_LO20),
            82 => Some(Loongarch64RelocationType::R_LARCH_GOT64_HI12),
            83 => Some(Loongarch64RelocationType::R_LARCH_TLS_LE_HI20),
            84 => Some(Loongarch64RelocationType::R_LARCH_TLS_LE_LO12),
            85 => Some(Loongarch64RelocationType::R_LARCH_TLS_LE64_LO20),
            86 => Some(Loongarch64RelocationType::R_LARCH_TLS_LE64_HI12),
            87 => Some(Loongarch64RelocationType::R_LARCH_TLS_IE_PC_HI20),
            88 => Some(Loongarch64RelocationType::R_LARCH_TLS_IE_PC_LO12),
            89 => Some(Loongarch64RelocationType::R_LARCH_TLS_IE64_PC_LO20),
            90 => Some(Loongarch64RelocationType::R_LARCH_TLS_IE64_PC_HI12),
            91 => Some(Loongarch64RelocationType::R_LARCH_TLS_IE_HI20),
            92 => Some(Loongarch64RelocationType::R_LARCH_TLS_IE_LO12),
            93 => Some(Loongarch64RelocationType::R_LARCH_TLS_IE64_LO20),
            94 => Some(Loongarch64RelocationType::R_LARCH_TLS_IE64_HI12),
            95 => Some(Loongarch64RelocationType::R_LARCH_TLS_LD_PC_HI20),
            96 => Some(Loongarch64RelocationType::R_LARCH_TLS_LD_HI20),
            97 => Some(Loongarch64RelocationType::R_LARCH_TLS_GD_PC_HI20),
            98 => Some(Loongarch64RelocationType::R_LARCH_TLS_GD_HI20),
            99 => Some(Loongarch64RelocationType::R_LARCH_32_PCREL),
            100 => Some(Loongarch64RelocationType::R_LARCH_RELAX),
            101 => Some(Loongarch64RelocationType::R_LARCH_DELETE),
            102 => Some(Loongarch64RelocationType::R_LARCH_ALIGN),
            103 => Some(Loongarch64RelocationType::R_LARCH_PCREL20_S2),
            104 => Some(Loongarch64RelocationType::R_LARCH_CFA),
            105 => Some(Loongarch64RelocationType::R_LARCH_ADD6),
            106 => Some(Loongarch64RelocationType::R_LARCH_SUB6),
            107 => Some(Loongarch64RelocationType::R_LARCH_ADD_ULEB128),
            108 => Some(Loongarch64RelocationType::R_LARCH_SUB_ULEB128),
            109 => Some(Loongarch64RelocationType::R_LARCH_64_PCREL),
            110 => Some(Loongarch64RelocationType::R_LARCH_CALL36),
            111 => Some(Loongarch64RelocationType::R_LARCH_TLS_DESC_PC_HI20),
            112 => Some(Loongarch64RelocationType::R_LARCH_TLS_DESC_PC_LO12),
            113 => Some(Loongarch64RelocationType::R_LARCH_TLS_DESC64_PC_LO20),
            114 => Some(Loongarch64RelocationType::R_LARCH_TLS_DESC64_PC_HI12),
            115 => Some(Loongarch64RelocationType::R_LARCH_TLS_DESC_HI20),
            116 => Some(Loongarch64RelocationType::R_LARCH_TLS_DESC_LO12),
            117 => Some(Loongarch64RelocationType::R_LARCH_TLS_DESC64_LO20),
            118 => Some(Loongarch64RelocationType::R_LARCH_TLS_DESC64_HI12),
            119 => Some(Loongarch64RelocationType::R_LARCH_TLS_DESC_LD),
            120 => Some(Loongarch64RelocationType::R_LARCH_TLS_DESC_CALL),
            121 => Some(Loongarch64RelocationType::R_LARCH_TLS_LE_HI20_R),
            122 => Some(Loongarch64RelocationType::R_LARCH_TLS_LE_ADD_R),
            123 => Some(Loongarch64RelocationType::R_LARCH_TLS_LE_LO12_R),
            124 => Some(Loongarch64RelocationType::R_LARCH_TLS_LD_PCREL20_S2),
            125 => Some(Loongarch64RelocationType::R_LARCH_TLS_GD_PCREL20_S2),
            126 => Some(Loongarch64RelocationType::R_LARCH_TLS_DESC_PCREL20_S2),
            _ => None,
        }
    }

    /// Decodes a numeric relocation type; `None` for a number that names no kind.
    pub fn from_u32(code: u32) -> (r: Option<Self>)
        ensures
            r == Self::from_code(code),
    {
        match code {
            0 => Some(Loongarch64RelocationType::R_LARCH_NONE),
            1 => Some(Loongarch64RelocationType::R_LARCH_32),
            2 => Some(Loongarch64RelocationType::R_LARCH_64),
            3 => Some(Loongarch64RelocationType::R_LARCH_RELATIVE),
            4 => Some(Loongarch64RelocationType::R_LARCH_COPY),
            5 => Some(Loongarch64RelocationType::R_LARCH_JUMP_SLOT),
            6 => Some(Loongarch64RelocationType::R_LARCH_TLS_DTPMOD32),
            7 => Some(Loongarch64RelocationType::R_LARCH_TLS_DTPMOD64),
            8 => Some(Loongarch64RelocationType::R_LARCH_TLS_DTPREL32),
            9 => Some(Loongarch64RelocationType::R_LARCH_TLS_DTPREL64),
            10 => Some(Loongarch64RelocationType::R_LARCH_TLS_TPREL32),
            11 => Some(Loongarch64RelocationType::R_LARCH_TLS_TPREL64),
            12 => Some(Loongarch64RelocationType::R_LARCH_IRELATIVE),
            13 => Some(Loongarch64RelocationType::R_LARCH_TLS_DESC32),
            14 => Some(Loongarch64RelocationType::R_LARCH_TLS_DESC64),
            20 => Some(Loongarch64RelocationType::R_LARCH_MARK_LA),
            21 => Some(Loongarch64RelocationType::R_LARCH_MARK_PCREL),
            22 => Some(Loongarch64RelocationType::R_LARCH_SOP_PUSH_PCREL),
            23 => Some(Loongarch64RelocationType::R_LARCH_SOP_PUSH_ABSOLUTE),
            24 => Some(Loongarch64RelocationType::R_LARCH_SOP_PUSH_DUP),
            25 => Some(Loongarch64RelocationType::R_LARCH_SOP_PUSH_GPREL),
            26 => Some(Loongarch64RelocationType::R_LARCH_SOP_PUSH_TLS_TPREL),
            27 => Some(Loongarch64RelocationType::R_LARCH_SOP_PUSH_TLS_GOT),
            28 => Some(Loongarch64RelocationType::R_LARCH_SOP_PUSH_TLS_GD),
            29 => Some(Loongarch64RelocationType::R_LARCH_SOP_PUSH_PLT_PCREL),
            30 => Some(Loongarch64RelocationType::R_LARCH_SOP_ASSERT),
            31 => Some(Loongarch64RelocationType::R_LARCH_SOP_NOT),
            32 => Some(Loongarch64RelocationType::R_LARCH_SOP_SUB),
            33 => Some(Loongarch64RelocationType::R_LARCH_SOP_SL),
            34 => Some(Loongarch64RelocationType::R_LARCH_SOP_SR),
            35 => Some(Loongarch64RelocationType::R_LARCH_SOP_ADD),
            36 => Some(Loongarch64RelocationType::R_LARCH_SOP_AND),
            37 => Some(Loongarch64RelocationType::R_LARCH_SOP_IF_ELSE),
            38 => Some(Loongarch64RelocationType::R_LARCH_SOP_POP_32_S_10_5),
            39 => Some(Loongarch64RelocationType::R_LARCH_SOP_POP_32_U_10_12),
            40 => Some(Loongarch64RelocationType::R_LARCH_SOP_POP_32_S_10_12),
            41 => Some(Loongarch64RelocationType::R_LARCH_SOP_POP_32_S_10_16),
            42 => Some(Loongarch64RelocationType::R_LARCH_SOP_POP_32_S_10_16_S2),
            43 => Some(Loongarch64RelocationType::R_LARCH_SOP_POP_32_S_5_20),
            44 => Some(Loongarch64RelocationType::R_LARCH_SOP_POP_32_S_0_5_10_16_S2),
            45 => Some(Loongarch64RelocationType::R_LARCH_SOP_POP_32_S_0_10_10_16_S2),
            46 => Some(Loongarch64RelocationType::R_LARCH_SOP_POP_32_U),
            47 => Some(Loongarch64RelocationType::R_LARCH_ADD8),
            48 => Some(Loongarch64RelocationType::R_LARCH_ADD16),
            49 => Some(Loongarch64RelocationType::R_LARCH_ADD24),
            50 => Some(Loongarch64RelocationType::R_LARCH_ADD32),
            51 => Some(Loongarch64RelocationType::R_LARCH_ADD64),
            52 => Some(Loongarch64RelocationType::R_LARCH_SUB8),
            53 => Some(Loongarch64RelocationType::R_LARCH_SUB16),
            54 => Some(Loongarch64RelocationType::R_LARCH_SUB24),
            55 => Some(Loongarch64RelocationType::R_LARCH_SUB32),
            56 => Some(Loongarch64RelocationType::R_LARCH_SUB64),
            57 => Some(Loongarch64RelocationType::R_LARCH_GNU_VTINHERIT),
            58 => Some(Loongarch64RelocationType::R_LARCH_GNU_VTENTRY),
            64 => Some(Loongarch64RelocationType::R_LARCH_B16),
            65 => Some(Loongarch64RelocationType::R_LARCH_B21),
            66 => Some(Loongarch64RelocationType::R_LARCH_B26),
            67 => Some(Loongarch64RelocationType::R_LARCH_ABS_HI20),
            68 => Some(Loongarch64RelocationType::R_LARCH_ABS_LO12),
            69 => Some(Loongarch64RelocationType::R_LARCH_ABS64_LO20),
            70 => Some(Loongarch64RelocationType::R_LARCH_ABS64_HI12),
            71 => Some(Loongarch64RelocationType::R_LARCH_PCALA_HI20),
            72 => Some(Loongarch64RelocationType::R_LARCH_PCALA_LO12),
            73 => Some(Loongarch64RelocationType::R_LARCH_PCALA64_LO20),
            74 => Some(Loongarch64RelocationType::R_LARCH_PCALA64_HI12),
            75 => Some(Loongarch64RelocationType::R_LARCH_GOT_PC_HI20),
            76 => Some(Loongarch64RelocationType::R_LARCH_GOT_PC_LO12),
            77 => Some(Loongarch64RelocationType::R_LARCH_GOT64_PC_LO20),
            78 => Some(Loongarch64RelocationType::R_LARCH_GOT64_PC_HI12),
            79 => Some(Loongarch64RelocationType::R_LARCH_GOT_HI20),
            80 => Some(Loongarch64RelocationType::R_LARCH_GOT_LO12),
            81 => Some(Loongarch64RelocationType::R_LARCH_GOT64_LO20),
            82 => Some(Loongarch64RelocationType::R_LARCH_GOT64_HI12),
            83 => Some(Loongarch64RelocationType::R_LARCH_TLS_LE_HI20),
            84 => Some(Loongarch64RelocationType::R_LARCH_TLS_LE_LO12),
            85 => Some(Loongarch64RelocationType::R_LARCH_TLS_LE64_LO20),
            86 => Some(Loongarch64RelocationType::R_LARCH_TLS_LE64_HI12),
            87 => Some(Loongarch64RelocationType::R_LARCH_TLS_IE_PC_HI20),
            88 => Some(Loongarch64RelocationType::R_LARCH_TLS_IE_PC_LO12),
            89 => Some(Loongarch64RelocationType::R_LARCH_TLS_IE64_PC_LO20),
            90 => Some(Loongarch64RelocationType::R_LARCH_TLS_IE64_PC_HI12),
            91 => Some(Loongarch64RelocationType::R_LARCH_TLS_IE_HI20),
            92 => Some(Loongarch64RelocationType::R_LARCH_TLS_IE_LO12),
            93 => Some(Loongarch64RelocationType::R_LARCH_TLS_IE64_LO20),
            94 => Some(Loongarch64RelocationType::R_LARCH_TLS_IE64_HI12),
            95 => Some(Loongarch64RelocationType::R_LARCH_TLS_LD_PC_HI20),
            96 => Some(Loongarch64RelocationType::R_LARCH_TLS_LD_HI20),
            97 => Some(Loongarch64RelocationType::R_LARCH_TLS_GD_PC_HI20),
            98 => Some(Loongarch64RelocationType::R_LARCH_TLS_GD_HI20),
            99 => Some(Loongarch64RelocationType::R_LARCH_32_PCREL),
            100 => Some(Loongarch64RelocationType::R_LARCH_RELAX),
            101 => Some(Loongarch64RelocationType::R_LARCH_DELETE),
            102 => Some(Loongarch64RelocationType::R_LARCH_ALIGN),
            103 => Some(Loongarch64RelocationType::R_LARCH_PCREL20_S2),
            104 => Some(Loongarch64RelocationType::R_LARCH_CFA),
            105 => Some(Loongarch64RelocationType::R_LARCH_ADD6),
            106 => Some(Loongarch64RelocationType::R_LARCH_SUB6),
            107 => Some(Loongarch64RelocationType::R_LARCH_ADD_ULEB128),
            108 => Some(Loongarch64RelocationType::R_LARCH_SUB_ULEB128),
            109 => Some(Loongarch64RelocationType::R_LARCH_64_PCREL),
            110 => Some(Loongarch64RelocationType::R_LARCH_CALL36),
            111 => Some(Loongarch64RelocationType::R_LARCH_TLS_DESC_PC_HI20),
            112 => Some(Loongarch64RelocationType::R_LARCH_TLS_DESC_PC_LO12),
            113 => Some(Loongarch64RelocationType::R_LARCH_TLS_DESC64_PC_LO20),
            114 => Some(Loongarch64RelocationType::R_LARCH_TLS_DESC64_PC_HI12),
            115 => Some(Loongarch64RelocationType::R_LARCH_TLS_DESC_HI20),
            116 => Some(Loongarch64RelocationType::R_LARCH_TLS_DESC_LO12),
            117 => Some(Loongarch64RelocationType::R_LARCH_TLS_DESC64_LO20),
            118 => Some(Loongarch64RelocationType::R_LARCH_TLS_DESC64_HI12),
            119 => Some(Loongarch64RelocationType::R_LARCH_TLS_DESC_LD),
            120 => Some(Loongarch64RelocationType::R_LARCH_TLS_DESC_CALL),
            121 => Some(Loongarch64RelocationType::R_LARCH_TLS_LE_HI20_R),
            122 => Some(Loongarch64RelocationType::R_LARCH_TLS_LE_ADD_R),
            123 => Some(Loongarch64RelocationType::R_LARCH_TLS_LE_LO12_R),
            124 => Some(Loongarch64RelocationType::R_LARCH_TLS_LD_PCREL20_S2),
            125 => Some(Loongarch64RelocationType::R_LARCH_TLS_GD_PCREL20_S2),
            126 => Some(Loongarch64RelocationType::R_LARCH_TLS_DESC_PCREL20_S2),
            _ => None,
        }
    }

    /// The numeric relocation type of this kind.
    pub fn code(&self) -> (r: u32)
        ensures
            r == self.spec_code(),
    {
        match self {
            Loongarch64RelocationType::R_LARCH_NONE => 0,
            Loongarch64RelocationType::R_LARCH_32 => 1,
            Loongarch64RelocationType::R_LARCH_64 => 2,
            Loongarch64RelocationType::R_LARCH_RELATIVE => 3,
            Loongarch64RelocationType::R_LARCH_COPY => 4,
            Loongarch64RelocationType::R_LARCH_JUMP_SLOT => 5,
            Loongarch64RelocationType::R_LARCH_TLS_DTPMOD32 => 6,
            Loongarch64RelocationType::R_LARCH_TLS_DTPMOD64 => 7,
            Loongarch64RelocationType::R_LARCH_TLS_DTPREL32 => 8,
            Loongarch64RelocationType::R_LARCH_TLS_DTPREL64 => 9,
            Loongarch64RelocationType::R_LARCH_TLS_TPREL32 => 10,
            Loongarch64RelocationType::R_LARCH_TLS_TPREL64 => 11,
            Loongarch64RelocationType::R_LARCH_IRELATIVE => 12,
            Loongarch64RelocationType::R_LARCH_TLS_DESC32 => 13,
            Loongarch64RelocationType::R_LARCH_TLS_DESC64 => 14,
            Loongarch64RelocationType::R_LARCH_MARK_LA => 20,
            Loongarch64RelocationType::R_LARCH_MARK_PCREL => 21,
            Loongarch64RelocationType::R_LARCH_SOP_PUSH_PCREL => 22,
            Loongarch64RelocationType::R_LARCH_SOP_PUSH_ABSOLUTE => 23,
            Loongarch64RelocationType::R_LARCH_SOP_PUSH_DUP => 24,
            Loongarch64RelocationType::R_LARCH_SOP_PUSH_GPREL => 25,
            Loongarch64RelocationType::R_LARCH_SOP_PUSH_TLS_TPREL => 26,
            Loongarch64RelocationType::R_LARCH_SOP_PUSH_TLS_GOT => 27,
            Loongarch64RelocationType::R_LARCH_SOP_PUSH_TLS_GD => 28,
            Loongarch64RelocationType::R_LARCH_SOP_PUSH_PLT_PCREL => 29,
            Loongarch64RelocationType::R_LARCH_SOP_ASSERT => 30,
            Loongarch64RelocationType::R_LARCH_SOP_NOT => 31,
            Loongarch64RelocationType::R_LARCH_SOP_SUB => 32,
            Loongarch64RelocationType::R_LARCH_SOP_SL => 33,
            Loongarch64RelocationType::R_LARCH_SOP_SR => 34,
            Loongarch64RelocationType::R_LARCH_SOP_ADD => 35,
            Loongarch64RelocationType::R_LARCH_SOP_AND => 36,
            Loongarch64RelocationType::R_LARCH_SOP_IF_ELSE => 37,
            Loongarch64RelocationType::R_LARCH_SOP_POP_32_S_10_5 => 38,
            Loongarch64RelocationType::R_LARCH_SOP_POP_32_U_10_12 => 39,
            Loongarch64RelocationType::R_LARCH_SOP_POP_32_S_10_12 => 40,
            Loongarch64RelocationType::R_LARCH_SOP_POP_32_S_10_16 => 41,
            Loongarch64RelocationType::R_LARCH_SOP_POP_32_S_10_16_S2 => 42,
            Loongarch64RelocationType::R_LARCH_SOP_POP_32_S_5_20 => 43,
            Loongarch64RelocationType::R_LARCH_SOP_POP_32_S_0_5_10_16_S2 => 44,
            Loongarch64RelocationType::R_LARCH_SOP_POP_32_S_0_10_10_16_S2 => 45,
            Loongarch64RelocationType::R_LARCH_SOP_POP_32_U => 46,
            Loongarch64RelocationType::R_LARCH_ADD8 => 47,
            Loongarch64RelocationType::R_LARCH_ADD16 => 48,
            Loongarch64RelocationType::R_LARCH_ADD24 => 49,
            Loongarch64RelocationType::R_LARCH_ADD32 => 50,
            Loongarch64RelocationType::R_LARCH_ADD64 => 51,
            Loongarch64RelocationType::R_LARCH_SUB8 => 52,
            Loongarch64RelocationType::R_LARCH_SUB16 => 53,
            Loongarch64RelocationType::R_LARCH_SUB24 => 54,
            Loongarch64RelocationType::R_LARCH_SUB32 => 55,
            Loongarch64RelocationType::R_LARCH_SUB64 => 56,
            Loongarch64RelocationType::R_LARCH_GNU_VTINHERIT => 57,
            Loongarch64RelocationType::R_LARCH_GNU_VTENTRY => 58,
            Loongarch64RelocationType::R_LARCH_B16 => 64,
            Loongarch64RelocationType::R_LARCH_B21 => 65,
            Loongarch64RelocationType::R_LARCH_B26 => 66,
            Loongarch64RelocationType::R_LARCH_ABS_HI20 => 67,
            Loongarch64RelocationType::R_LARCH_ABS_LO12 => 68,
            Loongarch64RelocationType::R_LARCH_ABS64_LO20 => 69,
            Loongarch64RelocationType::R_LARCH_ABS64_HI12 => 70,
            Loongarch64RelocationType::R_LARCH_PCALA_HI20 => 71,
            Loongarch64RelocationType::R_LARCH_PCALA_LO12 => 72,
            Loongarch64RelocationType::R_LARCH_PCALA64_LO20 => 73,
            Loongarch64RelocationType::R_LARCH_PCALA64_HI12 => 74,
            Loongarch64RelocationType::R_LARCH_GOT_PC_HI20 => 75,
            Loongarch64RelocationType::R_LARCH_GOT_PC_LO12 => 76,
            Loongarch64RelocationType::R_LARCH_GOT64_PC_LO20 => 77,
            Loongarch64RelocationType::R_LARCH_GOT64_PC_HI12 => 78,
            Loongarch64RelocationType::R_LARCH_GOT_HI20 => 79,
            Loongarch64RelocationType::R_LARCH_GOT_LO12 => 80,
            Loongarch64RelocationType::R_LARCH_GOT64_LO20 => 81,
            Loongarch64RelocationType::R_LARCH_GOT64_HI12 => 82,
            Loongarch64RelocationType::R_LARCH_TLS_LE_HI20 => 83,
            Loongarch64RelocationType::R_LARCH_TLS_LE_LO12 => 84,
            Loongarch64RelocationType::R_LARCH_TLS_LE64_LO20 => 85,
            Loongarch64RelocationType::R_LARCH_TLS_LE64_HI12 => 86,
            Loongarch64RelocationType::R_LARCH_TLS_IE_PC_HI20 => 87,
            Loongarch64RelocationType::R_LARCH_TLS_IE_PC_LO12 => 88,
            Loongarch64RelocationType::R_LARCH_TLS_IE64_PC_LO20 => 89,
            Loongarch64RelocationType::R_LARCH_TLS_IE64_PC_HI12 => 90,
            Loongarch64RelocationType::R_LARCH_TLS_IE_HI20 => 91,
            Loongarch64RelocationType::R_LARCH_TLS_IE_LO12 => 92,
            Loongarch64RelocationType::R_LARCH_TLS_IE64_LO20 => 93,
            Loongarch64RelocationType::R_LARCH_TLS_IE64_HI12 => 94,
            Loongarch64RelocationType::R_LARCH_TLS_LD_PC_HI20 => 95,
            Loongarch64RelocationType::R_LARCH_TLS_LD_HI20 => 96,
            Loongarch64RelocationType::R_LARCH_TLS_GD_PC_HI20 => 97,
            Loongarch64RelocationType::R_LARCH_TLS_GD_HI20 => 98,
            Loongarch64RelocationType::R_LARCH_32_PCREL => 99,
            Loongarch64RelocationType::R_LARCH_RELAX => 100,
            Loongarch64RelocationType::R_LARCH_DELETE => 101,
            Loongarch64RelocationType::R_LARCH_ALIGN => 102,
            Loongarch64RelocationType::R_LARCH_PCREL20_S2 => 103,
            Loongarch64RelocationType::R_LARCH_CFA => 104,
            Loongarch64RelocationType::R_LARCH_ADD6 => 105,
            Loongarch64RelocationType::R_LARCH_SUB6 => 106,
            Loongarch64RelocationType::R_LARCH_ADD_ULEB128 => 107,
            Loongarch64RelocationType::R_LARCH_SUB_ULEB128 => 108,
            Loongarch64RelocationType::R_LARCH_64_PCREL => 109,
            Loongarch64RelocationType::R_LARCH_CALL36 => 110,
            Loongarch64RelocationType::R_LARCH_TLS_DESC_PC_HI20 => 111,
            Loongarch64RelocationType::R_LARCH_TLS_DESC_PC_LO12 => 112,
            Loongarch64RelocationType::R_LARCH_TLS_DESC64_PC_LO20 => 113,
            Loongarch64RelocationType::R_LARCH_TLS_DESC64_PC_HI12 => 114,
            Loongarch64RelocationType::R_LARCH_TLS_DESC_HI20 => 115,
            Loongarch64RelocationType::R_LARCH_TLS_DESC_LO12 => 116,
            Loongarch64RelocationType::R_LARCH_TLS_DESC64_LO20 => 117,
            Loongarch64RelocationType::R_LARCH_TLS_DESC64_HI12 => 118,
            Loongarch64RelocationType::R_LARCH_TLS_DESC_LD => 119,
            Loongarch64RelocationType::R_LARCH_TLS_DESC_CALL => 120,
            Loongarch64RelocationType::R_LARCH_TLS_LE_HI20_R => 121,
            Loongarch64RelocationType::R_LARCH_TLS_LE_ADD_R => 122,
            Loongarch64RelocationType::R_LARCH_TLS_LE_LO12_R => 123,
            Loongarch64RelocationType::R_LARCH_TLS_LD_PCREL20_S2 => 124,
            Loongarch64RelocationType::R_LARCH_TLS_GD_PCREL20_S2 => 125,
            Loongarch64RelocationType::R_LARCH_TLS_DESC_PCREL20_S2 => 126,
        }
    }
}

/// The PC-relative offset S + A - P as a signed number.
pub open spec fn pcrel(address: u64, location: u64) -> i64 {
    wsub(address, location) as i64
}

/// `v` sign-extended from its low 32 bits.
pub open spec fn sext32(v: u64) -> u64 {
    (((v as u32) as i32) as i64) as u64
}

/// The page-aligned distance `((S + A + 0x800) & ~0xfff) - (P & ~0xfff)`,
/// sign-extended from 32 bits.
pub open spec fn pcala_hi(address: u64, location: u64) -> u64 {
    sext32(wsub(wadd(address, 0x800) & !0xfffu64, location & !0xfffu64))
}

/// What is left of S + A beyond the page that the HI20 part reaches.
pub open spec fn pcala_rem(address: u64, location: u64) -> u64 {
    wsub(address, wadd(location & !0xfffu64, pcala_hi(address, location)))
}

/// The instruction after a `PCALA` relocation of `kind`.
pub open spec fn pcala_insn(kind: Loongarch64RelocationType, insn: u32, address: u64, location: u64) -> u32 {
    match kind {
        Loongarch64RelocationType::R_LARCH_PCALA_LO12 => reg2i12(insn, (address & 0xfff) as u32),
        Loongarch64RelocationType::R_LARCH_PCALA_HI20 => reg1i20(insn, ((((pcala_hi(address, location) as i64) >> 12u32) as u64) & 0xfffff) as u32),
        Loongarch64RelocationType::R_LARCH_PCALA64_LO20 => reg1i20(insn, ((pcala_rem(address, location) >> 32u64) & 0xfffff) as u32),
        _ => reg2i12(insn, ((pcala_rem(address, location) >> 52u64) & 0xfff) as u32),
    }
}

/// The instruction after a `B26` relocation, or why it fails.
pub open spec fn b26_insn(insn: u32, address: u64, location: u64) -> Result<u32, RelocFailure> {
    let o = pcrel(address, location);
    if o < -(SZ_128M as i64) || o >= SZ_128M as i64 {
        Err(RelocFailure::VeneerRequired)
    } else if (o as u64) & 3 != 0 {
        Err(RelocFailure::Unaligned)
    } else {
        Ok(reg0i26(insn, ((o >> 2u32) as u64) as u32))
    }
}

/// The binary and ternary stack operations; `c`, `a`, `b` in push order.
pub open spec fn sop_result(kind: Loongarch64RelocationType, c: i64, a: i64, b: i64) -> i64 {
    match kind {
        Loongarch64RelocationType::R_LARCH_SOP_AND => a & b,
        Loongarch64RelocationType::R_LARCH_SOP_ADD => vstd::wrapping::i64_specs::wrapping_add(a, b),
        Loongarch64RelocationType::R_LARCH_SOP_SUB => vstd::wrapping::i64_specs::wrapping_sub(a, b),
        Loongarch64RelocationType::R_LARCH_SOP_SL => ((a as u64) << ((b as u64) % 64)) as i64,
        Loongarch64RelocationType::R_LARCH_SOP_SR => ((a as u64) >> ((b as u64) % 64)) as i64,
        _ => if c != 0 { a } else { b },
    }
}

/// The instruction word after popping `v` into the field of a `SOP_POP_32_*` kind.
pub open spec fn sop_field(kind: Loongarch64RelocationType, insn: u32, v: i64) -> Result<u32, RelocFailure> {
    match kind {
        Loongarch64RelocationType::R_LARCH_SOP_POP_32_S_10_5 => if signed_fits(v, 5) {
            Ok(reg2i5(insn, v as u32))
        } else {
            Err(RelocFailure::Overflow)
        },
        Loongarch64RelocationType::R_LARCH_SOP_POP_32_U_10_12 => if unsigned_fits(v as u64, 12) {
            Ok(reg2i12(insn, v as u32))
        } else {
            Err(RelocFailure::Overflow)
        },
        Loongarch64RelocationType::R_LARCH_SOP_POP_32_S_10_12 => if signed_fits(v, 12) {
            Ok(reg2i12(insn, v as u32))
        } else {
            Err(RelocFailure::Overflow)
        },
        Loongarch64RelocationType::R_LARCH_SOP_POP_32_S_10_16 => if signed_fits(v, 16) {
            Ok(reg2i16(insn, v as u32))
        } else {
            Err(RelocFailure::Overflow)
        },
        Loongarch64RelocationType::R_LARCH_SOP_POP_32_S_10_16_S2 => if (v as u64) & 3 != 0 {
            Err(RelocFailure::Unaligned)
        } else if signed_fits(v, 18) {
            Ok(reg2i16(insn, (v >> 2u32) as u32))
        } else {
            Err(RelocFailure::Overflow)
        },
        Loongarch64RelocationType::R_LARCH_SOP_POP_32_S_5_20 => if signed_fits(v, 20) {
            Ok(reg1i20(insn, v as u32))
        } else {
            Err(RelocFailure::Overflow)
        },
        Loongarch64RelocationType::R_LARCH_SOP_POP_32_S_0_5_10_16_S2 => if (v as u64) & 3 != 0 {
            Err(RelocFailure::Unaligned)
        } else if signed_fits(v, 23) {
            Ok(reg1i21(insn, (v >> 2u32) as u32))
        } else {
            Err(RelocFailure::Overflow)
        },
        Loongarch64RelocationType::R_LARCH_SOP_POP_32_S_0_10_10_16_S2 => if (v as u64) & 3 != 0 {
            Err(RelocFailure::Unaligned)
        } else if signed_fits(v, 28) {
            Ok(reg0i26(insn, (v >> 2u32) as u32))
        } else {
            Err(RelocFailure::Overflow)
        },
        _ => if unsigned_fits(v as u64, 12) {
            Ok(reg2i12(insn, v as u32))
        } else {
            Err(RelocFailure::Overflow)
        },
    }
}

/// The in-place value at `off` read at a width of `bits` bits.
pub open spec fn get_width(mem: Seq<u8>, off: int, bits: u32) -> u64 {
    if bits == 8 {
        mem[off] as u64
    } else if bits == 16 {
        le_u16(mem, off) as u64
    } else if bits == 24 {
        ((le_u16(mem, off) as u64) | ((mem[off + 2] as u64) << 16u64)) as u64
    } else if bits == 32 {
        le_u32(mem, off) as u64
    } else {
        le_u64(mem, off)
    }
}

/// The image with the low `bits` bits of `v` stored at `off`.
pub open spec fn put_width(mem: Seq<u8>, off: int, bits: u32, v: u64) -> Seq<u8> {
    if bits == 8 {
        mem.update(off, v as u8)
    } else if bits == 16 {
        put_u16(mem, off, v as u16)
    } else if bits == 24 {
        put_u16(mem, off, v as u16).update(off + 2, (v >> 16u64) as u8)
    } else if bits == 32 {
        put_u32(mem, off, v as u32)
    } else {
        put_u64(mem, off, v)
    }
}

/// How one relocation kind acts.
#[derive(Debug, Clone, Copy, PartialEq, Eq, Structural)]
pub enum LaClass {
    Nothing,
    Data32,
    Data64,
    Pcrel32,
    Pcrel64,
    B26,
    Pcala,
    GotPc,
    PushPcrel,
    PushPltPcrel,
    PushAbsolute,
    PushDup,
    Sop,
    SopPop,
    AddSub { add: bool, bits: u32 },
    Unsupported,
}

/// The class of each kind.
pub open spec fn la_class(kind: Loongarch64RelocationType) -> LaClass {
    match kind {
        Loongarch64RelocationType::R_LARCH_NONE | Loongarch64RelocationType::R_LARCH_MARK_LA | Loongarch64RelocationType::R_LARCH_MARK_PCREL => LaClass::Nothing,
        Loongarch64RelocationType::R_LARCH_32 => LaClass::Data32,
        Loongarch64RelocationType::R_LARCH_64 => LaClass::Data64,
        Loongarch64RelocationType::R_LARCH_32_PCREL => LaClass::Pcrel32,
        Loongarch64RelocationType::R_LARCH_64_PCREL => LaClass::Pcrel64,
        Loongarch64RelocationType::R_LARCH_B26 => LaClass::B26,
        Loongarch64RelocationType::R_LARCH_PCALA_HI20 | Loongarch64RelocationType::R_LARCH_PCALA_LO12 | Loongarch64RelocationType::R_LARCH_PCALA64_LO20 | Loongarch64RelocationType::R_LARCH_PCALA64_HI12 => LaClass::Pcala,
        Loongarch64RelocationType::R_LARCH_GOT_PC_HI20 | Loongarch64RelocationType::R_LARCH_GOT_PC_LO12 => LaClass::GotPc,
        Loongarch64RelocationType::R_LARCH_SOP_PUSH_PCREL => LaClass::PushPcrel,
        Loongarch64RelocationType::R_LARCH_SOP_PUSH_PLT_PCREL => LaClass::PushPltPcrel,
        Loongarch64RelocationType::R_LARCH_SOP_PUSH_ABSOLUTE => LaClass::PushAbsolute,
        Loongarch64RelocationType::R_LARCH_SOP_PUSH_DUP => LaClass::PushDup,
        Loongarch64RelocationType::R_LARCH_SOP_SUB | Loongarch64RelocationType::R_LARCH_SOP_SL | Loongarch64RelocationType::R_LARCH_SOP_SR | Loongarch64RelocationType::R_LARCH_SOP_ADD | Loongarch64RelocationType::R_LARCH_SOP_AND | Loongarch64RelocationType::R_LARCH_SOP_IF_ELSE => LaClass::Sop,
        Loongarch64RelocationType::R_LARCH_SOP_POP_32_S_10_5 | Loongarch64RelocationType::R_LARCH_SOP_POP_32_U_10_12 | Loongarch64RelocationType::R_LARCH_SOP_POP_32_S_10_12 | Loongarch64RelocationType::R_LARCH_SOP_POP_32_S_10_16 | Loongarch64RelocationType::R_LARCH_SOP_POP_32_S_10_16_S2 | Loongarch64RelocationType::R_LARCH_SOP_POP_32_S_5_20 | Loongarch64RelocationType::R_LARCH_SOP_POP_32_S_0_5_10_16_S2 | Loongarch64RelocationType::R_LARCH_SOP_POP_32_S_0_10_10_16_S2 | Loongarch64RelocationType::R_LARCH_SOP_POP_32_U => LaClass::SopPop,
        Loongarch64RelocationType::R_LARCH_ADD32 => LaClass::AddSub { add: true, bits: 32 },
        Loongarch64RelocationType::R_LARCH_ADD64 => LaClass::AddSub { add: true, bits: 64 },
        Loongarch64RelocationType::R_LARCH_SUB8 => LaClass::AddSub { add: false, bits: 8 },
        Loongarch64RelocationType::R_LARCH_SUB16 => LaClass::AddSub { add: false, bits: 16 },
        Loongarch64RelocationType::R_LARCH_SUB24 => LaClass::AddSub { add: false, bits: 24 },
        Loongarch64RelocationType::R_LARCH_SUB32 => LaClass::AddSub { add: false, bits: 32 },
        Loongarch64RelocationType::R_LARCH_SUB64 => LaClass::AddSub { add: false, bits: 64 },
        _ => LaClass::Unsupported,
    }
}

/// Bytes that a relocation of this class reads or writes at its location.
pub open spec fn la_width(c: LaClass) -> int {
    match c {
        LaClass::Data32 | LaClass::Pcrel32 | LaClass::B26 | LaClass::Pcala | LaClass::SopPop => 4,
        LaClass::Data64 | LaClass::Pcrel64 => 8,
        LaClass::AddSub { bits, .. } => (bits / 8) as int,
        _ => 0,
    }
}

/// Whether an offset is beyond the ±128 MiB reach of a direct branch.
pub open spec fn out_of_branch_reach(o: i64) -> bool {
    o < -(SZ_128M as i64) || o >= SZ_128M as i64
}

/// A push whose result is the new state.
pub open spec fn push_state(mem: Seq<u8>, st: Seq<i64>, v: i64) -> Result<(Seq<u8>, Seq<i64>), RelocFailure> {
    match stack_push(st, v) {
        Ok(s) => Ok((mem, s)),
        Err(e) => Err(e),
    }
}

/// A stack operation: pops its operands, pushes its result.
pub open spec fn sop_state(kind: Loongarch64RelocationType, mem: Seq<u8>, st: Seq<i64>) -> Result<(Seq<u8>, Seq<i64>), RelocFailure> {
    let third = if kind == Loongarch64RelocationType::R_LARCH_SOP_IF_ELSE { stack_pop(st) } else { Ok((0i64, st)) };
    match third {
        Err(e) => Err(e),
        Ok((b3, s3)) => match stack_pop(s3) {
            Err(e) => Err(e),
            Ok((b2, s2)) => match stack_pop(s2) {
                Err(e) => Err(e),
                Ok((b1, s1)) => if kind == Loongarch64RelocationType::R_LARCH_SOP_IF_ELSE {
                    push_state(mem, s1, sop_result(kind, b1, b2, b3))
                } else {
                    push_state(mem, s1, sop_result(kind, 0, b1, b2))
                },
            },
        },
    }
}

/// The section image and expression stack after one relocation, or why it fails.
pub open spec fn la_step(kind: Loongarch64RelocationType, mem: Seq<u8>, st: Seq<i64>, off: int, location: u64, address: u64) -> Result<(Seq<u8>, Seq<i64>), RelocFailure> {
    let c = la_class(kind);
    if la_width(c) > 0 && off + la_width(c) > mem.len() {
        Err(RelocFailure::OutOfBounds)
    } else {
        match c {
            LaClass::Nothing => Ok((mem, st)),
            LaClass::Data32 => Ok((put_u32(mem, off, address as u32), st)),
            LaClass::Data64 => Ok((put_u64(mem, off, address), st)),
            LaClass::Pcrel32 => Ok((put_u32(mem, off, wsub(address, location) as u32), st)),
            LaClass::Pcrel64 => Ok((put_u64(mem, off, wsub(address, location)), st)),
            LaClass::B26 => match b26_insn(le_u32(mem, off), address, location) {
                Ok(i) => Ok((put_u32(mem, off, i), st)),
                Err(e) => Err(e),
            },
            LaClass::Pcala => Ok((put_u32(mem, off, pcala_insn(kind, le_u32(mem, off), address, location)), st)),
            LaClass::GotPc => Err(RelocFailure::Unsupported),
            LaClass::PushPcrel => push_state(mem, st, pcrel(address, location)),
            LaClass::PushPltPcrel => if out_of_branch_reach(pcrel(address, location)) {
                Err(RelocFailure::VeneerRequired)
            } else {
                push_state(mem, st, pcrel(address, location))
            },
            LaClass::PushAbsolute => push_state(mem, st, address as i64),
            LaClass::PushDup => match stack_pop(st) {
                Err(e) => Err(e),
                Ok((v, s1)) => match stack_push(s1, v) {
                    Err(e) => Err(e),
                    Ok(s2) => push_state(mem, s2, v),
                },
            },
            LaClass::Sop => sop_state(kind, mem, st),
            LaClass::SopPop => match stack_pop(st) {
                Err(e) => Err(e),
                Ok((v, s1)) => match sop_field(kind, le_u32(mem, off), v) {
                    Err(e) => Err(e),
                    Ok(i) => Ok((put_u32(mem, off, i), s1)),
                },
            },
            LaClass::AddSub { add, bits } => {
                let old = get_width(mem, off, bits);
                Ok((put_width(mem, off, bits, if add { wadd(old, address) } else { wsub(old, address) }), st))
            },
            LaClass::Unsupported => Err(RelocFailure::Unsupported),
        }
    }
}

impl Loongarch64RelocationType {
    /// The class of this kind.
    pub fn class(&self) -> (r: LaClass)
        ensures
            r == la_class(*self),
    {
        let kind = *self;
    match kind {
        Loongarch64RelocationType::R_LARCH_NONE | Loongarch64RelocationType::R_LARCH_MARK_LA | Loongarch64RelocationType::R_LARCH_MARK_PCREL => LaClass::Nothing,
        Loongarch64RelocationType::R_LARCH_32 => LaClass::Data32,
        Loongarch64RelocationType::R_LARCH_64 => LaClass::Data64,
        Loongarch64RelocationType::R_LARCH_32_PCREL => LaClass::Pcrel32,
        Loongarch64RelocationType::R_LARCH_64_PCREL => LaClass::Pcrel64,
        Loongarch64RelocationType::R_LARCH_B26 => LaClass::B26,
        Loongarch64RelocationType::R_LARCH_PCALA_HI20 | Loongarch64RelocationType::R_LARCH_PCALA_LO12 | Loongarch64RelocationType::R_LARCH_PCALA64_LO20 | Loongarch64RelocationType::R_LARCH_PCALA64_HI12 => LaClass::Pcala,
        Loongarch64RelocationType::R_LARCH_GOT_PC_HI20 | Loongarch64RelocationType::R_LARCH_GOT_PC_LO12 => LaClass::GotPc,
        Loongarch64RelocationType::R_LARCH_SOP_PUSH_PCREL => LaClass::PushPcrel,
        Loongarch64RelocationType::R_LARCH_SOP_PUSH_PLT_PCREL => LaClass::PushPltPcrel,
        Loongarch64RelocationType::R_LARCH_SOP_PUSH_ABSOLUTE => LaClass::PushAbsolute,
        Loongarch64RelocationType::R_LARCH_SOP_PUSH_DUP => LaClass::PushDup,
        Loongarch64RelocationType::R_LARCH_SOP_SUB | Loongarch64RelocationType::R_LARCH_SOP_SL | Loongarch64RelocationType::R_LARCH_SOP_SR | Loongarch64RelocationType::R_LARCH_SOP_ADD | Loongarch64RelocationType::R_LARCH_SOP_AND | Loongarch64RelocationType::R_LARCH_SOP_IF_ELSE => LaClass::Sop,
        Loongarch64RelocationType::R_LARCH_SOP_POP_32_S_10_5 | Loongarch64RelocationType::R_LARCH_SOP_POP_32_U_10_12 | Loongarch64RelocationType::R_LARCH_SOP_POP_32_S_10_12 | Loongarch64RelocationType::R_LARCH_SOP_POP_32_S_10_16 | Loongarch64RelocationType::R_LARCH_SOP_POP_32_S_10_16_S2 | Loongarch64RelocationType::R_LARCH_SOP_POP_32_S_5_20 | Loongarch64RelocationType::R_LARCH_SOP_POP_32_S_0_5_10_16_S2 | Loongarch64RelocationType::R_LARCH_SOP_POP_32_S_0_10_10_16_S2 | Loongarch64RelocationType::R_LARCH_SOP_POP_32_U => LaClass::SopPop,
        Loongarch64RelocationType::R_LARCH_ADD32 => LaClass::AddSub { add: true, bits: 32 },
        Loongarch64RelocationType::R_LARCH_ADD64 => LaClass::AddSub { add: true, bits: 64 },
        Loongarch64RelocationType::R_LARCH_SUB8 => LaClass::AddSub { add: false, bits: 8 },
        Loongarch64RelocationType::R_LARCH_SUB16 => LaClass::AddSub { add: false, bits: 16 },
        Loongarch64RelocationType::R_LARCH_SUB24 => LaClass::AddSub { add: false, bits: 24 },
        Loongarch64RelocationType::R_LARCH_SUB32 => LaClass::AddSub { add: false, bits: 32 },
        Loongarch64RelocationType::R_LARCH_SUB64 => LaClass::AddSub { add: false, bits: 64 },
        _ => LaClass::Unsupported,
    }
}

    /// A direct branch within ±128 MiB, four-byte aligned.
    pub fn apply_r_larch_b26(&self, mem: &mut Vec<u8>, off: usize, location: u64, address: u64) -> (r: Result<(), ModuleLoadErr>)
        requires
            la_class(*self) == LaClass::B26,
            off + la_width(la_class(*self)) <= old(mem)@.len(),
        ensures
            match la_step(*self, old(mem)@, Seq::empty(), off as int, location, address) {
                Ok((m, _)) => r is Ok && final(mem)@ == m,
                Err(e) => r == Err::<(), _>(ModuleLoadErr::RelocationFailed(e)),
            },
            r is Err ==> final(mem)@ == old(mem)@,
    {
        let o: i64 = #[verifier::truncate] (address.wrapping_sub(location) as i64);
        if o < -(SZ_128M as i64) || o >= SZ_128M as i64 {
            return Err(ModuleLoadErr::RelocationFailed(RelocFailure::VeneerRequired));
        }
        if (#[verifier::truncate] (o as u64)) & 3 != 0 {
            return Err(ModuleLoadErr::RelocationFailed(RelocFailure::Unaligned));
        }
        let insn = read_u32(mem, off);
        let imm: u32 = #[verifier::truncate] ((#[verifier::truncate] ((o >> 2u32) as u64)) as u32);
        write_u32(mem, off, reg0i26_format(insn, imm));
        Ok(())
    }

    /// One half of a PC-relative page pair, or one of its 64-bit extensions.
    pub fn apply_r_larch_pcala(&self, mem: &mut Vec<u8>, off: usize, location: u64, address: u64) -> (r: Result<(), ModuleLoadErr>)
        requires
            la_class(*self) == LaClass::Pcala,
            off + la_width(la_class(*self)) <= old(mem)@.len(),
        ensures
            match la_step(*self, old(mem)@, Seq::empty(), off as int, location, address) {
                Ok((m, _)) => r is Ok && final(mem)@ == m,
                Err(e) => r == Err::<(), _>(ModuleLoadErr::RelocationFailed(e)),
            },
            r is Err ==> final(mem)@ == old(mem)@,
    {
        let insn = read_u32(mem, off);
        let left = address.wrapping_add(0x800) & !0xfffu64;
        let right = location & !0xfffu64;
        let diff = left.wrapping_sub(right);
        // Sign-extend deliberately from 32 bits.
        let hi: u64 = #[verifier::truncate] ((#[verifier::truncate] ((#[verifier::truncate] (diff as u32)) as i32)) as i64 as u64);
        let anchor = right.wrapping_add(hi);
        let rem = address.wrapping_sub(anchor);
        let new_insn = match self {
            Loongarch64RelocationType::R_LARCH_PCALA_LO12 => reg2i12_format(insn, #[verifier::truncate] ((address & 0xfff) as u32)),
            Loongarch64RelocationType::R_LARCH_PCALA_HI20 => {
                let page: u64 = #[verifier::truncate] (((#[verifier::truncate] (hi as i64)) >> 12u32) as u64);
                reg1i20_format(insn, #[verifier::truncate] ((page & 0xfffff) as u32))
            },
            Loongarch64RelocationType::R_LARCH_PCALA64_LO20 => reg1i20_format(insn, #[verifier::truncate] (((rem >> 32u64) & 0xfffff) as u32)),
            _ => reg2i12_format(insn, #[verifier::truncate] (((rem >> 52u64) & 0xfff) as u32)),
        };
        write_u32(mem, off, new_insn);
        Ok(())
    }

    /// A 32-bit PC-relative data word.
    pub fn apply_r_larch_32_pcrel(&self, mem: &mut Vec<u8>, off: usize, location: u64, address: u64) -> (r: Result<(), ModuleLoadErr>)
        requires
            la_class(*self) == LaClass::Pcrel32,
            off + la_width(la_class(*self)) <= old(mem)@.len(),
        ensures
            match la_step(*self, old(mem)@, Seq::empty(), off as int, location, address) {
                Ok((m, _)) => r is Ok && final(mem)@ == m,
                Err(e) => r == Err::<(), _>(ModuleLoadErr::RelocationFailed(e)),
            },
            r is Err ==> final(mem)@ == old(mem)@,
    {
        write_u32(mem, off, #[verifier::truncate] (address.wrapping_sub(location) as u32));
        Ok(())
    }

    /// A 64-bit PC-relative data word.
    pub fn apply_r_larch_64_pcrel(&self, mem: &mut Vec<u8>, off: usize, location: u64, address: u64) -> (r: Result<(), ModuleLoadErr>)
        requires
            la_class(*self) == LaClass::Pcrel64,
            off + la_width(la_class(*self)) <= old(mem)@.len(),
        ensures
            match la_step(*self, old(mem)@, Seq::empty(), off as int, location, address) {
                Ok((m, _)) => r is Ok && final(mem)@ == m,
                Err(e) => r == Err::<(), _>(ModuleLoadErr::RelocationFailed(e)),
            },
            r is Err ==> final(mem)@ == old(mem)@,
    {
        write_u64(mem, off, address.wrapping_sub(location));
        Ok(())
    }

    /// GOT-relative pairs need a GOT, which this loader does not build.
    pub fn apply_r_larch_got_pc(&self, mem: &mut Vec<u8>, off: usize, location: u64, address: u64) -> (r: Result<(), ModuleLoadErr>)
        requires
            la_class(*self) == LaClass::GotPc,
        ensures
            match la_step(*self, old(mem)@, Seq::empty(), off as int, location, address) {
                Ok((m, _)) => r is Ok && final(mem)@ == m,
                Err(e) => r == Err::<(), _>(ModuleLoadErr::RelocationFailed(e)),
            },
            r is Err ==> final(mem)@ == old(mem)@,
    {
        Err(ModuleLoadErr::RelocationFailed(RelocFailure::Unsupported))
    }

    /// Pushes S + A - P, which must be within reach of a direct branch.
    pub fn apply_r_larch_sop_push_plt_pcrel(&self, mem: &mut Vec<u8>, off: usize, location: u64, address: u64, rela_stack: &mut Vec<i64>) -> (r: Result<(), ModuleLoadErr>)
        requires
            la_class(*self) == LaClass::PushPltPcrel,
        ensures
            match la_step(*self, old(mem)@, old(rela_stack)@, off as int, location, address) {
                Ok((m, st)) => r is Ok && final(mem)@ == m && final(rela_stack)@ == st,
                Err(e) => r == Err::<(), _>(ModuleLoadErr::RelocationFailed(e)),
            },
            r is Err ==> final(mem)@ == old(mem)@,
    {
        let o: i64 = #[verifier::truncate] (address.wrapping_sub(location) as i64);
        if o < -(SZ_128M as i64) || o >= SZ_128M as i64 {
            return Err(ModuleLoadErr::RelocationFailed(RelocFailure::VeneerRequired));
        }
        rela_stack_push(rela_stack, o)
    }

    /// Pushes S + A - P.
    pub fn apply_r_larch_sop_push_pcrel(&self, mem: &mut Vec<u8>, off: usize, location: u64, address: u64, rela_stack: &mut Vec<i64>) -> (r: Result<(), ModuleLoadErr>)
        requires
            la_class(*self) == LaClass::PushPcrel,
        ensures
            match la_step(*self, old(mem)@, old(rela_stack)@, off as int, location, address) {
                Ok((m, st)) => r is Ok && final(mem)@ == m && final(rela_stack)@ == st,
                Err(e) => r == Err::<(), _>(ModuleLoadErr::RelocationFailed(e)),
            },
            r is Err ==> final(mem)@ == old(mem)@,
    {
        rela_stack_push(rela_stack, #[verifier::truncate] (address.wrapping_sub(location) as i64))
    }

    /// Pushes S + A.
    pub fn apply_r_larch_sop_push_absolute(&self, mem: &mut Vec<u8>, off: usize, location: u64, address: u64, rela_stack: &mut Vec<i64>) -> (r: Result<(), ModuleLoadErr>)
        requires
            la_class(*self) == LaClass::PushAbsolute,
        ensures
            match la_step(*self, old(mem)@, old(rela_stack)@, off as int, location, address) {
                Ok((m, st)) => r is Ok && final(mem)@ == m && final(rela_stack)@ == st,
                Err(e) => r == Err::<(), _>(ModuleLoadErr::RelocationFailed(e)),
            },
            r is Err ==> final(mem)@ == old(mem)@,
    {
        rela_stack_push(rela_stack, #[verifier::truncate] (address as i64))
    }

    /// Duplicates the top of the stack.
    pub fn apply_r_larch_sop_push_dup(&self, mem: &mut Vec<u8>, off: usize, location: u64, address: u64, rela_stack: &mut Vec<i64>) -> (r: Result<(), ModuleLoadErr>)
        requires
            la_class(*self) == LaClass::PushDup,
        ensures
            match la_step(*self, old(mem)@, old(rela_stack)@, off as int, location, address) {
                Ok((m, st)) => r is Ok && final(mem)@ == m && final(rela_stack)@ == st,
                Err(e) => r == Err::<(), _>(ModuleLoadErr::RelocationFailed(e)),
            },
            r is Err ==> final(mem)@ == old(mem)@,
    {
        let opr1 = match rela_stack_pop(rela_stack) {
            Ok(v) => v,
            Err(e) => return Err(e),
        };
        match rela_stack_push(rela_stack, opr1) {
            Ok(()) => {},
            Err(e) => return Err(e),
        }
        rela_stack_push(rela_stack, opr1)
    }

    /// A binary operation, or the ternary `IF_ELSE`, on the stack.
    pub fn apply_r_larch_sop(&self, mem: &mut Vec<u8>, off: usize, location: u64, address: u64, rela_stack: &mut Vec<i64>) -> (r: Result<(), ModuleLoadErr>)
        requires
            la_class(*self) == LaClass::Sop,
        ensures
            match la_step(*self, old(mem)@, old(rela_stack)@, off as int, location, address) {
                Ok((m, st)) => r is Ok && final(mem)@ == m && final(rela_stack)@ == st,
                Err(e) => r == Err::<(), _>(ModuleLoadErr::RelocationFailed(e)),
            },
            r is Err ==> final(mem)@ == old(mem)@,
    {
        let mut opr3: i64 = 0;
        if *self == Loongarch64RelocationType::R_LARCH_SOP_IF_ELSE {
            opr3 = match rela_stack_pop(rela_stack) {
                Ok(v) => v,
                Err(e) => return Err(e),
            };
        }
        let opr2 = match rela_stack_pop(rela_stack) {
            Ok(v) => v,
            Err(e) => return Err(e),
        };
        let opr1 = match rela_stack_pop(rela_stack) {
            Ok(v) => v,
            Err(e) => return Err(e),
        };
        let result: i64 = match self {
            Loongarch64RelocationType::R_LARCH_SOP_AND => opr1 & opr2,
            Loongarch64RelocationType::R_LARCH_SOP_ADD => opr1.wrapping_add(opr2),
            Loongarch64RelocationType::R_LARCH_SOP_SUB => opr1.wrapping_sub(opr2),
            Loongarch64RelocationType::R_LARCH_SOP_SL => {
                let sh = (#[verifier::truncate] (opr2 as u64)) % 64;
                #[verifier::truncate] (((#[verifier::truncate] (opr1 as u64)) << sh) as i64)
            },
            Loongarch64RelocationType::R_LARCH_SOP_SR => {
                let sh = (#[verifier::truncate] (opr2 as u64)) % 64;
                #[verifier::truncate] (((#[verifier::truncate] (opr1 as u64)) >> sh) as i64)
            },
            _ => if opr1 != 0 { opr2 } else { opr3 },
        };
        rela_stack_push(rela_stack, result)
    }

    /// Pops a value into the immediate field named by the kind.
    pub fn apply_r_larch_sop_imm_field(&self, mem: &mut Vec<u8>, off: usize, location: u64, address: u64, rela_stack: &mut Vec<i64>) -> (r: Result<(), ModuleLoadErr>)
        requires
            la_class(*self) == LaClass::SopPop,
            off + la_width(la_class(*self)) <= old(mem)@.len(),
        ensures
            match la_step(*self, old(mem)@, old(rela_stack)@, off as int, location, address) {
                Ok((m, st)) => r is Ok && final(mem)@ == m && final(rela_stack)@ == st,
                Err(e) => r == Err::<(), _>(ModuleLoadErr::RelocationFailed(e)),
            },
            r is Err ==> final(mem)@ == old(mem)@,
            r is Err ==> final(rela_stack)@ == if old(rela_stack)@.len() > 0 { old(rela_stack)@.drop_last() } else { old(rela_stack)@ },
    {
        let opr1 = match rela_stack_pop(rela_stack) {
            Ok(v) => v,
            Err(e) => return Err(e),
        };
        let insn = read_u32(mem, off);
        let bits: u64 = #[verifier::truncate] (opr1 as u64);
        let low: u32 = #[verifier::truncate] (opr1 as u32);
        let quarter: u32 = #[verifier::truncate] ((opr1 >> 2u32) as u32);
        let overflow = Err(ModuleLoadErr::RelocationFailed(RelocFailure::Overflow));
        let unaligned = Err(ModuleLoadErr::RelocationFailed(RelocFailure::Unaligned));
        let new_insn = match self {
            Loongarch64RelocationType::R_LARCH_SOP_POP_32_S_10_5 => {
                if !signed_imm_check(opr1, 5) {
                    return overflow;
                }
                reg2i5_format(insn, low)
            },
            Loongarch64RelocationType::R_LARCH_SOP_POP_32_U_10_12 => {
                if !unsigned_imm_check(bits, 12) {
                    return overflow;
                }
                reg2i12_format(insn, low)
            },
            Loongarch64RelocationType::R_LARCH_SOP_POP_32_S_10_12 => {
                if !signed_imm_check(opr1, 12) {
                    return overflow;
                }
                reg2i12_format(insn, low)
            },
            Loongarch64RelocationType::R_LARCH_SOP_POP_32_S_10_16 => {
                if !signed_imm_check(opr1, 16) {
                    return overflow;
                }
                reg2i16_format(insn, low)
            },
            Loongarch64RelocationType::R_LARCH_SOP_POP_32_S_10_16_S2 => {
                if bits & 3 != 0 {
                    return unaligned;
                }
                if !signed_imm_check(opr1, 18) {
                    return overflow;
                }
                reg2i16_format(insn, quarter)
            },
            Loongarch64RelocationType::R_LARCH_SOP_POP_32_S_5_20 => {
                if !signed_imm_check(opr1, 20) {
                    return overflow;
                }
                reg1i20_format(insn, low)
            },
            Loongarch64RelocationType::R_LARCH_SOP_POP_32_S_0_5_10_16_S2 => {
                if bits & 3 != 0 {
                    return unaligned;
                }
                if !signed_imm_check(opr1, 23) {
                    return overflow;
                }
                reg1i21_format(insn, quarter)
            },
            Loongarch64RelocationType::R_LARCH_SOP_POP_32_S_0_10_10_16_S2 => {
                if bits & 3 != 0 {
                    return unaligned;
                }
                if !signed_imm_check(opr1, 28) {
                    return overflow;
                }
                reg0i26_format(insn, quarter)
            },
            _ => {
                if !unsigned_imm_check(bits, 12) {
                    return overflow;
                }
                reg2i12_format(insn, low)
            },
        };
        write_u32(mem, off, new_insn);
        Ok(())
    }

    /// Adds S + A to, or subtracts it from, the value in place at its natural width.
    pub fn apply_r_larch_add_sub(&self, mem: &mut Vec<u8>, off: usize, location: u64, address: u64) -> (r: Result<(), ModuleLoadErr>)
        requires
            la_class(*self) is AddSub,
            off + la_width(la_class(*self)) <= old(mem)@.len(),
        ensures
            match la_step(*self, old(mem)@, Seq::empty(), off as int, location, address) {
                Ok((m, _)) => r is Ok && final(mem)@ == m,
                Err(e) => r == Err::<(), _>(ModuleLoadErr::RelocationFailed(e)),
            },
            r is Err ==> final(mem)@ == old(mem)@,
    {
        let _len = mem.len();
        let (add, bits) = match self.class() {
            LaClass::AddSub { add, bits } => (add, bits),
            _ => (true, 64),
        };
        let old: u64 = if bits == 8 {
            mem[off] as u64
        } else if bits == 16 {
            read_u16(mem, off) as u64
        } else if bits == 24 {
            (read_u16(mem, off) as u64) | ((mem[off + 2] as u64) << 16u64)
        } else if bits == 32 {
            read_u32(mem, off) as u64
        } else {
            read_u64(mem, off)
        };
        let v = if add { old.wrapping_add(address) } else { old.wrapping_sub(address) };
        if bits == 8 {
            mem.set(off, #[verifier::truncate] (v as u8));
        } else if bits == 16 {
            write_u16(mem, off, #[verifier::truncate] (v as u16));
        } else if bits == 24 {
            write_u16(mem, off, #[verifier::truncate] (v as u16));
            mem.set(off + 2, #[verifier::truncate] ((v >> 16u64) as u8));
        } else if bits == 32 {
            write_u32(mem, off, #[verifier::truncate] (v as u32));
        } else {
            write_u64(mem, off, v);
        }
        Ok(())
    }

    pub fn apply_r_larch_none(&self, mem: &mut Vec<u8>, off: usize, location: u64, address: u64) -> (r: Result<(), ModuleLoadErr>)
        requires
            la_class(*self) == LaClass::Nothing,
        ensures
            match la_step(*self, old(mem)@, Seq::empty(), off as int, location, address) {
                Ok((m, _)) => r is Ok && final(mem)@ == m,
                Err(e) => r == Err::<(), _>(ModuleLoadErr::RelocationFailed(e)),
            },
            r is Err ==> final(mem)@ == old(mem)@,
    {
        Ok(())
    }

    /// Stores the low 32 bits of S + A.
    pub fn apply_r_larch_32(&self, mem: &mut Vec<u8>, off: usize, location: u64, address: u64) -> (r: Result<(), ModuleLoadErr>)
        requires
            la_class(*self) == LaClass::Data32,
            off + la_width(la_class(*self)) <= old(mem)@.len(),
        ensures
            match la_step(*self, old(mem)@, Seq::empty(), off as int, location, address) {
                Ok((m, _)) => r is Ok && final(mem)@ == m,
                Err(e) => r == Err::<(), _>(ModuleLoadErr::RelocationFailed(e)),
            },
            r is Err ==> final(mem)@ == old(mem)@,
    {
        write_u32(mem, off, #[verifier::truncate] (address as u32));
        Ok(())
    }

    /// Stores S + A.
    pub fn apply_r_larch_64(&self, mem: &mut Vec<u8>, off: usize, location: u64, address: u64) -> (r: Result<(), ModuleLoadErr>)
        requires
            la_class(*self) == LaClass::Data64,
            off + la_width(la_class(*self)) <= old(mem)@.len(),
        ensures
            match la_step(*self, old(mem)@, Seq::empty(), off as int, location, address) {
                Ok((m, _)) => r is Ok && final(mem)@ == m,
                Err(e) => r == Err::<(), _>(ModuleLoadErr::RelocationFailed(e)),
            },
            r is Err ==> final(mem)@ == old(mem)@,
    {
        write_u64(mem, off, address);
        Ok(())
    }
}

impl Loongarch64RelocationType {
    /// Applies this relocation to the section image `mem` at byte `off`, whose
    /// runtime address is `location`, with the section's expression stack;
    /// `address` is S + A.
    pub fn apply_relocation(&self, mem: &mut Vec<u8>, off: usize, location: u64, address: u64, rela_stack: &mut Vec<i64>) -> (r: Result<(), ModuleLoadErr>)
        ensures
            match la_step(*self, old(mem)@, old(rela_stack)@, off as int, location, address) {
                Ok((m, st)) => r is Ok && final(mem)@ == m && final(rela_stack)@ == st,
                Err(e) => r == Err::<(), _>(ModuleLoadErr::RelocationFailed(e)),
            },
            r is Err ==> final(mem)@ == old(mem)@,
    {
        let c = self.class();
        let width: usize = match c {
            LaClass::Data32 | LaClass::Pcrel32 | LaClass::B26 | LaClass::Pcala | LaClass::SopPop => 4,
            LaClass::Data64 | LaClass::Pcrel64 => 8,
            LaClass::AddSub { bits, .. } => (bits / 8) as usize,
            _ => 0,
        };
        assert(width == la_width(c));
        if width > 0 && (off > mem.len() || width > mem.len() - off) {
            return Err(ModuleLoadErr::RelocationFailed(RelocFailure::OutOfBounds));
        }
        match c {
            LaClass::Nothing => self.apply_r_larch_none(mem, off, location, address),
            LaClass::Data32 => self.apply_r_larch_32(mem, off, location, address),
            LaClass::Data64 => self.apply_r_larch_64(mem, off, location, address),
            LaClass::Pcrel32 => self.apply_r_larch_32_pcrel(mem, off, location, address),
            LaClass::Pcrel64 => self.apply_r_larch_64_pcrel(mem, off, location, address),
            LaClass::B26 => self.apply_r_larch_b26(mem, off, location, address),
            LaClass::Pcala => self.apply_r_larch_pcala(mem, off, location, address),
            LaClass::GotPc => self.apply_r_larch_got_pc(mem, off, location, address),
            LaClass::PushPcrel => self.apply_r_larch_sop_push_pcrel(mem, off, location, address, rela_stack),
            LaClass::PushPltPcrel => self.apply_r_larch_sop_push_plt_pcrel(mem, off, location, address, rela_stack),
            LaClass::PushAbsolute => self.apply_r_larch_sop_push_absolute(mem, off, location, address, rela_stack),
            LaClass::PushDup => self.apply_r_larch_sop_push_dup(mem, off, location, address, rela_stack),
            LaClass::Sop => self.apply_r_larch_sop(mem, off, location, address, rela_stack),
            LaClass::SopPop => self.apply_r_larch_sop_imm_field(mem, off, location, address, rela_stack),
            LaClass::AddSub { .. } => self.apply_r_larch_add_sub(mem, off, location, address),
            LaClass::Unsupported => Err(ModuleLoadErr::RelocationFailed(RelocFailure::Unsupported)),
        }
    }
}

/// One rela entry applied to the image and stack of the section at `base`,
/// with `syms` the final symbol values.
pub open spec fn la_rela_step(rela: Rela, mem: Seq<u8>, st: Seq<i64>, base: u64, syms: Seq<u64>) -> Result<(Seq<u8>, Seq<i64>), RelocFailure> {
    match Loongarch64RelocationType::from_code(rela_kind(rela.r_info)) {
        None => Err(RelocFailure::UnknownType),
        Some(kind) => if rela_symbol(rela.r_info) >= syms.len() {
            Err(RelocFailure::BadSymbolIndex)
        } else if rela.r_offset >= mem.len() {
            Err(RelocFailure::OutOfBounds)
        } else {
            la_step(
                kind,
                mem,
                st,
                rela.r_offset as int,
                wadd(base, rela.r_offset),
                wadd(syms[rela_symbol(rela.r_info) as int], rela.r_addend as u64),
            )
        },
    }
}

/// The first `n` entries of `relas` applied in order, from an empty stack.
pub open spec fn la_run(relas: Seq<Rela>, n: nat, mem: Seq<u8>, base: u64, syms: Seq<u64>) -> Result<(Seq<u8>, Seq<i64>), RelocFailure>
    decreases n,
{
    if n == 0 || n > relas.len() {
        Ok((mem, Seq::empty()))
    } else {
        match la_run(relas, (n - 1) as nat, mem, base, syms) {
            Err(e) => Err(e),
            Ok((m, st)) => la_rela_step(relas[n - 1], m, st, base, syms),
        }
    }
}

/// The image that a run left, if it did not fail.
pub open spec fn run_image(r: Result<(Seq<u8>, Seq<i64>), RelocFailure>) -> Option<Seq<u8>> {
    match r {
        Ok((m, _)) => Some(m),
        Err(_) => None,
    }
}

/// A whole section: the run must also leave the stack empty.
pub open spec fn la_section(relas: Seq<Rela>, mem: Seq<u8>, base: u64, syms: Seq<u64>) -> Result<Seq<u8>, RelocFailure> {
    match la_run(relas, relas.len(), mem, base, syms) {
        Err(e) => Err(e),
        Ok((m, st)) => if st.len() == 0 {
            Ok(m)
        } else {
            Err(RelocFailure::StackNotEmpty)
        },
    }
}

/// Once a run has failed, running further entries keeps the same failure.
proof fn lemma_la_run_stops(relas: Seq<Rela>, n: nat, m: nat, mem: Seq<u8>, base: u64, syms: Seq<u64>)
    requires
        n <= m <= relas.len(),
        la_run(relas, n, mem, base, syms) is Err,
    ensures
        la_run(relas, m, mem, base, syms) == la_run(relas, n, mem, base, syms),
    decreases m - n,
{
    if m > n {
        lemma_la_run_stops(relas, n, (m - 1) as nat, mem, base, syms);
    }
}

pub struct Loongarch64ArchRelocate;

impl Loongarch64ArchRelocate {
    /// Applies every entry of a relocation section, in order, to `mem`, the
    /// image of the section at runtime address `base`, with a fresh expression
    /// stack; stops at the first failure, and fails if the stack is left non-empty.
    pub fn apply_relocate_add(relas: &Vec<Rela>, mem: &mut Vec<u8>, base: u64, syms: &Vec<u64>) -> (r: Result<(), ModuleLoadErr>)
        ensures
            match la_section(relas@, old(mem)@, base, syms@) {
                Ok(m) => r is Ok && final(mem)@ == m,
                Err(e) => r == Err::<(), _>(ModuleLoadErr::RelocationFailed(e)) && (
                    run_image(la_run(relas@, relas@.len(), old(mem)@, base, syms@)) == Some(final(mem)@)
                    || exists|k: nat| k < relas@.len() && run_image(#[trigger] la_run(relas@, k, old(mem)@, base, syms@)) == Some(final(mem)@)
                        && la_run(relas@, k + 1, old(mem)@, base, syms@) == Err::<(Seq<u8>, Seq<i64>), RelocFailure>(e)),
            },
    {
        let mut rela_stack: Vec<i64> = Vec::new();
        let mut i: usize = 0;
        while i < relas.len()
            invariant
                i <= relas@.len(),
                la_run(relas@, i as nat, old(mem)@, base, syms@) == Ok::<_, RelocFailure>((mem@, rela_stack@)),
            decreases relas@.len() - i,
        {
            let rela = relas[i];
            let kind = match Loongarch64RelocationType::from_u32(get_rela_type(rela.r_info)) {
                Some(k) => k,
                None => {
                    proof {
                        lemma_la_run_stops(relas@, (i + 1) as nat, relas@.len(), old(mem)@, base, syms@);
                    assert(run_image(la_run(relas@, i as nat, old(mem)@, base, syms@)) == Some(mem@));
                    }
                    return Err(ModuleLoadErr::RelocationFailed(RelocFailure::UnknownType));
                },
            };
            let sym = get_rela_sym_idx(rela.r_info);
            if sym >= syms.len() as u64 {
                proof {
                    lemma_la_run_stops(relas@, (i + 1) as nat, relas@.len(), old(mem)@, base, syms@);
                    assert(run_image(la_run(relas@, i as nat, old(mem)@, base, syms@)) == Some(mem@));
                }
                return Err(ModuleLoadErr::RelocationFailed(RelocFailure::BadSymbolIndex));
            }
            if rela.r_offset >= mem.len() as u64 {
                proof {
                    lemma_la_run_stops(relas@, (i + 1) as nat, relas@.len(), old(mem)@, base, syms@);
                    assert(run_image(la_run(relas@, i as nat, old(mem)@, base, syms@)) == Some(mem@));
                }
                return Err(ModuleLoadErr::RelocationFailed(RelocFailure::OutOfBounds));
            }
            let location = base.wrapping_add(rela.r_offset);
            let target = syms[sym as usize].wrapping_add(#[verifier::truncate] (rela.r_addend as u64));
            assert(run_image(la_run(relas@, i as nat, old(mem)@, base, syms@)) == Some(mem@));
            let res = kind.apply_relocation(mem, rela.r_offset as usize, location, target, &mut rela_stack);
            if res.is_err() {
                proof {
                    lemma_la_run_stops(relas@, (i + 1) as nat, relas@.len(), old(mem)@, base, syms@);
                    assert(run_image(la_run(relas@, i as nat, old(mem)@, base, syms@)) == Some(mem@));
                }
                return res;
            }
            i += 1;
        }
        if rela_stack.len() != 0 {
            return Err(ModuleLoadErr::RelocationFailed(RelocFailure::StackNotEmpty));
        }
        Ok(())
    }
}

} // verus!
