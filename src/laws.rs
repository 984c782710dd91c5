//! Laws of the relocation engines, stated over their specifications.
use vstd::prelude::*;
use crate::aarch64::{encode_imm, imm_shift_mask, movw_insn, Aarch64InsnImmType, imm_bits, imm_overflow, low_mask, shifted, Aarch64Action, Aarch64RelocOp, Aarch64RelocationType, a64_step, aarch64_action, do_reloc_spec};
use crate::loongarch64::{reg0i26, reg1i20, reg1i21, reg2i16, reg2i5, b26_insn, Loongarch64RelocationType, la_class, la_step, pcala_hi, pcala_insn, pcala_rem, pcrel, reg2i12, sop_field, LaClass};
use crate::mem::{le_u32, lemma_u32_round_trip, wadd, wsub};
use crate::x86_64::{X86_64RelocationType, x86_step, x86_value};
use crate::RelocFailure;

verus! {

/// `R_X86_64_32S` accepts exactly the results in [-2^31, 2^31), read as
/// signed 64-bit numbers, and `R_X86_64_32` exactly those in [0, 2^32).
pub proof fn lemma_x86_32_ranges(location: u64, target: u64)
    ensures
        x86_value(X86_64RelocationType::R_X86_64_32S, location, target) is Ok <==> -0x8000_0000 <= target as i64 && (target as i64) < 0x8000_0000,
        x86_value(X86_64RelocationType::R_X86_64_32, location, target) is Ok <==> (target as int) < 0x1_0000_0000,
        !(-0x8000_0000 <= target as i64 && (target as i64) < 0x8000_0000) ==> x86_value(X86_64RelocationType::R_X86_64_32S, location, target) == Err::<(nat, u64), _>(RelocFailure::Overflow),
        (target as int) >= 0x1_0000_0000 ==> x86_value(X86_64RelocationType::R_X86_64_32, location, target) == Err::<(nat, u64), _>(RelocFailure::Overflow),
{
    assert((target < 0x8000_0000 || target >= 0xffff_ffff_8000_0000) <==> (-0x8000_0000 <= target as i64 && (target as i64) < 0x8000_0000)) by (bit_vector);
}

/// The word that a successful `R_X86_64_32S` stores reads back,
/// sign-extended, as the relocation result.
pub proof fn lemma_x86_32s_round_trip(mem: Seq<u8>, off: int, location: u64, target: u64)
    requires
        0 <= off,
        x86_step(X86_64RelocationType::R_X86_64_32S, mem, off, location, target) is Ok,
    ensures
        x86_step(X86_64RelocationType::R_X86_64_32S, mem, off, location, target) matches Ok(m)
            && ((le_u32(m, off) as i32) as i64) == target as i64,
{
    lemma_u32_round_trip(mem, off, target as u32);
    assert((target < 0x8000_0000 || target >= 0xffff_ffff_8000_0000) ==> ((target as u32) as i32) as i64 == target as i64) by (bit_vector);
}

/// AArch64 kinds whose result is measured from the place.
pub open spec fn a64_pc_relative(kind: Aarch64RelocationType) -> bool {
    match aarch64_action(kind) {
        Aarch64Action::Data { op, .. } => op == Aarch64RelocOp::RELOC_OP_PREL,
        Aarch64Action::Movw { op, .. } => op == Aarch64RelocOp::RELOC_OP_PREL,
        Aarch64Action::Imm { op, .. } => op == Aarch64RelocOp::RELOC_OP_PREL,
        Aarch64Action::Adrp { .. } => true,
        _ => false,
    }
}

proof fn lemma_wrapping_shift(a: u64, l: u64, k: u64)
    ensures
        wsub(wadd(a, k), wadd(l, k)) == wsub(a, l),
{
}

proof fn lemma_page_shift(a: u64, l: u64, k: u64)
    requires
        k & 0xfff == 0,
    ensures
        wsub(wadd(a, k) & !0xfffu64, wadd(l, k) & !0xfffu64) == wsub(a & !0xfffu64, l & !0xfffu64),
{
    let ak = wadd(a, k);
    let lk = wadd(l, k);
    assert(ak == a.wrapping_add(k) && lk == l.wrapping_add(k));
    assert((a.wrapping_add(k) & !0xfffu64) == (a & !0xfffu64).wrapping_add(k)) by (bit_vector)
        requires
            k & 0xfff == 0,
    ;
    assert((l.wrapping_add(k) & !0xfffu64) == (l & !0xfffu64).wrapping_add(k)) by (bit_vector)
        requires
            k & 0xfff == 0,
    ;
    lemma_wrapping_shift(a & !0xfffu64, l & !0xfffu64, k);
}

/// Moving both the place and the target of a PC-relative AArch64 relocation
/// by the same amount `k` changes nothing it writes; for the page kinds `k`
/// must be a whole number of pages.
pub proof fn lemma_aarch64_shift_invariance(kind: Aarch64RelocationType, mem: Seq<u8>, off: int, location: u64, address: u64, k: u64)
    requires
        a64_pc_relative(kind),
        aarch64_action(kind) is Adrp ==> k & 0xfff == 0,
    ensures
        a64_step(kind, mem, off, wadd(location, k), wadd(address, k)) == a64_step(kind, mem, off, location, address),
{
    lemma_wrapping_shift(address, location, k);
    assert(do_reloc_spec(Aarch64RelocOp::RELOC_OP_PREL, wadd(location, k), wadd(address, k)) == do_reloc_spec(Aarch64RelocOp::RELOC_OP_PREL, location, address));
    if aarch64_action(kind) is Adrp {
        lemma_page_shift(address, location, k);
        assert(do_reloc_spec(Aarch64RelocOp::RELOC_OP_PAGE, wadd(location, k), wadd(address, k)) == do_reloc_spec(Aarch64RelocOp::RELOC_OP_PAGE, location, address));
    }
}

/// LoongArch kinds whose result is measured from the place.
pub open spec fn la_pc_relative(kind: Loongarch64RelocationType) -> bool {
    match la_class(kind) {
        LaClass::Pcrel32 | LaClass::Pcrel64 | LaClass::B26 | LaClass::Pcala | LaClass::PushPcrel | LaClass::PushPltPcrel => true,
        _ => false,
    }
}

/// Moving both the place and the target of a PC-relative LoongArch
/// relocation by the same amount `k` changes nothing it writes or pushes;
/// for the `PCALA` page pairs `k` must be a whole number of pages.
pub proof fn lemma_loongarch_shift_invariance(kind: Loongarch64RelocationType, mem: Seq<u8>, st: Seq<i64>, off: int, location: u64, address: u64, k: u64)
    requires
        la_pc_relative(kind),
        la_class(kind) == LaClass::Pcala ==> k & 0xfff == 0,
    ensures
        la_step(kind, mem, st, off, wadd(location, k), wadd(address, k)) == la_step(kind, mem, st, off, location, address),
{
    lemma_wrapping_shift(address, location, k);
    assert(pcrel(wadd(address, k), wadd(location, k)) == pcrel(address, location));
    if la_class(kind) == LaClass::Pcala {
        let a = address;
        let l = location;
        assert(wadd(wadd(a, k), 0x800) == wadd(wadd(a, 0x800), k));
        lemma_page_shift(wadd(a, 0x800), l, k);
        assert(pcala_hi(wadd(a, k), wadd(l, k)) == pcala_hi(a, l));
        let h = pcala_hi(a, l);
        assert(wadd(l, k) & !0xfffu64 == (l & !0xfffu64).wrapping_add(k)) by (bit_vector)
            requires
                k & 0xfff == 0,
        ;
        assert(wadd(a, k) == a.wrapping_add(k));
        assert(wsub(a.wrapping_add(k), wadd((l & !0xfffu64).wrapping_add(k), h)) == wsub(a, wadd(l & !0xfffu64, h)));
        assert(pcala_rem(wadd(a, k), wadd(l, k)) == pcala_rem(a, l));
        assert((a.wrapping_add(k) & 0xfff) == (a & 0xfff)) by (bit_vector)
            requires
                k & 0xfff == 0,
        ;
        assert forall|insn: u32| pcala_insn(kind, insn, wadd(a, k), wadd(l, k)) == pcala_insn(kind, insn, a, l) by {}
    }
}

/// `SOP_POP_32_S_10_12` fails exactly on values outside [-2^11, 2^11), and
/// what it stores in bits 21:10 reads back, sign-extended, as the value.
pub proof fn lemma_sop_s_10_12(insn: u32, v: i64)
    ensures
        sop_field(Loongarch64RelocationType::R_LARCH_SOP_POP_32_S_10_12, insn, v) is Err <==> !(-2048 <= v && v < 2048),
        -2048 <= v && v < 2048 ==> sop_field(Loongarch64RelocationType::R_LARCH_SOP_POP_32_S_10_12, insn, v) == Ok::<u32, RelocFailure>(reg2i12(insn, v as u32)),
        -2048 <= v && v < 2048 ==> {
            let f = (reg2i12(insn, v as u32) >> 10u32) & 0xfff;
            (if f >= 0x800 { f as int - 0x1000 } else { f as int }) == v
        },
{
    assert((1i64 << 11u32) == 2048) by (bit_vector);
    let w = reg2i12(insn, v as u32);
    assert(-2048 <= v && v < 2048 ==> {
        let f = (((insn & !((0xfffu32 << 10u32) as u32)) | ((((v as u32) & 0xfffu32) << 10u32) as u32)) >> 10u32) & 0xfff;
        (f >= 0x800 && (f as i64) - 0x1000 == v) || (f < 0x800 && f as i64 == v)
    }) by (bit_vector);
}

/// `SOP_POP_32_U_10_12` fails exactly on values outside [0, 2^12), and what
/// it stores in bits 21:10 reads back as the value.
pub proof fn lemma_sop_u_10_12(insn: u32, v: i64)
    ensures
        sop_field(Loongarch64RelocationType::R_LARCH_SOP_POP_32_U_10_12, insn, v) is Err <==> !(0 <= v && v < 4096),
        0 <= v && v < 4096 ==> (reg2i12(insn, v as u32) >> 10u32) & 0xfff == v as u32,
{
    assert((1u64 << 12u32) == 4096) by (bit_vector);
    assert((v as u64) < 4096 <==> (0 <= v && v < 4096)) by (bit_vector);
    assert(0 <= v && v < 4096 ==> (((insn & !((0xfffu32 << 10u32) as u32)) | ((((v as u32) & 0xfffu32) << 10u32) as u32)) >> 10u32) & 0xfff == v as u32) by (bit_vector);
}

/// An AArch64 immediate relocation of `len` bits from `lsb` fails its check
/// exactly when the shifted result lies outside the signed range of `len`
/// bits; otherwise the field it stores reads back, sign-extended, as that
/// shifted result.
pub proof fn lemma_aarch64_imm_round_trip(v: u64, lsb: u32, len: u32)
    requires
        lsb < 64,
        1 <= len <= 32,
    ensures
        imm_overflow(v, lsb, len) <==> !(-(1i64 << ((len - 1) as u32)) <= shifted(v, lsb) && shifted(v, lsb) < (1i64 << ((len - 1) as u32))),
        !imm_overflow(v, lsb, len) ==> {
            let f = imm_bits(v, lsb, len);
            (f >= (1u64 << ((len - 1) as u32)) && (f as i64) - ((1u64 << len) as i64) == shifted(v, lsb))
                || (f < (1u64 << ((len - 1) as u32)) && f as i64 == shifted(v, lsb))
        },
{
    let s = shifted(v, lsb);
    let sh = (len - 1) as u32;
    assert(!(-(1i64 << sh) <= s && s < (1i64 << sh)) || {
        let f = (s as u64) & ((1u64 << len) - 1) as u64;
        (f >= (1u64 << sh) && (f as i64) - ((1u64 << len) as i64) == s) || (f < (1u64 << sh) && f as i64 == s)
    }) by (bit_vector)
        requires
            1 <= len <= 32,
            sh == len - 1,
    ;
}

/// The bits of the instruction word that a LoongArch kind may change.
pub open spec fn la_field_mask(kind: Loongarch64RelocationType) -> u32 {
    match kind {
        Loongarch64RelocationType::R_LARCH_B26 | Loongarch64RelocationType::R_LARCH_SOP_POP_32_S_0_10_10_16_S2 => 0x03ff_ffff,
        Loongarch64RelocationType::R_LARCH_PCALA_HI20 | Loongarch64RelocationType::R_LARCH_PCALA64_LO20 | Loongarch64RelocationType::R_LARCH_SOP_POP_32_S_5_20 => 0x01ff_ffe0,
        Loongarch64RelocationType::R_LARCH_SOP_POP_32_S_10_5 => 0x0000_7c00,
        Loongarch64RelocationType::R_LARCH_SOP_POP_32_S_10_16 | Loongarch64RelocationType::R_LARCH_SOP_POP_32_S_10_16_S2 => 0x03ff_fc00,
        Loongarch64RelocationType::R_LARCH_SOP_POP_32_S_0_5_10_16_S2 => 0x03ff_fc1f,
        _ => 0x003f_fc00,
    }
}

/// The LoongArch instruction kinds: the branch, the page pairs and the pops.
pub open spec fn la_insn_kind(kind: Loongarch64RelocationType) -> bool {
    la_class(kind) == LaClass::B26 || la_class(kind) == LaClass::Pcala || la_class(kind) == LaClass::SopPop
}

/// Each LoongArch instruction format changes only its immediate bits.
pub proof fn lemma_la_formats_keep_other_bits(insn: u32, imm: u32)
    by (bit_vector)
    ensures
        reg0i26(insn, imm) & !0x03ff_ffffu32 == insn & !0x03ff_ffffu32,
        reg1i21(insn, imm) & !0x03ff_fc1fu32 == insn & !0x03ff_fc1fu32,
        reg1i20(insn, imm) & !0x01ff_ffe0u32 == insn & !0x01ff_ffe0u32,
        reg2i16(insn, imm) & !0x03ff_fc00u32 == insn & !0x03ff_fc00u32,
        reg2i12(insn, imm) & !0x003f_fc00u32 == insn & !0x003f_fc00u32,
        reg2i5(insn, imm) & !0x0000_7c00u32 == insn & !0x0000_7c00u32,
{
}

/// A LoongArch instruction relocation that succeeds changes only the four
/// bytes at its place, and of that word only the kind's immediate bits.
pub proof fn lemma_loongarch_field_only(kind: Loongarch64RelocationType, mem: Seq<u8>, st: Seq<i64>, off: int, location: u64, address: u64)
    requires
        0 <= off,
        la_insn_kind(kind),
        la_step(kind, mem, st, off, location, address) is Ok,
    ensures
        la_step(kind, mem, st, off, location, address) matches Ok((m, _)) && {
            &&& m.len() == mem.len()
            &&& forall|i: int| 0 <= i < mem.len() && !(off <= i < off + 4) ==> m[i] == mem[i]
            &&& le_u32(m, off) & !la_field_mask(kind) == le_u32(mem, off) & !la_field_mask(kind)
        },
{
    let insn = le_u32(mem, off);
    let (m, _) = la_step(kind, mem, st, off, location, address).unwrap();
    assert(off + 4 <= mem.len());
    let w: u32 = if la_class(kind) == LaClass::B26 {
        b26_insn(insn, address, location).unwrap()
    } else if la_class(kind) == LaClass::Pcala {
        pcala_insn(kind, insn, address, location)
    } else {
        sop_field(kind, insn, st.last()).unwrap()
    };
    assert(m == crate::mem::put_u32(mem, off, w));
    lemma_u32_round_trip(mem, off, w);
    let o = pcrel(address, location);
    lemma_la_formats_keep_other_bits(insn, ((o >> 2u32) as u64) as u32);
    lemma_la_formats_keep_other_bits(insn, (address & 0xfff) as u32);
    lemma_la_formats_keep_other_bits(insn, ((((pcala_hi(address, location) as i64) >> 12u32) as u64) & 0xfffff) as u32);
    lemma_la_formats_keep_other_bits(insn, ((pcala_rem(address, location) >> 32u64) & 0xfffff) as u32);
    lemma_la_formats_keep_other_bits(insn, ((pcala_rem(address, location) >> 52u64) & 0xfff) as u32);
    lemma_la_formats_keep_other_bits(insn, st.last() as u32);
    lemma_la_formats_keep_other_bits(insn, (st.last() >> 2u32) as u32);
}

/// The bits of the instruction word that an AArch64 instruction kind may
/// change: its immediate field, and for MOVW kinds also the opcode bits 30:29.
pub open spec fn a64_field_mask(kind: Aarch64RelocationType) -> u32 {
    match aarch64_action(kind) {
        Aarch64Action::Movw { .. } => 0x601f_ffe0,
        Aarch64Action::Imm { imm_type, .. } => crate::aarch64::imm_field_mask(imm_type),
        _ => crate::aarch64::ADR_IMM_MASK,
    }
}

/// Encoding an immediate changes only the bits of its field.
pub proof fn lemma_encode_keeps_other_bits(t: Aarch64InsnImmType, insn: u32, imm: u64)
    requires
        imm_shift_mask(t) is Some || t == Aarch64InsnImmType::AARCH64_INSN_IMM_ADR,
    ensures
        encode_imm(t, insn, imm) & !crate::aarch64::imm_field_mask(t) == insn & !crate::aarch64::imm_field_mask(t),
{
    if insn != crate::aarch64::AARCH64_BREAK_FAULT {
        if t == Aarch64InsnImmType::AARCH64_INSN_IMM_ADR {
            let lo = (((imm as u32) & 3u32) << 29u32) as u32;
            let hi = ((((imm >> 2u64) as u32) & 0x7ffffu32) << 5u32) as u32;
            crate::aarch64::lemma_shifted_inside(lo | hi, crate::aarch64::ADR_IMM_MASK, 0);
            crate::aarch64::lemma_field_kept(insn, (lo | hi) & crate::aarch64::ADR_IMM_MASK, crate::aarch64::ADR_IMM_MASK);
        } else {
            let (sh, m) = imm_shift_mask(t).unwrap();
            crate::aarch64::lemma_shifted_inside(imm as u32, m, sh);
            crate::aarch64::lemma_field_kept(insn, ((imm as u32) & m) << sh, m << sh);
        }
    }
}

/// An AArch64 instruction relocation that succeeds changes only the four
/// bytes at its place, and of that word only the kind's field bits.
pub proof fn lemma_aarch64_field_only(kind: Aarch64RelocationType, mem: Seq<u8>, off: int, location: u64, address: u64)
    requires
        0 <= off,
        aarch64_action(kind) is Movw || aarch64_action(kind) is Imm || aarch64_action(kind) is Adrp,
        a64_step(kind, mem, off, location, address) is Ok,
    ensures
        a64_step(kind, mem, off, location, address) matches Ok(m) && {
            &&& m.len() == mem.len()
            &&& forall|i: int| 0 <= i < mem.len() && !(off <= i < off + 4) ==> m[i] == mem[i]
            &&& le_u32(m, off) & !a64_field_mask(kind) == le_u32(mem, off) & !a64_field_mask(kind)
        },
{
    let insn = le_u32(mem, off);
    let m = a64_step(kind, mem, off, location, address).unwrap();
    assert(off + 4 <= mem.len());
    match aarch64_action(kind) {
        Aarch64Action::Movw { op, lsb, movw_type, check } => {
            let v = do_reloc_spec(op, location, address);
            let w = movw_insn(insn, v, lsb, movw_type);
            assert(m == crate::mem::put_u32(mem, off, w));
            lemma_u32_round_trip(mem, off, w);
            let base = if movw_type == crate::aarch64::Aarch64InsnMovwImmType::AARCH64_INSN_IMM_MOVNZ {
                if (v as i64) >= 0 { (insn & !(3u32 << 29u32)) | (2u32 << 29u32) } else { insn & !(3u32 << 29u32) }
            } else {
                insn
            };
            lemma_encode_keeps_other_bits(Aarch64InsnImmType::AARCH64_INSN_IMM_16, base, crate::aarch64::movw_imm(v, lsb, movw_type));
            assert(((0xffffu32 << 5u32) as u32) == 0x001f_ffe0u32) by (bit_vector);
            assert(crate::aarch64::imm_field_mask(Aarch64InsnImmType::AARCH64_INSN_IMM_16) == 0x001f_ffe0u32);
            let e = encode_imm(Aarch64InsnImmType::AARCH64_INSN_IMM_16, base, crate::aarch64::movw_imm(v, lsb, movw_type));
            assert(e & !0x601f_ffe0u32 == insn & !0x601f_ffe0u32) by (bit_vector)
                requires
                    e & !0x001f_ffe0u32 == base & !0x001f_ffe0u32,
                    base == insn || base == (insn & !(3u32 << 29u32)) | (2u32 << 29u32) || base == insn & !(3u32 << 29u32),
            ;
        },
        Aarch64Action::Imm { op, lsb, len, imm_type, check, veneer } => {
            let w = encode_imm(imm_type, insn, crate::aarch64::imm_bits(do_reloc_spec(op, location, address), lsb, len));
            assert(m == crate::mem::put_u32(mem, off, w));
            lemma_u32_round_trip(mem, off, w);
            lemma_encode_keeps_other_bits(imm_type, insn, crate::aarch64::imm_bits(do_reloc_spec(op, location, address), lsb, len));
        },
        _ => {
            let w = encode_imm(Aarch64InsnImmType::AARCH64_INSN_IMM_ADR, insn, crate::aarch64::imm_bits(do_reloc_spec(Aarch64RelocOp::RELOC_OP_PAGE, location, address), 12, 21));
            assert(m == crate::mem::put_u32(mem, off, w));
            lemma_u32_round_trip(mem, off, w);
            lemma_encode_keeps_other_bits(Aarch64InsnImmType::AARCH64_INSN_IMM_ADR, insn, crate::aarch64::imm_bits(do_reloc_spec(Aarch64RelocOp::RELOC_OP_PAGE, location, address), 12, 21));
        },
    }
}

} // verus!
