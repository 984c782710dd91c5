use kmod_loader::aarch64::{aarch64_insn_encode_immediate, Aarch64ArchRelocate, Aarch64InsnImmType, Aarch64RelocationType};
use kmod_loader::elf::Rela;
use kmod_loader::loongarch64::{reg0i26_format, reg1i20_format, reg2i12_format, Loongarch64ArchRelocate, Loongarch64RelocationType};
use kmod_loader::riscv64::{Riscv64ArchRelocate, Riscv64RelocationType};
use kmod_loader::x86_64::{X86_64ArchRelocate, X86_64RelocationType};
use kmod_loader::{ModuleLoadErr, RelocFailure};

fn word(mem: &[u8], off: usize) -> u32 {
    u32::from_le_bytes([mem[off], mem[off + 1], mem[off + 2], mem[off + 3]])
}

fn rela(offset: u64, sym: u64, kind: u32, addend: i64) -> Rela {
    Rela { r_offset: offset, r_info: (sym << 32) | kind as u64, r_addend: addend }
}

#[test]
fn x86_32s_accepts_exactly_signed_32() {
    let k = X86_64RelocationType::R_X86_64_32S;
    let mut mem = vec![0u8; 8];
    assert_eq!(k.apply_relocation(&mut mem, 0, 0x1000, 0x7fff_ffff), Ok(()));
    assert_eq!(word(&mem, 0), 0x7fff_ffff);
    let mut mem = vec![0u8; 8];
    assert_eq!(k.apply_relocation(&mut mem, 0, 0x1000, 0xffff_ffff_8000_0000), Ok(()));
    assert_eq!(word(&mem, 0), 0x8000_0000);
    let mut mem = vec![0u8; 8];
    assert_eq!(k.apply_relocation(&mut mem, 0, 0x1000, 0x8000_0000), Err(ModuleLoadErr::RelocationFailed(RelocFailure::Overflow)));
    assert_eq!(k.apply_relocation(&mut mem, 0, 0x1000, 0x1_0000_0000), Err(ModuleLoadErr::RelocationFailed(RelocFailure::Overflow)));
    assert_eq!(k.apply_relocation(&mut mem, 0, 0x1000, 0xffff_ffff_7fff_ffff), Err(ModuleLoadErr::RelocationFailed(RelocFailure::Overflow)));
    assert_eq!(mem, vec![0u8; 8]);
}

#[test]
fn x86_32_accepts_exactly_unsigned_32() {
    let k = X86_64RelocationType::R_X86_64_32;
    let mut mem = vec![0u8; 4];
    assert_eq!(k.apply_relocation(&mut mem, 0, 0, 0xffff_ffff), Ok(()));
    assert_eq!(mem, vec![0xff; 4]);
    let mut mem = vec![0u8; 4];
    assert_eq!(k.apply_relocation(&mut mem, 0, 0, 0x1_0000_0000), Err(ModuleLoadErr::RelocationFailed(RelocFailure::Overflow)));
    assert_eq!(k.apply_relocation(&mut mem, 0, 0, u64::MAX), Err(ModuleLoadErr::RelocationFailed(RelocFailure::Overflow)));
}

#[test]
fn x86_pc_relative_and_64() {
    let mut mem = vec![0u8; 16];
    assert_eq!(X86_64RelocationType::R_X86_64_PC32.apply_relocation(&mut mem, 0, 0x2000, 0x1ff0), Ok(()));
    assert_eq!(word(&mem, 0), 0xffff_fff0);
    assert_eq!(X86_64RelocationType::R_X86_64_64.apply_relocation(&mut mem, 8, 0x2008, 0x1122_3344_5566_7788), Ok(()));
    assert_eq!(&mem[8..16], &[0x88, 0x77, 0x66, 0x55, 0x44, 0x33, 0x22, 0x11]);
}

#[test]
fn x86_refuses_nonzero_target_and_unsupported_kinds() {
    let mut mem = vec![0u8, 0, 1, 0];
    assert_eq!(X86_64RelocationType::R_X86_64_32.apply_relocation(&mut mem, 0, 0, 5), Err(ModuleLoadErr::RelocationFailed(RelocFailure::NonZeroTarget)));
    assert_eq!(X86_64RelocationType::R_X86_64_GOTPCREL.apply_relocation(&mut mem, 0, 0, 5), Err(ModuleLoadErr::RelocationFailed(RelocFailure::Unsupported)));
    assert_eq!(X86_64RelocationType::R_X86_64_NONE.apply_relocation(&mut mem, 0, 0, 5), Ok(()));
    assert_eq!(X86_64RelocationType::from_u32(11), Some(X86_64RelocationType::R_X86_64_32S));
    assert_eq!(X86_64RelocationType::from_u32(99), None);
}

#[test]
fn x86_section_driver_names_first_failure() {
    let relas = vec![rela(0, 1, 10, 0), rela(4, 2, 11, 0)];
    let syms = vec![0u64, 0x1234, 0x1_0000_0000];
    let mut mem = vec![0u8; 8];
    let r = X86_64ArchRelocate::apply_relocate_add(&relas, &mut mem, 0x4000, &syms);
    assert_eq!(r, Err(ModuleLoadErr::RelocationFailed(RelocFailure::Overflow)));
    let relas = vec![rela(0, 1, 10, 4), rela(4, 3, 10, 0)];
    let mut mem = vec![0u8; 8];
    let r = X86_64ArchRelocate::apply_relocate_add(&relas, &mut mem, 0x4000, &syms);
    assert_eq!(r, Err(ModuleLoadErr::RelocationFailed(RelocFailure::BadSymbolIndex)));
}

#[test]
fn aarch64_adrp_and_add_lo12_scenario() {
    // ADRP x0, 0 at P = 0xF000 towards S + A = 0x10_0000.
    let mut mem = vec![0u8; 8];
    mem[0..4].copy_from_slice(&0x9000_0000u32.to_le_bytes());
    mem[4..8].copy_from_slice(&0x9100_0000u32.to_le_bytes());
    assert_eq!(Aarch64RelocationType::R_AARCH64_ADR_PREL_PG_HI21.apply_relocation(&mut mem, 0, 0xF000, 0x10_0000), Ok(()));
    let insn = word(&mem, 0);
    let pages = (((insn >> 5) & 0x7ffff) << 2) | ((insn >> 29) & 3);
    assert_eq!(pages, 0xF1);
    assert_eq!(insn, 0xB000_0780);
    assert_eq!(Aarch64RelocationType::R_AARCH64_ADD_ABS_LO12_NC.apply_relocation(&mut mem, 4, 0xF004, 0x10_0000), Ok(()));
    assert_eq!((word(&mem, 4) >> 10) & 0xfff, 0);
    assert_eq!(word(&mem, 4), 0x9100_0000);
}

#[test]
fn aarch64_call26_out_of_reach_needs_veneer() {
    let mut mem = 0x9400_0000u32.to_le_bytes().to_vec();
    assert_eq!(Aarch64RelocationType::R_AARCH64_CALL26.apply_relocation(&mut mem, 0, 0, 0x800_0000), Err(ModuleLoadErr::RelocationFailed(RelocFailure::VeneerRequired)));
    let mut mem = 0x9400_0000u32.to_le_bytes().to_vec();
    assert_eq!(Aarch64RelocationType::R_AARCH64_CALL26.apply_relocation(&mut mem, 0, 0x1000, 0x2000), Ok(()));
    assert_eq!(word(&mem, 0), 0x9400_0400);
}

#[test]
fn aarch64_data_overflow() {
    let mut mem = vec![0u8; 4];
    assert_eq!(Aarch64RelocationType::R_AARCH64_ABS16.apply_relocation(&mut mem, 0, 0, 0x1_0000), Err(ModuleLoadErr::RelocationFailed(RelocFailure::Overflow)));
    let mut mem = vec![0u8; 4];
    assert_eq!(Aarch64RelocationType::R_AARCH64_PREL32.apply_relocation(&mut mem, 0, 0x100, 0x80), Ok(()));
    assert_eq!(word(&mem, 0), 0xffff_ff80);
}

#[test]
fn aarch64_movw_signed_picks_movn() {
    let mut mem = 0xd280_0000u32.to_le_bytes().to_vec();
    assert_eq!(Aarch64RelocationType::R_AARCH64_MOVW_SABS_G0.apply_relocation(&mut mem, 0, 0, (-2i64) as u64), Ok(()));
    let insn = word(&mem, 0);
    assert_eq!((insn >> 29) & 3, 0);
    assert_eq!((insn >> 5) & 0xffff, 1);
}

#[test]
fn aarch64_encoder_keeps_other_bits_and_poison() {
    let insn = 0xffff_ffffu32;
    let r = aarch64_insn_encode_immediate(Aarch64InsnImmType::AARCH64_INSN_IMM_12, insn, 0);
    assert_eq!(r, 0xffc0_03ff);
    let brk = 0xd420_0000u32 | (0x100 << 5);
    assert_eq!(aarch64_insn_encode_immediate(Aarch64InsnImmType::AARCH64_INSN_IMM_26, brk, 5), brk);
    let _ = Aarch64ArchRelocate;
}

#[test]
fn loongarch_sop_chain_scenario() {
    let insn = 0x0280_0000u32 | 0x1f;
    let relas = vec![rela(0, 0, 23, 5), rela(0, 0, 23, 3), rela(0, 0, 35, 0), rela(0, 0, 39, 0)];
    let mut mem = insn.to_le_bytes().to_vec();
    assert_eq!(Loongarch64ArchRelocate::apply_relocate_add(&relas, &mut mem, 0x8000, &vec![0u64]), Ok(()));
    let w = word(&mem, 0);
    assert_eq!((w >> 10) & 0xfff, 8);
    assert_eq!(w & !(0xfff << 10), insn & !(0xfff << 10));
}

#[test]
fn loongarch_pop_32_u_sets_bits_21_10() {
    let insn = 0xfc00_03ffu32;
    let relas = vec![rela(0, 0, 23, 5), rela(0, 0, 23, 3), rela(0, 0, 35, 0), rela(0, 0, 46, 0)];
    let mut mem = insn.to_le_bytes().to_vec();
    assert_eq!(Loongarch64ArchRelocate::apply_relocate_add(&relas, &mut mem, 0x8000, &vec![0u64]), Ok(()));
    assert_eq!((word(&mem, 0) >> 10) & 0xfff, 8);
    assert_eq!(word(&mem, 0) & !(0xfff << 10), insn);
    let relas = vec![rela(0, 0, 23, 0x1000), rela(0, 0, 46, 0)];
    let mut mem = insn.to_le_bytes().to_vec();
    assert_eq!(Loongarch64ArchRelocate::apply_relocate_add(&relas, &mut mem, 0x8000, &vec![0u64]), Err(ModuleLoadErr::RelocationFailed(RelocFailure::Overflow)));
    assert_eq!(word(&mem, 0), insn);
}

#[test]
fn loongarch_stack_errors() {
    let mut mem = vec![0u8; 4];
    let relas = vec![rela(0, 0, 35, 0)];
    assert_eq!(Loongarch64ArchRelocate::apply_relocate_add(&relas, &mut mem, 0, &vec![0u64]), Err(ModuleLoadErr::RelocationFailed(RelocFailure::StackUnderflow)));
    let relas: Vec<Rela> = (0..17).map(|_| rela(0, 0, 23, 1)).collect();
    assert_eq!(Loongarch64ArchRelocate::apply_relocate_add(&relas, &mut mem, 0, &vec![0u64]), Err(ModuleLoadErr::RelocationFailed(RelocFailure::StackOverflow)));
    let relas = vec![rela(0, 0, 23, 1)];
    assert_eq!(Loongarch64ArchRelocate::apply_relocate_add(&relas, &mut mem, 0, &vec![0u64]), Err(ModuleLoadErr::RelocationFailed(RelocFailure::StackNotEmpty)));
}

#[test]
fn loongarch_overflow_and_alignment() {
    let mut mem = vec![0u8; 4];
    let relas = vec![rela(0, 0, 23, 0x1000), rela(0, 0, 38 + 2, 0)];
    assert_eq!(Loongarch64ArchRelocate::apply_relocate_add(&relas, &mut mem, 0, &vec![0u64]), Err(ModuleLoadErr::RelocationFailed(RelocFailure::Overflow)));
    let relas = vec![rela(0, 0, 23, 6), rela(0, 0, 45, 0)];
    assert_eq!(Loongarch64ArchRelocate::apply_relocate_add(&relas, &mut mem, 0, &vec![0u64]), Err(ModuleLoadErr::RelocationFailed(RelocFailure::Unaligned)));
}

#[test]
fn loongarch_b26_and_pcala() {
    let mut mem = 0x5000_0000u32.to_le_bytes().to_vec();
    assert_eq!(Loongarch64RelocationType::R_LARCH_B26.apply_relocation(&mut mem, 0, 0x1000, 0x1000 + 0x4_0004, &mut Vec::new()), Ok(()));
    let imm = 0x4_0004u32 >> 2;
    assert_eq!(word(&mem, 0), 0x5000_0000 | ((imm & 0xffff) << 10) | ((imm >> 16) & 0x3ff));
    let mut mem = 0x1a00_0004u32.to_le_bytes().to_vec();
    assert_eq!(Loongarch64RelocationType::R_LARCH_PCALA_HI20.apply_relocation(&mut mem, 0, 0x1_0000, 0x23_4567, &mut Vec::new()), Ok(()));
    assert_eq!((word(&mem, 0) >> 5) & 0xfffff, 0x224);
    let mut mem = 0x02c0_0084u32.to_le_bytes().to_vec();
    assert_eq!(Loongarch64RelocationType::R_LARCH_PCALA_LO12.apply_relocation(&mut mem, 0, 0x1_0004, 0x23_4567, &mut Vec::new()), Ok(()));
    assert_eq!((word(&mem, 0) >> 10) & 0xfff, 0x567);
    let mut mem = 0x5000_0000u32.to_le_bytes().to_vec();
    assert_eq!(Loongarch64RelocationType::R_LARCH_B26.apply_relocation(&mut mem, 0, 0, 0x800_0000, &mut Vec::new()), Err(ModuleLoadErr::RelocationFailed(RelocFailure::VeneerRequired)));
}

#[test]
fn loongarch_formats_keep_opcode() {
    assert_eq!(reg2i12_format(0xffff_ffff, 0), 0xffc0_03ff);
    assert_eq!(reg1i20_format(0, 0xfffff), 0x01ff_ffe0);
    assert_eq!(reg0i26_format(0xfc00_0000, 0x3ff_ffff), 0xffff_ffff);
}

#[test]
fn loongarch_sub_in_place() {
    let mut mem = 10u32.to_le_bytes().to_vec();
    assert_eq!(Loongarch64RelocationType::R_LARCH_SUB32.apply_relocation(&mut mem, 0, 0, 3, &mut Vec::new()), Ok(()));
    assert_eq!(word(&mem, 0), 7);
}

#[test]
fn riscv_data_relocations() {
    let mut mem = vec![0u8; 8];
    let relas = vec![rela(0, 1, 1, 0), rela(4, 1, 35, 2)];
    assert_eq!(Riscv64ArchRelocate::apply_relocate_add(&relas, &mut mem, 0x1000, &vec![0, 0x11]), Ok(()));
    assert_eq!(word(&mem, 0), 0x11);
    assert_eq!(word(&mem, 4), 0x13);
    assert_eq!(Riscv64RelocationType::from_u32(16), Some(Riscv64RelocationType::R_RISCV_BRANCH));
}

#[test]
fn riscv_pcrel_pair() {
    let mut mem = vec![0u8; 8];
    mem[0..4].copy_from_slice(&0x0000_0517u32.to_le_bytes());
    mem[4..8].copy_from_slice(&0x0005_0513u32.to_le_bytes());
    let relas = vec![rela(0, 1, 23, 0), rela(4, 2, 24, 0)];
    let syms = vec![0u64, 0x1234_5678, 0x1000];
    assert_eq!(Riscv64ArchRelocate::apply_relocate_add(&relas, &mut mem, 0x1000, &syms), Ok(()));
    assert_eq!(word(&mem, 0), 0x1234_4517);
    assert_eq!(word(&mem, 4), 0x6785_0513);
}

#[test]
fn riscv_unpaired_lo12_fails() {
    let mut mem = vec![0u8; 8];
    let relas = vec![rela(4, 1, 24, 0)];
    assert_eq!(Riscv64ArchRelocate::apply_relocate_add(&relas, &mut mem, 0x1000, &vec![0, 0x1000]), Err(ModuleLoadErr::RelocationFailed(RelocFailure::UnpairedLo12)));
}

#[test]
fn riscv_call_and_branch() {
    let mut mem = vec![0u8; 12];
    mem[0..4].copy_from_slice(&0x0000_0097u32.to_le_bytes());
    mem[4..8].copy_from_slice(&0x0000_80e7u32.to_le_bytes());
    mem[8..12].copy_from_slice(&0x0000_0063u32.to_le_bytes());
    let relas = vec![rela(0, 1, 18, 0), rela(8, 2, 16, 0)];
    let syms = vec![0u64, 0x3004, 0x2018];
    assert_eq!(Riscv64ArchRelocate::apply_relocate_add(&relas, &mut mem, 0x2000, &syms), Ok(()));
    assert_eq!(word(&mem, 0), 0x0000_1097);
    assert_eq!(word(&mem, 4), 0x0040_80e7);
    assert_eq!(word(&mem, 8), 0x0000_0863);
}

#[test]
fn pc_relative_results_move_with_the_place() {
    for k in [0u64, 0x1000, 0x7_3000, 0xffff_ffff_ffff_f000] {
        let mut a = vec![0u8; 4];
        let mut b = vec![0u8; 4];
        assert_eq!(Aarch64RelocationType::R_AARCH64_PREL32.apply_relocation(&mut a, 0, 0x4000, 0x5010), Ok(()));
        assert_eq!(Aarch64RelocationType::R_AARCH64_PREL32.apply_relocation(&mut b, 0, 0x4000u64.wrapping_add(k), 0x5010u64.wrapping_add(k)), Ok(()));
        assert_eq!(a, b);
        let mut a = 0x1a00_0004u32.to_le_bytes().to_vec();
        let mut b = a.clone();
        assert_eq!(Loongarch64RelocationType::R_LARCH_PCALA_HI20.apply_relocation(&mut a, 0, 0x1_0000, 0x23_4567, &mut Vec::new()), Ok(()));
        assert_eq!(Loongarch64RelocationType::R_LARCH_PCALA_HI20.apply_relocation(&mut b, 0, 0x1_0000u64.wrapping_add(k), 0x23_4567u64.wrapping_add(k), &mut Vec::new()), Ok(()));
        assert_eq!(a, b);
    }
}

#[test]
fn riscv_compressed_branches() {
    let mut mem = vec![0x01u8, 0xa0, 0x01, 0xc0];
    let relas = vec![rela(0, 1, 45, 0), rela(2, 2, 44, 0)];
    let syms = vec![0u64, 0x110, 0x10a];
    assert_eq!(Riscv64ArchRelocate::apply_relocate_add(&relas, &mut mem, 0x100, &syms), Ok(()));
    assert_eq!(u16::from_le_bytes([mem[0], mem[1]]), 0xa801);
    assert_eq!(u16::from_le_bytes([mem[2], mem[3]]), 0xc401);
}

#[test]
fn aarch64_failure_leaves_memory_unchanged() {
    let mut mem = 0x9400_0000u32.to_le_bytes().to_vec();
    assert_eq!(Aarch64RelocationType::R_AARCH64_CONDBR19.apply_relocation(&mut mem, 0, 0, 0x10_0000), Err(ModuleLoadErr::RelocationFailed(RelocFailure::Overflow)));
    assert_eq!(word(&mem, 0), 0x9400_0000);
    let mut mem = vec![0u8; 2];
    assert_eq!(Aarch64RelocationType::R_AARCH64_ABS16.apply_relocation(&mut mem, 0, 0, 0x1_0000), Err(ModuleLoadErr::RelocationFailed(RelocFailure::Overflow)));
    assert_eq!(mem, vec![0u8; 2]);
}
