//! The RISC-V relocation engine, after the RISC-V ELF psABI.
use vstd::prelude::*;
use crate::mem::{le_u16, le_u32, le_u64, put_u16, put_u32, put_u64, wadd, wsub};
use crate::mem::{read_u16, read_u32, read_u64, write_u16, write_u32, write_u64};
use crate::{ModuleLoadErr, RelocFailure};
use crate::elf::{Rela, get_rela_sym_idx, get_rela_type, rela_kind, rela_symbol};

verus! {

#[allow(non_camel_case_types)]
#[derive(Debug, Clone, Copy, PartialEq, Eq, Structural)]
pub enum Riscv64RelocationType {
    R_RISCV_NONE,
    R_RISCV_32,
    R_RISCV_64,
    R_RISCV_RELATIVE,
    R_RISCV_COPY,
    R_RISCV_JUMP_SLOT,
    R_RISCV_TLS_DTPMOD32,
    R_RISCV_TLS_DTPMOD64,
    R_RISCV_TLS_DTPREL32,
    R_RISCV_TLS_DTPREL64,
    R_RISCV_TLS_TPREL32,
    R_RISCV_TLS_TPREL64,
    R_RISCV_TLSDESC,
    R_RISCV_BRANCH,
    R_RISCV_JAL,
    R_RISCV_CALL,
    R_RISCV_CALL_PLT,
    R_RISCV_GOT_HI20,
    R_RISCV_TLS_GOT_HI20,
    R_RISCV_TLS_GD_HI20,
    R_RISCV_PCREL_HI20,
    R_RISCV_PCREL_LO12_I,
    R_RISCV_PCREL_LO12_S,
    R_RISCV_HI20,
    R_RISCV_LO12_I,
    R_RISCV_LO12_S,
    R_RISCV_TPREL_HI20,
    R_RISCV_TPREL_LO12_I,
    R_RISCV_TPREL_LO12_S,
    R_RISCV_TPREL_ADD,
    R_RISCV_ADD8,
    R_RISCV_ADD16,
    R_RISCV_ADD32,
    R_RISCV_ADD64,
    R_RISCV_SUB8,
    R_RISCV_SUB16,
    R_RISCV_SUB32,
    R_RISCV_SUB64,
    R_RISCV_GOT32_PCREL,
    R_RISCV_ALIGN,
    R_RISCV_RVC_BRANCH,
    R_RISCV_RVC_JUMP,
    R_RISCV_RVC_LUI,
    R_RISCV_GPREL_I,
    R_RISCV_GPREL_S,
    R_RISCV_TPREL_I,
    R_RISCV_TPREL_S,
    R_RISCV_RELAX,
    R_RISCV_SUB6,
    R_RISCV_SET6,
    R_RISCV_SET8,
    R_RISCV_SET16,
    R_RISCV_SET32,
    R_RISCV_32_PCREL,
    R_RISCV_IRELATIVE,
    R_RISCV_PLT32,
    R_RISCV_SET_ULEB128,
    R_RISCV_SUB_ULEB128,
    R_RISCV_TLSDESC_HI20,
    R_RISCV_TLSDESC_LOAD_LO12,
    R_RISCV_TLSDESC_ADD_LO12,
    R_RISCV_TLSDESC_CALL,
}

impl Riscv64RelocationType {
    /// The numeric relocation type of this kind.
    pub open spec fn spec_code(self) -> u32 {
        match self {
            Riscv64RelocationType::R_RISCV_NONE => 0,
            Riscv64RelocationType::R_RISCV_32 => 1,
            Riscv64RelocationType::R_RISCV_64 => 2,
            Riscv64RelocationType::R_RISCV_RELATIVE => 3,
            Riscv64RelocationType::R_RISCV_COPY => 4,
            Riscv64RelocationType::R_RISCV_JUMP_SLOT => 5,
            Riscv64RelocationType::R_RISCV_TLS_DTPMOD32 => 6,
            Riscv64RelocationType::R_RISCV_TLS_DTPMOD64 => 7,
            Riscv64RelocationType::R_RISCV_TLS_DTPREL32 => 8,
            Riscv64RelocationType::R_RISCV_TLS_DTPREL64 => 9,
            Riscv64RelocationType::R_RISCV_TLS_TPREL32 => 10,
            Riscv64RelocationType::R_RISCV_TLS_TPREL64 => 11,
            Riscv64RelocationType::R_RISCV_TLSDESC => 12,
            Riscv64RelocationType::R_RISCV_BRANCH => 16,
            Riscv64RelocationType::R_RISCV_JAL => 17,
            Riscv64RelocationType::R_RISCV_CALL => 18,
            Riscv64RelocationType::R_RISCV_CALL_PLT => 19,
            Riscv64RelocationType::R_RISCV_GOT_HI20 => 20,
            Riscv64RelocationType::R_RISCV_TLS_GOT_HI20 => 21,
            Riscv64RelocationType::R_RISCV_TLS_GD_HI20 => 22,
            Riscv64RelocationType::R_RISCV_PCREL_HI20 => 23,
            Riscv64RelocationType::R_RISCV_PCREL_LO12_I => 24,
            Riscv64RelocationType::R_RISCV_PCREL_LO12_S => 25,
            Riscv64RelocationType::R_RISCV_HI20 => 26,
            Riscv64RelocationType::R_RISCV_LO12_I => 27,
            Riscv64RelocationType::R_RISCV_LO12_S => 28,
            Riscv64RelocationType::R_RISCV_TPREL_HI20 => 29,
            Riscv64RelocationType::R_RISCV_TPREL_LO12_I => 30,
            Riscv64RelocationType::R_RISCV_TPREL_LO12_S => 31,
            Riscv64RelocationType::R_RISCV_TPREL_ADD => 32,
            Riscv64RelocationType::R_RISCV_ADD8 => 33,
            Riscv64RelocationType::R_RISCV_ADD16 => 34,
            Riscv64RelocationType::R_RISCV_ADD32 => 35,
            Riscv64RelocationType::R_RISCV_ADD64 => 36,
            Riscv64RelocationType::R_RISCV_SUB8 => 37,
            Riscv64RelocationType::R_RISCV_SUB16 => 38,
            Riscv64RelocationType::R_RISCV_SUB32 => 39,
            Riscv64RelocationType::R_RISCV_SUB64 => 40,
            Riscv64RelocationType::R_RISCV_GOT32_PCREL => 41,
            Riscv64RelocationType::R_RISCV_ALIGN => 43,
            Riscv64RelocationType::R_RISCV_RVC_BRANCH => 44,
            Riscv64RelocationType::R_RISCV_RVC_JUMP => 45,
            Riscv64RelocationType::R_RISCV_RVC_LUI => 46,
            Riscv64RelocationType::R_RISCV_GPREL_I => 47,
            Riscv64RelocationType::R_RISCV_GPREL_S => 48,
            Riscv64RelocationType::R_RISCV_TPREL_I => 49,
            Riscv64RelocationType::R_RISCV_TPREL_S => 50,
            Riscv64RelocationType::R_RISCV_RELAX => 51,
            Riscv64RelocationType::R_RISCV_SUB6 => 52,
            Riscv64RelocationType::R_RISCV_SET6 => 53,
            Riscv64RelocationType::R_RISCV_SET8 => 54,
            Riscv64RelocationType::R_RISCV_SET16 => 55,
            Riscv64RelocationType::R_RISCV_SET32 => 56,
            Riscv64RelocationType::R_RISCV_32_PCREL => 57,
            Riscv64RelocationType::R_RISCV_IRELATIVE => 58,
            Riscv64RelocationType::R_RISCV_PLT32 => 59,
            Riscv64RelocationType::R_RISCV_SET_ULEB128 => 60,
            Riscv64RelocationType::R_RISCV_SUB_ULEB128 => 61,
            Riscv64RelocationType::R_RISCV_TLSDESC_HI20 => 62,
            Riscv64RelocationType::R_RISCV_TLSDESC_LOAD_LO12 => 63,
            Riscv64RelocationType::R_RISCV_TLSDESC_ADD_LO12 => 64,
            Riscv64RelocationType::R_RISCV_TLSDESC_CALL => 65,
        }
    }

    /// The kind that a numeric relocation type names, if any.
    pub open spec fn from_code(code: u32) -> Option<Self> {
        match code {
            0 => Some(Riscv64RelocationType::R_RISCV_NONE),
            1 => Some(Riscv64RelocationType::R_RISCV_32),
            2 => Some(Riscv64RelocationType::R_RISCV_64),
            3 => Some(Riscv64RelocationType::R_RISCV_RELATIVE),
            4 => Some(Riscv64RelocationType::R_RISCV_COPY),
            5 => Some(Riscv64RelocationType::R_RISCV_JUMP_SLOT),
            6 => Some(Riscv64RelocationType::R_RISCV_TLS_DTPMOD32),
            7 => Some(Riscv64RelocationType::R_RISCV_TLS_DTPMOD64),
            8 => Some(Riscv64RelocationType::R_RISCV_TLS_DTPREL32),
            9 => Some(Riscv64RelocationType::R_RISCV_TLS_DTPREL64),
            10 => Some(Riscv64RelocationType::R_RISCV_TLS_TPREL32),
            11 => Some(Riscv64RelocationType::R_RISCV_TLS_TPREL64),
            12 => Some(Riscv64RelocationType::R_RISCV_TLSDESC),
            16 => Some(Riscv64RelocationType::R_RISCV_BRANCH),
            17 => Some(Riscv64RelocationType::R_RISCV_JAL),
            18 => Some(Riscv64RelocationType::R_RISCV_CALL),
            19 => Some(Riscv64RelocationType::R_RISCV_CALL_PLT),
            20 => Some(Riscv64RelocationType::R_RISCV_GOT_HI20),
            21 => Some(Riscv64RelocationType::R_RISCV_TLS_GOT_HI20),
            22 => Some(Riscv64RelocationType::R_RISCV_TLS_GD_HI20),
            23 => Some(Riscv64RelocationType::R_RISCV_PCREL_HI20),
            24 => Some(Riscv64RelocationType::R_RISCV_PCREL_LO12_I),
            25 => Some(Riscv64RelocationType::R_RISCV_PCREL_LO12_S),
            26 => Some(Riscv64RelocationType::R_RISCV_HI20),
            27 => Some(Riscv64RelocationType::R_RISCV_LO12_I),
            28 => Some(Riscv64RelocationType::R_RISCV_LO12_S),
            29 => Some(Riscv64RelocationType::R_RISCV_TPREL_HI20),
            30 => Some(Riscv64RelocationType::R_RISCV_TPREL_LO12_I),
            31 => Some(Riscv64RelocationType::R_RISCV_TPREL_LO12_S),
            32 => Some(Riscv64RelocationType::R_RISCV_TPREL_ADD),
            33 => Some(Riscv64RelocationType::R_RISCV_ADD8),
            34 => Some(Riscv64RelocationType::R_RISCV_ADD16),
            35 => Some(Riscv64RelocationType::R_RISCV_ADD32),
            36 => Some(Riscv64RelocationType::R_RISCV_ADD64),
            37 => Some(Riscv64RelocationType::R_RISCV_SUB8),
            38 => Some(Riscv64RelocationType::R_RISCV_SUB16),
            39 => Some(Riscv64RelocationType::R_RISCV_SUB32),
            40 => Some(Riscv64RelocationType::R_RISCV_SUB64),
            41 => Some(Riscv64RelocationType::R_RISCV_GOT32_PCREL),
            43 => Some(Riscv64RelocationType::R_RISCV_ALIGN),
            44 => Some(Riscv64RelocationType::R_RISCV_RVC_BRANCH),
            45 => Some(Riscv64RelocationType::R_RISCV_RVC_JUMP),
            46 => Some(Riscv64RelocationType::R_RISCV_RVC_LUI),
            47 => Some(Riscv64RelocationType::R_RISCV_GPREL_I),
            48 => Some(Riscv64RelocationType::R_RISCV_GPREL_S),
            49 => Some(Riscv64RelocationType::R_RISCV_TPREL_I),
            50 => Some(Riscv64RelocationType::R_RISCV_TPREL_S),
            51 => Some(Riscv64RelocationType::R_RISCV_RELAX),
            52 => Some(Riscv64RelocationType::R_RISCV_SUB6),
            53 => Some(Riscv64RelocationType::R_RISCV_SET6),
            54 => Some(Riscv64RelocationType::R_RISCV_SET8),
            55 => Some(Riscv64RelocationType::R_RISCV_SET16),
            56 => Some(Riscv64RelocationType::R_RISCV_SET32),
            57 => Some(Riscv64RelocationType::R_RISCV_32_PCREL),
            58 => Some(Riscv64RelocationType::R_RISCV_IRELATIVE),
            59 => Some(Riscv64RelocationType::R_RISCV_PLT32),
            60 => Some(Riscv64RelocationType::R_RISCV_SET_ULEB128),
            61 => Some(Riscv64RelocationType::R_RISCV_SUB_ULEB128),
            62 => Some(Riscv64RelocationType::R_RISCV_TLSDESC_HI20),
            63 => Some(Riscv64RelocationType::R_RISCV_TLSDESC_LOAD_LO12),
            64 => Some(Riscv64RelocationType::R_RISCV_TLSDESC_ADD_LO12),
            65 => Some(Riscv64RelocationType::R_RISCV_TLSDESC_CALL),
            _ => None,
        }
    }

    /// Decodes a numeric relocation type; `None` for a number that names no kind.
    pub fn from_u32(code: u32) -> (r: Option<Self>)
        ensures
            r == Self::from_code(code),
    {
        match code {
            0 => Some(Riscv64RelocationType::R_RISCV_NONE),
            1 => Some(Riscv64RelocationType::R_RISCV_32),
            2 => Some(Riscv64RelocationType::R_RISCV_64),
            3 => Some(Riscv64RelocationType::R_RISCV_RELATIVE),
            4 => Some(Riscv64RelocationType::R_RISCV_COPY),
            5 => Some(Riscv64RelocationType::R_RISCV_JUMP_SLOT),
            6 => Some(Riscv64RelocationType::R_RISCV_TLS_DTPMOD32),
            7 => Some(Riscv64RelocationType::R_RISCV_TLS_DTPMOD64),
            8 => Some(Riscv64RelocationType::R_RISCV_TLS_DTPREL32),
            9 => Some(Riscv64RelocationType::R_RISCV_TLS_DTPREL64),
            10 => Some(Riscv64RelocationType::R_RISCV_TLS_TPREL32),
            11 => Some(Riscv64RelocationType::R_RISCV_TLS_TPREL64),
            12 => Some(Riscv64RelocationType::R_RISCV_TLSDESC),
            16 => Some(Riscv64RelocationType::R_RISCV_BRANCH),
            17 => Some(Riscv64RelocationType::R_RISCV_JAL),
            18 => Some(Riscv64RelocationType::R_RISCV_CALL),
            19 => Some(Riscv64RelocationType::R_RISCV_CALL_PLT),
            20 => Some(Riscv64RelocationType::R_RISCV_GOT_HI20),
            21 => Some(Riscv64RelocationType::R_RISCV_TLS_GOT_HI20),
            22 => Some(Riscv64RelocationType::R_RISCV_TLS_GD_HI20),
            23 => Some(Riscv64RelocationType::R_RISCV_PCREL_HI20),
            24 => Some(Riscv64RelocationType::R_RISCV_PCREL_LO12_I),
            25 => Some(Riscv64RelocationType::R_RISCV_PCREL_LO12_S),
            26 => Some(Riscv64RelocationType::R_RISCV_HI20),
            27 => Some(Riscv64RelocationType::R_RISCV_LO12_I),
            28 => Some(Riscv64RelocationType::R_RISCV_LO12_S),
            29 => Some(Riscv64RelocationType::R_RISCV_TPREL_HI20),
            30 => Some(Riscv64RelocationType::R_RISCV_TPREL_LO12_I),
            31 => Some(Riscv64RelocationType::R_RISCV_TPREL_LO12_S),
            32 => Some(Riscv64RelocationType::R_RISCV_TPREL_ADD),
            33 => Some(Riscv64RelocationType::R_RISCV_ADD8),
            34 => Some(Riscv64RelocationType::R_RISCV_ADD16),
            35 => Some(Riscv64RelocationType::R_RISCV_ADD32),
            36 => Some(Riscv64RelocationType::R_RISCV_ADD64),
            37 => Some(Riscv64RelocationType::R_RISCV_SUB8),
            38 => Some(Riscv64RelocationType::R_RISCV_SUB16),
            39 => Some(Riscv64RelocationType::R_RISCV_SUB32),
            40 => Some(Riscv64RelocationType::R_RISCV_SUB64),
            41 => Some(Riscv64RelocationType::R_RISCV_GOT32_PCREL),
            43 => Some(Riscv64RelocationType::R_RISCV_ALIGN),
            44 => Some(Riscv64RelocationType::R_RISCV_RVC_BRANCH),
            45 => Some(Riscv64RelocationType::R_RISCV_RVC_JUMP),
            46 => Some(Riscv64RelocationType::R_RISCV_RVC_LUI),
            47 => Some(Riscv64RelocationType::R_RISCV_GPREL_I),
            48 => Some(Riscv64RelocationType::R_RISCV_GPREL_S),
            49 => Some(Riscv64RelocationType::R_RISCV_TPREL_I),
            50 => Some(Riscv64RelocationType::R_RISCV_TPREL_S),
            51 => Some(Riscv64RelocationType::R_RISCV_RELAX),
            52 => Some(Riscv64RelocationType::R_RISCV_SUB6),
            53 => Some(Riscv64RelocationType::R_RISCV_SET6),
            54 => Some(Riscv64RelocationType::R_RISCV_SET8),
            55 => Some(Riscv64RelocationType::R_RISCV_SET16),
            56 => Some(Riscv64RelocationType::R_RISCV_SET32),
            57 => Some(Riscv64RelocationType::R_RISCV_32_PCREL),
            58 => Some(Riscv64RelocationType::R_RISCV_IRELATIVE),
            59 => Some(Riscv64RelocationType::R_RISCV_PLT32),
            60 => Some(Riscv64RelocationType::R_RISCV_SET_ULEB128),
            61 => Some(Riscv64RelocationType::R_RISCV_SUB_ULEB128),
            62 => Some(Riscv64RelocationType::R_RISCV_TLSDESC_HI20),
            63 => Some(Riscv64RelocationType::R_RISCV_TLSDESC_LOAD_LO12),
            64 => Some(Riscv64RelocationType::R_RISCV_TLSDESC_ADD_LO12),
            65 => Some(Riscv64RelocationType::R_RISCV_TLSDESC_CALL),
            _ => None,
        }
    }

    /// The numeric relocation type of this kind.
    pub fn code(&self) -> (r: u32)
        ensures
            r == self.spec_code(),
    {
        match self {
            Riscv64RelocationType::R_RISCV_NONE => 0,
            Riscv64RelocationType::R_RISCV_32 => 1,
            Riscv64RelocationType::R_RISCV_64 => 2,
            Riscv64RelocationType::R_RISCV_RELATIVE => 3,
            Riscv64RelocationType::R_RISCV_COPY => 4,
            Riscv64RelocationType::R_RISCV_JUMP_SLOT => 5,
            Riscv64RelocationType::R_RISCV_TLS_DTPMOD32 => 6,
            Riscv64RelocationType::R_RISCV_TLS_DTPMOD64 => 7,
            Riscv64RelocationType::R_RISCV_TLS_DTPREL32 => 8,
            Riscv64RelocationType::R_RISCV_TLS_DTPREL64 => 9,
            Riscv64RelocationType::R_RISCV_TLS_TPREL32 => 10,
            Riscv64RelocationType::R_RISCV_TLS_TPREL64 => 11,
            Riscv64RelocationType::R_RISCV_TLSDESC => 12,
            Riscv64RelocationType::R_RISCV_BRANCH => 16,
            Riscv64RelocationType::R_RISCV_JAL => 17,
            Riscv64RelocationType::R_RISCV_CALL => 18,
            Riscv64RelocationType::R_RISCV_CALL_PLT => 19,
            Riscv64RelocationType::R_RISCV_GOT_HI20 => 20,
            Riscv64RelocationType::R_RISCV_TLS_GOT_HI20 => 21,
            Riscv64RelocationType::R_RISCV_TLS_GD_HI20 => 22,
            Riscv64RelocationType::R_RISCV_PCREL_HI20 => 23,
            Riscv64RelocationType::R_RISCV_PCREL_LO12_I => 24,
            Riscv64RelocationType::R_RISCV_PCREL_LO12_S => 25,
            Riscv64RelocationType::R_RISCV_HI20 => 26,
            Riscv64RelocationType::R_RISCV_LO12_I => 27,
            Riscv64RelocationType::R_RISCV_LO12_S => 28,
            Riscv64RelocationType::R_RISCV_TPREL_HI20 => 29,
            Riscv64RelocationType::R_RISCV_TPREL_LO12_I => 30,
            Riscv64RelocationType::R_RISCV_TPREL_LO12_S => 31,
            Riscv64RelocationType::R_RISCV_TPREL_ADD => 32,
            Riscv64RelocationType::R_RISCV_ADD8 => 33,
            Riscv64RelocationType::R_RISCV_ADD16 => 34,
            Riscv64RelocationType::R_RISCV_ADD32 => 35,
            Riscv64RelocationType::R_RISCV_ADD64 => 36,
            Riscv64RelocationType::R_RISCV_SUB8 => 37,
            Riscv64RelocationType::R_RISCV_SUB16 => 38,
            Riscv64RelocationType::R_RISCV_SUB32 => 39,
            Riscv64RelocationType::R_RISCV_SUB64 => 40,
            Riscv64RelocationType::R_RISCV_GOT32_PCREL => 41,
            Riscv64RelocationType::R_RISCV_ALIGN => 43,
            Riscv64RelocationType::R_RISCV_RVC_BRANCH => 44,
            Riscv64RelocationType::R_RISCV_RVC_JUMP => 45,
            Riscv64RelocationType::R_RISCV_RVC_LUI => 46,
            Riscv64RelocationType::R_RISCV_GPREL_I => 47,
            Riscv64RelocationType::R_RISCV_GPREL_S => 48,
            Riscv64RelocationType::R_RISCV_TPREL_I => 49,
            Riscv64RelocationType::R_RISCV_TPREL_S => 50,
            Riscv64RelocationType::R_RISCV_RELAX => 51,
            Riscv64RelocationType::R_RISCV_SUB6 => 52,
            Riscv64RelocationType::R_RISCV_SET6 => 53,
            Riscv64RelocationType::R_RISCV_SET8 => 54,
            Riscv64RelocationType::R_RISCV_SET16 => 55,
            Riscv64RelocationType::R_RISCV_SET32 => 56,
            Riscv64RelocationType::R_RISCV_32_PCREL => 57,
            Riscv64RelocationType::R_RISCV_IRELATIVE => 58,
            Riscv64RelocationType::R_RISCV_PLT32 => 59,
            Riscv64RelocationType::R_RISCV_SET_ULEB128 => 60,
            Riscv64RelocationType::R_RISCV_SUB_ULEB128 => 61,
            Riscv64RelocationType::R_RISCV_TLSDESC_HI20 => 62,
            Riscv64RelocationType::R_RISCV_TLSDESC_LOAD_LO12 => 63,
            Riscv64RelocationType::R_RISCV_TLSDESC_ADD_LO12 => 64,
            Riscv64RelocationType::R_RISCV_TLSDESC_CALL => 65,
        }
    }
}

/// How a RISC-V relocation kind acts on its location.
#[derive(Debug, Clone, Copy, PartialEq, Eq, Structural)]
pub enum RvClass {
    Nothing,
    /// Stores `bits` low bits of S + A (of S + A - P with `pcrel`).
    Store { bits: u32, pcrel: bool },
    /// Adds S + A to the value in place, or subtracts it, at `bits` bits.
    AddSub { add: bool, bits: u32 },
    /// Replaces the low six bits of the byte in place by those of S + A.
    Set6,
    /// Subtracts S + A from the low six bits of the byte in place.
    Sub6,
    /// A conditional branch to S + A - P (B-type immediate).
    Branch,
    /// A jump to S + A - P (J-type immediate).
    Jal,
    /// An `auipc`/`jalr` pair reaching S + A - P.
    Call,
    /// The upper 20 bits of S + A (U-type immediate).
    Hi20,
    /// The low 12 bits of S + A in an I-type immediate.
    Lo12I,
    /// The low 12 bits of S + A in an S-type immediate.
    Lo12S,
    /// The upper 20 bits of S + A - P (U-type immediate).
    PcrelHi20,
    /// A compressed conditional branch to S + A - P (CB format).
    RvcBranch,
    /// A compressed jump to S + A - P (CJ format).
    RvcJump,
    Unsupported,
}

/// A CB-format compressed branch with the offset `o`.
pub open spec fn cb_type(insn: u16, o: u64) -> u16 {
    (insn & 0xe383) | ((((o & 0x100) << 4u64) | ((o & 0xc0) >> 1u64) | ((o & 0x20) >> 3u64) | ((o & 0x18) << 7u64) | ((o & 0x6) << 2u64)) as u16)
}

/// A CJ-format compressed jump with the offset `o`.
pub open spec fn cj_type(insn: u16, o: u64) -> u16 {
    (insn & 0xe003) | ((((o & 0x800) << 1u64) | ((o & 0x400) >> 2u64) | ((o & 0x300) << 1u64) | ((o & 0x80) >> 1u64)
        | ((o & 0x40) << 1u64) | ((o & 0x20) >> 3u64) | ((o & 0x10) << 7u64) | ((o & 0xe) << 2u64)) as u16)
}

pub fn cb_type_insn(insn: u16, o: u64) -> (r: u16)
    ensures
        r == cb_type(insn, o),
{
    (insn & 0xe383) | (#[verifier::truncate] ((((o & 0x100) << 4u64) | ((o & 0xc0) >> 1u64) | ((o & 0x20) >> 3u64) | ((o & 0x18) << 7u64) | ((o & 0x6) << 2u64)) as u16))
}

pub fn cj_type_insn(insn: u16, o: u64) -> (r: u16)
    ensures
        r == cj_type(insn, o),
{
    (insn & 0xe003) | (#[verifier::truncate] ((((o & 0x800) << 1u64) | ((o & 0x400) >> 2u64) | ((o & 0x300) << 1u64) | ((o & 0x80) >> 1u64)
        | ((o & 0x40) << 1u64) | ((o & 0x20) >> 3u64) | ((o & 0x10) << 7u64) | ((o & 0xe) << 2u64)) as u16))
}

/// The upper part of a value split so that its low 12 bits are signed.
pub open spec fn hi20(v: u64) -> u32 {
    ((wadd(v, 0x800) >> 12u64) & 0xfffff) as u32
}

/// A U-type instruction with the upper part of `v`.
pub open spec fn u_type(insn: u32, v: u64) -> u32 {
    (insn & 0xfff) | ((hi20(v) << 12u32) as u32)
}

/// An I-type instruction with the low 12 bits of `v`.
pub open spec fn i_type(insn: u32, v: u64) -> u32 {
    (insn & 0xfffff) | (((v & 0xfff) as u32) << 20u32) as u32
}

/// An S-type instruction with the low 12 bits of `v`.
pub open spec fn s_type(insn: u32, v: u64) -> u32 {
    (insn & 0x1fff07f) | ((((v & 0x1f) as u32) << 7u32) as u32) | (((((v >> 5u64) & 0x7f) as u32) << 25u32) as u32)
}

/// A B-type instruction with the branch offset `o`.
pub open spec fn b_type(insn: u32, o: u64) -> u32 {
    (insn & 0x1fff07f) | (((((o >> 12u64) & 1) as u32) << 31u32) as u32) | (((((o >> 5u64) & 0x3f) as u32) << 25u32) as u32)
        | (((((o >> 1u64) & 0xf) as u32) << 8u32) as u32) | (((((o >> 11u64) & 1) as u32) << 7u32) as u32)
}

/// A J-type instruction with the jump offset `o`.
pub open spec fn j_type(insn: u32, o: u64) -> u32 {
    (insn & 0xfff) | (((((o >> 20u64) & 1) as u32) << 31u32) as u32) | (((((o >> 1u64) & 0x3ff) as u32) << 21u32) as u32)
        | (((((o >> 11u64) & 1) as u32) << 20u32) as u32) | (((((o >> 12u64) & 0xff) as u32) << 12u32) as u32)
}

/// Whether an `auipc` pair reaches the offset `o`.
pub open spec fn fits_auipc(o: u64) -> bool {
    -0x8000_0800 <= (o as i64) && (o as i64) < 0x7fff_f800
}

/// The class of each kind.
pub open spec fn rv_class(kind: Riscv64RelocationType) -> RvClass {
    match kind {
        Riscv64RelocationType::R_RISCV_NONE | Riscv64RelocationType::R_RISCV_RELAX | Riscv64RelocationType::R_RISCV_ALIGN => RvClass::Nothing,
        Riscv64RelocationType::R_RISCV_32 => RvClass::Store { bits: 32, pcrel: false },
        Riscv64RelocationType::R_RISCV_64 => RvClass::Store { bits: 64, pcrel: false },
        Riscv64RelocationType::R_RISCV_32_PCREL => RvClass::Store { bits: 32, pcrel: true },
        Riscv64RelocationType::R_RISCV_SET8 => RvClass::Store { bits: 8, pcrel: false },
        Riscv64RelocationType::R_RISCV_SET16 => RvClass::Store { bits: 16, pcrel: false },
        Riscv64RelocationType::R_RISCV_SET32 => RvClass::Store { bits: 32, pcrel: false },
        Riscv64RelocationType::R_RISCV_ADD8 => RvClass::AddSub { add: true, bits: 8 },
        Riscv64RelocationType::R_RISCV_ADD16 => RvClass::AddSub { add: true, bits: 16 },
        Riscv64RelocationType::R_RISCV_ADD32 => RvClass::AddSub { add: true, bits: 32 },
        Riscv64RelocationType::R_RISCV_ADD64 => RvClass::AddSub { add: true, bits: 64 },
        Riscv64RelocationType::R_RISCV_SUB8 => RvClass::AddSub { add: false, bits: 8 },
        Riscv64RelocationType::R_RISCV_SUB16 => RvClass::AddSub { add: false, bits: 16 },
        Riscv64RelocationType::R_RISCV_SUB32 => RvClass::AddSub { add: false, bits: 32 },
        Riscv64RelocationType::R_RISCV_SUB64 => RvClass::AddSub { add: false, bits: 64 },
        Riscv64RelocationType::R_RISCV_SET6 => RvClass::Set6,
        Riscv64RelocationType::R_RISCV_SUB6 => RvClass::Sub6,
        Riscv64RelocationType::R_RISCV_BRANCH => RvClass::Branch,
        Riscv64RelocationType::R_RISCV_JAL => RvClass::Jal,
        Riscv64RelocationType::R_RISCV_CALL | Riscv64RelocationType::R_RISCV_CALL_PLT => RvClass::Call,
        Riscv64RelocationType::R_RISCV_HI20 => RvClass::Hi20,
        Riscv64RelocationType::R_RISCV_LO12_I => RvClass::Lo12I,
        Riscv64RelocationType::R_RISCV_LO12_S => RvClass::Lo12S,
        Riscv64RelocationType::R_RISCV_PCREL_HI20 => RvClass::PcrelHi20,
        Riscv64RelocationType::R_RISCV_RVC_BRANCH => RvClass::RvcBranch,
        Riscv64RelocationType::R_RISCV_RVC_JUMP => RvClass::RvcJump,
        _ => RvClass::Unsupported,
    }
}

/// The value in place at `off`, `bits` bits wide.
pub open spec fn rv_get(mem: Seq<u8>, off: int, bits: u32) -> u64 {
    if bits == 8 {
        mem[off] as u64
    } else if bits == 16 {
        le_u16(mem, off) as u64
    } else if bits == 32 {
        le_u32(mem, off) as u64
    } else {
        le_u64(mem, off)
    }
}

/// The image with the low `bits` bits of `v` stored at `off`.
pub open spec fn rv_put(mem: Seq<u8>, off: int, bits: u32, v: u64) -> Seq<u8> {
    if bits == 8 {
        mem.update(off, v as u8)
    } else if bits == 16 {
        put_u16(mem, off, v as u16)
    } else if bits == 32 {
        put_u32(mem, off, v as u32)
    } else {
        put_u64(mem, off, v)
    }
}

/// Bytes that a relocation of this class touches.
pub open spec fn rv_width(c: RvClass) -> int {
    match c {
        RvClass::Store { bits, .. } => (bits / 8) as int,
        RvClass::AddSub { bits, .. } => (bits / 8) as int,
        RvClass::Set6 | RvClass::Sub6 => 1,
        RvClass::Branch | RvClass::Jal | RvClass::Hi20 | RvClass::Lo12I | RvClass::Lo12S | RvClass::PcrelHi20 => 4,
        RvClass::Call => 8,
        RvClass::RvcBranch | RvClass::RvcJump => 2,
        _ => 0,
    }
}

/// The section image after one relocation, or why it fails.
pub open spec fn rv_step(kind: Riscv64RelocationType, mem: Seq<u8>, off: int, location: u64, address: u64) -> Result<Seq<u8>, RelocFailure> {
    let c = rv_class(kind);
    if rv_width(c) > 0 && off + rv_width(c) > mem.len() {
        Err(RelocFailure::OutOfBounds)
    } else {
        match c {
            RvClass::Nothing => Ok(mem),
            RvClass::Store { bits, pcrel } => Ok(rv_put(mem, off, bits, if pcrel { wsub(address, location) } else { address })),
            RvClass::AddSub { add, bits } => {
                let old = rv_get(mem, off, bits);
                Ok(rv_put(mem, off, bits, if add { wadd(old, address) } else { wsub(old, address) }))
            },
            RvClass::Set6 => Ok(mem.update(off, ((mem[off] & 0xc0) | ((address as u8) & 0x3f)) as u8)),
            RvClass::Sub6 => Ok(mem.update(off, ((mem[off] & 0xc0) | ((wsub(mem[off] as u64, address) as u8) & 0x3f)) as u8)),
            RvClass::Branch => Ok(put_u32(mem, off, b_type(le_u32(mem, off), wsub(address, location)))),
            RvClass::Jal => Ok(put_u32(mem, off, j_type(le_u32(mem, off), wsub(address, location)))),
            RvClass::Call => {
                let o = wsub(address, location);
                if fits_auipc(o) {
                    let m = put_u32(mem, off, u_type(le_u32(mem, off), o));
                    Ok(put_u32(m, off + 4, i_type(le_u32(mem, off + 4), o)))
                } else {
                    Err(RelocFailure::Overflow)
                }
            },
            RvClass::Hi20 => Ok(put_u32(mem, off, u_type(le_u32(mem, off), address))),
            RvClass::Lo12I => Ok(put_u32(mem, off, i_type(le_u32(mem, off), address))),
            RvClass::Lo12S => Ok(put_u32(mem, off, s_type(le_u32(mem, off), address))),
            RvClass::PcrelHi20 => {
                let o = wsub(address, location);
                if fits_auipc(o) {
                    Ok(put_u32(mem, off, u_type(le_u32(mem, off), o)))
                } else {
                    Err(RelocFailure::Overflow)
                }
            },
            RvClass::RvcBranch => Ok(put_u16(mem, off, cb_type(le_u16(mem, off), wsub(address, location)))),
            RvClass::RvcJump => Ok(put_u16(mem, off, cj_type(le_u16(mem, off), wsub(address, location)))),
            RvClass::Unsupported => Err(RelocFailure::Unsupported),
        }
    }
}

impl Riscv64RelocationType {
    /// The class of this kind.
    pub fn class(&self) -> (r: RvClass)
        ensures
            r == rv_class(*self),
    {
        let kind = *self;
        match kind {
            Riscv64RelocationType::R_RISCV_NONE | Riscv64RelocationType::R_RISCV_RELAX | Riscv64RelocationType::R_RISCV_ALIGN => RvClass::Nothing,
            Riscv64RelocationType::R_RISCV_32 => RvClass::Store { bits: 32, pcrel: false },
            Riscv64RelocationType::R_RISCV_64 => RvClass::Store { bits: 64, pcrel: false },
            Riscv64RelocationType::R_RISCV_32_PCREL => RvClass::Store { bits: 32, pcrel: true },
            Riscv64RelocationType::R_RISCV_SET8 => RvClass::Store { bits: 8, pcrel: false },
            Riscv64RelocationType::R_RISCV_SET16 => RvClass::Store { bits: 16, pcrel: false },
            Riscv64RelocationType::R_RISCV_SET32 => RvClass::Store { bits: 32, pcrel: false },
            Riscv64RelocationType::R_RISCV_ADD8 => RvClass::AddSub { add: true, bits: 8 },
            Riscv64RelocationType::R_RISCV_ADD16 => RvClass::AddSub { add: true, bits: 16 },
            Riscv64RelocationType::R_RISCV_ADD32 => RvClass::AddSub { add: true, bits: 32 },
            Riscv64RelocationType::R_RISCV_ADD64 => RvClass::AddSub { add: true, bits: 64 },
            Riscv64RelocationType::R_RISCV_SUB8 => RvClass::AddSub { add: false, bits: 8 },
            Riscv64RelocationType::R_RISCV_SUB16 => RvClass::AddSub { add: false, bits: 16 },
            Riscv64RelocationType::R_RISCV_SUB32 => RvClass::AddSub { add: false, bits: 32 },
            Riscv64RelocationType::R_RISCV_SUB64 => RvClass::AddSub { add: false, bits: 64 },
            Riscv64RelocationType::R_RISCV_SET6 => RvClass::Set6,
            Riscv64RelocationType::R_RISCV_SUB6 => RvClass::Sub6,
            Riscv64RelocationType::R_RISCV_BRANCH => RvClass::Branch,
            Riscv64RelocationType::R_RISCV_JAL => RvClass::Jal,
            Riscv64RelocationType::R_RISCV_CALL | Riscv64RelocationType::R_RISCV_CALL_PLT => RvClass::Call,
            Riscv64RelocationType::R_RISCV_HI20 => RvClass::Hi20,
            Riscv64RelocationType::R_RISCV_LO12_I => RvClass::Lo12I,
            Riscv64RelocationType::R_RISCV_LO12_S => RvClass::Lo12S,
            Riscv64RelocationType::R_RISCV_PCREL_HI20 => RvClass::PcrelHi20,
            Riscv64RelocationType::R_RISCV_RVC_BRANCH => RvClass::RvcBranch,
            Riscv64RelocationType::R_RISCV_RVC_JUMP => RvClass::RvcJump,
            _ => RvClass::Unsupported,
        }
    }

    /// Applies this relocation to the section image `mem` at byte `off`, whose
    /// runtime address is `location`; `address` is S + A.
    pub fn apply_relocation(&self, mem: &mut Vec<u8>, off: usize, location: u64, address: u64) -> (r: Result<(), ModuleLoadErr>)
        ensures
            match rv_step(*self, old(mem)@, off as int, location, address) {
                Ok(m) => r is Ok && final(mem)@ == m,
                Err(e) => r == Err::<(), _>(ModuleLoadErr::RelocationFailed(e)),
            },
            r is Err ==> final(mem)@ == old(mem)@,
    {
        let len = mem.len();
        let c = self.class();
        let width: usize = match c {
            RvClass::Store { bits, .. } => (bits / 8) as usize,
            RvClass::AddSub { bits, .. } => (bits / 8) as usize,
            RvClass::Set6 | RvClass::Sub6 => 1,
            RvClass::Branch | RvClass::Jal | RvClass::Hi20 | RvClass::Lo12I | RvClass::Lo12S | RvClass::PcrelHi20 => 4,
            RvClass::Call => 8,
            RvClass::RvcBranch | RvClass::RvcJump => 2,
            _ => 0,
        };
        assert(width == rv_width(c));
        if width > 0 && (off > len || width > len - off) {
            return Err(ModuleLoadErr::RelocationFailed(RelocFailure::OutOfBounds));
        }
        match c {
            RvClass::Nothing => Ok(()),
            RvClass::Store { bits, pcrel } => {
                let v = if pcrel { address.wrapping_sub(location) } else { address };
                rv_store(mem, off, bits, v);
                Ok(())
            },
            RvClass::AddSub { add, bits } => {
                let old = rv_load(mem, off, bits);
                let v = if add { old.wrapping_add(address) } else { old.wrapping_sub(address) };
                rv_store(mem, off, bits, v);
                Ok(())
            },
            RvClass::Set6 => {
                let b = mem[off];
                mem.set(off, (b & 0xc0) | ((#[verifier::truncate] (address as u8)) & 0x3f));
                Ok(())
            },
            RvClass::Sub6 => {
                let b = mem[off];
                let v: u8 = #[verifier::truncate] ((b as u64).wrapping_sub(address) as u8);
                mem.set(off, (b & 0xc0) | (v & 0x3f));
                Ok(())
            },
            RvClass::Branch => {
                let insn = read_u32(mem, off);
                write_u32(mem, off, b_type_insn(insn, address.wrapping_sub(location)));
                Ok(())
            },
            RvClass::Jal => {
                let insn = read_u32(mem, off);
                write_u32(mem, off, j_type_insn(insn, address.wrapping_sub(location)));
                Ok(())
            },
            RvClass::Call => {
                let o = address.wrapping_sub(location);
                let so: i64 = #[verifier::truncate] (o as i64);
                if !(-0x8000_0800 <= so && so < 0x7fff_f800) {
                    return Err(ModuleLoadErr::RelocationFailed(RelocFailure::Overflow));
                }
                let auipc = read_u32(mem, off);
                let jalr = read_u32(mem, off + 4);
                write_u32(mem, off, u_type_insn(auipc, o));
                write_u32(mem, off + 4, i_type_insn(jalr, o));
                Ok(())
            },
            RvClass::Hi20 => {
                let insn = read_u32(mem, off);
                write_u32(mem, off, u_type_insn(insn, address));
                Ok(())
            },
            RvClass::Lo12I => {
                let insn = read_u32(mem, off);
                write_u32(mem, off, i_type_insn(insn, address));
                Ok(())
            },
            RvClass::Lo12S => {
                let insn = read_u32(mem, off);
                write_u32(mem, off, s_type_insn(insn, address));
                Ok(())
            },
            RvClass::PcrelHi20 => {
                let o = address.wrapping_sub(location);
                let so: i64 = #[verifier::truncate] (o as i64);
                if !(-0x8000_0800 <= so && so < 0x7fff_f800) {
                    return Err(ModuleLoadErr::RelocationFailed(RelocFailure::Overflow));
                }
                let insn = read_u32(mem, off);
                write_u32(mem, off, u_type_insn(insn, o));
                Ok(())
            },
            RvClass::RvcBranch => {
                let insn = read_u16(mem, off);
                write_u16(mem, off, cb_type_insn(insn, address.wrapping_sub(location)));
                Ok(())
            },
            RvClass::RvcJump => {
                let insn = read_u16(mem, off);
                write_u16(mem, off, cj_type_insn(insn, address.wrapping_sub(location)));
                Ok(())
            },
            RvClass::Unsupported => Err(ModuleLoadErr::RelocationFailed(RelocFailure::Unsupported)),
        }
    }
}

pub fn u_type_insn(insn: u32, v: u64) -> (r: u32)
    ensures
        r == u_type(insn, v),
{
    let hi: u32 = #[verifier::truncate] (((v.wrapping_add(0x800) >> 12u64) & 0xfffff) as u32);
    (insn & 0xfff) | (hi << 12u32)
}

pub fn i_type_insn(insn: u32, v: u64) -> (r: u32)
    ensures
        r == i_type(insn, v),
{
    (insn & 0xfffff) | ((#[verifier::truncate] ((v & 0xfff) as u32)) << 20u32)
}

pub fn s_type_insn(insn: u32, v: u64) -> (r: u32)
    ensures
        r == s_type(insn, v),
{
    (insn & 0x1fff07f) | ((#[verifier::truncate] ((v & 0x1f) as u32)) << 7u32) | ((#[verifier::truncate] (((v >> 5u64) & 0x7f) as u32)) << 25u32)
}

pub fn b_type_insn(insn: u32, o: u64) -> (r: u32)
    ensures
        r == b_type(insn, o),
{
    (insn & 0x1fff07f) | ((#[verifier::truncate] (((o >> 12u64) & 1) as u32)) << 31u32) | ((#[verifier::truncate] (((o >> 5u64) & 0x3f) as u32)) << 25u32)
        | ((#[verifier::truncate] (((o >> 1u64) & 0xf) as u32)) << 8u32) | ((#[verifier::truncate] (((o >> 11u64) & 1) as u32)) << 7u32)
}

pub fn j_type_insn(insn: u32, o: u64) -> (r: u32)
    ensures
        r == j_type(insn, o),
{
    (insn & 0xfff) | ((#[verifier::truncate] (((o >> 20u64) & 1) as u32)) << 31u32) | ((#[verifier::truncate] (((o >> 1u64) & 0x3ff) as u32)) << 21u32)
        | ((#[verifier::truncate] (((o >> 11u64) & 1) as u32)) << 20u32) | ((#[verifier::truncate] (((o >> 12u64) & 0xff) as u32)) << 12u32)
}

fn rv_load(mem: &Vec<u8>, off: usize, bits: u32) -> (r: u64)
    requires
        bits == 8 || bits == 16 || bits == 32 || bits == 64,
        off + bits / 8 <= mem@.len(),
    ensures
        r == rv_get(mem@, off as int, bits),
{
    if bits == 8 {
        mem[off] as u64
    } else if bits == 16 {
        read_u16(mem, off) as u64
    } else if bits == 32 {
        read_u32(mem, off) as u64
    } else {
        read_u64(mem, off)
    }
}

fn rv_store(mem: &mut Vec<u8>, off: usize, bits: u32, v: u64)
    requires
        bits == 8 || bits == 16 || bits == 32 || bits == 64,
        off + bits / 8 <= old(mem)@.len(),
    ensures
        final(mem)@ == rv_put(old(mem)@, off as int, bits, v),
{
    if bits == 8 {
        mem.set(off, #[verifier::truncate] (v as u8));
    } else if bits == 16 {
        write_u16(mem, off, #[verifier::truncate] (v as u16));
    } else if bits == 32 {
        write_u32(mem, off, #[verifier::truncate] (v as u32));
    } else {
        write_u64(mem, off, v);
    }
}

/// One rela entry applied to `mem`, the image of the section at `base`, with
/// `syms` the final symbol values.
pub open spec fn rv_run_step(rela: Rela, mem: Seq<u8>, base: u64, syms: Seq<u64>, relas: Seq<Rela>) -> Result<Seq<u8>, RelocFailure> {
    match Riscv64RelocationType::from_code(rela_kind(rela.r_info)) {
        None => Err(RelocFailure::UnknownType),
        Some(kind) => if rela_symbol(rela.r_info) >= syms.len() {
            Err(RelocFailure::BadSymbolIndex)
        } else if rela.r_offset >= mem.len() {
            Err(RelocFailure::OutOfBounds)
        } else if is_pcrel_lo12(kind) {
            pcrel_lo12_step(kind, mem, rela.r_offset as int, base, syms, relas, wadd(syms[rela_symbol(rela.r_info) as int], rela.r_addend as u64))
        } else {
            rv_step(
                kind,
                mem,
                rela.r_offset as int,
                wadd(base, rela.r_offset),
                wadd(syms[rela_symbol(rela.r_info) as int], rela.r_addend as u64),
            )
        },
    }
}

/// The low halves of PC-relative pairs.
pub open spec fn is_pcrel_lo12(kind: Riscv64RelocationType) -> bool {
    kind == Riscv64RelocationType::R_RISCV_PCREL_LO12_I || kind == Riscv64RelocationType::R_RISCV_PCREL_LO12_S
}

/// The first `PCREL_HI20` entry from `j` whose place is `addr`.
pub open spec fn find_hi20(relas: Seq<Rela>, base: u64, addr: u64, j: int) -> Option<int>
    decreases relas.len() - j,
{
    if j < 0 || j >= relas.len() {
        None
    } else if rela_kind(relas[j].r_info) == 23 && wadd(base, relas[j].r_offset) == addr {
        Some(j)
    } else {
        find_hi20(relas, base, addr, j + 1)
    }
}

/// A `PCREL_LO12_I`/`_S` entry whose symbol is the `auipc` at `hi_place`: it
/// takes the low 12 bits of the offset that the `PCREL_HI20` entry there computes.
pub open spec fn pcrel_lo12_step(kind: Riscv64RelocationType, mem: Seq<u8>, off: int, base: u64, syms: Seq<u64>, relas: Seq<Rela>, hi_place: u64) -> Result<Seq<u8>, RelocFailure> {
    if off + 4 > mem.len() {
        Err(RelocFailure::OutOfBounds)
    } else {
        match find_hi20(relas, base, hi_place, 0) {
            None => Err(RelocFailure::UnpairedLo12),
            Some(j) => if rela_symbol(relas[j].r_info) >= syms.len() {
                Err(RelocFailure::BadSymbolIndex)
            } else {
                let o = wsub(wadd(syms[rela_symbol(relas[j].r_info) as int], relas[j].r_addend as u64), wadd(base, relas[j].r_offset));
                Ok(put_u32(mem, off, if kind == Riscv64RelocationType::R_RISCV_PCREL_LO12_I { i_type(le_u32(mem, off), o) } else { s_type(le_u32(mem, off), o) }))
            },
        }
    }
}

/// Applies a `PCREL_LO12_I`/`_S` entry at `off`.
pub fn apply_pcrel_lo12(kind: Riscv64RelocationType, relas: &Vec<Rela>, mem: &mut Vec<u8>, off: usize, base: u64, syms: &Vec<u64>, hi_place: u64) -> (r: Result<(), ModuleLoadErr>)
    requires
        is_pcrel_lo12(kind),
    ensures
        match pcrel_lo12_step(kind, old(mem)@, off as int, base, syms@, relas@, hi_place) {
            Ok(m) => r is Ok && final(mem)@ == m,
            Err(e) => r == Err::<(), _>(ModuleLoadErr::RelocationFailed(e)),
        },
        r is Err ==> final(mem)@ == old(mem)@,
{
    let len = mem.len();
    if off > len || 4 > len - off {
        return Err(ModuleLoadErr::RelocationFailed(RelocFailure::OutOfBounds));
    }
    let mut j: usize = 0;
    while j < relas.len() && !(get_rela_type(relas[j].r_info) == 23 && base.wrapping_add(relas[j].r_offset) == hi_place)
        invariant
            j <= relas@.len(),
            find_hi20(relas@, base, hi_place, 0) == find_hi20(relas@, base, hi_place, j as int),
        decreases relas@.len() - j,
    {
        j += 1;
    }
    if j == relas.len() {
        return Err(ModuleLoadErr::RelocationFailed(RelocFailure::UnpairedLo12));
    }
    let hi = relas[j];
    let sym = get_rela_sym_idx(hi.r_info);
    if sym >= syms.len() as u64 {
        return Err(ModuleLoadErr::RelocationFailed(RelocFailure::BadSymbolIndex));
    }
    let o = syms[sym as usize].wrapping_add(#[verifier::truncate] (hi.r_addend as u64)).wrapping_sub(base.wrapping_add(hi.r_offset));
    let insn = read_u32(mem, off);
    let new_insn = if kind == Riscv64RelocationType::R_RISCV_PCREL_LO12_I { i_type_insn(insn, o) } else { s_type_insn(insn, o) };
    write_u32(mem, off, new_insn);
    Ok(())
}

/// The first `n` entries of `relas` applied in order.
pub open spec fn rv_run(relas: Seq<Rela>, n: nat, mem: Seq<u8>, base: u64, syms: Seq<u64>) -> Result<Seq<u8>, RelocFailure>
    decreases n,
{
    if n == 0 || n > relas.len() {
        Ok(mem)
    } else {
        match rv_run(relas, (n - 1) as nat, mem, base, syms) {
            Err(e) => Err(e),
            Ok(m) => rv_run_step(relas[n - 1], m, base, syms, relas),
        }
    }
}

/// Once a run has failed, running further entries keeps the same failure.
proof fn lemma_rv_run_stops(relas: Seq<Rela>, n: nat, m: nat, mem: Seq<u8>, base: u64, syms: Seq<u64>)
    requires
        n <= m <= relas.len(),
        rv_run(relas, n, mem, base, syms) is Err,
    ensures
        rv_run(relas, m, mem, base, syms) == rv_run(relas, n, mem, base, syms),
    decreases m - n,
{
    if m > n {
        lemma_rv_run_stops(relas, n, (m - 1) as nat, mem, base, syms);
    }
}

pub struct Riscv64ArchRelocate;

impl Riscv64ArchRelocate {
    /// Applies every entry of a relocation section, in order, to `mem`, the
    /// image of the section at runtime address `base`; stops at the first failure.
    pub fn apply_relocate_add(relas: &Vec<Rela>, mem: &mut Vec<u8>, base: u64, syms: &Vec<u64>) -> (r: Result<(), ModuleLoadErr>)
        ensures
            match rv_run(relas@, relas@.len(), old(mem)@, base, syms@) {
                Ok(m) => r is Ok && final(mem)@ == m,
                Err(e) => r == Err::<(), _>(ModuleLoadErr::RelocationFailed(e))
                    && exists|k: nat| k < relas@.len() && #[trigger] rv_run(relas@, k, old(mem)@, base, syms@) == Ok::<Seq<u8>, RelocFailure>(final(mem)@)
                        && rv_run(relas@, k + 1, old(mem)@, base, syms@) == Err::<Seq<u8>, RelocFailure>(e),
            },
    {
        let mut i: usize = 0;
        while i < relas.len()
            invariant
                i <= relas@.len(),
                rv_run(relas@, i as nat, old(mem)@, base, syms@) == Ok::<_, RelocFailure>(mem@),
            decreases relas@.len() - i,
        {
            let rela = relas[i];
            let kind = match Riscv64RelocationType::from_u32(get_rela_type(rela.r_info)) {
                Some(k) => k,
                None => {
                    proof {
                        lemma_rv_run_stops(relas@, (i + 1) as nat, relas@.len(), old(mem)@, base, syms@);
                    assert(rv_run(relas@, i as nat, old(mem)@, base, syms@) == Ok::<Seq<u8>, RelocFailure>(mem@));
                    }
                    return Err(ModuleLoadErr::RelocationFailed(RelocFailure::UnknownType));
                },
            };
            let sym = get_rela_sym_idx(rela.r_info);
            if sym >= syms.len() as u64 {
                proof {
                    lemma_rv_run_stops(relas@, (i + 1) as nat, relas@.len(), old(mem)@, base, syms@);
                    assert(rv_run(relas@, i as nat, old(mem)@, base, syms@) == Ok::<Seq<u8>, RelocFailure>(mem@));
                }
                return Err(ModuleLoadErr::RelocationFailed(RelocFailure::BadSymbolIndex));
            }
            if rela.r_offset >= mem.len() as u64 {
                proof {
                    lemma_rv_run_stops(relas@, (i + 1) as nat, relas@.len(), old(mem)@, base, syms@);
                    assert(rv_run(relas@, i as nat, old(mem)@, base, syms@) == Ok::<Seq<u8>, RelocFailure>(mem@));
                }
                return Err(ModuleLoadErr::RelocationFailed(RelocFailure::OutOfBounds));
            }
            let location = base.wrapping_add(rela.r_offset);
            let target = syms[sym as usize].wrapping_add(#[verifier::truncate] (rela.r_addend as u64));
            let res = if kind == Riscv64RelocationType::R_RISCV_PCREL_LO12_I || kind == Riscv64RelocationType::R_RISCV_PCREL_LO12_S {
                apply_pcrel_lo12(kind, relas, mem, rela.r_offset as usize, base, syms, target)
            } else {
                kind.apply_relocation(mem, rela.r_offset as usize, location, target)
            };
            if res.is_err() {
                proof {
                    lemma_rv_run_stops(relas@, (i + 1) as nat, relas@.len(), old(mem)@, base, syms@);
                    assert(rv_run(relas@, i as nat, old(mem)@, base, syms@) == Ok::<Seq<u8>, RelocFailure>(mem@));
                }
                return res;
            }
            i += 1;
        }
        Ok(())
    }
}

} // verus!
