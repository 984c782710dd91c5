//! Plain-value views of the parts of an ELF object that the loader reads.
use vstd::prelude::*;
use vstd::utf8::{decode_utf8, valid_utf8};
use crate::mem::{le_u64, read_u64};

verus! {

/// One `Elf64_Rela` entry.
#[derive(Debug, Clone, Copy, PartialEq, Eq, Structural)]
pub struct Rela {
    pub r_offset: u64,
    pub r_info: u64,
    pub r_addend: i64,
}

/// The relocation type held in `r_info`: its low 32 bits.
pub open spec fn rela_kind(info: u64) -> u32 {
    (info & 0xffff_ffff) as u32
}

/// The symbol index held in `r_info`: its high 32 bits.
pub open spec fn rela_symbol(info: u64) -> u64 {
    info >> 32u64
}

pub fn get_rela_type(info: u64) -> (r: u32)
    ensures
        r == rela_kind(info),
{
    (info & 0xffff_ffff) as u32
}

pub fn get_rela_sym_idx(info: u64) -> (r: u64)
    ensures
        r == rela_symbol(info),
        r < 0x1_0000_0000,
{
    assert(info >> 32u64 < 0x1_0000_0000) by (bit_vector);
    info >> 32u64
}

/// The ELF header fields that the loader checks.
#[derive(Debug, Clone, Copy, PartialEq, Eq, Structural)]
pub struct ElfHeader {
    pub is_64: bool,
    pub e_type: u16,
    pub e_machine: u16,
}

/// One section header.
#[derive(Debug, Clone, Copy, PartialEq, Eq, Structural)]
pub struct SectionHeader {
    pub sh_name: usize,
    pub sh_type: u32,
    pub sh_flags: u64,
    pub sh_addr: u64,
    pub sh_offset: u64,
    pub sh_size: u64,
    pub sh_link: u32,
    pub sh_info: u32,
    pub sh_addralign: u64,
    pub sh_entsize: u64,
}

/// One entry of the symbol table.
#[derive(Debug, Clone, Copy, PartialEq, Eq, Structural)]
pub struct Sym {
    pub st_name: usize,
    pub st_info: u8,
    pub st_other: u8,
    pub st_shndx: usize,
    pub st_value: u64,
    pub st_size: u64,
}

/// The header that the ELF parser reads from `data`, if it accepts it.
pub uninterp spec fn elf_header_of(data: Seq<u8>) -> Option<ElfHeader>;

/// The section headers that the ELF parser reads from `data`.
pub uninterp spec fn elf_sections_of(data: Seq<u8>) -> Seq<SectionHeader>;

/// The primary symbol table that the ELF parser reads from `data`.
pub uninterp spec fn elf_symbols_of(data: Seq<u8>) -> Seq<Sym>;

/// The section-name string at `off` of the section-header string table.
pub uninterp spec fn elf_section_name_of(data: Seq<u8>, off: usize) -> Option<Seq<char>>;

/// The symbol-name string at `off` of the primary string table.
pub uninterp spec fn elf_symbol_name_of(data: Seq<u8>, off: usize) -> Option<Seq<char>>;

/// Relies on goblin's `Elf::parse`: the header of an object it accepts.
#[verifier::external_body]
pub(crate) fn parse_elf_header(data: &[u8]) -> (r: Option<ElfHeader>)
    ensures
        r == elf_header_of(data@),
{
    match goblin::elf::Elf::parse(data) {
        Ok(e) => Some(ElfHeader { is_64: e.is_64, e_type: e.header.e_type, e_machine: e.header.e_machine }),
        Err(_) => None,
    }
}

/// Relies on goblin's `Elf::parse`: the section headers, in file order.
#[verifier::external_body]
pub(crate) fn elf_section_headers(data: &[u8]) -> (r: Vec<SectionHeader>)
    ensures
        r@ == elf_sections_of(data@),
{
    let e = match goblin::elf::Elf::parse(data) {
        Ok(e) => e,
        Err(_) => return Vec::new(),
    };
    e.section_headers.iter().map(|s| SectionHeader {
        sh_name: s.sh_name, sh_type: s.sh_type, sh_flags: s.sh_flags, sh_addr: s.sh_addr,
        sh_offset: s.sh_offset, sh_size: s.sh_size, sh_link: s.sh_link, sh_info: s.sh_info,
        sh_addralign: s.sh_addralign, sh_entsize: s.sh_entsize,
    }).collect()
}

/// Relies on goblin's `Elf::parse`: the entries of the primary symbol table, in order.
#[verifier::external_body]
pub(crate) fn elf_symbols(data: &[u8]) -> (r: Vec<Sym>)
    ensures
        r@ == elf_symbols_of(data@),
{
    let e = match goblin::elf::Elf::parse(data) {
        Ok(e) => e,
        Err(_) => return Vec::new(),
    };
    e.syms.iter().map(|s| Sym {
        st_name: s.st_name, st_info: s.st_info, st_other: s.st_other,
        st_shndx: s.st_shndx, st_value: s.st_value, st_size: s.st_size,
    }).collect()
}

/// Relies on goblin's `Strtab::get_at` on the section-header string table.
#[verifier::external_body]
pub(crate) fn elf_section_name(data: &[u8], off: usize) -> (r: Option<String>)
    ensures
        r matches Some(s) ==> elf_section_name_of(data@, off) == Some(s@),
        r is None ==> elf_section_name_of(data@, off) is None,
{
    let e = goblin::elf::Elf::parse(data).ok()?;
    e.shdr_strtab.get_at(off).map(|s| s.to_string())
}

/// Relies on goblin's `Strtab::get_at` on the primary string table.
#[verifier::external_body]
pub(crate) fn elf_symbol_name(data: &[u8], off: usize) -> (r: Option<String>)
    ensures
        r matches Some(s) ==> elf_symbol_name_of(data@, off) == Some(s@),
        r is None ==> elf_symbol_name_of(data@, off) is None,
{
    let e = goblin::elf::Elf::parse(data).ok()?;
    e.strtab.get_at(off).map(|s| s.to_string())
}

/// Relies on `core::str::from_utf8`: it accepts exactly the valid UTF-8
/// byte strings, and reads them as the text they encode.
#[verifier::external_body]
pub(crate) fn str_from_utf8(b: &[u8]) -> (r: Option<&str>)
    ensures
        r is Some <==> valid_utf8(b@),
        r matches Some(s) ==> s@ == decode_utf8(b@),
{
    core::str::from_utf8(b).ok()
}

/// The rela entry whose 24 bytes start at `off`.
pub open spec fn rela_at(s: Seq<u8>, off: int) -> Rela {
    Rela { r_offset: le_u64(s, off), r_info: le_u64(s, off + 8), r_addend: le_u64(s, off + 16) as i64 }
}

/// The `n` rela entries that start at `off`.
pub open spec fn relas_at(s: Seq<u8>, off: int, n: nat) -> Seq<Rela> {
    Seq::new(n, |i: int| rela_at(s, off + 24 * i))
}

/// Reads the `n` 24-byte rela entries that start at byte `off`.
pub fn read_relas(data: &Vec<u8>, off: usize, n: usize) -> (r: Vec<Rela>)
    requires
        off + 24 * n <= data@.len(),
    ensures
        r@ == relas_at(data@, off as int, n as nat),
{
    let mut r: Vec<Rela> = Vec::new();
    let mut i: usize = 0;
    let len = data.len();
    while i < n
        invariant
            len == data@.len(),
            i <= n,
            off + 24 * n <= data@.len(),
            r@ == relas_at(data@, off as int, i as nat),
        decreases n - i,
    {
        assert(24 * i + 24 <= 24 * n) by (nonlinear_arith)
            requires
                i < n,
        ;
        let at = off + 24 * i;
        let rela = Rela {
            r_offset: read_u64(data, at),
            r_info: read_u64(data, at + 8),
            r_addend: #[verifier::truncate] (read_u64(data, at + 16) as i64),
        };
        r.push(rela);
        i += 1;
        assert(r@ =~= relas_at(data@, off as int, i as nat));
    }
    r
}

} // verus!
