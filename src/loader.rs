//! The load pipeline: check the object, lay out and fill its sections, resolve
//! its symbols, relocate, read its module record and commit permissions.
use vstd::prelude::*;
use vstd::string::StringExecFns;
use crate::aarch64::Aarch64ArchRelocate;
use crate::elf::{ElfHeader, SectionHeader, Sym, elf_header_of, elf_section_name_of, elf_sections_of, elf_symbols_of, elf_symbol_name_of};
use crate::elf::{elf_section_headers, elf_section_name, elf_symbol_name, elf_symbols, parse_elf_header, read_relas};
use crate::loongarch64::Loongarch64ArchRelocate;
use crate::mem::{le_u64, read_u64};
use crate::module::{Module, ModuleInfo, lookup};
use crate::riscv64::Riscv64ArchRelocate;
use crate::x86_64::X86_64ArchRelocate;
use crate::{ModuleLoadErr, RelocFailure};

verus! {

pub const SHF_WRITE: u64 = 0x1;
pub const SHF_ALLOC: u64 = 0x2;
pub const SHF_EXECINSTR: u64 = 0x4;
pub const SHT_RELA: u32 = 4;
pub const SHT_NOBITS: u32 = 8;
pub const SHT_REL: u32 = 9;
pub const SHN_UNDEF: usize = 0;
pub const SHN_ABS: usize = 0xfff1;
pub const SHN_COMMON: usize = 0xfff2;
pub const ET_REL: u16 = 1;
pub const EM_X86_64: u16 = 62;
pub const EM_AARCH64: u16 = 183;
pub const EM_RISCV: u16 = 243;
pub const EM_LOONGARCH: u16 = 258;
pub const PAGE_SIZE: usize = 4096;
pub const RELA_ENTRY_SIZE: u64 = 24;

/// `n` rounded up to a multiple of the page size.
pub open spec fn round_up(n: int) -> int {
    (n + 4095) / 4096 * 4096
}

/// Rounds `addr` up to a multiple of `align`, which is the page size.
pub fn align_up(addr: usize, align: usize) -> (r: usize)
    requires
        align == PAGE_SIZE,
        addr + align - 1 <= usize::MAX,
    ensures
        r as int == round_up(addr as int),
{
    let x = addr + (align - 1);
    assert(x / 4096 * 4096 <= x) by (nonlinear_arith);
    x / align * align
}

/// Page permissions: read (1), write (2), execute (4).
#[derive(Debug, Clone, Copy, PartialEq, Eq, Structural)]
pub struct SectionPerm {
    pub bits: u8,
}

pub const PERM_READ: u8 = 1;
pub const PERM_WRITE: u8 = 2;
pub const PERM_EXECUTE: u8 = 4;

/// The permissions that ELF section flags ask for: allocated sections are
/// readable, `SHF_WRITE` writable, `SHF_EXECINSTR` executable.
pub open spec fn perm_bits_of(sh_flags: u64) -> u8 {
    ((if sh_flags & SHF_ALLOC != 0 { 1int } else { 0 }) + (if sh_flags & SHF_WRITE != 0 { 2int } else { 0 }) + (if sh_flags & SHF_EXECINSTR != 0 { 4int } else { 0 })) as u8
}

impl SectionPerm {
    pub fn from_elf_flags(sh_flags: u64) -> (r: SectionPerm)
        ensures
            r.bits == perm_bits_of(sh_flags),
    {
        let mut bits: u8 = 0;
        if sh_flags & SHF_ALLOC != 0 {
            bits = bits + PERM_READ;
        }
        if sh_flags & SHF_WRITE != 0 {
            bits = bits + PERM_WRITE;
        }
        if sh_flags & SHF_EXECINSTR != 0 {
            bits = bits + PERM_EXECUTE;
        }
        SectionPerm { bits }
    }

    /// Whether every permission of `other` is in `self`.
    pub fn contains(&self, other: SectionPerm) -> (r: bool)
        ensures
            r == (self.bits & other.bits == other.bits),
    {
        self.bits & other.bits == other.bits
    }
}

/// Where the module record keeps its entry points; the layout is the C ABI's.
#[derive(Debug, Clone, Copy, PartialEq, Eq, Structural)]
pub struct ModuleRecordLayout {
    pub size: usize,
    pub init_offset: usize,
    pub exit_offset: usize,
}

/// What the host provides to the loader.
pub trait KernelModuleHelper {
    /// A zero-filled, page-aligned region of `size` bytes: its base address.
    fn vmalloc(size: usize) -> Option<u64>;

    /// Gives back a region that `vmalloc` handed out.
    fn vfree(base: u64, size: usize);

    /// The address of an exported symbol.
    fn resolve_symbol(name: &str) -> Option<u64>;

    /// Stores the final bytes of a section in its region.
    fn write_section(base: u64, data: &[u8]) -> bool;

    /// Changes the permissions of a region.
    fn change_perms(base: u64, size: usize, perms: SectionPerm) -> bool;

    /// Flushes the instruction cache over a region.
    fn flush_cache(addr: u64, size: usize);

    /// The layout of the module record of `.gnu.linkonce.this_module`.
    fn this_module_layout() -> ModuleRecordLayout;
}

/// One allocated section: its region and the bytes it will hold.
pub struct SectionPages {
    pub name: String,
    pub shndx: usize,
    pub base: u64,
    pub size: usize,
    pub data: Vec<u8>,
    pub perms: SectionPerm,
}

/// The regions of a list of sections.
pub open spec fn regions_of(pages: Seq<SectionPages>) -> Seq<(u64, usize)> {
    pages.map_values(|p: SectionPages| (p.base, p.size))
}

/// A loaded module: its name and `.modinfo`, its sections and its entry points.
pub struct ModuleOwner {
    pub module_info: ModuleInfo,
    pub pages: Vec<SectionPages>,
    pub name: String,
    pub module: Module,
}

impl ModuleOwner {
    /// The name of the module.
    pub fn name(&self) -> (r: &str)
        ensures
            r@ == self.name@,
    {
        self.name.as_str()
    }

    /// The address of the `init` entry point; it can be taken once.
    pub fn take_init_fn(&mut self) -> (r: Result<u64, ModuleLoadErr>)
        ensures
            match old(self).module.spec_init() {
                Some(a) => r == Ok::<u64, ModuleLoadErr>(a),
                None => r == Err::<u64, _>(ModuleLoadErr::InvalidOperation),
            },
            final(self).module.spec_init() is None,
    {
        match self.module.take_init_fn() {
            Some(a) => Ok(a),
            None => Err(ModuleLoadErr::InvalidOperation),
        }
    }

    /// The address of the `exit` entry point; it can be taken once.
    pub fn take_exit_fn(&mut self) -> (r: Option<u64>)
        ensures
            r == old(self).module.spec_exit(),
            final(self).module.spec_exit() is None,
    {
        self.module.take_exit_fn()
    }

    /// Gives back every region of the module, and returns them.
    pub fn release<H: KernelModuleHelper>(self) -> (r: Vec<(u64, usize)>)
        ensures
            r@ == regions_of(self.pages@),
    {
        let mut r: Vec<(u64, usize)> = Vec::new();
        let mut i: usize = 0;
        while i < self.pages.len()
            invariant
                i <= self.pages@.len(),
                r@ == regions_of(self.pages@.subrange(0, i as int)),
            decreases self.pages@.len() - i,
        {
            H::vfree(self.pages[i].base, self.pages[i].size);
            r.push((self.pages[i].base, self.pages[i].size));
            i += 1;
            assert(r@ =~= regions_of(self.pages@.subrange(0, i as int)));
        }
        assert(self.pages@.subrange(0, i as int) =~= self.pages@);
        r
    }
}

/// A symbol name as the loader reports it: demangled where it is a Rust symbol.
pub uninterp spec fn demangled(name: Seq<char>) -> Seq<char>;

/// Relies on `rustc_demangle::demangle`, printed without the hash suffix.
#[verifier::external_body]
fn demangle_name(name: &str) -> (r: String)
    ensures
        r@ == demangled(name@),
{
    format!("{:#}", rustc_demangle::demangle(name))
}

/// The architectures whose relocations the loader applies.
pub open spec fn machine_supported(m: u16) -> bool {
    m == EM_X86_64 || m == EM_AARCH64 || m == EM_RISCV || m == EM_LOONGARCH
}

/// Whether some section holds REL entries, which carry no addend.
pub open spec fn has_rel_section(secs: Seq<SectionHeader>) -> bool {
    exists|i: int| 0 <= i < secs.len() && (#[trigger] secs[i]).sh_type == SHT_REL
}

/// A section that gets a region: allocatable and not empty.
pub open spec fn is_alloc(sec: SectionHeader) -> bool {
    sec.sh_flags & SHF_ALLOC != 0 && sec.sh_size != 0
}

/// The indices below `n` of the sections that get a region, in order.
pub open spec fn alloc_indices(secs: Seq<SectionHeader>, n: int) -> Seq<usize>
    decreases n,
{
    if n <= 0 || n > secs.len() {
        Seq::empty()
    } else if is_alloc(secs[n - 1]) {
        alloc_indices(secs, n - 1).push((n - 1) as usize)
    } else {
        alloc_indices(secs, n - 1)
    }
}

/// The image of an allocated section: its bytes from the file, or zeros for
/// `SHT_NOBITS`, then zeros up to a whole number of pages.
pub open spec fn section_image(data: Seq<u8>, sec: SectionHeader) -> Seq<u8> {
    let size = sec.sh_size as int;
    let pad = Seq::new((round_up(size) - size) as nat, |i: int| 0u8);
    if sec.sh_type == SHT_NOBITS {
        Seq::new(round_up(size) as nat, |i: int| 0u8)
    } else {
        data.subrange(sec.sh_offset as int, sec.sh_offset + size) + pad
    }
}

/// An `SHT_NOBITS` section occupies exactly its size rounded up to whole
/// pages, all of it zero.
pub proof fn lemma_nobits_image(data: Seq<u8>, sec: SectionHeader)
    requires
        sec.sh_type == SHT_NOBITS,
    ensures
        section_image(data, sec).len() == round_up(sec.sh_size as int),
        forall|i: int| 0 <= i < section_image(data, sec).len() ==> #[trigger] section_image(data, sec)[i] == 0,
{
    assert(round_up(sec.sh_size as int) >= 0) by (nonlinear_arith);
}

/// A section that can be placed: its rounded size fits in memory, and its
/// bytes lie within the file unless it is `SHT_NOBITS`.
pub open spec fn section_fits(data: Seq<u8>, sec: SectionHeader) -> bool {
    &&& sec.sh_size <= usize::MAX - 4095
    &&& (sec.sh_type == SHT_NOBITS || sec.sh_offset + sec.sh_size <= data.len())
}

proof fn lemma_alloc_prefix(secs: Seq<SectionHeader>, j: int, m: int)
    requires
        0 <= j <= m <= secs.len(),
    ensures
        alloc_indices(secs, j).len() <= alloc_indices(secs, m).len(),
        alloc_indices(secs, m).subrange(0, alloc_indices(secs, j).len() as int) == alloc_indices(secs, j),
    decreases m - j,
{
    if j < m {
        lemma_alloc_prefix(secs, j, m - 1);
        let a = alloc_indices(secs, j);
        let b = alloc_indices(secs, m - 1);
        if is_alloc(secs[m - 1]) {
            assert(alloc_indices(secs, m).subrange(0, a.len() as int) =~= b.subrange(0, a.len() as int));
        }
    } else {
        assert(alloc_indices(secs, m).subrange(0, alloc_indices(secs, j).len() as int) =~= alloc_indices(secs, j));
    }
}

/// A region that faithfully holds section `p.shndx` of the file, at a
/// page-aligned base.
pub open spec fn page_ok(data: Seq<u8>, secs: Seq<SectionHeader>, p: SectionPages) -> bool {
    &&& p.base % 4096 == 0
    &&& p.shndx < secs.len()
    &&& is_alloc(secs[p.shndx as int])
    &&& p.size as int == round_up(secs[p.shndx as int].sh_size as int)
    &&& p.data@ == section_image(data, secs[p.shndx as int])
    &&& p.perms.bits == perm_bits_of(secs[p.shndx as int].sh_flags)
}

/// The section indices of a list of regions.
pub open spec fn page_indices(pages: Seq<SectionPages>) -> Seq<usize> {
    pages.map_values(|p: SectionPages| p.shndx)
}

/// The first section from `i` named `name`; a name that cannot be read is an error.
pub open spec fn find_section_spec(data: Seq<u8>, secs: Seq<SectionHeader>, name: Seq<char>, i: int) -> Result<usize, ModuleLoadErr>
    decreases secs.len() - i,
{
    if i < 0 || i >= secs.len() {
        Err(ModuleLoadErr::InvalidElf)
    } else {
        match elf_section_name_of(data, secs[i].sh_name) {
            None => Err(ModuleLoadErr::InvalidElf),
            Some(n) => if n == name {
                Ok(i as usize)
            } else {
                find_section_spec(data, secs, name, i + 1)
            },
        }
    }
}

/// The file bytes of a section, if they lie within the file.
pub open spec fn file_bytes(data: Seq<u8>, sec: SectionHeader) -> Option<Seq<u8>> {
    if sec.sh_offset + sec.sh_size <= data.len() {
        Some(data.subrange(sec.sh_offset as int, sec.sh_offset + sec.sh_size))
    } else {
        None
    }
}

/// The `.modinfo` pairs of the object, when the section exists, lies within
/// the file and reads as UTF-8 `key=value` tokens.
pub open spec fn modinfo_of(data: Seq<u8>, secs: Seq<SectionHeader>) -> Option<Seq<(Seq<char>, Seq<char>)>> {
    match find_section_spec(data, secs, ".modinfo"@, 0) {
        Err(_) => None,
        Ok(i) => if i < secs.len() {
            match file_bytes(data, secs[i as int]) {
                None => None,
                Some(b) => match crate::module::modinfo_from(b, 0) {
                    None => None,
                    Some(ps) => if crate::module::pairs_utf8(ps) { Some(crate::module::decode_pairs(ps)) } else { None },
                },
            }
        } else {
            None
        },
    }
}

/// The value of symbol `i` at its final address: resolved externally for an
/// undefined symbol (0 when unresolved), unchanged for an absolute one,
/// offset by its section's address otherwise; common symbols are refused.
pub open spec fn symbol_value(sym: Sym, i: int, addrs: Seq<u64>, resolved: Option<u64>) -> Result<u64, ModuleLoadErr> {
    if i == 0 || sym.st_shndx == SHN_ABS {
        Ok(sym.st_value)
    } else if sym.st_shndx == SHN_UNDEF {
        Ok(match resolved { Some(a) => a, None => 0 })
    } else if sym.st_shndx == SHN_COMMON {
        Err(ModuleLoadErr::UnsupportedFeature)
    } else if sym.st_shndx < addrs.len() {
        Ok(crate::mem::wadd(sym.st_value, addrs[sym.st_shndx as int]))
    } else {
        Err(ModuleLoadErr::InvalidElf)
    }
}

/// A zero-filled buffer.
pub fn zeroed(n: usize) -> (r: Vec<u8>)
    ensures
        r@ == Seq::new(n as nat, |i: int| 0u8),
{
    let mut r: Vec<u8> = Vec::new();
    let mut i: usize = 0;
    while i < n
        invariant
            i <= n,
            r@ == Seq::new(i as nat, |j: int| 0u8),
        decreases n - i,
    {
        r.push(0);
        i += 1;
        assert(r@ =~= Seq::new(i as nat, |j: int| 0u8));
    }
    r
}

/// A relocatable object being loaded.
pub struct ModuleLoader {
    pub elf_data: Vec<u8>,
    pub header: ElfHeader,
    pub sections: Vec<SectionHeader>,
    pub syms: Vec<Sym>,
}

impl ModuleLoader {
    /// Reads the object: it must be a 64-bit relocatable object of a supported
    /// architecture, with RELA relocations only.
    pub fn new(elf_data: Vec<u8>) -> (r: Result<ModuleLoader, ModuleLoadErr>)
        ensures
            match elf_header_of(elf_data@) {
                None => r == Err::<ModuleLoader, _>(ModuleLoadErr::InvalidElf),
                Some(h) => if !h.is_64 {
                    r == Err::<ModuleLoader, _>(ModuleLoadErr::UnsupportedArch)
                } else if h.e_type != ET_REL {
                    r == Err::<ModuleLoader, _>(ModuleLoadErr::InvalidElf)
                } else if !machine_supported(h.e_machine) {
                    r == Err::<ModuleLoader, _>(ModuleLoadErr::UnsupportedArch)
                } else if has_rel_section(elf_sections_of(elf_data@)) {
                    r == Err::<ModuleLoader, _>(ModuleLoadErr::InvalidElf)
                } else {
                    r matches Ok(l) && l.elf_data@ == elf_data@ && l.header == h && l.sections@ == elf_sections_of(elf_data@) && l.syms@ == elf_symbols_of(elf_data@)
                },
            },
    {
        let header = match parse_elf_header(elf_data.as_slice()) {
            Some(h) => h,
            None => return Err(ModuleLoadErr::InvalidElf),
        };
        if !header.is_64 {
            return Err(ModuleLoadErr::UnsupportedArch);
        }
        if header.e_type != ET_REL {
            return Err(ModuleLoadErr::InvalidElf);
        }
        let m = header.e_machine;
        if !(m == EM_X86_64 || m == EM_AARCH64 || m == EM_RISCV || m == EM_LOONGARCH) {
            return Err(ModuleLoadErr::UnsupportedArch);
        }
        let sections = elf_section_headers(elf_data.as_slice());
        let mut i: usize = 0;
        while i < sections.len()
            invariant
                i <= sections@.len(),
                sections@ == elf_sections_of(elf_data@),
                elf_header_of(elf_data@) == Some(header),
                header.is_64 && header.e_type == ET_REL && machine_supported(header.e_machine),
                forall|j: int| 0 <= j < i ==> (#[trigger] sections@[j]).sh_type != SHT_REL,
            decreases sections@.len() - i,
        {
            if sections[i].sh_type == SHT_REL {
                assert(sections@[i as int].sh_type == SHT_REL);
                assert(has_rel_section(sections@));
                return Err(ModuleLoadErr::InvalidElf);
            }
            i += 1;
        }
        let syms = elf_symbols(elf_data.as_slice());
        Ok(ModuleLoader { elf_data, header, sections, syms })
    }

    /// The index of the first section named `name`.
    pub fn find_section(&self, name: &str) -> (r: Result<usize, ModuleLoadErr>)
        ensures
            r == find_section_spec(self.elf_data@, self.sections@, name@, 0),
            r matches Ok(i) ==> i < self.sections@.len(),
    {
        let wanted = String::from_str(name);
        let mut i: usize = 0;
        while i < self.sections.len()
            invariant
                i <= self.sections@.len(),
                wanted@ == name@,
                find_section_spec(self.elf_data@, self.sections@, name@, 0) == find_section_spec(self.elf_data@, self.sections@, name@, i as int),
            decreases self.sections@.len() - i,
        {
            let sec_name = match elf_section_name(self.elf_data.as_slice(), self.sections[i].sh_name) {
                Some(n) => n,
                None => return Err(ModuleLoadErr::InvalidElf),
            };
            if sec_name == wanted {
                return Ok(i);
            }
            i += 1;
        }
        Err(ModuleLoadErr::InvalidElf)
    }

    /// The file bytes of section `idx`, or `InvalidElf` if they lie outside the file.
    fn section_bytes(&self, idx: usize) -> (r: Result<&[u8], ModuleLoadErr>)
        requires
            idx < self.sections@.len(),
        ensures
            match file_bytes(self.elf_data@, self.sections@[idx as int]) {
                Some(b) => r matches Ok(s) && s@ == b,
                None => r == Err::<&[u8], _>(ModuleLoadErr::InvalidElf),
            },
    {
        let sec = self.sections[idx];
        let len = self.elf_data.len() as u64;
        if sec.sh_offset > len || sec.sh_size > len - sec.sh_offset {
            return Err(ModuleLoadErr::InvalidElf);
        }
        Ok(vstd::slice::slice_subrange(self.elf_data.as_slice(), sec.sh_offset as usize, (sec.sh_offset + sec.sh_size) as usize))
    }

    /// Reads `.modinfo` and starts the owner under the module's `name`.
    pub fn pre_read_modinfo(&self) -> (r: Result<ModuleOwner, ModuleLoadErr>)
        ensures
            r matches Ok(o) ==> o.pages@.len() == 0 && lookup(o.module_info@, "name"@, 0) == Some(o.name@)
                && o.module.spec_init() is None && o.module.spec_exit() is None
                && modinfo_of(self.elf_data@, self.sections@) == Some(o.module_info@),
            r is Ok <==> (modinfo_of(self.elf_data@, self.sections@) matches Some(kv) && lookup(kv, "name"@, 0) is Some),
            r matches Err(e) ==> e == ModuleLoadErr::InvalidElf,
    {
        let idx = match self.find_section(".modinfo") {
            Ok(i) => i,
            Err(_) => return Err(ModuleLoadErr::InvalidElf),
        };
        let image = match self.section_bytes(idx) {
            Ok(b) => b,
            Err(_) => return Err(ModuleLoadErr::InvalidElf),
        };
        let module_info = match ModuleInfo::parse(image) {
            Ok(info) => info,
            Err(_) => return Err(ModuleLoadErr::InvalidElf),
        };
        let name = match module_info.get("name") {
            Some(n) => String::from_str(n),
            None => return Err(ModuleLoadErr::InvalidElf),
        };
        Ok(ModuleOwner { module_info, pages: Vec::new(), name, module: Module::new(None, None) })
    }
}

impl ModuleLoader {
    /// Gives each allocatable, non-empty section a region of whole pages,
    /// filled with its file bytes (zeros for `SHT_NOBITS`), and records it in
    /// `owner`. Returns the runtime address of every section: its region's
    /// base, or its own address for a section without a region.
    pub fn layout_and_allocate<H: KernelModuleHelper>(&self, owner: &mut ModuleOwner) -> (r: Result<Vec<u64>, ModuleLoadErr>)
        ensures
            final(owner).name == old(owner).name,
            final(owner).module_info == old(owner).module_info,
            final(owner).module == old(owner).module,
            final(owner).pages@.len() >= old(owner).pages@.len(),
            forall|k: int| 0 <= k < old(owner).pages@.len() ==> #[trigger] final(owner).pages@[k] == old(owner).pages@[k],
            forall|k: int| old(owner).pages@.len() <= k < final(owner).pages@.len() ==> page_ok(self.elf_data@, self.sections@, #[trigger] final(owner).pages@[k]),
            r matches Err(e) ==> e == ModuleLoadErr::InvalidElf || e == ModuleLoadErr::MemoryAllocationFailed,
            ({
                let n = final(owner).pages@.len() - old(owner).pages@.len();
                let a = alloc_indices(self.sections@, self.sections@.len() as int);
                &&& n <= a.len()
                &&& page_indices(final(owner).pages@.subrange(old(owner).pages@.len() as int, final(owner).pages@.len() as int)) == a.subrange(0, n)
                &&& r is Err ==> n < a.len()
                &&& r is Err ==> (r == Err::<Vec<u64>, _>(ModuleLoadErr::InvalidElf) <==> !section_fits(self.elf_data@, self.sections@[a[n] as int]))
                &&& r == Err::<Vec<u64>, _>(ModuleLoadErr::MemoryAllocationFailed) ==> section_fits(self.elf_data@, self.sections@[a[n] as int])
            }),
            (forall|i: int| 0 <= i < self.sections@.len() ==> !is_alloc(#[trigger] self.sections@[i])) ==> r is Ok,
            r matches Ok(addrs) ==> {
                &&& addrs@.len() == self.sections@.len()
                &&& page_indices(final(owner).pages@.subrange(old(owner).pages@.len() as int, final(owner).pages@.len() as int)) == alloc_indices(self.sections@, self.sections@.len() as int)
                &&& forall|k: int| old(owner).pages@.len() <= k < final(owner).pages@.len() ==> addrs@[#[trigger] final(owner).pages@[k].shndx as int] == final(owner).pages@[k].base
                &&& forall|i: int| 0 <= i < self.sections@.len() && !is_alloc(#[trigger] self.sections@[i]) ==> addrs@[i] == self.sections@[i].sh_addr
            },
    {
        let ghost start = old(owner).pages@.len();
        let mut addrs: Vec<u64> = Vec::new();
        let len = self.elf_data.len();
        let data_len = len as u64;
        let mut i: usize = 0;
        while i < self.sections.len()
            invariant
                i <= self.sections@.len(),
                addrs@.len() == i,
                owner.name == old(owner).name,
                owner.module_info == old(owner).module_info,
                owner.module == old(owner).module,
                data_len == self.elf_data@.len(),
                len == self.elf_data@.len(),
                owner.pages@.len() >= start,
                start == old(owner).pages@.len(),
                forall|k: int| 0 <= k < start ==> #[trigger] owner.pages@[k] == old(owner).pages@[k],
                forall|k: int| start <= k < owner.pages@.len() ==> page_ok(self.elf_data@, self.sections@, #[trigger] owner.pages@[k]),
                page_indices(owner.pages@.subrange(start as int, owner.pages@.len() as int)) == alloc_indices(self.sections@, i as int),
                forall|k: int| start <= k < owner.pages@.len() ==> (#[trigger] owner.pages@[k]).shndx < i && addrs@[owner.pages@[k].shndx as int] == owner.pages@[k].base,
                forall|j: int| 0 <= j < i && !is_alloc(#[trigger] self.sections@[j]) ==> addrs@[j] == self.sections@[j].sh_addr,
            decreases self.sections@.len() - i,
        {
            let sec = self.sections[i];
            let ghost before = owner.pages@;
            if sec.sh_flags & SHF_ALLOC == 0 || sec.sh_size == 0 {
                addrs.push(sec.sh_addr);
                assert(alloc_indices(self.sections@, i + 1) == alloc_indices(self.sections@, i as int));
            } else {
                proof {
                    assert(alloc_indices(self.sections@, i + 1) == alloc_indices(self.sections@, i as int).push(i as usize));
                    lemma_alloc_prefix(self.sections@, i + 1, self.sections@.len() as int);
                    lemma_alloc_prefix(self.sections@, i as int, self.sections@.len() as int);
                    let a = alloc_indices(self.sections@, self.sections@.len() as int);
                    let n = alloc_indices(self.sections@, i as int).len() as int;
                    assert(a.subrange(0, n + 1)[n] == i);
                    assert(owner.pages@.subrange(start as int, owner.pages@.len() as int).len() == n);
                }
                if sec.sh_size > (usize::MAX - 4095) as u64 {
                    return Err(ModuleLoadErr::InvalidElf);
                }
                if sec.sh_type != SHT_NOBITS && (sec.sh_offset > data_len || sec.sh_size > data_len - sec.sh_offset) {
                    return Err(ModuleLoadErr::InvalidElf);
                }
                let size = sec.sh_size as usize;
                let aligned = align_up(size, PAGE_SIZE);
                let base = match H::vmalloc(aligned) {
                    Some(b) => b,
                    None => return Err(ModuleLoadErr::MemoryAllocationFailed),
                };
                if base % 4096 != 0 {
                    H::vfree(base, aligned);
                    return Err(ModuleLoadErr::MemoryAllocationFailed);
                }
                let ghost image = section_image(self.elf_data@, self.sections@[i as int]);
                let data = if sec.sh_type == SHT_NOBITS {
                    let z = zeroed(aligned);
                    assert(z@ =~= image);
                    z
                } else {
                    let off = sec.sh_offset as usize;
                    let mut d = crate::param::copy_range(&self.elf_data, off, off + size);
                    let mut pad = zeroed(aligned - size);
                    d.append(&mut pad);
                    assert(d@ =~= image);
                    d
                };
                let name = match elf_section_name(self.elf_data.as_slice(), sec.sh_name) {
                    Some(n) => n,
                    None => String::from_str("<unknown>"),
                };
                let page = SectionPages { name, shndx: i, base, size: aligned, data, perms: SectionPerm::from_elf_flags(sec.sh_flags) };
                assert(page.data@ =~= section_image(self.elf_data@, self.sections@[i as int]));
                owner.pages.push(page);
                addrs.push(base);
                assert(owner.pages@.subrange(start as int, owner.pages@.len() as int) =~= before.subrange(start as int, before.len() as int).push(page));
                assert(page_indices(owner.pages@.subrange(start as int, owner.pages@.len() as int)) =~= page_indices(before.subrange(start as int, before.len() as int)).push(i));
            }
            i += 1;
        }
        proof {
            let a = alloc_indices(self.sections@, self.sections@.len() as int);
            assert(a.subrange(0, a.len() as int) =~= a);
        }
        Ok(addrs)
    }
}

/// The name the loader gives symbol `i`: the null symbol has none; a name
/// that cannot be read is `<unknown>`; others are demangled.
pub open spec fn symbol_name(data: Seq<u8>, sym: Sym, i: int) -> Seq<char> {
    if i == 0 {
        Seq::empty()
    } else {
        match elf_symbol_name_of(data, sym.st_name) {
            Some(n) => demangled(n),
            None => demangled("<unknown>"@),
        }
    }
}

/// One relocation section run by the engine of `machine`.
pub open spec fn arch_run(machine: u16, relas: Seq<crate::elf::Rela>, mem: Seq<u8>, base: u64, syms: Seq<u64>) -> Result<Seq<u8>, RelocFailure> {
    if machine == EM_X86_64 {
        crate::x86_64::x86_run(relas, relas.len(), mem, base, syms)
    } else if machine == EM_AARCH64 {
        crate::aarch64::a64_run(relas, relas.len(), mem, base, syms)
    } else if machine == EM_LOONGARCH {
        crate::loongarch64::la_section(relas, mem, base, syms)
    } else {
        crate::riscv64::rv_run(relas, relas.len(), mem, base, syms)
    }
}

/// The section index and base of each region.
pub open spec fn page_regions(pages: Seq<SectionPages>) -> Seq<(usize, u64)> {
    pages.map_values(|p: SectionPages| (p.shndx, p.base))
}

/// The first region from `k` that holds section `shndx`.
pub open spec fn find_region(regions: Seq<(usize, u64)>, shndx: usize, k: int) -> Option<int>
    decreases regions.len() - k,
{
    if k < 0 || k >= regions.len() {
        None
    } else if regions[k].0 == shndx {
        Some(k)
    } else {
        find_region(regions, shndx, k + 1)
    }
}

/// The first region from `k` that holds section `shndx`.
pub open spec fn find_page(pages: Seq<SectionPages>, shndx: usize, k: int) -> Option<int>
    decreases pages.len() - k,
{
    if k < 0 || k >= pages.len() {
        None
    } else if pages[k].shndx == shndx {
        Some(k)
    } else {
        find_page(pages, shndx, k + 1)
    }
}

/// Whether section `i` is a relocation section to apply: `SHT_RELA`, with a
/// valid and allocatable target.
pub open spec fn is_applied_rela(secs: Seq<SectionHeader>, i: int) -> bool {
    &&& (secs[i].sh_info as int) < secs.len()
    &&& secs[secs[i].sh_info as int].sh_flags & SHF_ALLOC != 0
    &&& secs[i].sh_type == SHT_RELA
}

/// The region images after applying relocation sections `i..` in header
/// order, each to the image of the region of its target section.
pub open spec fn relocate_from(data: Seq<u8>, secs: Seq<SectionHeader>, machine: u16, regions: Seq<(usize, u64)>, images: Seq<Seq<u8>>, syms: Seq<u64>, i: int) -> Result<Seq<Seq<u8>>, ModuleLoadErr>
    decreases secs.len() - i,
{
    if i < 0 || i >= secs.len() {
        Ok(images)
    } else if !is_applied_rela(secs, i) {
        relocate_from(data, secs, machine, regions, images, syms, i + 1)
    } else {
        let shdr = secs[i];
        if shdr.sh_entsize != 24 || shdr.sh_offset + shdr.sh_size > data.len() {
            Err(ModuleLoadErr::InvalidElf)
        } else {
            let relas = crate::elf::relas_at(data, shdr.sh_offset as int, (shdr.sh_size / 24) as nat);
            match find_region(regions, shdr.sh_info as usize, 0) {
                Some(k) => match arch_run(machine, relas, images[k], regions[k].1, syms) {
                    Ok(m) => relocate_from(data, secs, machine, regions, images.update(k, m), syms, i + 1),
                    Err(e) => Err(ModuleLoadErr::RelocationFailed(e)),
                },
                None => match arch_run(machine, relas, Seq::empty(), 0, syms) {
                    Ok(_) => relocate_from(data, secs, machine, regions, images, syms, i + 1),
                    Err(e) => Err(ModuleLoadErr::RelocationFailed(e)),
                },
            }
        }
    }
}

/// The images that the regions of `pages` were filled with from the file.
pub open spec fn laid_images(data: Seq<u8>, secs: Seq<SectionHeader>, pages: Seq<SectionPages>) -> Seq<Seq<u8>> {
    pages.map_values(|p: SectionPages| section_image(data, secs[p.shndx as int]))
}

/// The images of a list of regions.
pub open spec fn page_images(pages: Seq<SectionPages>) -> Seq<Seq<u8>> {
    pages.map_values(|p: SectionPages| p.data@)
}

impl ModuleLoader {
    /// Names every symbol and asks the host for the address of each
    /// undefined one (the null symbol aside).
    pub fn resolve_symbols<H: KernelModuleHelper>(&self) -> (r: (Vec<String>, Vec<Option<u64>>))
        ensures
            r.0@.len() == self.syms@.len(),
            r.1@.len() == self.syms@.len(),
            forall|i: int| 0 <= i < self.syms@.len() ==> (#[trigger] r.0@[i])@ == symbol_name(self.elf_data@, self.syms@[i], i),
            forall|i: int| 0 <= i < self.syms@.len() && (i == 0 || self.syms@[i].st_shndx != SHN_UNDEF) ==> (#[trigger] r.1@[i]) is None,
    {
        let mut names: Vec<String> = Vec::new();
        let mut resolved: Vec<Option<u64>> = Vec::new();
        let mut i: usize = 0;
        while i < self.syms.len()
            invariant
                i <= self.syms@.len(),
                names@.len() == i,
                resolved@.len() == i,
                forall|j: int| 0 <= j < i ==> (#[trigger] names@[j])@ == symbol_name(self.elf_data@, self.syms@[j], j),
                forall|j: int| 0 <= j < i && (j == 0 || self.syms@[j].st_shndx != SHN_UNDEF) ==> (#[trigger] resolved@[j]) is None,
            decreases self.syms@.len() - i,
        {
            if i == 0 {
                names.push(String::new());
                resolved.push(None);
            } else {
                let sym = self.syms[i];
                let raw = match elf_symbol_name(self.elf_data.as_slice(), sym.st_name) {
                    Some(n) => n,
                    None => String::from_str("<unknown>"),
                };
                let name = demangle_name(raw.as_str());
                let addr = if sym.st_shndx == SHN_UNDEF {
                    H::resolve_symbol(name.as_str())
                } else {
                    None
                };
                names.push(name);
                resolved.push(addr);
            }
            i += 1;
        }
        (names, resolved)
    }

    /// Rewrites every symbol's value to its final address, given the runtime
    /// address of each section and what the host resolved.
    pub fn simplify_symbols(&self, addrs: &Vec<u64>, resolved: &Vec<Option<u64>>) -> (r: Result<Vec<u64>, ModuleLoadErr>)
        requires
            resolved@.len() == self.syms@.len(),
        ensures
            r matches Ok(v) ==> v@.len() == self.syms@.len() && forall|i: int| 0 <= i < self.syms@.len() ==> symbol_value(self.syms@[i], i, addrs@, resolved@[i]) == Ok::<u64, ModuleLoadErr>(#[trigger] v@[i]),
            r matches Err(e) ==> exists|i: int| 0 <= i < self.syms@.len() && symbol_value(self.syms@[i], i, addrs@, resolved@[i]) == Err::<u64, ModuleLoadErr>(e) && forall|j: int| 0 <= j < i ==> (#[trigger] symbol_value(self.syms@[j], j, addrs@, resolved@[j])) is Ok,
            (forall|i: int| 0 <= i < self.syms@.len() ==> (#[trigger] symbol_value(self.syms@[i], i, addrs@, resolved@[i])) is Ok) ==> r is Ok,
    {
        let mut values: Vec<u64> = Vec::new();
        let mut i: usize = 0;
        while i < self.syms.len()
            invariant
                i <= self.syms@.len(),
                resolved@.len() == self.syms@.len(),
                values@.len() == i,
                forall|j: int| 0 <= j < i ==> symbol_value(self.syms@[j], j, addrs@, resolved@[j]) == Ok::<u64, ModuleLoadErr>(#[trigger] values@[j]),
            decreases self.syms@.len() - i,
        {
            let sym = self.syms[i];
            let v = if i == 0 || sym.st_shndx == SHN_ABS {
                sym.st_value
            } else if sym.st_shndx == SHN_UNDEF {
                match resolved[i] {
                    Some(a) => a,
                    None => 0,
                }
            } else if sym.st_shndx == SHN_COMMON {
                assert(symbol_value(self.syms@[i as int], i as int, addrs@, resolved@[i as int]) == Err::<u64, ModuleLoadErr>(ModuleLoadErr::UnsupportedFeature));
                assert forall|j: int| 0 <= j < i implies (#[trigger] symbol_value(self.syms@[j], j, addrs@, resolved@[j])) is Ok by {
                    assert(symbol_value(self.syms@[j], j, addrs@, resolved@[j]) == Ok::<u64, ModuleLoadErr>(values@[j]));
                }
                return Err(ModuleLoadErr::UnsupportedFeature);
            } else if sym.st_shndx < addrs.len() {
                sym.st_value.wrapping_add(addrs[sym.st_shndx])
            } else {
                assert(symbol_value(self.syms@[i as int], i as int, addrs@, resolved@[i as int]) == Err::<u64, ModuleLoadErr>(ModuleLoadErr::InvalidElf));
                assert forall|j: int| 0 <= j < i implies (#[trigger] symbol_value(self.syms@[j], j, addrs@, resolved@[j])) is Ok by {
                    assert(symbol_value(self.syms@[j], j, addrs@, resolved@[j]) == Ok::<u64, ModuleLoadErr>(values@[j]));
                }
                return Err(ModuleLoadErr::InvalidElf);
            };
            values.push(v);
            i += 1;
        }
        Ok(values)
    }

    /// Applies the relocation sections in header order: those of type
    /// `SHT_RELA` whose target section is valid and allocatable, each to the
    /// region of its target. The engine is that of the object's architecture.
    pub fn apply_relocations(&self, owner: &mut ModuleOwner, sym_values: &Vec<u64>) -> (r: Result<(), ModuleLoadErr>)
        requires
            machine_supported(self.header.e_machine),
        ensures
            final(owner).name == old(owner).name,
            final(owner).module_info == old(owner).module_info,
            final(owner).module == old(owner).module,
            final(owner).pages@.len() == old(owner).pages@.len(),
            forall|k: int| 0 <= k < old(owner).pages@.len() ==> {
                &&& (#[trigger] final(owner).pages@[k]).shndx == old(owner).pages@[k].shndx
                &&& final(owner).pages@[k].base == old(owner).pages@[k].base
                &&& final(owner).pages@[k].size == old(owner).pages@[k].size
                &&& final(owner).pages@[k].perms == old(owner).pages@[k].perms
                &&& final(owner).pages@[k].name == old(owner).pages@[k].name
            },
            match relocate_from(self.elf_data@, self.sections@, self.header.e_machine, page_regions(old(owner).pages@), page_images(old(owner).pages@), sym_values@, 0) {
                Ok(imgs) => r is Ok && page_images(final(owner).pages@) == imgs,
                Err(e) => r == Err::<(), _>(e),
            },
    {
        let n = self.sections.len();
        let data_len = self.elf_data.len();
        let len = data_len as u64;
        let mut i: usize = 0;
        while i < n
            invariant
                i <= n,
                n == self.sections@.len(),
                len == self.elf_data@.len(),
                data_len == self.elf_data@.len(),
                machine_supported(self.header.e_machine),
                owner.name == old(owner).name,
                owner.module_info == old(owner).module_info,
                owner.module == old(owner).module,
                owner.pages@.len() == old(owner).pages@.len(),
                forall|k: int| 0 <= k < old(owner).pages@.len() ==> {
                    &&& (#[trigger] owner.pages@[k]).shndx == old(owner).pages@[k].shndx
                    &&& owner.pages@[k].base == old(owner).pages@[k].base
                    &&& owner.pages@[k].size == old(owner).pages@[k].size
                    &&& owner.pages@[k].perms == old(owner).pages@[k].perms
                    &&& owner.pages@[k].name == old(owner).pages@[k].name
                },
                relocate_from(self.elf_data@, self.sections@, self.header.e_machine, page_regions(old(owner).pages@), page_images(old(owner).pages@), sym_values@, 0)
                    == relocate_from(self.elf_data@, self.sections@, self.header.e_machine, page_regions(old(owner).pages@), page_images(owner.pages@), sym_values@, i as int),
            decreases n - i,
        {
            let shdr = self.sections[i];
            let info = shdr.sh_info as usize;
            if info < n && self.sections[info].sh_flags & SHF_ALLOC != 0 && shdr.sh_type == SHT_RELA {
                if shdr.sh_entsize != RELA_ENTRY_SIZE || shdr.sh_offset > len || shdr.sh_size > len - shdr.sh_offset {
                    return Err(ModuleLoadErr::InvalidElf);
                }
                let entries = shdr.sh_size / RELA_ENTRY_SIZE;
                assert(24 * entries <= shdr.sh_size) by (nonlinear_arith)
                    requires
                        entries == shdr.sh_size / 24,
                ;
                let count = entries as usize;
                let relas = read_relas(&self.elf_data, shdr.sh_offset as usize, count);
                let mut k: usize = 0;
                while k < owner.pages.len() && owner.pages[k].shndx != info
                    invariant
                        k <= owner.pages@.len(),
                        owner.pages@.len() == old(owner).pages@.len(),
                        forall|q: int| 0 <= q < old(owner).pages@.len() ==> (#[trigger] owner.pages@[q]).shndx == old(owner).pages@[q].shndx,
                        find_region(page_regions(old(owner).pages@), info, 0) == find_region(page_regions(old(owner).pages@), info, k as int),
                    decreases owner.pages@.len() - k,
                {
                    k += 1;
                }
                let res = if k < owner.pages.len() {
                    let ghost before = owner.pages@;
                    let mut page = owner.pages.remove(k);
                    let res = self.relocate_section(&relas, &mut page.data, page.base, sym_values);
                    owner.pages.insert(k, page);
                    assert(owner.pages@ =~= before.update(k as int, page));
                    assert(page_images(owner.pages@) =~= page_images(before).update(k as int, page.data@));
                    res
                } else {
                    let mut nothing: Vec<u8> = Vec::new();
                    self.relocate_section(&relas, &mut nothing, 0, sym_values)
                };
                if res.is_err() {
                    return res;
                }
            }
            i += 1;
        }
        Ok(())
    }

    /// One relocation section, by the engine of the object's architecture.
    fn relocate_section(&self, relas: &Vec<crate::elf::Rela>, mem: &mut Vec<u8>, base: u64, syms: &Vec<u64>) -> (r: Result<(), ModuleLoadErr>)
        requires
            machine_supported(self.header.e_machine),
        ensures
            match arch_run(self.header.e_machine, relas@, old(mem)@, base, syms@) {
                Ok(m) => r is Ok && final(mem)@ == m,
                Err(e) => r == Err::<(), _>(ModuleLoadErr::RelocationFailed(e)),
            },
    {
        let m = self.header.e_machine;
        if m == EM_X86_64 {
            X86_64ArchRelocate::apply_relocate_add(relas, mem, base, syms)
        } else if m == EM_AARCH64 {
            Aarch64ArchRelocate::apply_relocate_add(relas, mem, base, syms)
        } else if m == EM_LOONGARCH {
            Loongarch64ArchRelocate::apply_relocate_add(relas, mem, base, syms)
        } else {
            Riscv64ArchRelocate::apply_relocate_add(relas, mem, base, syms)
        }
    }
}

/// The region that holds the module record, when the record section exists,
/// has the layout's size, has a region, and both entry points lie within it.
pub open spec fn record_page(data: Seq<u8>, secs: Seq<SectionHeader>, pages: Seq<SectionPages>, layout: ModuleRecordLayout) -> Option<int> {
    match find_section_spec(data, secs, ".gnu.linkonce.this_module"@, 0) {
        Err(_) => None,
        Ok(idx) => if idx < secs.len() && secs[idx as int].sh_size == layout.size {
            match find_page(pages, idx, 0) {
                Some(k) => if layout.init_offset + 8 <= pages[k].data@.len() && layout.exit_offset + 8 <= pages[k].data@.len() {
                    Some(k)
                } else {
                    None
                },
                None => None,
            }
        } else {
            None
        },
    }
}

/// An entry point read from the module record: a null address means none.
pub open spec fn entry_at(data: Seq<u8>, off: int) -> Option<u64> {
    if le_u64(data, off) == 0 { None } else { Some(le_u64(data, off)) }
}

impl ModuleLoader {
    /// Reads the relocated module record of `.gnu.linkonce.this_module`,
    /// whose size must be the record's, and keeps its entry points; the
    /// record's layout is the host's.
    pub fn post_read_modinfo<H: KernelModuleHelper>(&self, owner: &mut ModuleOwner) -> (r: Result<(), ModuleLoadErr>)
        ensures
            final(owner).name == old(owner).name,
            final(owner).module_info == old(owner).module_info,
            final(owner).pages == old(owner).pages,
            r is Err ==> final(owner).module == old(owner).module,
            r is Err ==> r == Err::<(), _>(ModuleLoadErr::InvalidElf),
            find_section_spec(self.elf_data@, self.sections@, ".gnu.linkonce.this_module"@, 0) is Err ==> r is Err,
            r is Ok ==> exists|layout: ModuleRecordLayout| #[trigger] record_page(self.elf_data@, self.sections@, old(owner).pages@, layout) matches Some(k)
                && final(owner).module.spec_init() == entry_at(old(owner).pages@[k].data@, layout.init_offset as int)
                && final(owner).module.spec_exit() == entry_at(old(owner).pages@[k].data@, layout.exit_offset as int),
    {
        let layout = H::this_module_layout();
        self.read_module_record(owner, layout)
    }

    /// Reads the entry points of the module record from the region of
    /// `.gnu.linkonce.this_module`, laid out as `layout` says.
    pub fn read_module_record(&self, owner: &mut ModuleOwner, layout: ModuleRecordLayout) -> (r: Result<(), ModuleLoadErr>)
        ensures
            final(owner).name == old(owner).name,
            final(owner).module_info == old(owner).module_info,
            final(owner).pages == old(owner).pages,
            match record_page(self.elf_data@, self.sections@, old(owner).pages@, layout) {
                None => r == Err::<(), _>(ModuleLoadErr::InvalidElf) && final(owner).module == old(owner).module,
                Some(k) => r is Ok
                    && final(owner).module.spec_init() == entry_at(old(owner).pages@[k].data@, layout.init_offset as int)
                    && final(owner).module.spec_exit() == entry_at(old(owner).pages@[k].data@, layout.exit_offset as int),
            },
    {
        let idx = match self.find_section(".gnu.linkonce.this_module") {
            Ok(i) => i,
            Err(_) => return Err(ModuleLoadErr::InvalidElf),
        };
        if self.sections[idx].sh_size != layout.size as u64 {
            return Err(ModuleLoadErr::InvalidElf);
        }
        let mut k: usize = 0;
        while k < owner.pages.len() && owner.pages[k].shndx != idx
            invariant
                k <= owner.pages@.len(),
                owner.pages@ == old(owner).pages@,
                find_page(old(owner).pages@, idx, 0) == find_page(old(owner).pages@, idx, k as int),
            decreases owner.pages@.len() - k,
        {
            k += 1;
        }
        if k == owner.pages.len() {
            return Err(ModuleLoadErr::InvalidElf);
        }
        let data = &owner.pages[k].data;
        let dlen = data.len();
        if layout.init_offset > dlen || 8 > dlen - layout.init_offset || layout.exit_offset > dlen || 8 > dlen - layout.exit_offset {
            return Err(ModuleLoadErr::InvalidElf);
        }
        let init = read_u64(data, layout.init_offset);
        let exit = read_u64(data, layout.exit_offset);
        owner.module = Module::new(if init == 0 { None } else { Some(init) }, if exit == 0 { None } else { Some(exit) });
        Ok(())
    }

    /// Stores each region's final bytes, then sets its permissions and
    /// flushes the instruction cache over it; a refusal by the host is an
    /// invalid operation.
    pub fn set_section_perms<H: KernelModuleHelper>(&self, owner: &ModuleOwner) -> (r: Result<(), ModuleLoadErr>)
        ensures
            r is Ok || r == Err::<(), _>(ModuleLoadErr::InvalidOperation),
            owner.pages@.len() == 0 ==> r is Ok,
    {
        let mut i: usize = 0;
        while i < owner.pages.len()
            invariant
                i <= owner.pages@.len(),
            decreases owner.pages@.len() - i,
        {
            let page = &owner.pages[i];
            if !H::write_section(page.base, page.data.as_slice()) {
                return Err(ModuleLoadErr::InvalidOperation);
            }
            if !H::change_perms(page.base, page.size, page.perms) {
                return Err(ModuleLoadErr::InvalidOperation);
            }
            H::flush_cache(page.base, page.size);
            i += 1;
        }
        Ok(())
    }

    /// Loads the module: reads `.modinfo`, lays out and fills its sections,
    /// resolves its symbols, relocates, reads its module record and commits
    /// permissions. On failure every region allocated so far is given back.
    pub fn load_module<H: KernelModuleHelper>(self) -> (r: Result<ModuleOwner, ModuleLoadErr>)
        requires
            machine_supported(self.header.e_machine),
        ensures
            r matches Ok(o) ==> lookup(o.module_info@, "name"@, 0) == Some(o.name@),
            r matches Ok(o) ==> forall|k: int| 0 <= k < o.pages@.len() ==> {
                &&& (#[trigger] o.pages@[k]).shndx < self.sections@.len()
                &&& o.pages@[k].size as int == round_up(self.sections@[o.pages@[k].shndx as int].sh_size as int)
                &&& o.pages@[k].perms.bits == perm_bits_of(self.sections@[o.pages@[k].shndx as int].sh_flags)
            },
            r matches Ok(o) ==> modinfo_of(self.elf_data@, self.sections@) == Some(o.module_info@),
            r matches Ok(o) ==> page_indices(o.pages@) == alloc_indices(self.sections@, self.sections@.len() as int),
            r matches Ok(o) ==> forall|k: int| 0 <= k < o.pages@.len() ==> (#[trigger] o.pages@[k]).base % 4096 == 0,
            r matches Ok(o) ==> exists|values: Seq<u64>| #[trigger] relocate_from(self.elf_data@, self.sections@, self.header.e_machine, page_regions(o.pages@), laid_images(self.elf_data@, self.sections@, o.pages@), values, 0)
                == Ok::<Seq<Seq<u8>>, ModuleLoadErr>(page_images(o.pages@)),
            r matches Ok(o) ==> exists|layout: ModuleRecordLayout| #[trigger] record_page(self.elf_data@, self.sections@, o.pages@, layout) matches Some(k)
                && o.module.spec_init() == entry_at(o.pages@[k].data@, layout.init_offset as int)
                && o.module.spec_exit() == entry_at(o.pages@[k].data@, layout.exit_offset as int),
            !(modinfo_of(self.elf_data@, self.sections@) matches Some(kv) && lookup(kv, "name"@, 0) is Some) ==> r == Err::<ModuleOwner, _>(ModuleLoadErr::InvalidElf),
    {
        let mut owner = match self.pre_read_modinfo() {
            Ok(o) => o,
            Err(e) => return Err(e),
        };
        let addrs = match self.layout_and_allocate::<H>(&mut owner) {
            Ok(a) => a,
            Err(e) => {
                owner.release::<H>();
                return Err(e);
            },
        };
        let ghost laid = owner.pages@;
        let (_names, resolved) = self.resolve_symbols::<H>();
        let values = match self.simplify_symbols(&addrs, &resolved) {
            Ok(v) => v,
            Err(e) => {
                owner.release::<H>();
                return Err(e);
            },
        };
        assert(page_images(laid) =~= laid_images(self.elf_data@, self.sections@, laid)) by {
            assert forall|k: int| 0 <= k < laid.len() implies page_images(laid)[k] == laid_images(self.elf_data@, self.sections@, laid)[k] by {
                assert(page_ok(self.elf_data@, self.sections@, laid[k]));
            }
        }
        match self.apply_relocations(&mut owner, &values) {
            Ok(()) => {},
            Err(e) => {
                owner.release::<H>();
                return Err(e);
            },
        }
        match self.post_read_modinfo::<H>(&mut owner) {
            Ok(()) => {},
            Err(e) => {
                owner.release::<H>();
                return Err(e);
            },
        }
        match self.set_section_perms::<H>(&owner) {
            Ok(()) => {},
            Err(e) => {
                owner.release::<H>();
                return Err(e);
            },
        }
        assert forall|k: int| 0 <= k < owner.pages@.len() implies {
            &&& (#[trigger] owner.pages@[k]).shndx < self.sections@.len()
            &&& owner.pages@[k].size as int == round_up(self.sections@[owner.pages@[k].shndx as int].sh_size as int)
            &&& owner.pages@[k].perms.bits == perm_bits_of(self.sections@[owner.pages@[k].shndx as int].sh_flags)
        } by {
            assert(page_ok(self.elf_data@, self.sections@, laid[k]));
        }
        assert(page_regions(owner.pages@) =~= page_regions(laid));
        assert(page_indices(owner.pages@) =~= page_indices(laid));
        assert(laid_images(self.elf_data@, self.sections@, owner.pages@) =~= laid_images(self.elf_data@, self.sections@, laid));
        assert forall|k: int| 0 <= k < owner.pages@.len() implies (#[trigger] owner.pages@[k]).base % 4096 == 0 by {
            assert(page_ok(self.elf_data@, self.sections@, laid[k]));
        }
        assert(relocate_from(self.elf_data@, self.sections@, self.header.e_machine, page_regions(owner.pages@), laid_images(self.elf_data@, self.sections@, owner.pages@), values@, 0)
            == Ok::<Seq<Seq<u8>>, ModuleLoadErr>(page_images(owner.pages@)));
        Ok(owner)
    }
}

} // verus!
