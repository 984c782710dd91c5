use kmod_loader::loader::{KernelModuleHelper, ModuleLoader, ModuleRecordLayout, SectionPerm, PERM_EXECUTE, PERM_READ, PERM_WRITE};
use kmod_loader::module::ModuleInfo;
use kmod_loader::{ModuleLoadErr, RelocFailure};
use std::sync::atomic::{AtomicU64, Ordering};

static NEXT_REGION: AtomicU64 = AtomicU64::new(0x10_0000);

struct Host;

impl KernelModuleHelper for Host {
    fn vmalloc(size: usize) -> Option<u64> {
        Some(NEXT_REGION.fetch_add(size as u64 + 0x1000, Ordering::SeqCst))
    }
    fn vfree(_base: u64, _size: usize) {}
    fn resolve_symbol(name: &str) -> Option<u64> {
        if name == "printk" || name == "core::fmt::write" { Some(0xffff_8000_1234_0000) } else { None }
    }
    fn write_section(_base: u64, _data: &[u8]) -> bool {
        true
    }
    fn change_perms(_base: u64, _size: usize, _perms: SectionPerm) -> bool {
        true
    }
    fn flush_cache(_addr: u64, _size: usize) {}
    fn this_module_layout() -> ModuleRecordLayout {
        ModuleRecordLayout { size: 64, init_offset: 16, exit_offset: 24 }
    }
}

struct Section {
    name: &'static str,
    sh_type: u32,
    flags: u64,
    data: Vec<u8>,
    link: u32,
    info: u32,
    entsize: u64,
}

fn push_u16(v: &mut Vec<u8>, x: u16) { v.extend_from_slice(&x.to_le_bytes()); }
fn push_u32(v: &mut Vec<u8>, x: u32) { v.extend_from_slice(&x.to_le_bytes()); }
fn push_u64(v: &mut Vec<u8>, x: u64) { v.extend_from_slice(&x.to_le_bytes()); }

/// A symbol table entry.
fn sym(name: u32, info: u8, shndx: u16, value: u64) -> Vec<u8> {
    let mut v = Vec::new();
    push_u32(&mut v, name);
    v.push(info);
    v.push(0);
    push_u16(&mut v, shndx);
    push_u64(&mut v, value);
    push_u64(&mut v, 0);
    v
}

/// A relocatable ELF64 object for `machine` with the given sections after the null one.
fn build_elf(machine: u16, sections: &[Section]) -> Vec<u8> {
    let mut shstr = vec![0u8];
    let mut names = Vec::new();
    for s in sections {
        names.push(shstr.len() as u32);
        shstr.extend_from_slice(s.name.as_bytes());
        shstr.push(0);
    }
    let shstr_name = shstr.len() as u32;
    shstr.extend_from_slice(b".shstrtab\0");
    let mut body = Vec::new();
    let mut offsets = Vec::new();
    for s in sections {
        while body.len() % 8 != 0 { body.push(0); }
        offsets.push(64 + body.len() as u64);
        if s.sh_type != 8 { body.extend_from_slice(&s.data); }
    }
    while body.len() % 8 != 0 { body.push(0); }
    let shstr_off = 64 + body.len() as u64;
    body.extend_from_slice(&shstr);
    while body.len() % 8 != 0 { body.push(0); }
    let shoff = 64 + body.len() as u64;
    let shnum = sections.len() as u16 + 2;
    let mut out = Vec::new();
    out.extend_from_slice(&[0x7f, b'E', b'L', b'F', 2, 1, 1, 0, 0, 0, 0, 0, 0, 0, 0, 0]);
    push_u16(&mut out, 1);
    push_u16(&mut out, machine);
    push_u32(&mut out, 1);
    push_u64(&mut out, 0);
    push_u64(&mut out, 0);
    push_u64(&mut out, shoff);
    push_u32(&mut out, 0);
    push_u16(&mut out, 64);
    push_u16(&mut out, 0);
    push_u16(&mut out, 0);
    push_u16(&mut out, 64);
    push_u16(&mut out, shnum);
    push_u16(&mut out, shnum - 1);
    out.extend_from_slice(&body);
    out.extend_from_slice(&[0u8; 64]);
    for (i, s) in sections.iter().enumerate() {
        push_u32(&mut out, names[i]);
        push_u32(&mut out, s.sh_type);
        push_u64(&mut out, s.flags);
        push_u64(&mut out, 0);
        push_u64(&mut out, offsets[i]);
        push_u64(&mut out, s.data.len() as u64);
        push_u32(&mut out, s.link);
        push_u32(&mut out, s.info);
        push_u64(&mut out, 8);
        push_u64(&mut out, s.entsize);
    }
    push_u32(&mut out, shstr_name);
    push_u32(&mut out, 3);
    push_u64(&mut out, 0);
    push_u64(&mut out, 0);
    push_u64(&mut out, shstr_off);
    push_u64(&mut out, shstr.len() as u64);
    push_u32(&mut out, 0);
    push_u32(&mut out, 0);
    push_u64(&mut out, 1);
    push_u64(&mut out, 0);
    out
}

fn section(name: &'static str, sh_type: u32, flags: u64, data: Vec<u8>) -> Section {
    Section { name, sh_type, flags, data, link: 0, info: 0, entsize: 0 }
}

/// `.text` (1), `.modinfo` (2), `.gnu.linkonce.this_module` (3), `.bss` (4),
/// `.symtab` (5), `.strtab` (6), and optionally `.rela.text` (7).
fn module_sections(modinfo: &[u8], relas: Option<Vec<u8>>, syms: Vec<u8>) -> Vec<Section> {
    let mut v = vec![
        section(".text", 1, 0x6, vec![0xC3, 0, 0, 0]),
        section(".modinfo", 1, 0, modinfo.to_vec()),
        section(".gnu.linkonce.this_module", 1, 0x3, vec![0u8; 64]),
        section(".bss", 8, 0x3, vec![0u8; 5000]),
        Section { name: ".symtab", sh_type: 2, flags: 0, data: syms, link: 6, info: 1, entsize: 24 },
        section(".strtab", 3, 0, b"\0target\0".to_vec()),
    ];
    if let Some(r) = relas {
        v.push(Section { name: ".rela.text", sh_type: 4, flags: 0x40, data: r, link: 5, info: 1, entsize: 24 });
    }
    v
}

fn null_and_text_symbols() -> Vec<u8> {
    let mut s = sym(0, 0, 0, 0);
    s.extend(sym(0, 3, 1, 0));
    s
}

#[test]
fn minimal_module_without_name_is_invalid() {
    let elf = build_elf(62, &module_sections(b"license=GPL\0", None, null_and_text_symbols()));
    let loader = ModuleLoader::new(elf).expect("object accepted");
    assert_eq!(loader.load_module::<Host>().err(), Some(ModuleLoadErr::InvalidElf));
}

#[test]
fn minimal_module_loads() {
    let elf = build_elf(62, &module_sections(b"name=hello\0", None, null_and_text_symbols()));
    let loader = ModuleLoader::new(elf).expect("object accepted");
    let owner = loader.load_module::<Host>().expect("module loads");
    assert_eq!(owner.name(), "hello");
    assert_eq!(owner.module_info.get("name"), Some("hello"));
    let text = owner.pages.iter().find(|p| p.name == ".text").expect("text region");
    assert_eq!(&text.data[..4], &[0xC3, 0, 0, 0]);
    assert_eq!(text.size, 4096);
    assert_eq!(text.perms.bits, PERM_READ | PERM_EXECUTE);
    let bss = owner.pages.iter().find(|p| p.name == ".bss").expect("bss region");
    assert_eq!(bss.size, 8192);
    assert!(bss.data.iter().all(|b| *b == 0));
    assert_eq!(bss.data.len(), 8192);
    assert_eq!(bss.perms.bits, PERM_READ | PERM_WRITE);
    assert!(owner.pages.iter().all(|p| p.base % 4096 == 0 || p.base >= 0x10_0000));
}

#[test]
fn released_regions_are_those_allocated() {
    let elf = build_elf(62, &module_sections(b"name=hello\0", None, null_and_text_symbols()));
    let owner = ModuleLoader::new(elf).unwrap().load_module::<Host>().unwrap();
    let expected: Vec<(u64, usize)> = owner.pages.iter().map(|p| (p.base, p.size)).collect();
    assert_eq!(expected.len(), 3);
    assert_eq!(owner.release::<Host>(), expected);
}

#[test]
fn x86_overflow_scenario() {
    let mut syms = null_and_text_symbols();
    syms.extend(sym(1, 0x10, 0xfff1, 0x1_0000_0000));
    let mut r = Vec::new();
    push_u64(&mut r, 0);
    push_u64(&mut r, (2u64 << 32) | 11);
    push_u64(&mut r, 0);
    let mut secs = module_sections(b"name=hello\0", Some(r), syms);
    secs[0].data = vec![0u8; 8];
    let elf = build_elf(62, &secs);
    let loader = ModuleLoader::new(elf).unwrap();
    assert_eq!(loader.load_module::<Host>().err(), Some(ModuleLoadErr::RelocationFailed(RelocFailure::Overflow)));
}

#[test]
fn x86_relocation_against_text() {
    let mut syms = null_and_text_symbols();
    syms.extend(sym(1, 0x10, 0xfff1, 0x1234));
    let mut r = Vec::new();
    push_u64(&mut r, 4);
    push_u64(&mut r, (2u64 << 32) | 10);
    push_u64(&mut r, 1);
    let mut secs = module_sections(b"name=hello\0", Some(r), syms);
    secs[0].data = vec![0u8; 8];
    let elf = build_elf(62, &secs);
    let owner = ModuleLoader::new(elf).unwrap().load_module::<Host>().unwrap();
    let text = owner.pages.iter().find(|p| p.name == ".text").unwrap();
    assert_eq!(&text.data[4..8], &0x1235u32.to_le_bytes());
}

#[test]
fn common_symbols_are_unsupported() {
    let mut syms = null_and_text_symbols();
    syms.extend(sym(1, 0x11, 0xfff2, 8));
    let elf = build_elf(62, &module_sections(b"name=hello\0", None, syms));
    assert_eq!(ModuleLoader::new(elf).unwrap().load_module::<Host>().err(), Some(ModuleLoadErr::UnsupportedFeature));
}

#[test]
fn unsupported_machine_and_rel_sections() {
    let elf = build_elf(40, &module_sections(b"name=hello\0", None, null_and_text_symbols()));
    assert_eq!(ModuleLoader::new(elf).err(), Some(ModuleLoadErr::UnsupportedArch));
    let mut secs = module_sections(b"name=hello\0", None, null_and_text_symbols());
    secs.push(Section { name: ".rel.text", sh_type: 9, flags: 0, data: vec![0u8; 16], link: 5, info: 1, entsize: 16 });
    assert_eq!(ModuleLoader::new(build_elf(62, &secs)).err(), Some(ModuleLoadErr::InvalidElf));
    assert_eq!(ModuleLoader::new(vec![1, 2, 3]).err(), Some(ModuleLoadErr::InvalidElf));
}

#[test]
fn init_and_exit_are_taken_once() {
    let elf = build_elf(62, &module_sections(b"name=hello\0", None, null_and_text_symbols()));
    let mut owner = ModuleLoader::new(elf).unwrap().load_module::<Host>().unwrap();
    assert_eq!(owner.take_init_fn(), Err(ModuleLoadErr::InvalidOperation));
    assert_eq!(owner.take_exit_fn(), None);
}

#[test]
fn modinfo_pairs_in_order() {
    let info = ModuleInfo::parse(b"name=hello\0license=GPL\0name=other\0").unwrap();
    assert_eq!(info.get("name"), Some("hello"));
    assert_eq!(info.get("license"), Some("GPL"));
    assert_eq!(info.get("author"), None);
    assert_eq!(ModuleInfo::parse(b"name=hello").err(), Some(ModuleLoadErr::InvalidElf));
    assert_eq!(ModuleInfo::parse(b"novalue\0").err(), Some(ModuleLoadErr::InvalidElf));
    assert_eq!(ModuleInfo::parse(b"a=\xff\0").err(), Some(ModuleLoadErr::InvalidElf));
}

#[test]
fn permissions_follow_flags() {
    assert_eq!(SectionPerm::from_elf_flags(0x2).bits, PERM_READ);
    assert_eq!(SectionPerm::from_elf_flags(0x3).bits, PERM_READ | PERM_WRITE);
    assert_eq!(SectionPerm::from_elf_flags(0x6).bits, PERM_READ | PERM_EXECUTE);
    assert!(SectionPerm::from_elf_flags(0x7).contains(SectionPerm { bits: PERM_WRITE }));
}

#[test]
fn undefined_rust_symbols_resolve_by_demangled_name() {
    let mangled = b"_ZN4core3fmt5write17h0123456789abcdefE";
    let mut strtab = vec![0u8];
    strtab.extend_from_slice(mangled);
    strtab.push(0);
    let mut syms = null_and_text_symbols();
    syms.extend(sym(1, 0x10, 0, 0));
    let mut r = Vec::new();
    push_u64(&mut r, 0);
    push_u64(&mut r, (2u64 << 32) | 1);
    push_u64(&mut r, 0);
    let mut secs = module_sections(b"name=hello\0", Some(r), syms);
    secs[0].data = vec![0u8; 8];
    secs[5].data = strtab;
    let owner = ModuleLoader::new(build_elf(62, &secs)).unwrap().load_module::<Host>().unwrap();
    let text = owner.pages.iter().find(|p| p.name == ".text").unwrap();
    assert_eq!(&text.data[0..8], &0xffff_8000_1234_0000u64.to_le_bytes());
}

struct MisalignedHost;

impl KernelModuleHelper for MisalignedHost {
    fn vmalloc(size: usize) -> Option<u64> {
        Some(NEXT_REGION.fetch_add(size as u64 + 0x1000, Ordering::SeqCst) + 8)
    }
    fn vfree(_base: u64, _size: usize) {}
    fn resolve_symbol(_name: &str) -> Option<u64> {
        None
    }
    fn write_section(_base: u64, _data: &[u8]) -> bool {
        true
    }
    fn change_perms(_base: u64, _size: usize, _perms: SectionPerm) -> bool {
        false
    }
    fn flush_cache(_addr: u64, _size: usize) {}
    fn this_module_layout() -> ModuleRecordLayout {
        ModuleRecordLayout { size: 64, init_offset: 60, exit_offset: 24 }
    }
}

#[test]
fn misaligned_regions_are_refused() {
    let elf = build_elf(62, &module_sections(b"name=hello\0", None, null_and_text_symbols()));
    let loader = ModuleLoader::new(elf).unwrap();
    assert_eq!(loader.load_module::<MisalignedHost>().err(), Some(ModuleLoadErr::MemoryAllocationFailed));
}

#[test]
fn module_record_must_fit_its_layout() {
    let elf = build_elf(62, &module_sections(b"name=hello\0", None, null_and_text_symbols()));
    let loader = ModuleLoader::new(elf).unwrap();
    let mut owner = loader.pre_read_modinfo().unwrap();
    loader.layout_and_allocate::<Host>(&mut owner).unwrap();
    let bad = ModuleRecordLayout { size: 64, init_offset: 4090, exit_offset: 24 };
    assert_eq!(loader.read_module_record(&mut owner, bad), Err(ModuleLoadErr::InvalidElf));
    let wrong_size = ModuleRecordLayout { size: 32, init_offset: 0, exit_offset: 8 };
    assert_eq!(loader.read_module_record(&mut owner, wrong_size), Err(ModuleLoadErr::InvalidElf));
    let good = ModuleRecordLayout { size: 64, init_offset: 16, exit_offset: 24 };
    assert_eq!(loader.read_module_record(&mut owner, good), Ok(()));
    assert_eq!(owner.take_exit_fn(), None);
}

#[test]
fn refused_permissions_are_an_invalid_operation() {
    let elf = build_elf(62, &module_sections(b"name=hello\0", None, null_and_text_symbols()));
    let loader = ModuleLoader::new(elf).unwrap();
    let mut owner = loader.pre_read_modinfo().unwrap();
    assert_eq!(loader.set_section_perms::<MisalignedHost>(&owner), Ok(()));
    loader.layout_and_allocate::<Host>(&mut owner).unwrap();
    assert_eq!(loader.set_section_perms::<MisalignedHost>(&owner), Err(ModuleLoadErr::InvalidOperation));
}
