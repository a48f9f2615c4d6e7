use e_probe_rs::elf_symbols::get_rtt_symbol;
use e_probe_rs::elf_symbols::get_symbol;
use e_probe_rs::probe_rs_invoke::ProbeRsHandler;
use e_probe_rs::scan_region::derive_scan_region;
use e_probe_rs::scan_region::ScanRegion;

fn push_u16(v: &mut Vec<u8>, x: u16) {
    v.extend_from_slice(&x.to_le_bytes());
}

fn push_u32(v: &mut Vec<u8>, x: u32) {
    v.extend_from_slice(&x.to_le_bytes());
}

fn push_u64(v: &mut Vec<u8>, x: u64) {
    v.extend_from_slice(&x.to_le_bytes());
}

/// A 64-bit little-endian ELF with one global symbol per entry of `symbols`,
/// laid out as: header, .symtab, .strtab, .shstrtab, section headers.
fn build_elf(symbols: &[(&str, u64)]) -> Vec<u8> {
    let symtab_off: u64 = 64;
    let symtab_size: u64 = 24 * (symbols.len() as u64 + 1);

    let mut strtab: Vec<u8> = vec![0];
    let mut name_offsets: Vec<u32> = Vec::new();
    for (name, _) in symbols {
        name_offsets.push(strtab.len() as u32);
        strtab.extend_from_slice(name.as_bytes());
        strtab.push(0);
    }
    let strtab_off = symtab_off + symtab_size;
    let strtab_size = strtab.len() as u64;

    let shstrtab: Vec<u8> = b"\0.symtab\0.strtab\0.shstrtab\0".to_vec();
    let shstrtab_off = strtab_off + strtab_size;
    let shstrtab_size = shstrtab.len() as u64;

    let mut shoff = shstrtab_off + shstrtab_size;
    let pad = (8 - (shoff % 8)) % 8;
    shoff += pad;

    let mut elf: Vec<u8> = Vec::new();
    // ELF identification: magic, 64-bit class, little-endian, version 1.
    elf.extend_from_slice(&[0x7f, b'E', b'L', b'F', 2, 1, 1, 0]);
    elf.extend_from_slice(&[0u8; 8]);
    push_u16(&mut elf, 2); // e_type: executable
    push_u16(&mut elf, 40); // e_machine: ARM
    push_u32(&mut elf, 1); // e_version
    push_u64(&mut elf, 0); // e_entry
    push_u64(&mut elf, 0); // e_phoff
    push_u64(&mut elf, shoff); // e_shoff
    push_u32(&mut elf, 0); // e_flags
    push_u16(&mut elf, 64); // e_ehsize
    push_u16(&mut elf, 0); // e_phentsize
    push_u16(&mut elf, 0); // e_phnum
    push_u16(&mut elf, 64); // e_shentsize
    push_u16(&mut elf, 4); // e_shnum
    push_u16(&mut elf, 3); // e_shstrndx

    // .symtab: the null symbol, then one global object symbol per entry.
    elf.extend_from_slice(&[0u8; 24]);
    for (i, (_, value)) in symbols.iter().enumerate() {
        push_u32(&mut elf, name_offsets[i]); // st_name
        elf.push(0x11); // st_info: GLOBAL | OBJECT
        elf.push(0); // st_other
        push_u16(&mut elf, 0xfff1); // st_shndx: SHN_ABS
        push_u64(&mut elf, *value); // st_value
        push_u64(&mut elf, 0); // st_size
    }

    elf.extend_from_slice(&strtab);
    elf.extend_from_slice(&shstrtab);
    elf.extend_from_slice(&vec![0u8; pad as usize]);

    let mut shdr = |name: u32, ty: u32, off: u64, size: u64, link: u32, info: u32, align: u64,
                    entsize: u64, elf: &mut Vec<u8>| {
        push_u32(elf, name);
        push_u32(elf, ty);
        push_u64(elf, 0); // sh_flags
        push_u64(elf, 0); // sh_addr
        push_u64(elf, off);
        push_u64(elf, size);
        push_u32(elf, link);
        push_u32(elf, info);
        push_u64(elf, align);
        push_u64(elf, entsize);
    };
    shdr(0, 0, 0, 0, 0, 0, 0, 0, &mut elf); // null section
    shdr(1, 2, symtab_off, symtab_size, 2, 1, 8, 24, &mut elf); // .symtab
    shdr(9, 3, strtab_off, strtab_size, 0, 0, 1, 0, &mut elf); // .strtab
    shdr(17, 3, shstrtab_off, shstrtab_size, 0, 0, 1, 0, &mut elf); // .shstrtab

    elf
}

#[test]
fn rtt_symbol_resolves_from_elf() {
    // RTT-via-ELF-symbol scenario: the conventional symbol resolves to its
    // st_value.
    let elf = build_elf(&[("_SEGGER_RTT", 0x2000_1234)]);
    assert_eq!(get_rtt_symbol(&elf), Some(0x2000_1234));
}

#[test]
fn first_matching_symbol_wins() {
    let elf = build_elf(&[
        ("other", 0x1000),
        ("_SEGGER_RTT", 0x2000_1234),
        ("_SEGGER_RTT", 0x3000_0000),
    ]);
    assert_eq!(get_rtt_symbol(&elf), Some(0x2000_1234));
    assert_eq!(get_symbol(&elf, "other"), Some(0x1000));
}

#[test]
fn missing_symbol_is_soft() {
    let elf = build_elf(&[("main", 0x800_0000)]);
    assert_eq!(get_rtt_symbol(&elf), None);
    assert_eq!(get_symbol(&elf, "_SEGGER_RTT"), None);
}

#[test]
fn malformed_elf_is_soft() {
    assert_eq!(get_rtt_symbol(b"this is not an elf image"), None);
    assert_eq!(get_rtt_symbol(&[]), None);
    let mut truncated = build_elf(&[("_SEGGER_RTT", 0x2000_1234)]);
    truncated.truncate(40);
    assert_eq!(get_rtt_symbol(&truncated), None);
}

#[test]
fn derive_region_prefers_override_address() {
    // Override dominates, whatever ELF is supplied at the same time.
    let elf = build_elf(&[("_SEGGER_RTT", 0x2000_1234)]);
    let r = derive_scan_region(Some(&elf), Some(0x2000_0000));
    assert!(matches!(r, ScanRegion::Exact(0x2000_0000)));
    let r = derive_scan_region(None, Some(0x2000_0000));
    assert!(matches!(r, ScanRegion::Exact(0x2000_0000)));
}

#[test]
fn derive_region_reads_elf_when_no_override() {
    let elf = build_elf(&[("_SEGGER_RTT", 0x2000_1234)]);
    let r = derive_scan_region(Some(&elf), None);
    assert!(matches!(r, ScanRegion::Exact(0x2000_1234)));
}

#[test]
fn derive_region_falls_back_to_ram() {
    let without_symbol = build_elf(&[("main", 0x0800_0000)]);
    assert!(matches!(derive_scan_region(Some(&without_symbol), None), ScanRegion::Ram));
    let garbage = b"garbage".to_vec();
    assert!(matches!(derive_scan_region(Some(&garbage), None), ScanRegion::Ram));
    assert!(matches!(derive_scan_region(None, None), ScanRegion::Ram));
}

#[test]
fn derive_region_is_deterministic() {
    let elf = build_elf(&[("_SEGGER_RTT", 0x2000_1234)]);
    for _ in 0..3 {
        let a = derive_scan_region(Some(&elf), None);
        let b = derive_scan_region(Some(&elf), None);
        assert_eq!(a.exact_addr(), b.exact_addr());
        assert_eq!(a.is_ram(), b.is_ram());
    }
}

#[test]
fn region_accessors_distinguish_the_variants() {
    assert_eq!(ScanRegion::Exact(0x2000_0000).exact_addr(), Some(0x2000_0000));
    assert!(!ScanRegion::Exact(0x2000_0000).is_ram());
    assert_eq!(ScanRegion::Ram.exact_addr(), None);
    assert!(ScanRegion::Ram.is_ram());
    let ranges = ScanRegion::Ranges(vec![(0x2000_0000, 0x2000_4000)]);
    assert_eq!(ranges.exact_addr(), None);
    assert!(!ranges.is_ram());
}

#[test]
fn handler_stores_derived_region_from_elf() {
    let elf = build_elf(&[("_SEGGER_RTT", 0x2000_1234)]);
    let mut h = ProbeRsHandler::default();
    h.get_scan_region(Some(&elf), None);
    assert_eq!(h.stored_region_exact_addr(), Some(0x2000_1234));
    // A later derivation replaces the stored region.
    h.get_scan_region(None, None);
    assert_eq!(h.stored_region_exact_addr(), None);
    assert!(h.has_scan_region());
}
