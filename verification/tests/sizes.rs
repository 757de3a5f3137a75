use syscore::sizes::{get_sizes, is_example_name, sizes_from_binary, ElfSizes, Section};

fn section(name: &str, size: u64) -> Section {
    Section { name: name.to_owned(), size }
}

#[test]
fn get_sizes_picks_the_named_sections() {
    let sections = vec![
        section("", 0),
        section(".text", 100),
        section(".bss", 20),
        section(".data", 30),
        section(".rodata", 5),
        section(".debug_info", 999),
    ];
    let sizes = get_sizes(&sections);
    assert_eq!(sizes.bss, 20);
    assert_eq!(sizes.data, 30);
    assert_eq!(sizes.rodata, 5);
    assert_eq!(sizes.text, 100);
}

#[test]
fn get_sizes_later_section_of_same_name_wins() {
    let sections = vec![section(".text", 100), section(".text", 42)];
    let sizes = get_sizes(&sections);
    assert_eq!(sizes.text, 42);
    assert_eq!(sizes.bss, 0);
}

#[test]
fn add_sums_field_by_field() {
    let a = ElfSizes { bss: 1, data: 2, rodata: 3, text: 4 };
    let b = ElfSizes { bss: 10, data: 20, rodata: 30, text: 40 };
    let c = a.add(&b);
    assert_eq!(c.bss, 11);
    assert_eq!(c.data, 22);
    assert_eq!(c.rodata, 33);
    assert_eq!(c.text, 44);
}

#[test]
fn example_names_have_no_dot_and_no_hyphen() {
    assert!(is_example_name(b"console"));
    assert!(is_example_name(b""));
    assert!(!is_example_name(b"console.d"));
    assert!(!is_example_name(b"console-8f1e2d"));
}

fn push_u16(v: &mut Vec<u8>, x: u16) {
    v.extend_from_slice(&x.to_le_bytes());
}

fn push_u32(v: &mut Vec<u8>, x: u32) {
    v.extend_from_slice(&x.to_le_bytes());
}

fn push_u64(v: &mut Vec<u8>, x: u64) {
    v.extend_from_slice(&x.to_le_bytes());
}

fn push_shdr64(
    v: &mut Vec<u8>,
    name: u32,
    kind: u32,
    offset: u64,
    size: u64,
) {
    push_u32(v, name);
    push_u32(v, kind);
    push_u64(v, 0); // sh_flags
    push_u64(v, 0); // sh_addr
    push_u64(v, offset);
    push_u64(v, size);
    push_u32(v, 0); // sh_link
    push_u32(v, 0); // sh_info
    push_u64(v, 0); // sh_addralign
    push_u64(v, 0); // sh_entsize
}

// A minimal 64-bit little-endian relocatable object: a null section, a
// .text section of size 0x123, and the section-name string table.
fn tiny_elf() -> Vec<u8> {
    let mut v = Vec::new();
    // e_ident
    v.extend_from_slice(&[0x7f, b'E', b'L', b'F', 2, 1, 1, 0]);
    v.extend_from_slice(&[0; 8]);
    push_u16(&mut v, 1); // e_type: relocatable
    push_u16(&mut v, 0x3e); // e_machine: x86-64
    push_u32(&mut v, 1); // e_version
    push_u64(&mut v, 0); // e_entry
    push_u64(&mut v, 0); // e_phoff
    push_u64(&mut v, 64); // e_shoff: headers right after this header
    push_u32(&mut v, 0); // e_flags
    push_u16(&mut v, 64); // e_ehsize
    push_u16(&mut v, 0); // e_phentsize
    push_u16(&mut v, 0); // e_phnum
    push_u16(&mut v, 64); // e_shentsize
    push_u16(&mut v, 3); // e_shnum
    push_u16(&mut v, 2); // e_shstrndx
    assert_eq!(v.len(), 64);
    let strtab: &[u8] = b"\0.text\0.shstrtab\0";
    let strtab_offset = 64 + 3 * 64;
    push_shdr64(&mut v, 0, 0, 0, 0); // null section
    push_shdr64(&mut v, 1, 1, 0, 0x123); // .text, PROGBITS
    push_shdr64(&mut v, 7, 3, strtab_offset, strtab.len() as u64); // .shstrtab, STRTAB
    assert_eq!(v.len() as u64, strtab_offset);
    v.extend_from_slice(strtab);
    v
}

#[test]
fn sizes_from_binary_reads_a_real_section_table() {
    let bytes = tiny_elf();
    let sizes = sizes_from_binary(&bytes).expect("the object should parse");
    assert_eq!(sizes.text, 0x123);
    assert_eq!(sizes.bss, 0);
    assert_eq!(sizes.data, 0);
    assert_eq!(sizes.rodata, 0);
}

#[test]
fn sizes_from_binary_rejects_bytes_that_are_no_object() {
    assert!(sizes_from_binary(&[]).is_none());
    assert!(sizes_from_binary(b"not an object file").is_none());
}
