//! The compute half of the binary-size report: given the section table of
//! a finished binary — each section's name and size — it aggregates the
//! sizes the report prints. Reading directories and files is the caller's
//! business; parsing the bytes of one binary is the elf crate's, behind
//! one trusted wrapper.
use vstd::prelude::*;

verus! {

/// Aggregated sizes of the sections the report cares about.
pub struct ElfSizes {
    pub bss: u64,
    pub data: u64,
    pub rodata: u64,
    pub text: u64,
}

impl ElfSizes {
    /// All four sizes zero.
    pub open spec fn zero() -> ElfSizes {
        ElfSizes { bss: 0, data: 0, rodata: 0, text: 0 }
    }

    /// A record with all four sizes zero.
    pub fn new() -> (r: ElfSizes)
        ensures
            r == ElfSizes::zero(),
    {
        ElfSizes { bss: 0, data: 0, rodata: 0, text: 0 }
    }

    /// The per-field sum of two size records.
    pub fn add(&self, rhs: &ElfSizes) -> (r: ElfSizes)
        requires
            self.bss + rhs.bss <= u64::MAX,
            self.data + rhs.data <= u64::MAX,
            self.rodata + rhs.rodata <= u64::MAX,
            self.text + rhs.text <= u64::MAX,
        ensures
            r.bss == self.bss + rhs.bss,
            r.data == self.data + rhs.data,
            r.rodata == self.rodata + rhs.rodata,
            r.text == self.text + rhs.text,
    {
        ElfSizes {
            bss: self.bss + rhs.bss,
            data: self.data + rhs.data,
            rodata: self.rodata + rhs.rodata,
            text: self.text + rhs.text,
        }
    }
}

/// One section of a binary, as the report reads it: its name and its size.
pub struct Section {
    pub name: String,
    pub size: u64,
}

/// A section table as plain values: each section's name and size, in table
/// order.
pub open spec fn section_table(s: Seq<Section>) -> Seq<(Seq<char>, u64)> {
    s.map_values(|sec: Section| (sec.name@, sec.size))
}

/// What one section contributes to the report: it sets the field its name
/// picks out; a section of any other name changes nothing.
pub open spec fn apply_section(acc: ElfSizes, name: Seq<char>, size: u64) -> ElfSizes {
    if name == ".bss"@ {
        ElfSizes { bss: size, data: acc.data, rodata: acc.rodata, text: acc.text }
    } else if name == ".data"@ {
        ElfSizes { bss: acc.bss, data: size, rodata: acc.rodata, text: acc.text }
    } else if name == ".rodata"@ {
        ElfSizes { bss: acc.bss, data: acc.data, rodata: size, text: acc.text }
    } else if name == ".text"@ {
        ElfSizes { bss: acc.bss, data: acc.data, rodata: acc.rodata, text: size }
    } else {
        acc
    }
}

/// The sizes a section table yields, read in order; where a name repeats,
/// the later section wins.
pub open spec fn sizes_of(table: Seq<(Seq<char>, u64)>) -> ElfSizes
    decreases table.len(),
{
    if table.len() == 0 {
        ElfSizes::zero()
    } else {
        apply_section(sizes_of(table.drop_last()), table.last().0, table.last().1)
    }
}

/// Aggregates a binary's section table into the sizes the report prints.
pub fn get_sizes(sections: &Vec<Section>) -> (r: ElfSizes)
    ensures
        r == sizes_of(section_table(sections@)),
{
    let bss: String = ".bss".to_owned();
    let data: String = ".data".to_owned();
    let rodata: String = ".rodata".to_owned();
    let text: String = ".text".to_owned();
    let mut r = ElfSizes::new();
    let mut i: usize = 0;
    proof {
        assert(section_table(sections@.take(0)) =~= Seq::<(Seq<char>, u64)>::empty());
    }
    while i < sections.len()
        invariant
            i <= sections@.len(),
            bss@ == ".bss"@,
            data@ == ".data"@,
            rodata@ == ".rodata"@,
            text@ == ".text"@,
            r == sizes_of(section_table(sections@.take(i as int))),
        decreases sections@.len() - i,
    {
        let sec = &sections[i];
        if sec.name == bss {
            r = ElfSizes { bss: sec.size, data: r.data, rodata: r.rodata, text: r.text };
        } else if sec.name == data {
            r = ElfSizes { bss: r.bss, data: sec.size, rodata: r.rodata, text: r.text };
        } else if sec.name == rodata {
            r = ElfSizes { bss: r.bss, data: r.data, rodata: sec.size, text: r.text };
        } else if sec.name == text {
            r = ElfSizes { bss: r.bss, data: r.data, rodata: r.rodata, text: sec.size };
        }
        proof {
            let t1 = section_table(sections@.take(i + 1 as int));
            assert(t1.drop_last() =~= section_table(sections@.take(i as int)));
            assert(t1.last() == (sections@[i as int].name@, sections@[i as int].size));
        }
        i = i + 1;
    }
    proof {
        assert(sections@.take(sections@.len() as int) =~= sections@);
    }
    r
}

/// The section table the elf crate reads out of these bytes — each
/// section's name and size, in table order — or nothing where the bytes do
/// not parse as an object with named sections.
pub uninterp spec fn elf_section_table(data: Seq<u8>) -> Option<Seq<(Seq<char>, u64)>>;

/// Relies on elf's ElfBytes::minimal_parse and section_headers_with_strtab:
/// what they read is a function of the bytes alone; each section header's
/// name is looked up in the section-name string table, in table order.
#[verifier::external_body]
fn parse_section_table(data: &[u8]) -> (r: Option<Vec<Section>>)
    ensures
        match r {
            Some(v) => elf_section_table(data@) == Some(section_table(v@)),
            None => elf_section_table(data@) is None,
        },
{
    let file = elf::ElfBytes::<elf::endian::AnyEndian>::minimal_parse(data).ok()?;
    let (shdrs, strtab) = match file.section_headers_with_strtab().ok()? {
        (Some(shdrs), Some(strtab)) => (shdrs, strtab),
        _ => return None,
    };
    let mut out = Vec::new();
    for shdr in shdrs.iter() {
        let name = strtab.get(shdr.sh_name as usize).ok()?;
        out.push(Section { name: name.to_owned(), size: shdr.sh_size });
    }
    Some(out)
}

/// The size report for one finished binary: its bytes parsed as an object
/// file, its section table aggregated; nothing where the bytes do not
/// parse.
pub fn sizes_from_binary(data: &[u8]) -> (r: Option<ElfSizes>)
    ensures
        match elf_section_table(data@) {
            Some(t) => r == Some(sizes_of(t)),
            None => r is None,
        },
{
    match parse_section_table(data) {
        Some(sections) => Some(get_sizes(&sections)),
        None => None,
    }
}

/// Whether a file name names an example binary proper: build products
/// carry a dot (auxiliary files) or a hyphen (a trailing build hash); an
/// example's own name has neither.
pub fn is_example_name(name: &[u8]) -> (r: bool)
    ensures
        r == (forall|i: int| 0 <= i < name@.len() ==> name@[i] != 46u8 && name@[i] != 45u8),
{
    let mut i: usize = 0;
    while i < name.len()
        invariant
            i <= name@.len(),
            forall|j: int| 0 <= j < i ==> name@[j] != 46u8 && name@[j] != 45u8,
        decreases name@.len() - i,
    {
        let b = name[i];
        if b == 46u8 || b == 45u8 {
            return false;
        }
        i = i + 1;
    }
    true
}

} // verus!
