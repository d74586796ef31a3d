//! A summary of a Windows PE image's headers: its machine, its subsystem, the DLLs
//! its import directory names and the layers those imports show.
//!
//! The image's bytes are read by the caller; an image larger than
//! `PE_READ_SIZE_CEILING` is not read.
use vstd::prelude::*;
use crate::analyze::discovery::{detected_layers, layers_of};
use crate::analyze::PeSummary;
use crate::games::opt_text;
use crate::runtime::stage::{holds, le_u32_at};
use crate::strmap::{keys_of, sorted_keys, text_lt, StrMap};
use crate::text::{lower, lowercase};

verus! {

/// The largest image that is read for a summary.
pub const PE_READ_SIZE_CEILING: u64 = 268435456;

/// What `std::str::from_utf8` makes of `bytes`: the text they encode, or nothing
/// where they are not UTF-8.
pub uninterp spec fn utf8_decoded(bytes: Seq<u8>) -> Option<Seq<char>>;

/// Whether every byte is ASCII.
pub open spec fn all_ascii(bytes: Seq<u8>) -> bool {
    forall|i: int| 0 <= i < bytes.len() ==> bytes[i] < 128
}

/// Decodes `bytes[start..end]` as UTF-8 with `std::str::from_utf8`. ASCII bytes
/// decode to one character each, as the UTF-8 encoding defines; what other bytes
/// decode to is named by `utf8_decoded`.
#[verifier::external_body]
fn utf8_text(bytes: &[u8], start: usize, end: usize) -> (r: Option<String>)
    requires start <= end <= bytes@.len(),
    ensures
        match r {
            Some(s) => utf8_decoded(bytes@.subrange(start as int, end as int)) == Some(s@)
                && (all_ascii(bytes@.subrange(start as int, end as int))
                    ==> s@ == bytes@.subrange(start as int, end as int).map_values(|b: u8| b as char)),
            None => utf8_decoded(bytes@.subrange(start as int, end as int)) is None
                && !all_ascii(bytes@.subrange(start as int, end as int)),
        },
{
    std::str::from_utf8(&bytes[start..end]).ok().map(|s| s.to_string())
}

/// A section header: where the section lies in memory and in the file.
#[derive(Debug, Clone, Copy)]
pub struct Section {
    pub virtual_address: u32,
    pub virtual_size: u32,
    pub raw_offset: u32,
    pub raw_size: u32,
}

/// The little-endian 16-bit number at `o`, if the image holds it.
pub open spec fn u16_at(b: Seq<u8>, o: int) -> Option<int> {
    if holds(b, o, 2) { Some(b[o] + 256 * b[o + 1]) } else { None }
}

/// The little-endian 32-bit number at `o`, if the image holds it.
pub open spec fn u32_at(b: Seq<u8>, o: int) -> Option<int> {
    if holds(b, o, 4) { Some(le_u32_at(b, o)) } else { None }
}

/// The name of a COFF machine type.
pub open spec fn machine_label(machine: int) -> Option<Seq<char>> {
    if machine == 0x014c { Some("x86"@) }
    else if machine == 0x8664 { Some("x86_64"@) }
    else if machine == 0xaa64 { Some("arm64"@) }
    else { None }
}

/// The name of a PE subsystem.
pub open spec fn subsystem_label(subsystem: int) -> Option<Seq<char>> {
    if subsystem == 2 { Some("windows-gui"@) }
    else if subsystem == 3 { Some("windows-console"@) }
    else { None }
}

/// The section header at `o`.
pub open spec fn section_at(b: Seq<u8>, o: int) -> Section {
    Section {
        virtual_size: le_u32_at(b, o + 8) as u32,
        virtual_address: le_u32_at(b, o + 12) as u32,
        raw_size: le_u32_at(b, o + 16) as u32,
        raw_offset: le_u32_at(b, o + 20) as u32,
    }
}

/// The section table: up to `count` headers from `o` on, as long as whole headers fit.
pub open spec fn sections_from(b: Seq<u8>, o: int, count: nat) -> Seq<Section>
    decreases count,
{
    if count == 0 || !holds(b, o, 40) {
        Seq::empty()
    } else {
        seq![section_at(b, o)] + sections_from(b, o + 40, (count - 1) as nat)
    }
}

/// Where in the file address `rva` lies, if it is inside section `s`; a section
/// whose end passes the 32-bit range maps nothing. The sum wraps at 32 bits.
pub open spec fn offset_in_section(s: Section, rva: int) -> Option<int> {
    let size = if s.virtual_size >= s.raw_size { s.virtual_size as int } else { s.raw_size as int };
    let end = s.virtual_address + size;
    if end > u32::MAX || !(s.virtual_address <= rva && rva < end) {
        None
    } else {
        Some((s.raw_offset + (rva - s.virtual_address)) % 0x1_0000_0000)
    }
}

/// The file offset of `rva` in the first section, from `i` on, that holds it.
pub open spec fn rva_offset_from(rva: int, sections: Seq<Section>, i: int) -> Option<int>
    decreases sections.len() - i,
{
    if i < 0 || i >= sections.len() {
        None
    } else {
        match offset_in_section(sections[i], rva) {
            Some(o) => Some(o),
            None => rva_offset_from(rva, sections, i + 1),
        }
    }
}

/// The file offset of `rva`, from the first section that holds it.
pub open spec fn rva_offset(rva: int, sections: Seq<Section>) -> Option<int> {
    rva_offset_from(rva, sections, 0)
}

/// Where the first NUL byte at or after `o` is.
pub open spec fn nul_from(b: Seq<u8>, o: int) -> Option<int>
    decreases b.len() - o,
{
    if o < 0 || o >= b.len() {
        None
    } else if b[o] == 0 {
        Some(o)
    } else {
        nul_from(b, o + 1)
    }
}

/// The NUL-terminated UTF-8 text at `o`, if there is one.
pub open spec fn c_string_at(b: Seq<u8>, o: int) -> Option<Seq<char>> {
    match nul_from(b, o) {
        Some(end) => utf8_decoded(b.subrange(o, end)),
        None => None,
    }
}

/// Whether the import descriptor at `d` is the all-zero one that ends the table.
pub open spec fn null_descriptor(b: Seq<u8>, d: int) -> bool {
    le_u32_at(b, d) == 0 && le_u32_at(b, d + 4) == 0 && le_u32_at(b, d + 8) == 0
        && le_u32_at(b, d + 12) == 0 && le_u32_at(b, d + 16) == 0
}

/// The lowercased DLL names of the import descriptors from `d` on, at most `left`
/// of them, in table order; a name that cannot be found or decoded is skipped.
/// Nothing where a name's offset lies past the end of the image: that image is not
/// summarized.
pub open spec fn import_names_from(b: Seq<u8>, d: int, sections: Seq<Section>, left: nat) -> Option<Seq<Seq<char>>>
    decreases left,
{
    if left == 0 || !holds(b, d, 20) || null_descriptor(b, d) {
        Some(Seq::empty())
    } else {
        let rest = import_names_from(b, d + 20, sections, (left - 1) as nat);
        match rva_offset(le_u32_at(b, d + 12), sections) {
            None => rest,
            Some(no) => if no > b.len() {
                None
            } else {
                match c_string_at(b, no) {
                    Some(name) => match rest {
                        Some(r) => Some(seq![lower(name)] + r),
                        None => None,
                    },
                    None => rest,
                }
            },
        }
    }
}

/// The names of the import table at `import_rva`: none when the table cannot be
/// placed in a section.
pub open spec fn import_names(b: Seq<u8>, import_rva: int, sections: Seq<Section>) -> Option<Seq<Seq<char>>> {
    match rva_offset(import_rva, sections) {
        Some(d) => import_names_from(b, d, sections, 512),
        None => Some(Seq::empty()),
    }
}

/// The headers an image's summary is read from.
pub struct PeHeaders {
    pub pe: u64,
    pub machine: u64,
    pub section_count: u64,
    pub optional_offset: u64,
    pub section_offset: u64,
    pub subsystem: u64,
    pub import_rva: u64,
}

/// The headers of `b`, if it is a PE image whose headers can be read: an `MZ` DOS
/// header, a `PE\0\0` signature inside the image, and a PE32 or PE32+ optional
/// header whose subsystem and import directory entry are inside the image.
pub open spec fn pe_headers(b: Seq<u8>) -> Option<PeHeaders> {
    if b.len() < 0x40 || b[0] != 0x4d || b[1] != 0x5a {
        None
    } else {
        let pe = le_u32_at(b, 0x3c);
        if pe + 24 >= b.len() || !(b[pe] == 0x50 && b[pe + 1] == 0x45 && b[pe + 2] == 0 && b[pe + 3] == 0) {
            None
        } else {
            let optional_offset = pe + 24;
            let optional_size = u16_at(b, pe + 20)->0;
            let magic = u16_at(b, optional_offset);
            let subsystem = u16_at(b, optional_offset + 68);
            let data_dir = if magic == Some(0x10bint) { optional_offset + 96 } else { optional_offset + 112 };
            let import_rva = u32_at(b, data_dir + 8);
            if optional_offset + optional_size > usize::MAX || magic is None || subsystem is None
                || !(magic == Some(0x10bint) || magic == Some(0x20bint)) || import_rva is None {
                None
            } else {
                Some(PeHeaders {
                    pe: pe as u64,
                    machine: u16_at(b, pe + 4)->0 as u64,
                    section_count: u16_at(b, pe + 6)->0 as u64,
                    optional_offset: optional_offset as u64,
                    section_offset: (optional_offset + optional_size) as u64,
                    subsystem: subsystem->0 as u64,
                    import_rva: import_rva->0 as u64,
                })
            }
        }
    }
}

/// The section table of an image with headers `h`.
pub open spec fn pe_sections(b: Seq<u8>, h: PeHeaders) -> Seq<Section> {
    sections_from(b, h.section_offset as int, h.section_count as nat)
}

/// The import names of an image with headers `h`: none read for a zero import address.
pub open spec fn pe_import_names(b: Seq<u8>, h: PeHeaders) -> Option<Seq<Seq<char>>> {
    if h.import_rva == 0 { Some(Seq::empty()) } else { import_names(b, h.import_rva as int, pe_sections(b, h)) }
}

/// Whether `r` holds each of `names` once, in increasing text order.
pub open spec fn sorted_unique(r: Seq<Seq<char>>, names: Seq<Seq<char>>) -> bool {
    &&& forall|i: int, j: int| 0 <= i < j < r.len() ==> text_lt(#[trigger] r[i], #[trigger] r[j])
    &&& forall|n: Seq<char>| #[trigger] r.contains(n) <==> names.contains(n)
}

/// Whether `s` is the summary of the image `b`.
pub open spec fn summarizes(s: PeSummary, b: Seq<u8>) -> bool {
    match pe_headers(b) {
        None => false,
        Some(h) => match pe_import_names(b, h) {
            None => false,
            Some(names) => {
                &&& opt_text(s.machine) == machine_label(h.machine as int)
                &&& opt_text(s.subsystem) == subsystem_label(h.subsystem as int)
                &&& sorted_unique(s.import_dlls.deep_view(), names)
                &&& s.detected_layers.deep_view() == layers_of(s.import_dlls.deep_view())
            },
        },
    }
}

/// Whether the image is a PE image whose summary would read a DLL name from past
/// its end.
pub open spec fn reads_past_end(b: Seq<u8>) -> bool {
    pe_headers(b) matches Some(h) && pe_import_names(b, h) is None
}

// ---------------------------------------------------------------- reading

fn read_u16(b: &[u8], o: u64) -> (r: Option<u64>)
    ensures
        match r {
            Some(v) => u16_at(b@, o as int) == Some(v as int),
            None => u16_at(b@, o as int) is None,
        },
{
    let len = b.len() as u64;
    if o > len || len - o < 2 {
        return None;
    }
    let i = o as usize;
    Some(b[i] as u64 + 256 * (b[i + 1] as u64))
}

fn read_u32(b: &[u8], o: u64) -> (r: Option<u64>)
    ensures
        match r {
            Some(v) => u32_at(b@, o as int) == Some(v as int) && v <= u32::MAX,
            None => u32_at(b@, o as int) is None,
        },
{
    let len = b.len() as u64;
    if o > len || len - o < 4 {
        return None;
    }
    let i = o as usize;
    Some(b[i] as u64 + 256 * (b[i + 1] as u64) + 65536 * (b[i + 2] as u64) + 16777216 * (b[i + 3] as u64))
}

fn machine_name(machine: u64) -> (r: Option<String>)
    ensures opt_text(r) == machine_label(machine as int),
{
    if machine == 0x014c { Some("x86".to_owned()) }
    else if machine == 0x8664 { Some("x86_64".to_owned()) }
    else if machine == 0xaa64 { Some("arm64".to_owned()) }
    else { None }
}

fn subsystem_name(subsystem: u64) -> (r: Option<String>)
    ensures opt_text(r) == subsystem_label(subsystem as int),
{
    if subsystem == 2 { Some("windows-gui".to_owned()) }
    else if subsystem == 3 { Some("windows-console".to_owned()) }
    else { None }
}

fn read_sections(b: &[u8], offset: u64, count: u64) -> (r: Vec<Section>)
    requires offset <= 0x2_0000_0000, count <= 0x10000,
    ensures r@ == sections_from(b@, offset as int, count as nat),
{
    let mut sections: Vec<Section> = Vec::new();
    let len = b.len() as u64;
    let mut index: u64 = 0;
    while index < count
        invariant
            offset <= 0x2_0000_0000, count <= 0x10000,
            len == b@.len(),
            index <= count,
            sections@ + sections_from(b@, offset + index * 40, (count - index) as nat)
                == sections_from(b@, offset as int, count as nat),
        decreases count - index,
    {
        let o = offset + index * 40;
        if o > len || len - o < 40 {
            assert(sections_from(b@, offset + index * 40, (count - index) as nat) =~= Seq::<Section>::empty());
            assert(sections@ =~= sections@ + Seq::<Section>::empty());
            return sections;
        }
        let i = o as usize;
        let s = Section {
            virtual_size: read_u32(b, o + 8).unwrap() as u32,
            virtual_address: read_u32(b, o + 12).unwrap() as u32,
            raw_size: read_u32(b, o + 16).unwrap() as u32,
            raw_offset: read_u32(b, o + 20).unwrap() as u32,
        };
        proof {
            assert(sections_from(b@, o as int, (count - index) as nat)
                == seq![section_at(b@, o as int)] + sections_from(b@, o + 40, (count - index - 1) as nat));
            assert(o + 40 == offset + (index + 1) * 40);
        }
        let ghost before = sections@;
        sections.push(s);
        assert(sections@ + sections_from(b@, offset + (index + 1) * 40, (count - (index + 1)) as nat)
            =~= before + (seq![section_at(b@, o as int)] + sections_from(b@, o + 40, (count - index - 1) as nat)));
        index = index + 1;
    }
    assert(sections_from(b@, offset + index * 40, (count - index) as nat) =~= Seq::<Section>::empty());
    assert(sections@ =~= sections@ + Seq::<Section>::empty());
    sections
}

fn rva_to_offset(rva: u64, sections: &Vec<Section>) -> (r: Option<u64>)
    requires rva <= u32::MAX,
    ensures
        match r {
            Some(o) => rva_offset(rva as int, sections@) == Some(o as int) && o <= u32::MAX,
            None => rva_offset(rva as int, sections@) is None,
        },
{
    let mut i: usize = 0;
    while i < sections.len()
        invariant
            rva <= u32::MAX,
            i <= sections.len(),
            rva_offset_from(rva as int, sections@, i as int) == rva_offset(rva as int, sections@),
        decreases sections.len() - i,
    {
        let s = sections[i];
        let size: u64 = if s.virtual_size >= s.raw_size { s.virtual_size as u64 } else { s.raw_size as u64 };
        let start = s.virtual_address as u64;
        let end = start + size;
        if end <= 0xffff_ffff && start <= rva && rva < end {
            let o = (s.raw_offset as u64 + (rva - start)) % 0x1_0000_0000;
            return Some(o);
        }
        i = i + 1;
    }
    None
}

fn nul_position(b: &[u8], o: u64) -> (r: Option<u64>)
    ensures
        match r {
            Some(e) => nul_from(b@, o as int) == Some(e as int) && o <= e < b@.len(),
            None => nul_from(b@, o as int) is None,
        },
{
    let len = b.len() as u64;
    let mut i = o;
    while i < len
        invariant
            len == b@.len(),
            o <= i,
            nul_from(b@, i as int) == nul_from(b@, o as int),
        decreases len - i,
    {
        if b[i as usize] == 0 {
            return Some(i);
        }
        i = i + 1;
    }
    None
}

fn read_c_string(b: &[u8], o: u64) -> (r: Option<String>)
    requires o <= b@.len(),
    ensures opt_text(r) == c_string_at(b@, o as int),
{
    let n = b.len();
    assert(o <= n);
    match nul_position(b, o) {
        Some(end) => utf8_text(b, o as usize, end as usize),
        None => None,
    }
}

/// The import table walk: `Err(())` where a name's offset lies past the end.
fn import_dlls(b: &[u8], import_rva: u64, sections: &Vec<Section>) -> (r: core::result::Result<StrMap, ()>)
    requires import_rva <= u32::MAX,
    ensures
        match r {
            Ok(m) => import_names(b@, import_rva as int, sections@) matches Some(names)
                && forall|n: Seq<char>| #[trigger] m.map().dom().contains(n) <==> names.contains(n),
            Err(_) => import_names(b@, import_rva as int, sections@) is None,
        },
{
    let mut dlls = StrMap::new();
    let d0 = match rva_to_offset(import_rva, sections) {
        Some(d) => d,
        None => {
            assert(dlls.map() =~= Map::<Seq<char>, Seq<char>>::empty());
            return Ok(dlls);
        }
    };
    let len = b.len() as u64;
    let ghost target = import_names_from(b@, d0 as int, sections@, 512);
    assert(import_names(b@, import_rva as int, sections@) == target);
    let mut d = d0;
    let mut left: u64 = 512;
    let ghost mut seen: Seq<Seq<char>> = Seq::empty();
    while left > 0
        invariant
            len == b@.len(),
            d <= 0x2_0000_0000,
            d == d0 + 20 * (512 - left),
            d0 <= u32::MAX,
            left <= 512,
            target == import_names_from(b@, d0 as int, sections@, 512),
            import_names(b@, import_rva as int, sections@) == target,
            forall|n: Seq<char>| #[trigger] dlls.map().dom().contains(n) <==> seen.contains(n),
            target == match import_names_from(b@, d as int, sections@, left as nat) {
                Some(r) => Some(seen + r),
                None => None::<Seq<Seq<char>>>,
            },
        ensures
            import_names(b@, import_rva as int, sections@) == target,
            forall|n: Seq<char>| #[trigger] dlls.map().dom().contains(n) <==> seen.contains(n),
            target == Some(seen),
        decreases left,
    {
        if d > len || len - d < 20 {
            assert(import_names_from(b@, d as int, sections@, left as nat) == Some(Seq::<Seq<char>>::empty()));
            assert(seen + Seq::<Seq<char>>::empty() =~= seen);
            break;
        }
        let a = read_u32(b, d).unwrap();
        let t = read_u32(b, d + 4).unwrap();
        let f = read_u32(b, d + 8).unwrap();
        let name_rva = read_u32(b, d + 12).unwrap();
        let ft = read_u32(b, d + 16).unwrap();
        if a == 0 && t == 0 && f == 0 && name_rva == 0 && ft == 0 {
            assert(null_descriptor(b@, d as int));
            assert(import_names_from(b@, d as int, sections@, left as nat) == Some(Seq::<Seq<char>>::empty()));
            assert(seen + Seq::<Seq<char>>::empty() =~= seen);
            break;
        }
        assert(!null_descriptor(b@, d as int));
        assert(le_u32_at(b@, d + 12) == name_rva);
        assert(import_names_from(b@, d as int, sections@, left as nat) == {
            let rest = import_names_from(b@, d + 20, sections@, (left - 1) as nat);
            match rva_offset(name_rva as int, sections@) {
                None => rest,
                Some(no) => if no > b@.len() {
                    None
                } else {
                    match c_string_at(b@, no) {
                        Some(name) => match rest {
                            Some(r) => Some(seq![lower(name)] + r),
                            None => None,
                        },
                        None => rest,
                    }
                },
            }
        });
        match rva_to_offset(name_rva, sections) {
            Some(no) => {
                if no > len {
                    return Err(());
                }
                match read_c_string(b, no) {
                    Some(name) => {
                        let l = lowercase(name.as_str());
                        let ghost prev = dlls.map();
                        dlls.insert(l, String::new());
                        proof {
                            assert forall|n: Seq<char>| #[trigger] dlls.map().dom().contains(n)
                                <==> seen.push(l@).contains(n) by {
                                if seen.push(l@).contains(n) && n != l@ {
                                    let k = choose|k: int| 0 <= k < seen.push(l@).len() && seen.push(l@)[k] == n;
                                    assert(seen[k] == n);
                                }
                                if seen.contains(n) {
                                    let k = choose|k: int| 0 <= k < seen.len() && seen[k] == n;
                                    assert(seen.push(l@)[k] == n);
                                }
                                if n == l@ {
                                    assert(seen.push(l@)[seen.len() as int] == n);
                                }
                            }
                            let rest = import_names_from(b@, d + 20, sections@, (left - 1) as nat);
                            if let Some(r) = rest {
                                assert(seen + (seq![lower(name@)] + r) =~= seen.push(l@) + r);
                            }
                            seen = seen.push(l@);
                        }
                    }
                    None => {}
                }
            }
            None => {}
        }
        d = d + 20;
        left = left - 1;
    }
    Ok(dlls)
}

/// What a scan of an image finds.
#[derive(Debug)]
pub enum PeScan {
    /// The bytes are not a PE image whose headers can be read.
    NotPe,
    /// A DLL name's offset lies past the end of the image.
    NamePastEnd,
    /// The image's summary.
    Image(PeSummary),
}

/// Scans an image: its headers, section table and import table.
pub fn scan_pe_bytes(bytes: &[u8]) -> (r: PeScan)
    ensures
        match r {
            PeScan::NotPe => pe_headers(bytes@) is None,
            PeScan::NamePastEnd => reads_past_end(bytes@),
            PeScan::Image(s) => summarizes(s, bytes@),
        },
{
    let len = bytes.len() as u64;
    if len < 0x40 || bytes[0] != 0x4d || bytes[1] != 0x5a {
        return PeScan::NotPe;
    }
    let pe = read_u32(bytes, 0x3c).unwrap();
    if pe + 24 >= len || !(bytes[pe as usize] == 0x50 && bytes[pe as usize + 1] == 0x45
        && bytes[pe as usize + 2] == 0 && bytes[pe as usize + 3] == 0) {
        return PeScan::NotPe;
    }
    let machine = read_u16(bytes, pe + 4).unwrap();
    let section_count = read_u16(bytes, pe + 6).unwrap();
    let optional_size = read_u16(bytes, pe + 20).unwrap();
    let optional_offset = pe + 24;
    if optional_offset + optional_size > usize::MAX as u64 {
        return PeScan::NotPe;
    }
    let section_offset = optional_offset + optional_size;
    let magic = match read_u16(bytes, optional_offset) {
        Some(m) => m,
        None => { return PeScan::NotPe; }
    };
    let subsystem = match read_u16(bytes, optional_offset + 68) {
        Some(s) => s,
        None => { return PeScan::NotPe; }
    };
    let data_dir = if magic == 0x10b {
        optional_offset + 96
    } else if magic == 0x20b {
        optional_offset + 112
    } else {
        return PeScan::NotPe;
    };
    let import_rva = match read_u32(bytes, data_dir + 8) {
        Some(r) => r,
        None => { return PeScan::NotPe; }
    };
    let ghost h = pe_headers(bytes@)->0;
    assert(pe_headers(bytes@) is Some);
    let sections = read_sections(bytes, section_offset, section_count);
    assert(sections@ == pe_sections(bytes@, h));
    let names = if import_rva == 0 {
        StrMap::new()
    } else {
        match import_dlls(bytes, import_rva, &sections) {
            Ok(m) => m,
            Err(_) => { return PeScan::NamePastEnd; }
        }
    };
    let import_dlls = names.keys();
    proof {
        let found = pe_import_names(bytes@, h)->0;
        assert(pe_import_names(bytes@, h) is Some);
        if import_rva == 0 {
            assert(names.map().dom() =~= Set::<Seq<char>>::empty());
        }
        assert forall|i: int, j: int| 0 <= i < j < import_dlls.deep_view().len()
            implies text_lt(#[trigger] import_dlls.deep_view()[i], #[trigger] import_dlls.deep_view()[j]) by {
            assert(import_dlls.deep_view()[i] == names@[i].0);
            assert(import_dlls.deep_view()[j] == names@[j].0);
        }
        assert forall|n: Seq<char>| #[trigger] import_dlls.deep_view().contains(n) <==> found.contains(n) by {
            if names.map().dom().contains(n) {}
        }
    }
    let detected = detected_layers(&import_dlls);
    PeScan::Image(PeSummary {
        machine: machine_name(machine),
        subsystem: subsystem_name(subsystem),
        import_dlls,
        detected_layers: detected,
    })
}

/// The summary of a PE image's bytes, or nothing for bytes that are not a PE image
/// whose headers can be read. Not for an image with a DLL name past its end.
pub fn summarize_pe_bytes(bytes: &[u8]) -> (r: Option<PeSummary>)
    requires !reads_past_end(bytes@),
    ensures
        match r {
            Some(s) => summarizes(s, bytes@),
            None => pe_headers(bytes@) is None,
        },
{
    match scan_pe_bytes(bytes) {
        PeScan::Image(s) => Some(s),
        _ => None,
    }
}


// ---------------------------------------------------------------- laws

/// The COFF machine field of an image: the 16-bit number four bytes past the PE
/// signature that the DOS header points at.
pub open spec fn coff_machine(b: Seq<u8>) -> Option<int> {
    u16_at(b, crate::runtime::stage::le_u32_at(b, 0x3c) + 4)
}

/// A summary names the machine by the image's COFF machine field: `x86` for i386
/// (0x014c), `x86_64` for x86-64 (0x8664) and `arm64` for ARM64 (0xaa64), so the
/// three known machines get three different names.
pub proof fn lemma_summary_machine(s: PeSummary, b: Seq<u8>)
    requires summarizes(s, b),
    ensures
        coff_machine(b) == Some(0x014cint) ==> opt_text(s.machine) == Some("x86"@),
        coff_machine(b) == Some(0x8664int) ==> opt_text(s.machine) == Some("x86_64"@),
        coff_machine(b) == Some(0xaa64int) ==> opt_text(s.machine) == Some("arm64"@),
        "x86"@ != "x86_64"@ && "x86"@ != "arm64"@ && "x86_64"@ != "arm64"@,
        coff_machine(b) matches Some(m) && m != 0x014c && m != 0x8664 && m != 0xaa64 ==> s.machine is None,
{
    reveal_strlit("x86");
    reveal_strlit("x86_64");
    reveal_strlit("arm64");
    assert("x86"@.len() != "x86_64"@.len());
    assert("x86"@[1] != "arm64"@[1]);
    assert("x86_64"@.len() != "arm64"@.len());
}


/// The 16-bit subsystem field of an image's optional header.
pub open spec fn optional_subsystem(b: Seq<u8>) -> Option<int> {
    u16_at(b, crate::runtime::stage::le_u32_at(b, 0x3c) + 24 + 68)
}

/// A summary names the subsystem by the optional header's subsystem field: `windows-gui`
/// for 2, `windows-console` for 3, and nothing for any other value.
pub proof fn lemma_summary_subsystem(s: PeSummary, b: Seq<u8>)
    requires summarizes(s, b),
    ensures
        optional_subsystem(b) == Some(2int) ==> opt_text(s.subsystem) == Some("windows-gui"@),
        optional_subsystem(b) == Some(3int) ==> opt_text(s.subsystem) == Some("windows-console"@),
        optional_subsystem(b) matches Some(v) && v != 2 && v != 3 ==> s.subsystem is None,
        "windows-gui"@ != "windows-console"@,
{
    reveal_strlit("windows-gui");
    reveal_strlit("windows-console");
    assert("windows-gui"@[8] != "windows-console"@[8]);
}

} // verus!
