use vstd::prelude::*;

use crate::layout::{
    coff_matches, directories_match, dos_matches, standard_len, standard_matches, windows_len,
    windows_matches,
};
use crate::utils::{le16, le32, le64};
use crate::structs::{
    variant_of, COFFHeaders, DOSHeaders, DataDirectories, Headers, StandardFields, Variant,
    WindowsSpecific,
};

verus! {

/// The two little-endian bytes of `v`.
#[verifier::opaque]
pub open spec fn bytes16(v: u16) -> Seq<u8> {
    seq![(v % 256) as u8, (v / 256) as u8]
}

/// The four little-endian bytes of `v`.
#[verifier::opaque]
pub open spec fn bytes32(v: u32) -> Seq<u8> {
    bytes16((v % 0x1_0000) as u16) + bytes16((v / 0x1_0000) as u16)
}

/// The eight little-endian bytes of `v`.
#[verifier::opaque]
pub open spec fn bytes64(v: u64) -> Seq<u8> {
    bytes32((v % 0x1_0000_0000) as u32) + bytes32((v / 0x1_0000_0000) as u32)
}

/// Two little-endian bytes read back as the value they encode.
pub broadcast proof fn lemma_bytes16(v: u16)
    ensures
        #![trigger bytes16(v)]
        bytes16(v).len() == 2,
        le16(bytes16(v), 0) == v,
{
    reveal(bytes16);
}

/// Four little-endian bytes read back as the value they encode.
pub broadcast proof fn lemma_bytes32(v: u32)
    ensures
        #![trigger bytes32(v)]
        bytes32(v).len() == 4,
        le32(bytes32(v), 0) == v,
{
    reveal(bytes32);
    lemma_bytes16((v % 0x1_0000) as u16);
    lemma_bytes16((v / 0x1_0000) as u16);
}

/// Eight little-endian bytes read back as the value they encode.
pub broadcast proof fn lemma_bytes64(v: u64)
    ensures
        #![trigger bytes64(v)]
        bytes64(v).len() == 8,
        le64(bytes64(v), 0) == v,
{
    reveal(bytes64);
    lemma_bytes32((v % 0x1_0000_0000) as u32);
    lemma_bytes32((v / 0x1_0000_0000) as u32);
}

/// The 64 bytes of a DOS header.
#[verifier::opaque]
pub open spec fn encode_dos(h: DOSHeaders) -> Seq<u8> {
    bytes16(h.magic) + bytes16(h.last_size) + bytes16(h.pages_in_file) + bytes16(h.relocations)
        + bytes16(h.header_size_in_paragraph) + bytes16(h.min_extra_paragraph_needed) + bytes16(
        h.max_extra_paragraph_needed,
    ) + bytes16(h.initial_ss) + bytes16(h.initial_sp) + bytes16(h.checksum) + bytes16(
        h.initial_ip,
    ) + bytes16(h.initial_cs) + bytes16(h.file_add_of_relocation_table) + bytes16(
        h.overlay_number,
    ) + h.reserved_one@ + bytes16(h.oem_identifier) + bytes16(h.oem_information)
        + h.reserved_two@ + bytes32(h.offset_to_pe_headers)
}

pub(crate) proof fn lemma_dos_encoded(h: DOSHeaders)
    ensures
        encode_dos(h).len() == 64,
        dos_matches(h, encode_dos(h)),
{
    reveal(encode_dos);
    broadcast use lemma_bytes16, lemma_bytes32, lemma_bytes64;
    let c = encode_dos(h);
    assert(c.subrange(28, 36) =~= h.reserved_one@);
    assert(c.subrange(40, 60) =~= h.reserved_two@);
}

/// The 24 bytes of a COFF header.
#[verifier::opaque]
pub open spec fn encode_coff(h: COFFHeaders) -> Seq<u8> {
    bytes32(h.magic) + bytes16(h.target_machine) + bytes16(h.number_of_sections) + bytes32(
        h.time_date_stamp,
    ) + bytes32(h.pointer_to_symbol_table) + bytes32(h.number_of_symbols) + bytes16(
        h.size_of_optional_headers,
    ) + bytes16(h.characteristics.value)
}

/// The standard fields, with `base_of_data` only in the 32-bit layout.
#[verifier::opaque]
pub open spec fn encode_standard(h: StandardFields) -> Seq<u8> {
    bytes16(h.magic) + seq![h.major_linker_version, h.minor_linker_version] + bytes32(
        h.size_of_code,
    ) + bytes32(h.size_of_initialized_data) + bytes32(h.size_of_uninitialized_data) + bytes32(
        h.address_of_entry_point,
    ) + bytes32(h.base_of_code) + if variant_of(h.magic) == Variant::Pe32 {
        bytes32(h.base_of_data)
    } else {
        seq![]
    }
}

/// The Windows-specific fields in layout `v`.
pub open spec fn encode_windows(h: WindowsSpecific, v: Variant) -> Seq<u8> {
    if v == Variant::Pe32 {
        encode_windows32(h)
    } else {
        encode_windows64(h)
    }
}

/// The first `n` entries of a data-directory table.
pub open spec fn encode_directories(d: DataDirectories, n: nat) -> Seq<u8>
    decreases n,
{
    if n == 0 {
        seq![]
    } else {
        encode_directories(d, (n - 1) as nat) + bytes32(
            d.directories@[n - 1].virtual_address,
        ) + bytes32(d.directories@[n - 1].size)
    }
}

pub(crate) proof fn lemma_coff_encoded(h: COFFHeaders)
    requires
        h.characteristics.wf(),
    ensures
        encode_coff(h).len() == 24,
        coff_matches(h, encode_coff(h), 0),
{
    reveal(encode_coff);
    broadcast use lemma_bytes16, lemma_bytes32, lemma_bytes64;
}

pub(crate) proof fn lemma_standard_encoded(h: StandardFields)
    requires
        variant_of(h.magic) != Variant::Pe32 ==> h.base_of_data == 0,
    ensures
        encode_standard(h).len() == standard_len(variant_of(h.magic)),
        standard_matches(h, encode_standard(h), 0),
{
    reveal(encode_standard);
    broadcast use lemma_bytes16, lemma_bytes32, lemma_bytes64;
}

/// The Windows-specific fields of the 32-bit layout.
#[verifier::opaque]
pub open spec fn encode_windows32(h: WindowsSpecific) -> Seq<u8> {
    bytes32(h.image_base as u32) + bytes32(h.section_alignment) + bytes32(h.file_alignment)
        + bytes16(h.major_operating_system_version) + bytes16(h.minor_operating_system_version)
        + bytes16(h.major_image_version) + bytes16(h.minor_image_version) + bytes16(
        h.major_subsystem_version,
    ) + bytes16(h.minor_subsystem_version) + bytes32(h.win32_version_value) + bytes32(
        h.size_of_image,
    ) + bytes32(h.size_of_headers) + bytes32(h.checksum) + bytes16(h.subsystem) + bytes16(
        h.dll_characteristics,
    ) + bytes32(h.size_of_stack_reserve as u32) + bytes32(h.size_of_stack_commit as u32)
        + bytes32(h.size_of_heap_reserve as u32) + bytes32(h.size_of_heap_commit as u32) + bytes32(
        h.loader_flags,
    ) + bytes32(h.number_of_rva_and_sizes)
}

/// The Windows-specific fields of the 64-bit layout.
#[verifier::opaque]
pub open spec fn encode_windows64(h: WindowsSpecific) -> Seq<u8> {
    bytes64(h.image_base) + bytes32(h.section_alignment) + bytes32(h.file_alignment)
        + bytes16(h.major_operating_system_version) + bytes16(h.minor_operating_system_version)
        + bytes16(h.major_image_version) + bytes16(h.minor_image_version) + bytes16(
        h.major_subsystem_version,
    ) + bytes16(h.minor_subsystem_version) + bytes32(h.win32_version_value) + bytes32(
        h.size_of_image,
    ) + bytes32(h.size_of_headers) + bytes32(h.checksum) + bytes16(h.subsystem) + bytes16(
        h.dll_characteristics,
    ) + bytes64(h.size_of_stack_reserve) + bytes64(h.size_of_stack_commit) + bytes64(
        h.size_of_heap_reserve,
    ) + bytes64(h.size_of_heap_commit) + bytes32(h.loader_flags) + bytes32(
        h.number_of_rva_and_sizes,
    )
}

pub(crate) proof fn lemma_windows32_encoded(h: WindowsSpecific)
    requires
        h.image_base <= u32::MAX,
        h.size_of_stack_reserve <= u32::MAX,
        h.size_of_stack_commit <= u32::MAX,
        h.size_of_heap_reserve <= u32::MAX,
        h.size_of_heap_commit <= u32::MAX,
    ensures
        encode_windows32(h).len() == 68,
        windows_matches(h, encode_windows32(h), 0, Variant::Pe32),
{
    reveal(encode_windows32);
    broadcast use lemma_bytes16, lemma_bytes32, lemma_bytes64;
}

pub(crate) proof fn lemma_windows64_encoded(h: WindowsSpecific)
    ensures
        encode_windows64(h).len() == 88,
        windows_matches(h, encode_windows64(h), 0, Variant::Pe32Plus),
{
    reveal(encode_windows64);
    broadcast use lemma_bytes16, lemma_bytes32, lemma_bytes64;
}

pub(crate) proof fn lemma_directories_encoded(d: DataDirectories, n: nat)
    requires
        n <= 16,
    ensures
        encode_directories(d, n).len() == 8 * n,
        forall|j: int|
            0 <= j < n ==> le32(encode_directories(d, n), 8 * j)
                == (#[trigger] d.directories@[j]).virtual_address && le32(
                encode_directories(d, n),
                8 * j + 4,
            ) == d.directories@[j].size,
    decreases n,
{
    broadcast use lemma_bytes32;

    if n > 0 {
        let m = (n - 1) as nat;
        lemma_directories_encoded(d, m);
        let prev = encode_directories(d, m);
        let c = encode_directories(d, n);
        assert(c == prev + bytes32(d.directories@[m as int].virtual_address) + bytes32(
            d.directories@[m as int].size,
        ));
        assert forall|j: int| 0 <= j < n implies le32(c, 8 * j)
            == (#[trigger] d.directories@[j]).virtual_address && le32(c, 8 * j + 4)
            == d.directories@[j].size by {
            if j < m {
                assert(c[8 * j] == prev[8 * j]);
                assert(c[8 * j + 1] == prev[8 * j + 1]);
                assert(c[8 * j + 2] == prev[8 * j + 2]);
                assert(c[8 * j + 3] == prev[8 * j + 3]);
                assert(c[8 * j + 4] == prev[8 * j + 4]);
                assert(c[8 * j + 5] == prev[8 * j + 5]);
                assert(c[8 * j + 6] == prev[8 * j + 6]);
                assert(c[8 * j + 7] == prev[8 * j + 7]);
            }
        }
    }
}

/// Whether `h` can be written as an image that decodes back to it: the
/// COFF header starts past the DOS header, the flag list agrees with the raw
/// characteristics, fields absent from or narrower in the chosen layout hold
/// values that the layout can carry, and table slots past the declared count
/// are zero.
pub open spec fn encodable(h: Headers) -> bool {
    let o = h.optional_headers;
    let w = o.windows_specific;
    let n = w.number_of_rva_and_sizes;
    &&& h.dos_headers.offset_to_pe_headers >= 64
    &&& h.coff_headers.characteristics.wf()
    &&& variant_of(o.standard_fields.magic) != Variant::Pe32 ==> o.standard_fields.base_of_data == 0
    &&& variant_of(o.standard_fields.magic) == Variant::Pe32 ==> w.image_base <= u32::MAX
        && w.size_of_stack_reserve <= u32::MAX && w.size_of_stack_commit <= u32::MAX
        && w.size_of_heap_reserve <= u32::MAX && w.size_of_heap_commit <= u32::MAX
    &&& n <= 16
    &&& forall|j: int|
        n <= j < 16 ==> (#[trigger] o.data_directories.directories@[j]).virtual_address == 0
            && o.data_directories.directories@[j].size == 0
}

/// The image that holds `h`: the DOS header, zero padding up to the COFF
/// header, then the COFF header, the optional header in the layout its magic
/// selects, and the declared number of directory entries.
#[verifier::opaque]
pub open spec fn encode_headers(h: Headers) -> Seq<u8> {
    let o = h.optional_headers;
    encode_dos(h.dos_headers) + Seq::new(
        (h.dos_headers.offset_to_pe_headers - 64) as nat,
        |i: int| 0u8,
    ) + encode_coff(h.coff_headers) + encode_standard(o.standard_fields) + encode_windows(
        o.windows_specific,
        variant_of(o.standard_fields.magic),
    ) + encode_directories(o.data_directories, o.windows_specific.number_of_rva_and_sizes as nat)
}

/// `a` and `b` hold the same header values.
pub open spec fn same_headers(a: Headers, b: Headers) -> bool {
    let (ac, bc) = (a.coff_headers, b.coff_headers);
    &&& a.dos_headers == b.dos_headers
    &&& ac.magic == bc.magic
    &&& ac.target_machine == bc.target_machine
    &&& ac.number_of_sections == bc.number_of_sections
    &&& ac.time_date_stamp == bc.time_date_stamp
    &&& ac.pointer_to_symbol_table == bc.pointer_to_symbol_table
    &&& ac.number_of_symbols == bc.number_of_symbols
    &&& ac.size_of_optional_headers == bc.size_of_optional_headers
    &&& ac.characteristics.value == bc.characteristics.value
    &&& ac.characteristics.characteristics_list@ == bc.characteristics.characteristics_list@
    &&& a.optional_headers.standard_fields == b.optional_headers.standard_fields
    &&& a.optional_headers.windows_specific == b.optional_headers.windows_specific
    &&& a.optional_headers.data_directories == b.optional_headers.data_directories
}

/// Reads inside a region placed at `s` of `e` see the region's own bytes.
pub(crate) proof fn lemma_region_at(e: Seq<u8>, p: Seq<u8>, s: int)
    requires
        0 <= s,
        s + p.len() <= e.len(),
        e.subrange(s, s + p.len()) == p,
    ensures
        forall|o: int| 0 <= o < p.len() ==> e[s + o] == #[trigger] p[o],
        forall|o: int| 0 <= o && o + 2 <= p.len() ==> le16(e, s + o) == #[trigger] le16(p, o),
        forall|o: int| 0 <= o && o + 4 <= p.len() ==> le32(e, s + o) == #[trigger] le32(p, o),
        forall|o: int| 0 <= o && o + 8 <= p.len() ==> le64(e, s + o) == #[trigger] le64(p, o),
{
    assert forall|o: int| 0 <= o < p.len() implies e[s + o] == #[trigger] p[o] by {
        assert(e.subrange(s, s + p.len())[o] == e[s + o]);
    }
}

/// The lengths of the region encodings.
pub(crate) proof fn lemma_encoded_lengths(h: Headers)
    ensures
        encode_dos(h.dos_headers).len() == 64,
        encode_coff(h.coff_headers).len() == 24,
        encode_standard(h.optional_headers.standard_fields).len() == standard_len(
            variant_of(h.optional_headers.standard_fields.magic),
        ),
        encode_windows32(h.optional_headers.windows_specific).len() == 68,
        encode_windows64(h.optional_headers.windows_specific).len() == 88,
{
    reveal(encode_dos);
    reveal(encode_coff);
    reveal(encode_standard);
    reveal(encode_windows32);
    reveal(encode_windows64);
    broadcast use lemma_bytes16, lemma_bytes32, lemma_bytes64;

}

/// The two halves of a concatenation.
pub(crate) proof fn lemma_cat(x: Seq<u8>, y: Seq<u8>)
    ensures
        (x + y).subrange(0, x.len() as int) == x,
        (x + y).subrange(x.len() as int, (x + y).len() as int) == y,
{
    assert((x + y).subrange(0, x.len() as int) =~= x);
    assert((x + y).subrange(x.len() as int, (x + y).len() as int) =~= y);
}

/// A subrange of a subrange is a subrange.
pub(crate) proof fn lemma_sub_sub(e: Seq<u8>, i: int, j: int, k: int, l: int)
    requires
        0 <= i <= j <= e.len(),
        0 <= k <= l <= j - i,
    ensures
        e.subrange(i, j).subrange(k, l) == e.subrange(i + k, i + l),
{
    assert(e.subrange(i, j).subrange(k, l) =~= e.subrange(i + k, i + l));
}

pub(crate) proof fn lemma_dos_at(h: DOSHeaders, e: Seq<u8>)
    requires
        e.len() >= 64,
        e.subrange(0, 64) == encode_dos(h),
    ensures
        dos_matches(h, e),
{
    let a = encode_dos(h);
    lemma_dos_encoded(h);
    lemma_region_at(e, a, 0);
    assert(e.subrange(28, 36) =~= a.subrange(28, 36));
    assert(e.subrange(40, 60) =~= a.subrange(40, 60));
}

pub(crate) proof fn lemma_coff_at(h: COFFHeaders, e: Seq<u8>, s: int)
    requires
        h.characteristics.wf(),
        0 <= s,
        s + 24 <= e.len(),
        e.subrange(s, s + 24) == encode_coff(h),
    ensures
        coff_matches(h, e, s),
{
    lemma_coff_encoded(h);
    lemma_region_at(e, encode_coff(h), s);
}

pub(crate) proof fn lemma_standard_at(h: StandardFields, e: Seq<u8>, s: int)
    requires
        variant_of(h.magic) != Variant::Pe32 ==> h.base_of_data == 0,
        0 <= s,
        s + standard_len(variant_of(h.magic)) <= e.len(),
        e.subrange(s, s + standard_len(variant_of(h.magic))) == encode_standard(h),
    ensures
        standard_matches(h, e, s),
{
    lemma_standard_encoded(h);
    lemma_region_at(e, encode_standard(h), s);
}

pub(crate) proof fn lemma_windows_at(h: WindowsSpecific, v: Variant, e: Seq<u8>, s: int)
    requires
        v == Variant::Pe32 ==> h.image_base <= u32::MAX && h.size_of_stack_reserve <= u32::MAX
            && h.size_of_stack_commit <= u32::MAX && h.size_of_heap_reserve <= u32::MAX
            && h.size_of_heap_commit <= u32::MAX,
        0 <= s,
        s + windows_len(v) <= e.len(),
        e.subrange(s, s + windows_len(v)) == encode_windows(h, v),
    ensures
        windows_matches(h, e, s, v),
{
    if v == Variant::Pe32 {
        lemma_windows32_encoded(h);
    } else {
        lemma_windows64_encoded(h);
    }
    lemma_region_at(e, encode_windows(h, v), s);
}

pub(crate) proof fn lemma_directories_at(d: DataDirectories, n: nat, e: Seq<u8>, s: int)
    requires
        n <= 16,
        forall|j: int|
            n <= j < 16 ==> (#[trigger] d.directories@[j]).virtual_address == 0
                && d.directories@[j].size == 0,
        0 <= s,
        s + 8 * n <= e.len(),
        e.subrange(s, s + 8 * n) == encode_directories(d, n),
    ensures
        directories_match(d, e, s, n as int),
{
    let t = encode_directories(d, n);
    lemma_directories_encoded(d, n);
    lemma_region_at(e, t, s);
    assert forall|j: int| 0 <= j < n implies le32(e, s + 8 * j) == #[trigger] le32(t, 8 * j)
        && le32(e, s + 8 * j + 4) == le32(t, 8 * j + 4) by {
        assert(s + 8 * j + 4 == s + (8 * j + 4));
    }
}

} // verus!
