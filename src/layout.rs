use vstd::prelude::*;

use crate::error::{DecodeError, OffsetField};
use crate::structs::{
    variant_of, COFFHeaders, DOSHeaders, DataDirectories, Headers, StandardFields, Variant,
    WindowsSpecific, MAX_DIRECTORIES,
};
use crate::utils::{fits, le16, le32, le64, out_of_bounds};

verus! {

/// Length of the DOS header region.
pub const DOS_LEN: usize = 64;

/// Length of the COFF header region.
pub const COFF_LEN: usize = 24;

/// Length of the standard-fields region in a layout.
pub open spec fn standard_len(v: Variant) -> int {
    if v == Variant::Pe32 {
        28
    } else {
        24
    }
}

/// Width of the address and size fields that differ between the layouts.
pub open spec fn wide_len(v: Variant) -> int {
    if v == Variant::Pe32 {
        4
    } else {
        8
    }
}

/// Length of the Windows-specific region in a layout.
pub open spec fn windows_len(v: Variant) -> int {
    48 + 5 * wide_len(v)
}

/// The value of a layout-dependent field at `i`: four bytes in the 32-bit
/// layout, eight otherwise.
pub open spec fn le_wide(b: Seq<u8>, i: int, v: Variant) -> int {
    if v == Variant::Pe32 {
        le32(b, i)
    } else {
        le64(b, i)
    }
}

/// `h` holds the DOS header encoded at the start of `b`.
pub open spec fn dos_matches(h: DOSHeaders, b: Seq<u8>) -> bool {
    &&& h.magic as int == le16(b, 0)
    &&& h.last_size as int == le16(b, 2)
    &&& h.pages_in_file as int == le16(b, 4)
    &&& h.relocations as int == le16(b, 6)
    &&& h.header_size_in_paragraph as int == le16(b, 8)
    &&& h.min_extra_paragraph_needed as int == le16(b, 10)
    &&& h.max_extra_paragraph_needed as int == le16(b, 12)
    &&& h.initial_ss as int == le16(b, 14)
    &&& h.initial_sp as int == le16(b, 16)
    &&& h.checksum as int == le16(b, 18)
    &&& h.initial_ip as int == le16(b, 20)
    &&& h.initial_cs as int == le16(b, 22)
    &&& h.file_add_of_relocation_table as int == le16(b, 24)
    &&& h.overlay_number as int == le16(b, 26)
    &&& h.reserved_one@ == b.subrange(28, 36)
    &&& h.oem_identifier as int == le16(b, 36)
    &&& h.oem_information as int == le16(b, 38)
    &&& h.reserved_two@ == b.subrange(40, 60)
    &&& h.offset_to_pe_headers as int == le32(b, 60)
}


/// `h` holds the COFF header encoded at offset `s` of `b`, with its
/// characteristics decomposed.
pub open spec fn coff_matches(h: COFFHeaders, b: Seq<u8>, s: int) -> bool {
    &&& h.magic as int == le32(b, s)
    &&& h.target_machine as int == le16(b, s + 4)
    &&& h.number_of_sections as int == le16(b, s + 6)
    &&& h.time_date_stamp as int == le32(b, s + 8)
    &&& h.pointer_to_symbol_table as int == le32(b, s + 12)
    &&& h.number_of_symbols as int == le32(b, s + 16)
    &&& h.size_of_optional_headers as int == le16(b, s + 20)
    &&& h.characteristics.value as int == le16(b, s + 22)
    &&& h.characteristics.wf()
}

/// The layout announced by the standard-fields magic at offset `s` of `b`.
pub open spec fn variant_at(b: Seq<u8>, s: int) -> Variant {
    variant_of(le16(b, s) as u16)
}

/// `h` holds the standard fields encoded at offset `s` of `b`.
pub open spec fn standard_matches(h: StandardFields, b: Seq<u8>, s: int) -> bool {
    &&& h.magic as int == le16(b, s)
    &&& h.major_linker_version == b[s + 2]
    &&& h.minor_linker_version == b[s + 3]
    &&& h.size_of_code as int == le32(b, s + 4)
    &&& h.size_of_initialized_data as int == le32(b, s + 8)
    &&& h.size_of_uninitialized_data as int == le32(b, s + 12)
    &&& h.address_of_entry_point as int == le32(b, s + 16)
    &&& h.base_of_code as int == le32(b, s + 20)
    &&& h.base_of_data as int == if variant_of(h.magic) == Variant::Pe32 {
        le32(b, s + 24)
    } else {
        0
    }
}

/// `h` holds the Windows-specific fields encoded at offset `s` of `b` in
/// layout `v`.
pub open spec fn windows_matches(h: WindowsSpecific, b: Seq<u8>, s: int, v: Variant) -> bool {
    let w = wide_len(v);
    let a = s + w;
    let c = a + 40;
    &&& h.image_base as int == le_wide(b, s, v)
    &&& h.section_alignment as int == le32(b, a)
    &&& h.file_alignment as int == le32(b, a + 4)
    &&& h.major_operating_system_version as int == le16(b, a + 8)
    &&& h.minor_operating_system_version as int == le16(b, a + 10)
    &&& h.major_image_version as int == le16(b, a + 12)
    &&& h.minor_image_version as int == le16(b, a + 14)
    &&& h.major_subsystem_version as int == le16(b, a + 16)
    &&& h.minor_subsystem_version as int == le16(b, a + 18)
    &&& h.win32_version_value as int == le32(b, a + 20)
    &&& h.size_of_image as int == le32(b, a + 24)
    &&& h.size_of_headers as int == le32(b, a + 28)
    &&& h.checksum as int == le32(b, a + 32)
    &&& h.subsystem as int == le16(b, a + 36)
    &&& h.dll_characteristics as int == le16(b, a + 38)
    &&& h.size_of_stack_reserve as int == le_wide(b, c, v)
    &&& h.size_of_stack_commit as int == le_wide(b, c + w, v)
    &&& h.size_of_heap_reserve as int == le_wide(b, c + 2 * w, v)
    &&& h.size_of_heap_commit as int == le_wide(b, c + 3 * w, v)
    &&& h.loader_flags as int == le32(b, c + 4 * w)
    &&& h.number_of_rva_and_sizes as int == le32(b, c + 4 * w + 4)
}

/// `d` holds the first `n` directory entries encoded from offset `s` of `b`,
/// and zero in every later slot.
pub open spec fn directories_match(d: DataDirectories, b: Seq<u8>, s: int, n: int) -> bool {
    forall|j: int|
        0 <= j < 16 ==> if j < n {
            (#[trigger] d.directories@[j]).virtual_address as int == le32(b, s + 8 * j)
                && d.directories@[j].size as int == le32(b, s + 8 * j + 4)
        } else {
            d.directories@[j].virtual_address == 0 && d.directories@[j].size == 0
        }
}


/// Offset of the COFF header, as the DOS header of `b` declares it.
pub open spec fn pe_offset(b: Seq<u8>) -> int {
    le32(b, 60)
}

/// Offset of the standard fields: just past the COFF header.
pub open spec fn standard_start(b: Seq<u8>) -> int {
    pe_offset(b) + COFF_LEN
}

/// The optional-header layout of `b`.
pub open spec fn image_variant(b: Seq<u8>) -> Variant {
    variant_at(b, standard_start(b))
}

/// Offset of the Windows-specific fields: just past the standard fields.
pub open spec fn windows_start(b: Seq<u8>) -> int {
    standard_start(b) + standard_len(image_variant(b))
}

/// Offset of the data-directory table: just past the Windows-specific fields.
pub open spec fn directories_start(b: Seq<u8>) -> int {
    windows_start(b) + windows_len(image_variant(b))
}

/// The declared number of data directories: the last Windows-specific field.
pub open spec fn directory_count(b: Seq<u8>) -> int {
    le32(b, directories_start(b) - 4)
}

/// The first failure met while decoding `b`, region by region, or `None`
/// when every region lies inside `b` and the directory count is at most 16.
pub open spec fn decode_error(b: Seq<u8>) -> Option<DecodeError> {
    let len = b.len() as int;
    let v = image_variant(b);
    if len < DOS_LEN {
        Some(out_of_bounds(0, DOS_LEN, len as usize))
    } else if pe_offset(b) < DOS_LEN {
        Some(
            DecodeError::MalformedOffset {
                field: OffsetField::OffsetToPeHeaders,
                value: pe_offset(b) as u32,
            },
        )
    } else if !fits(pe_offset(b), COFF_LEN as int, len) {
        Some(out_of_bounds(pe_offset(b) as usize, COFF_LEN, len as usize))
    } else if !fits(standard_start(b), 2, len) {
        Some(out_of_bounds(standard_start(b) as usize, 2, len as usize))
    } else if !fits(standard_start(b), standard_len(v), len) {
        Some(out_of_bounds(standard_start(b) as usize, standard_len(v) as usize, len as usize))
    } else if !fits(windows_start(b), windows_len(v), len) {
        Some(out_of_bounds(windows_start(b) as usize, windows_len(v) as usize, len as usize))
    } else if directory_count(b) > MAX_DIRECTORIES {
        Some(
            DecodeError::InvalidDirectoryCount {
                declared: directory_count(b) as u32,
                max: MAX_DIRECTORIES,
            },
        )
    } else if !fits(directories_start(b), 8 * directory_count(b), len) {
        Some(
            out_of_bounds(
                directories_start(b) as usize,
                (8 * directory_count(b)) as usize,
                len as usize,
            ),
        )
    } else {
        None
    }
}

/// `h` holds every header of `b`, each region read at the offset that the
/// earlier regions place it.
pub open spec fn headers_match(h: Headers, b: Seq<u8>) -> bool {
    &&& dos_matches(h.dos_headers, b)
    &&& coff_matches(h.coff_headers, b, pe_offset(b))
    &&& standard_matches(h.optional_headers.standard_fields, b, standard_start(b))
    &&& windows_matches(
        h.optional_headers.windows_specific,
        b,
        windows_start(b),
        image_variant(b),
    )
    &&& directories_match(
        h.optional_headers.data_directories,
        b,
        directories_start(b),
        directory_count(b),
    )
}

} // verus!
