use vstd::prelude::*;

use crate::error::{DecodeError, OffsetField};
use crate::layout::{
    coff_matches, decode_error, directories_match, dos_matches, headers_match, le_wide,
    standard_len, standard_matches, variant_at, wide_len, windows_len, windows_matches, COFF_LEN,
    DOS_LEN,
};
use crate::structs::{
    flag_bits, named_bits_from, variant_of, COFFHeaders, Characteristics, CharacteristicsVal,
    DOSHeaders, DataDirectories, DataDirectory, Headers, OptionalHeaders, StandardFields, Variant,
    WindowsSpecific, MAX_DIRECTORIES, PE32_MAGIC,
};
use crate::utils::{fits, le32, out_of_bounds, take_u16, take_u32, take_u64};

verus! {

/// Decomposes a raw characteristics value into its named flags, probing
/// from bit 15 down to bit 0. The unnamed bit 0x0040 yields no flag.
pub fn parse_characteristics(value: u16) -> (r: Characteristics)
    ensures
        r.value == value,
        r.wf(),
{
    let mut list: Vec<CharacteristicsVal> = Vec::new();
    let mut k: u16 = 16;
    while k > 0
        invariant
            k <= 16,
            flag_bits(list@) == named_bits_from(value, k),
        decreases k,
    {
        k = k - 1;
        let probe: u16 = 1u16 << k;
        if k != 6 && value & probe != 0 {
            let ghost before = list@;
            let f = CharacteristicsVal::from_u16(probe);
            list.push(f);
            assert(flag_bits(list@) =~= flag_bits(before).push(probe));
        }
    }
    Characteristics { value, characteristics_list: list }
}

/// The bitwise OR of a sequence of bit values.
pub open spec fn or_bits(s: Seq<u16>) -> u16
    decreases s.len(),
{
    if s.len() == 0 {
        0
    } else {
        or_bits(s.drop_last()) | s.last()
    }
}

/// The bits of a `u16` at positions `k` and above.
pub open spec fn high_mask(k: u16) -> u16 {
    if k >= 16 {
        0
    } else {
        0xFFFFu16 << k
    }
}

proof fn lemma_or_named_bits_from(v: u16, k: u16)
    requires
        k <= 16,
    ensures
        or_bits(named_bits_from(v, k)) == v & high_mask(k) & 0xFFBF,
    decreases 16 - k,
{
    if k < 16 {
        let k1 = (k + 1) as u16;
        lemma_or_named_bits_from(v, k1);
        let rest = named_bits_from(v, k1);
        let hk = high_mask(k);
        let hk1 = high_mask(k1);
        assert(hk == 0xFFFFu16 << k);
        if k == 15 {
            assert(hk1 == 0);
        } else {
            assert(hk1 == 0xFFFFu16 << k1);
        }
        assert(k < 16 && k != 6 && v & (1u16 << k) != 0 && (k == 15 ==> hk1 == 0) && (k < 15
            ==> hk1 == 0xFFFFu16 << ((k + 1) as u16)) && hk == 0xFFFFu16 << k ==> (v & hk1
            & 0xFFBF) | (1u16 << k) == v & hk & 0xFFBF) by (bit_vector);
        assert(k < 16 && !(k != 6 && v & (1u16 << k) != 0) && (k == 15 ==> hk1 == 0) && (k < 15
            ==> hk1 == 0xFFFFu16 << ((k + 1) as u16)) && hk == 0xFFFFu16 << k ==> v & hk1
            & 0xFFBF == v & hk & 0xFFBF) by (bit_vector);
        if k != 6 && v & (1u16 << k) != 0 {
            assert(rest.push(1u16 << k).drop_last() =~= rest);
        }
    } else {
        assert(v & 0 & 0xFFBF == 0) by (bit_vector);
    }
}

/// Re-encoding: for a well-formed characteristics value that does not set
/// the unnamed bit 0x0040, the OR of the bits of its flags is the raw value.
pub proof fn lemma_characteristics_reencode(c: Characteristics)
    requires
        c.wf(),
        c.value & 0x40 == 0,
    ensures
        or_bits(flag_bits(c.characteristics_list@)) == c.value,
{
    let v = c.value;
    lemma_or_named_bits_from(v, 0);
    assert(high_mask(0) == 0xFFFFu16 << 0u16);
    assert(v & 0x40 == 0 ==> v & (0xFFFFu16 << 0u16) & 0xFFBF == v) by (bit_vector);
}


/// Copies `N` bytes of `buffer` starting at `start` into an array.
fn take_array<const N: usize>(buffer: &[u8], start: usize) -> (r: [u8; N])
    requires
        start + N <= buffer@.len(),
    ensures
        r@ == buffer@.subrange(start as int, start + N),
{
    let mut r = [0u8; N];
    let len = buffer.len();
    let mut i: usize = 0;
    while i < N
        invariant
            i <= N,
            len == buffer@.len(),
            start + N <= buffer@.len(),
            r@.len() == N,
            forall|j: int| 0 <= j < i ==> r@[j] == buffer@[start + j],
        decreases N - i,
    {
        r[i] = buffer[start + i];
        i = i + 1;
    }
    assert(r@ =~= buffer@.subrange(start as int, start + N));
    r
}

/// Decodes the DOS header from the first 64 bytes of `buffer`.
pub fn parse_dos(buffer: &[u8]) -> (r: Result<DOSHeaders, DecodeError>)
    ensures
        buffer@.len() >= DOS_LEN ==> r is Ok && dos_matches(r->Ok_0, buffer@),
        buffer@.len() < DOS_LEN ==> r == Err::<DOSHeaders, DecodeError>(
            out_of_bounds(0, DOS_LEN, buffer@.len() as usize),
        ),
{
    if buffer.len() < DOS_LEN {
        return Err(DecodeError::OutOfBounds {
            attempted_offset: 0,
            width: DOS_LEN,
            buffer_length: buffer.len(),
        });
    }
    let mut i: usize = 0;
    let magic = take_u16(buffer, &mut i);
    let last_size = take_u16(buffer, &mut i);
    let pages_in_file = take_u16(buffer, &mut i);
    let relocations = take_u16(buffer, &mut i);
    let header_size_in_paragraph = take_u16(buffer, &mut i);
    let min_extra_paragraph_needed = take_u16(buffer, &mut i);
    let max_extra_paragraph_needed = take_u16(buffer, &mut i);
    let initial_ss = take_u16(buffer, &mut i);
    let initial_sp = take_u16(buffer, &mut i);
    let checksum = take_u16(buffer, &mut i);
    let initial_ip = take_u16(buffer, &mut i);
    let initial_cs = take_u16(buffer, &mut i);
    let file_add_of_relocation_table = take_u16(buffer, &mut i);
    let overlay_number = take_u16(buffer, &mut i);
    let reserved_one: [u8; 8] = take_array(buffer, i);
    i = i + 8;
    let oem_identifier = take_u16(buffer, &mut i);
    let oem_information = take_u16(buffer, &mut i);
    let reserved_two: [u8; 20] = take_array(buffer, i);
    i = i + 20;
    let offset_to_pe_headers = take_u32(buffer, &mut i);
    Ok(DOSHeaders {
        magic,
        last_size,
        pages_in_file,
        relocations,
        header_size_in_paragraph,
        min_extra_paragraph_needed,
        max_extra_paragraph_needed,
        initial_ss,
        initial_sp,
        checksum,
        initial_ip,
        initial_cs,
        file_add_of_relocation_table,
        overlay_number,
        reserved_one,
        oem_identifier,
        oem_information,
        reserved_two,
        offset_to_pe_headers,
    })
}


/// Decodes the COFF header at `start`.
pub fn parse_coff(buffer: &[u8], start: usize) -> (r: Result<COFFHeaders, DecodeError>)
    ensures
        fits(start as int, COFF_LEN as int, buffer@.len() as int) ==> r is Ok && coff_matches(
            r->Ok_0,
            buffer@,
            start as int,
        ),
        !fits(start as int, COFF_LEN as int, buffer@.len() as int) ==> r == Err::<
            COFFHeaders,
            DecodeError,
        >(out_of_bounds(start, COFF_LEN, buffer@.len() as usize)),
{
    let len = buffer.len();
    if start > len || len - start < COFF_LEN {
        return Err(DecodeError::OutOfBounds {
            attempted_offset: start,
            width: COFF_LEN,
            buffer_length: len,
        });
    }
    let mut i = start;
    let magic = take_u32(buffer, &mut i);
    let target_machine = take_u16(buffer, &mut i);
    let number_of_sections = take_u16(buffer, &mut i);
    let time_date_stamp = take_u32(buffer, &mut i);
    let pointer_to_symbol_table = take_u32(buffer, &mut i);
    let number_of_symbols = take_u32(buffer, &mut i);
    let size_of_optional_headers = take_u16(buffer, &mut i);
    let value = take_u16(buffer, &mut i);
    Ok(COFFHeaders {
        magic,
        target_machine,
        number_of_sections,
        time_date_stamp,
        pointer_to_symbol_table,
        number_of_symbols,
        size_of_optional_headers,
        characteristics: parse_characteristics(value),
    })
}

/// Decodes the standard fields at `start` and reports the layout that their
/// magic selects. The region is 28 bytes in the 32-bit layout, 24 otherwise.
pub fn parse_standard_fields(buffer: &[u8], start: usize) -> (r: Result<
    (StandardFields, Variant),
    DecodeError,
>)
    ensures
        ({
            let b = buffer@;
            let len = b.len() as int;
            let sl = standard_len(variant_at(b, start as int));
            &&& !fits(start as int, 2, len) ==> r == Err::<(StandardFields, Variant), DecodeError>(
                out_of_bounds(start, 2, len as usize),
            )
            &&& fits(start as int, 2, len) && !fits(start as int, sl, len) ==> r == Err::<
                (StandardFields, Variant),
                DecodeError,
            >(out_of_bounds(start, sl as usize, len as usize))
            &&& fits(start as int, sl, len) ==> r is Ok && standard_matches(
                r->Ok_0.0,
                b,
                start as int,
            ) && r->Ok_0.1 == variant_of(r->Ok_0.0.magic)
        }),
{
    let len = buffer.len();
    if start > len || len - start < 2 {
        return Err(
            DecodeError::OutOfBounds { attempted_offset: start, width: 2, buffer_length: len },
        );
    }
    let mut i = start;
    let magic = take_u16(buffer, &mut i);
    let variant = if magic == PE32_MAGIC {
        Variant::Pe32
    } else {
        Variant::Pe32Plus
    };
    let region: usize = if magic == PE32_MAGIC {
        28
    } else {
        24
    };
    if len - start < region {
        return Err(DecodeError::OutOfBounds {
            attempted_offset: start,
            width: region,
            buffer_length: len,
        });
    }
    let major_linker_version = buffer[i];
    let minor_linker_version = buffer[i + 1];
    i = i + 2;
    let size_of_code = take_u32(buffer, &mut i);
    let size_of_initialized_data = take_u32(buffer, &mut i);
    let size_of_uninitialized_data = take_u32(buffer, &mut i);
    let address_of_entry_point = take_u32(buffer, &mut i);
    let base_of_code = take_u32(buffer, &mut i);
    let base_of_data = if magic == PE32_MAGIC {
        take_u32(buffer, &mut i)
    } else {
        0
    };
    let fields = StandardFields {
        magic,
        major_linker_version,
        minor_linker_version,
        size_of_code,
        size_of_initialized_data,
        size_of_uninitialized_data,
        address_of_entry_point,
        base_of_code,
        base_of_data,
    };
    Ok((fields, variant))
}

/// Reads a field whose width depends on the layout: four bytes widened to
/// `u64` in the 32-bit layout, eight bytes otherwise.
fn take_wide(buffer: &[u8], index: &mut usize, variant: Variant) -> (r: u64)
    requires
        *old(index) + wide_len(variant) <= buffer@.len(),
    ensures
        r as int == le_wide(buffer@, *old(index) as int, variant),
        *final(index) == *old(index) + wide_len(variant),
{
    match variant {
        Variant::Pe32 => take_u32(buffer, index) as u64,
        Variant::Pe32Plus => take_u64(buffer, index),
    }
}

/// Decodes the Windows-specific fields at `start` in layout `variant`: 68
/// bytes in the 32-bit layout, 88 otherwise.
pub fn parse_windows_specific(buffer: &[u8], start: usize, variant: Variant) -> (r: Result<
    WindowsSpecific,
    DecodeError,
>)
    ensures
        fits(start as int, windows_len(variant), buffer@.len() as int) ==> r is Ok
            && windows_matches(r->Ok_0, buffer@, start as int, variant),
        !fits(start as int, windows_len(variant), buffer@.len() as int) ==> r == Err::<
            WindowsSpecific,
            DecodeError,
        >(out_of_bounds(start, windows_len(variant) as usize, buffer@.len() as usize)),
{
    let len = buffer.len();
    let region: usize = match variant {
        Variant::Pe32 => 68,
        Variant::Pe32Plus => 88,
    };
    if start > len || len - start < region {
        return Err(DecodeError::OutOfBounds {
            attempted_offset: start,
            width: region,
            buffer_length: len,
        });
    }
    let mut i = start;
    let image_base = take_wide(buffer, &mut i, variant);
    let section_alignment = take_u32(buffer, &mut i);
    let file_alignment = take_u32(buffer, &mut i);
    let major_operating_system_version = take_u16(buffer, &mut i);
    let minor_operating_system_version = take_u16(buffer, &mut i);
    let major_image_version = take_u16(buffer, &mut i);
    let minor_image_version = take_u16(buffer, &mut i);
    let major_subsystem_version = take_u16(buffer, &mut i);
    let minor_subsystem_version = take_u16(buffer, &mut i);
    let win32_version_value = take_u32(buffer, &mut i);
    let size_of_image = take_u32(buffer, &mut i);
    let size_of_headers = take_u32(buffer, &mut i);
    let checksum = take_u32(buffer, &mut i);
    let subsystem = take_u16(buffer, &mut i);
    let dll_characteristics = take_u16(buffer, &mut i);
    let size_of_stack_reserve = take_wide(buffer, &mut i, variant);
    let size_of_stack_commit = take_wide(buffer, &mut i, variant);
    let size_of_heap_reserve = take_wide(buffer, &mut i, variant);
    let size_of_heap_commit = take_wide(buffer, &mut i, variant);
    let loader_flags = take_u32(buffer, &mut i);
    let number_of_rva_and_sizes = take_u32(buffer, &mut i);
    Ok(WindowsSpecific {
        image_base,
        section_alignment,
        file_alignment,
        major_operating_system_version,
        minor_operating_system_version,
        major_image_version,
        minor_image_version,
        major_subsystem_version,
        minor_subsystem_version,
        win32_version_value,
        size_of_image,
        size_of_headers,
        checksum,
        subsystem,
        dll_characteristics,
        size_of_stack_reserve,
        size_of_stack_commit,
        size_of_heap_reserve,
        size_of_heap_commit,
        loader_flags,
        number_of_rva_and_sizes,
    })
}

/// Decodes `number_of_directories` entries of eight bytes each from `start`
/// into a table of 16, leaving the later slots zero. A count above 16 is
/// refused before any read.
pub fn parse_data_directories(buffer: &[u8], start: usize, number_of_directories: u32) -> (r:
    Result<DataDirectories, DecodeError>)
    ensures
        number_of_directories > MAX_DIRECTORIES ==> r == Err::<DataDirectories, DecodeError>(
            DecodeError::InvalidDirectoryCount {
                declared: number_of_directories,
                max: MAX_DIRECTORIES,
            },
        ),
        number_of_directories <= MAX_DIRECTORIES && !fits(
            start as int,
            8 * number_of_directories,
            buffer@.len() as int,
        ) ==> r == Err::<DataDirectories, DecodeError>(
            out_of_bounds(start, (8 * number_of_directories) as usize, buffer@.len() as usize),
        ),
        number_of_directories <= MAX_DIRECTORIES && fits(
            start as int,
            8 * number_of_directories,
            buffer@.len() as int,
        ) ==> r is Ok && directories_match(
            r->Ok_0,
            buffer@,
            start as int,
            number_of_directories as int,
        ),
{
    if number_of_directories > MAX_DIRECTORIES {
        return Err(DecodeError::InvalidDirectoryCount {
            declared: number_of_directories,
            max: MAX_DIRECTORIES,
        });
    }
    let n = number_of_directories as usize;
    let len = buffer.len();
    if start > len || len - start < 8 * n {
        return Err(DecodeError::OutOfBounds {
            attempted_offset: start,
            width: 8 * n,
            buffer_length: len,
        });
    }
    let mut directories = [DataDirectory { virtual_address: 0, size: 0 }; 16];
    let mut i = start;
    let mut x: usize = 0;
    while x < n
        invariant
            n <= 16,
            x <= n,
            i == start + 8 * x,
            start + 8 * n <= buffer@.len(),
            forall|j: int|
                0 <= j < 16 ==> if j < x {
                    (#[trigger] directories@[j]).virtual_address as int == le32(
                        buffer@,
                        start + 8 * j,
                    ) && directories@[j].size as int == le32(buffer@, start + 8 * j + 4)
                } else {
                    directories@[j].virtual_address == 0 && directories@[j].size == 0
                },
        decreases n - x,
    {
        let virtual_address = take_u32(buffer, &mut i);
        let size = take_u32(buffer, &mut i);
        directories[x] = DataDirectory { virtual_address, size };
        x = x + 1;
    }
    Ok(DataDirectories { directories })
}


/// Decodes all headers of an image held in `buffer`. Succeeds exactly when
/// every region lies inside the buffer, the COFF header does not start
/// inside the DOS header, and at most 16 data directories are declared;
/// otherwise returns the first failure, in region order.
pub fn parse_pe_headers(buffer: &[u8]) -> (r: Result<Headers, DecodeError>)
    ensures
        decode_error(buffer@) is None ==> r is Ok && headers_match(r->Ok_0, buffer@),
        decode_error(buffer@) is Some ==> r == Err::<Headers, DecodeError>(
            decode_error(buffer@)->Some_0,
        ),
{
    let len = buffer.len();
    let dos_headers = match parse_dos(buffer) {
        Ok(h) => h,
        Err(e) => return Err(e),
    };
    let offset = dos_headers.offset_to_pe_headers;
    if (offset as usize) < DOS_LEN {
        return Err(
            DecodeError::MalformedOffset { field: OffsetField::OffsetToPeHeaders, value: offset },
        );
    }
    let coff_start = offset as usize;
    let coff_headers = match parse_coff(buffer, coff_start) {
        Ok(h) => h,
        Err(e) => return Err(e),
    };
    assert(coff_start + COFF_LEN <= len);
    let standard_start = coff_start + COFF_LEN;
    let (standard_fields, variant) = match parse_standard_fields(buffer, standard_start) {
        Ok(p) => p,
        Err(e) => return Err(e),
    };
    let windows_start = standard_start + match variant {
        Variant::Pe32 => 28,
        Variant::Pe32Plus => 24,
    };
    let windows_specific = match parse_windows_specific(buffer, windows_start, variant) {
        Ok(h) => h,
        Err(e) => return Err(e),
    };
    let directories_start = windows_start + match variant {
        Variant::Pe32 => 68,
        Variant::Pe32Plus => 88,
    };
    let data_directories = match parse_data_directories(
        buffer,
        directories_start,
        windows_specific.number_of_rva_and_sizes,
    ) {
        Ok(d) => d,
        Err(e) => return Err(e),
    };
    Ok(Headers {
        dos_headers,
        coff_headers,
        optional_headers: OptionalHeaders { standard_fields, windows_specific, data_directories },
    })
}

} // verus!
