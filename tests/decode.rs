use pehp::{
    consume_u16_from_buffer, consume_u32_from_buffer, consume_u64_from_buffer,
    parse_characteristics, parse_pe_headers, CharacteristicsVal, DecodeError, OffsetField,
};

const PE32: u16 = 0x108;
const PE32_PLUS: u16 = 0x20B;

fn put16(b: &mut Vec<u8>, x: u16) {
    b.extend_from_slice(&x.to_le_bytes());
}

fn put32(b: &mut Vec<u8>, x: u32) {
    b.extend_from_slice(&x.to_le_bytes());
}

fn put64(b: &mut Vec<u8>, x: u64) {
    b.extend_from_slice(&x.to_le_bytes());
}

fn put_wide(b: &mut Vec<u8>, pe32: bool, x: u64) {
    if pe32 {
        put32(b, x as u32);
    } else {
        put64(b, x);
    }
}

/// Encodes an image whose every header field holds a distinct value.
fn encode_image(magic: u16, offset: u32, characteristics: u16, directories: u32) -> Vec<u8> {
    let pe32 = magic == PE32;
    let mut b = Vec::new();
    for k in 0..14u16 {
        put16(&mut b, 0x5A4D + k * 0x0101);
    }
    b.extend_from_slice(&[1, 2, 3, 4, 5, 6, 7, 8]);
    put16(&mut b, 0x1111);
    put16(&mut b, 0x2222);
    for k in 0..20u8 {
        b.push(100 + k);
    }
    put32(&mut b, offset);
    while b.len() < offset as usize {
        b.push(0xEE);
    }
    put32(&mut b, 0x0000_4550);
    put16(&mut b, 0x014C);
    put16(&mut b, 3);
    put32(&mut b, 0x5F5E_1000);
    put32(&mut b, 0x1234);
    put32(&mut b, 0x56);
    put16(&mut b, 0xE0);
    put16(&mut b, characteristics);
    put16(&mut b, magic);
    b.push(14);
    b.push(2);
    put32(&mut b, 0x1000);
    put32(&mut b, 0x2000);
    put32(&mut b, 0x3000);
    put32(&mut b, 0x1500);
    put32(&mut b, 0x1800);
    if pe32 {
        put32(&mut b, 0x2800);
    }
    put_wide(&mut b, pe32, if pe32 { 0x0040_0000 } else { 0x1_4000_0000 });
    put32(&mut b, 0x1000);
    put32(&mut b, 0x200);
    for k in 1..7u16 {
        put16(&mut b, k);
    }
    put32(&mut b, 0x77);
    put32(&mut b, 0x5000);
    put32(&mut b, 0x400);
    put32(&mut b, 0xABCD);
    put16(&mut b, 3);
    put16(&mut b, 0x8160);
    put_wide(&mut b, pe32, if pe32 { 0x10_0000 } else { 0x1_0010_0000 });
    put_wide(&mut b, pe32, 0x1001);
    put_wide(&mut b, pe32, if pe32 { 0x20_0000 } else { 0x2_0020_0000 });
    put_wide(&mut b, pe32, 0x2002);
    put32(&mut b, 0x9);
    put32(&mut b, directories);
    for j in 0..directories {
        put32(&mut b, 0x1000 * (j + 1));
        put32(&mut b, 0x10 * (j + 1));
    }
    b
}

fn check_round_trip(magic: u16, offset: u32) {
    let pe32 = magic == PE32;
    let image = encode_image(magic, offset, 0x0103, 16);
    let h = parse_pe_headers(&image).unwrap();
    let d = &h.dos_headers;
    assert_eq!(d.magic, 0x5A4D);
    assert_eq!(d.last_size, 0x5A4D + 0x0101);
    assert_eq!(d.pages_in_file, 0x5A4D + 2 * 0x0101);
    assert_eq!(d.relocations, 0x5A4D + 3 * 0x0101);
    assert_eq!(d.header_size_in_paragraph, 0x5A4D + 4 * 0x0101);
    assert_eq!(d.min_extra_paragraph_needed, 0x5A4D + 5 * 0x0101);
    assert_eq!(d.max_extra_paragraph_needed, 0x5A4D + 6 * 0x0101);
    assert_eq!(d.initial_ss, 0x5A4D + 7 * 0x0101);
    assert_eq!(d.initial_sp, 0x5A4D + 8 * 0x0101);
    assert_eq!(d.checksum, 0x5A4D + 9 * 0x0101);
    assert_eq!(d.initial_ip, 0x5A4D + 10 * 0x0101);
    assert_eq!(d.initial_cs, 0x5A4D + 11 * 0x0101);
    assert_eq!(d.file_add_of_relocation_table, 0x5A4D + 12 * 0x0101);
    assert_eq!(d.overlay_number, 0x5A4D + 13 * 0x0101);
    assert_eq!(d.reserved_one, [1, 2, 3, 4, 5, 6, 7, 8]);
    assert_eq!(d.oem_identifier, 0x1111);
    assert_eq!(d.oem_information, 0x2222);
    let two: Vec<u8> = (100..120).collect();
    assert_eq!(d.reserved_two.to_vec(), two);
    assert_eq!(d.offset_to_pe_headers, offset);

    let c = &h.coff_headers;
    assert_eq!(c.magic, 0x4550);
    assert_eq!(c.target_machine, 0x014C);
    assert_eq!(c.number_of_sections, 3);
    assert_eq!(c.time_date_stamp, 0x5F5E_1000);
    assert_eq!(c.pointer_to_symbol_table, 0x1234);
    assert_eq!(c.number_of_symbols, 0x56);
    assert_eq!(c.size_of_optional_headers, 0xE0);
    assert_eq!(c.characteristics.value, 0x0103);

    let s = &h.optional_headers.standard_fields;
    assert_eq!(s.magic, magic);
    assert_eq!(s.major_linker_version, 14);
    assert_eq!(s.minor_linker_version, 2);
    assert_eq!(s.size_of_code, 0x1000);
    assert_eq!(s.size_of_initialized_data, 0x2000);
    assert_eq!(s.size_of_uninitialized_data, 0x3000);
    assert_eq!(s.address_of_entry_point, 0x1500);
    assert_eq!(s.base_of_code, 0x1800);
    assert_eq!(s.base_of_data, if pe32 { 0x2800 } else { 0 });

    let w = &h.optional_headers.windows_specific;
    assert_eq!(w.image_base, if pe32 { 0x0040_0000 } else { 0x1_4000_0000 });
    assert_eq!(w.section_alignment, 0x1000);
    assert_eq!(w.file_alignment, 0x200);
    assert_eq!(w.major_operating_system_version, 1);
    assert_eq!(w.minor_operating_system_version, 2);
    assert_eq!(w.major_image_version, 3);
    assert_eq!(w.minor_image_version, 4);
    assert_eq!(w.major_subsystem_version, 5);
    assert_eq!(w.minor_subsystem_version, 6);
    assert_eq!(w.win32_version_value, 0x77);
    assert_eq!(w.size_of_image, 0x5000);
    assert_eq!(w.size_of_headers, 0x400);
    assert_eq!(w.checksum, 0xABCD);
    assert_eq!(w.subsystem, 3);
    assert_eq!(w.dll_characteristics, 0x8160);
    assert_eq!(w.size_of_stack_reserve, if pe32 { 0x10_0000 } else { 0x1_0010_0000 });
    assert_eq!(w.size_of_stack_commit, 0x1001);
    assert_eq!(w.size_of_heap_reserve, if pe32 { 0x20_0000 } else { 0x2_0020_0000 });
    assert_eq!(w.size_of_heap_commit, 0x2002);
    assert_eq!(w.loader_flags, 0x9);
    assert_eq!(w.number_of_rva_and_sizes, 16);

    for j in 0..16u32 {
        let e = h.optional_headers.data_directories.directories[j as usize];
        assert_eq!(e.virtual_address, 0x1000 * (j + 1));
        assert_eq!(e.size, 0x10 * (j + 1));
    }
}

#[test]
fn round_trip_pe32() {
    check_round_trip(PE32, 64);
    check_round_trip(PE32, 0x80);
}

#[test]
fn round_trip_pe32_plus() {
    check_round_trip(PE32_PLUS, 64);
    check_round_trip(PE32_PLUS, 0xF8);
}

#[test]
fn region_lengths_per_layout() {
    assert_eq!(encode_image(PE32, 64, 0, 0).len(), 64 + 24 + 28 + 68);
    assert_eq!(encode_image(PE32_PLUS, 64, 0, 0).len(), 64 + 24 + 24 + 88);
    assert!(parse_pe_headers(&encode_image(PE32, 64, 0, 0)).is_ok());
    assert!(parse_pe_headers(&encode_image(PE32_PLUS, 64, 0, 0)).is_ok());
}

fn names(value: u16) -> Vec<CharacteristicsVal> {
    parse_characteristics(value).characteristics_list
}

#[test]
fn characteristics_0x0103() {
    assert_eq!(
        names(0x0103),
        vec![
            CharacteristicsVal::IMAGE_FILE_32BIT_MACHINE,
            CharacteristicsVal::IMAGE_FILE_EXECUTABLE_IMAGE,
            CharacteristicsVal::IMAGE_FILE_RELOCS_STRIPPED,
        ]
    );
    assert!(!names(0x0103).contains(&CharacteristicsVal::IMAGE_FILE_BYTES_REVERSED_HI));
    let h = parse_pe_headers(&encode_image(PE32, 64, 0x0103, 0)).unwrap();
    assert_eq!(h.coff_headers.characteristics.characteristics_list, names(0x0103));
}

#[test]
fn characteristics_reencode() {
    for value in [0u16, 0x0001, 0x0103, 0x2102, 0x8000, 0xFFBF, 0xA5A5 & !0x40, 0x0022] {
        let c = parse_characteristics(value);
        assert_eq!(c.value, value);
        let mut or = 0u16;
        for f in &c.characteristics_list {
            or |= f.value();
        }
        assert_eq!(or, value);
    }
}

#[test]
fn characteristics_highest_bit_first() {
    let all = names(0xFFFF);
    assert_eq!(all.len(), 15);
    assert_eq!(all[0], CharacteristicsVal::IMAGE_FILE_BYTES_REVERSED_HI);
    assert_eq!(all[14], CharacteristicsVal::IMAGE_FILE_RELOCS_STRIPPED);
    for k in 1..all.len() {
        assert!(all[k - 1].value() > all[k].value());
    }
    assert!(names(0).is_empty());
}

#[test]
fn characteristics_unnamed_bit_is_dropped() {
    assert!(names(0x0040).is_empty());
    assert_eq!(names(0x0041), vec![CharacteristicsVal::IMAGE_FILE_RELOCS_STRIPPED]);
    let h = parse_pe_headers(&encode_image(PE32_PLUS, 64, 0x0040, 0)).unwrap();
    assert_eq!(h.coff_headers.characteristics.value, 0x0040);
    assert!(h.coff_headers.characteristics.characteristics_list.is_empty());
}

#[test]
fn flag_from_bit() {
    assert_eq!(CharacteristicsVal::from_u16(0x2000), CharacteristicsVal::IMAGE_FILE_DLL);
    assert_eq!(CharacteristicsVal::from_u16(0x0080), CharacteristicsVal::IMAGE_FILE_BYTES_REVERSED_LO);
    assert_eq!(CharacteristicsVal::IMAGE_FILE_SYSTEM.value(), 0x1000);
}

#[test]
fn zero_directories() {
    let image = encode_image(PE32, 64, 0, 0);
    let h = parse_pe_headers(&image).unwrap();
    for e in h.optional_headers.data_directories.directories.iter() {
        assert_eq!((e.virtual_address, e.size), (0, 0));
    }
    let mut longer = image.clone();
    longer.extend_from_slice(&[0xFF; 32]);
    let h = parse_pe_headers(&longer).unwrap();
    for e in h.optional_headers.data_directories.directories.iter() {
        assert_eq!((e.virtual_address, e.size), (0, 0));
    }
}

#[test]
fn some_directories_leave_rest_zero() {
    let h = parse_pe_headers(&encode_image(PE32_PLUS, 64, 0, 3)).unwrap();
    let d = h.optional_headers.data_directories.directories;
    assert_eq!((d[0].virtual_address, d[0].size), (0x1000, 0x10));
    assert_eq!((d[2].virtual_address, d[2].size), (0x3000, 0x30));
    for e in d[3..].iter() {
        assert_eq!((e.virtual_address, e.size), (0, 0));
    }
}

#[test]
fn seventeen_directories_rejected() {
    let image = encode_image(PE32, 64, 0, 17);
    assert_eq!(
        parse_pe_headers(&image).err(),
        Some(DecodeError::InvalidDirectoryCount { declared: 17, max: 16 })
    );
    let mut cut = encode_image(PE32, 64, 0, 0);
    let n = cut.len();
    cut[n - 4..].copy_from_slice(&17u32.to_le_bytes());
    assert_eq!(
        parse_pe_headers(&cut).err(),
        Some(DecodeError::InvalidDirectoryCount { declared: 17, max: 16 })
    );
}

#[test]
fn directory_table_truncated() {
    let mut image = encode_image(PE32, 64, 0, 2);
    image.pop();
    assert_eq!(
        parse_pe_headers(&image).err(),
        Some(DecodeError::OutOfBounds { attempted_offset: 184, width: 16, buffer_length: 199 })
    );
}

#[test]
fn truncated_dos_header() {
    let image = encode_image(PE32, 64, 0, 0);
    let err = parse_pe_headers(&image[..63]).err().unwrap();
    assert_eq!(err, DecodeError::OutOfBounds { attempted_offset: 0, width: 64, buffer_length: 63 });
    match err {
        DecodeError::OutOfBounds { attempted_offset, buffer_length, .. } => {
            assert!(attempted_offset <= 63);
            assert_eq!(buffer_length, 63);
        }
        _ => panic!("expected OutOfBounds"),
    }
    assert!(parse_pe_headers(&[]).is_err());
}

#[test]
fn offset_inside_dos_header() {
    let mut image = encode_image(PE32, 64, 0, 0);
    image[60..64].copy_from_slice(&32u32.to_le_bytes());
    assert_eq!(
        parse_pe_headers(&image).err(),
        Some(DecodeError::MalformedOffset { field: OffsetField::OffsetToPeHeaders, value: 32 })
    );
}

#[test]
fn offset_past_end() {
    let mut image = encode_image(PE32, 64, 0, 0);
    image[60..64].copy_from_slice(&0xFFFF_FFF0u32.to_le_bytes());
    assert_eq!(
        parse_pe_headers(&image).err(),
        Some(DecodeError::OutOfBounds {
            attempted_offset: 0xFFFF_FFF0,
            width: 24,
            buffer_length: 184
        })
    );
}

#[test]
fn coff_header_truncated() {
    let image = encode_image(PE32, 64, 0, 0);
    assert_eq!(
        parse_pe_headers(&image[..80]).err(),
        Some(DecodeError::OutOfBounds { attempted_offset: 64, width: 24, buffer_length: 80 })
    );
    assert_eq!(
        parse_pe_headers(&image[..89]).err(),
        Some(DecodeError::OutOfBounds { attempted_offset: 88, width: 2, buffer_length: 89 })
    );
    assert_eq!(
        parse_pe_headers(&image[..100]).err(),
        Some(DecodeError::OutOfBounds { attempted_offset: 88, width: 28, buffer_length: 100 })
    );
}

/// A minimal 32-bit image: every field zero but the offset, the magic, and
/// the first eight bytes of the Windows-specific fields.
fn minimal_image(magic: u16) -> Vec<u8> {
    let mut b = vec![0u8; 64 + 24 + 28 + 68];
    b[60..64].copy_from_slice(&64u32.to_le_bytes());
    b[88..90].copy_from_slice(&magic.to_le_bytes());
    b[116..120].copy_from_slice(&0x1122_3344u32.to_le_bytes());
    b[120..124].copy_from_slice(&0x5566_7788u32.to_le_bytes());
    b
}

#[test]
fn minimal_pe32_reads_four_byte_image_base() {
    let h = parse_pe_headers(&minimal_image(0x108)).unwrap();
    assert_eq!(h.optional_headers.windows_specific.image_base, 0x1122_3344);
    assert_eq!(h.optional_headers.windows_specific.section_alignment, 0x5566_7788);
    assert_eq!(h.optional_headers.standard_fields.base_of_data, 0);
}

#[test]
fn minimal_other_magic_uses_wide_layout() {
    let image = minimal_image(0x10B);
    assert_eq!(
        parse_pe_headers(&image).err(),
        Some(DecodeError::OutOfBounds { attempted_offset: 112, width: 88, buffer_length: 184 })
    );
    let mut padded = image.clone();
    padded.extend_from_slice(&[0u8; 16]);
    let h = parse_pe_headers(&padded).unwrap();
    assert_eq!(h.optional_headers.standard_fields.base_of_data, 0);
    assert_eq!(h.optional_headers.windows_specific.image_base, 0x1122_3344_0000_0000);
    assert_eq!(h.optional_headers.windows_specific.section_alignment, 0x5566_7788);
}

#[test]
fn consume_reads_little_endian() {
    let b = [0x01u8, 0x02, 0x03, 0x04, 0x05, 0x06, 0x07, 0x08, 0x09];
    let mut i: usize = 1;
    assert_eq!(consume_u16_from_buffer(&b, &mut i), Ok(0x0302));
    assert_eq!(i, 3);
    assert_eq!(consume_u32_from_buffer(&b, &mut i), Ok(0x0706_0504));
    assert_eq!(i, 7);
    let mut j: usize = 0;
    assert_eq!(consume_u64_from_buffer(&b, &mut j), Ok(0x0807_0605_0403_0201));
    assert_eq!(j, 8);
}

#[test]
fn consume_out_of_bounds() {
    let b = [0xFFu8; 9];
    let mut i: usize = 8;
    assert_eq!(
        consume_u16_from_buffer(&b, &mut i),
        Err(DecodeError::OutOfBounds { attempted_offset: 8, width: 2, buffer_length: 9 })
    );
    assert_eq!(i, 8);
    let mut i: usize = 6;
    assert_eq!(
        consume_u32_from_buffer(&b, &mut i),
        Err(DecodeError::OutOfBounds { attempted_offset: 6, width: 4, buffer_length: 9 })
    );
    assert_eq!(i, 6);
    let mut i: usize = 2;
    assert_eq!(
        consume_u64_from_buffer(&b, &mut i),
        Err(DecodeError::OutOfBounds { attempted_offset: 2, width: 8, buffer_length: 9 })
    );
    assert_eq!(i, 2);
    let mut i: usize = 100;
    assert!(consume_u16_from_buffer(&b, &mut i).is_err());
    assert_eq!(i, 100);
}

#[test]
fn defaults_are_zero() {
    let h = pehp::Headers::default();
    assert_eq!(h.dos_headers.magic, 0);
    assert_eq!(h.dos_headers.reserved_one, [0u8; 8]);
    assert_eq!(h.dos_headers.reserved_two, [0u8; 20]);
    assert_eq!(h.dos_headers.offset_to_pe_headers, 0);
    assert_eq!(h.coff_headers.characteristics.value, 0);
    assert!(h.coff_headers.characteristics.characteristics_list.is_empty());
    assert_eq!(h.optional_headers.standard_fields.magic, 0);
    assert_eq!(h.optional_headers.windows_specific.number_of_rva_and_sizes, 0);
    for e in h.optional_headers.data_directories.directories.iter() {
        assert_eq!(*e, pehp::DataDirectory::default());
    }
}
