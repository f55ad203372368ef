use vstd::prelude::*;

verus! {

/// Standard-fields magic that selects the 32-bit optional-header layout.
pub const PE32_MAGIC: u16 = 0x108;

/// Capacity of the data-directory table.
pub const MAX_DIRECTORIES: u32 = 16;

/// Everything decoded from the header region of an image.
pub struct Headers {
    pub dos_headers: DOSHeaders,
    pub coff_headers: COFFHeaders,
    pub optional_headers: OptionalHeaders,
}

/// The legacy MS-DOS stub header at the start of the file.
pub struct DOSHeaders {
    pub magic: u16,
    pub last_size: u16,
    pub pages_in_file: u16,
    pub relocations: u16,
    pub header_size_in_paragraph: u16,
    pub min_extra_paragraph_needed: u16,
    pub max_extra_paragraph_needed: u16,
    pub initial_ss: u16,
    pub initial_sp: u16,
    pub checksum: u16,
    pub initial_ip: u16,
    pub initial_cs: u16,
    pub file_add_of_relocation_table: u16,
    pub overlay_number: u16,
    pub reserved_one: [u8; 8],
    pub oem_identifier: u16,
    pub oem_information: u16,
    pub reserved_two: [u8; 20],
    pub offset_to_pe_headers: u32,
}

/// The named flags of the COFF characteristics field.
#[allow(non_camel_case_types)]
#[derive(Debug, Clone, Copy, PartialEq, Eq, Structural)]
pub enum CharacteristicsVal {
    IMAGE_FILE_RELOCS_STRIPPED,
    IMAGE_FILE_EXECUTABLE_IMAGE,
    IMAGE_FILE_LINE_NUMS_STRIPPED,
    IMAGE_FILE_LOCAL_SYMS_STRIPPED,
    IMAGE_FILE_AGGRESSIVE_WS_TRIM,
    IMAGE_FILE_LARGE_ADDRESS_AWARE,
    IMAGE_FILE_BYTES_REVERSED_LO,
    IMAGE_FILE_32BIT_MACHINE,
    IMAGE_FILE_DEBUG_STRIPPED,
    IMAGE_FILE_REMOVABLE_RUN_FROM_SWAP,
    IMAGE_FILE_NET_RUN_FROM_SWAP,
    IMAGE_FILE_SYSTEM,
    IMAGE_FILE_DLL,
    IMAGE_FILE_UP_SYSTEM_ONLY,
    IMAGE_FILE_BYTES_REVERSED_HI,
}

/// The raw characteristics value and the flags it sets, highest bit first.
pub struct Characteristics {
    pub value: u16,
    pub characteristics_list: Vec<CharacteristicsVal>,
}

/// The COFF file header.
pub struct COFFHeaders {
    pub magic: u32,
    pub target_machine: u16,
    pub number_of_sections: u16,
    pub time_date_stamp: u32,
    pub pointer_to_symbol_table: u32,
    pub number_of_symbols: u32,
    pub size_of_optional_headers: u16,
    pub characteristics: Characteristics,
}

/// The optional header: standard fields, Windows-specific fields and the
/// data-directory table.
pub struct OptionalHeaders {
    pub standard_fields: StandardFields,
    pub windows_specific: WindowsSpecific,
    pub data_directories: DataDirectories,
}

/// Standard fields of the optional header. `base_of_data` is present only
/// in the 32-bit layout and is zero otherwise.
pub struct StandardFields {
    pub magic: u16,
    pub major_linker_version: u8,
    pub minor_linker_version: u8,
    pub size_of_code: u32,
    pub size_of_initialized_data: u32,
    pub size_of_uninitialized_data: u32,
    pub address_of_entry_point: u32,
    pub base_of_code: u32,
    pub base_of_data: u32,
}

/// Windows-specific fields of the optional header. Fields that are four
/// bytes wide in the 32-bit layout are widened to `u64`.
pub struct WindowsSpecific {
    pub image_base: u64,
    pub section_alignment: u32,
    pub file_alignment: u32,
    pub major_operating_system_version: u16,
    pub minor_operating_system_version: u16,
    pub major_image_version: u16,
    pub minor_image_version: u16,
    pub major_subsystem_version: u16,
    pub minor_subsystem_version: u16,
    pub win32_version_value: u32,
    pub size_of_image: u32,
    pub size_of_headers: u32,
    pub checksum: u32,
    pub subsystem: u16,
    pub dll_characteristics: u16,
    pub size_of_stack_reserve: u64,
    pub size_of_stack_commit: u64,
    pub size_of_heap_reserve: u64,
    pub size_of_heap_commit: u64,
    pub loader_flags: u32,
    pub number_of_rva_and_sizes: u32,
}

/// The data-directory table; entries past the declared count are zero.
pub struct DataDirectories {
    pub directories: [DataDirectory; 16],
}

/// One data-directory entry.
#[derive(Debug, Clone, Copy, PartialEq, Eq, Structural)]
pub struct DataDirectory {
    pub virtual_address: u32,
    pub size: u32,
}

/// The two layouts of the optional header.
#[derive(Debug, Clone, Copy, PartialEq, Eq, Structural)]
pub enum Variant {
    Pe32,
    Pe32Plus,
}

/// The layout selected by a standard-fields magic value.
pub open spec fn variant_of(magic: u16) -> Variant {
    if magic == PE32_MAGIC {
        Variant::Pe32
    } else {
        Variant::Pe32Plus
    }
}

impl CharacteristicsVal {
    /// The bit of the characteristics field that this flag stands for.
    pub open spec fn bit(self) -> u16 {
        match self {
            CharacteristicsVal::IMAGE_FILE_RELOCS_STRIPPED => 0x0001,
            CharacteristicsVal::IMAGE_FILE_EXECUTABLE_IMAGE => 0x0002,
            CharacteristicsVal::IMAGE_FILE_LINE_NUMS_STRIPPED => 0x0004,
            CharacteristicsVal::IMAGE_FILE_LOCAL_SYMS_STRIPPED => 0x0008,
            CharacteristicsVal::IMAGE_FILE_AGGRESSIVE_WS_TRIM => 0x0010,
            CharacteristicsVal::IMAGE_FILE_LARGE_ADDRESS_AWARE => 0x0020,
            CharacteristicsVal::IMAGE_FILE_BYTES_REVERSED_LO => 0x0080,
            CharacteristicsVal::IMAGE_FILE_32BIT_MACHINE => 0x0100,
            CharacteristicsVal::IMAGE_FILE_DEBUG_STRIPPED => 0x0200,
            CharacteristicsVal::IMAGE_FILE_REMOVABLE_RUN_FROM_SWAP => 0x0400,
            CharacteristicsVal::IMAGE_FILE_NET_RUN_FROM_SWAP => 0x0800,
            CharacteristicsVal::IMAGE_FILE_SYSTEM => 0x1000,
            CharacteristicsVal::IMAGE_FILE_DLL => 0x2000,
            CharacteristicsVal::IMAGE_FILE_UP_SYSTEM_ONLY => 0x4000,
            CharacteristicsVal::IMAGE_FILE_BYTES_REVERSED_HI => 0x8000,
        }
    }

    /// The bit of the characteristics field that this flag stands for.
    pub fn value(&self) -> (r: u16)
        ensures
            r == self.bit(),
    {
        match self {
            CharacteristicsVal::IMAGE_FILE_RELOCS_STRIPPED => 0x0001,
            CharacteristicsVal::IMAGE_FILE_EXECUTABLE_IMAGE => 0x0002,
            CharacteristicsVal::IMAGE_FILE_LINE_NUMS_STRIPPED => 0x0004,
            CharacteristicsVal::IMAGE_FILE_LOCAL_SYMS_STRIPPED => 0x0008,
            CharacteristicsVal::IMAGE_FILE_AGGRESSIVE_WS_TRIM => 0x0010,
            CharacteristicsVal::IMAGE_FILE_LARGE_ADDRESS_AWARE => 0x0020,
            CharacteristicsVal::IMAGE_FILE_BYTES_REVERSED_LO => 0x0080,
            CharacteristicsVal::IMAGE_FILE_32BIT_MACHINE => 0x0100,
            CharacteristicsVal::IMAGE_FILE_DEBUG_STRIPPED => 0x0200,
            CharacteristicsVal::IMAGE_FILE_REMOVABLE_RUN_FROM_SWAP => 0x0400,
            CharacteristicsVal::IMAGE_FILE_NET_RUN_FROM_SWAP => 0x0800,
            CharacteristicsVal::IMAGE_FILE_SYSTEM => 0x1000,
            CharacteristicsVal::IMAGE_FILE_DLL => 0x2000,
            CharacteristicsVal::IMAGE_FILE_UP_SYSTEM_ONLY => 0x4000,
            CharacteristicsVal::IMAGE_FILE_BYTES_REVERSED_HI => 0x8000,
        }
    }

    /// The flag whose bit is `val`; `val` must be a single bit other than
    /// the unnamed bit 0x0040.
    pub fn from_u16(val: u16) -> (r: CharacteristicsVal)
        requires
            is_named_bit(val),
        ensures
            r.bit() == val,
    {
        proof {
            let j = choose|j: u16| j < 16 && j != 6 && #[trigger] (1u16 << j) == val;
            assert(j < 16 && j != 6 ==> ((1u16 << j) == 0x0001 || (1u16 << j) == 0x0002 || (1u16
                << j) == 0x0004 || (1u16 << j) == 0x0008 || (1u16 << j) == 0x0010 || (1u16 << j)
                == 0x0020 || (1u16 << j) == 0x0080 || (1u16 << j) == 0x0100 || (1u16 << j)
                == 0x0200 || (1u16 << j) == 0x0400 || (1u16 << j) == 0x0800 || (1u16 << j)
                == 0x1000 || (1u16 << j) == 0x2000 || (1u16 << j) == 0x4000 || (1u16 << j)
                == 0x8000)) by (bit_vector);
        }
        match val {
            0x0001 => CharacteristicsVal::IMAGE_FILE_RELOCS_STRIPPED,
            0x0002 => CharacteristicsVal::IMAGE_FILE_EXECUTABLE_IMAGE,
            0x0004 => CharacteristicsVal::IMAGE_FILE_LINE_NUMS_STRIPPED,
            0x0008 => CharacteristicsVal::IMAGE_FILE_LOCAL_SYMS_STRIPPED,
            0x0010 => CharacteristicsVal::IMAGE_FILE_AGGRESSIVE_WS_TRIM,
            0x0020 => CharacteristicsVal::IMAGE_FILE_LARGE_ADDRESS_AWARE,
            0x0080 => CharacteristicsVal::IMAGE_FILE_BYTES_REVERSED_LO,
            0x0100 => CharacteristicsVal::IMAGE_FILE_32BIT_MACHINE,
            0x0200 => CharacteristicsVal::IMAGE_FILE_DEBUG_STRIPPED,
            0x0400 => CharacteristicsVal::IMAGE_FILE_REMOVABLE_RUN_FROM_SWAP,
            0x0800 => CharacteristicsVal::IMAGE_FILE_NET_RUN_FROM_SWAP,
            0x1000 => CharacteristicsVal::IMAGE_FILE_SYSTEM,
            0x2000 => CharacteristicsVal::IMAGE_FILE_DLL,
            0x4000 => CharacteristicsVal::IMAGE_FILE_UP_SYSTEM_ONLY,
            _ => CharacteristicsVal::IMAGE_FILE_BYTES_REVERSED_HI,
        }
    }
}

/// Whether `val` is the bit of a named flag: one of the sixteen bits, but
/// not the unnamed bit 0x0040.
pub open spec fn is_named_bit(val: u16) -> bool {
    exists|j: u16| j < 16 && j != 6 && #[trigger] (1u16 << j) == val
}

/// The named bits set in `v` at positions `k` and above, highest first.
pub open spec fn named_bits_from(v: u16, k: u16) -> Seq<u16>
    decreases 16 - k,
{
    if k >= 16 {
        seq![]
    } else {
        let rest = named_bits_from(v, (k + 1) as u16);
        if k != 6 && v & (1u16 << k) != 0 {
            rest.push(1u16 << k)
        } else {
            rest
        }
    }
}

/// The named bits set in `v`, from bit 15 down to bit 0.
pub open spec fn named_bits(v: u16) -> Seq<u16> {
    named_bits_from(v, 0)
}

/// The bits of a sequence of flags, in the same order.
pub open spec fn flag_bits(flags: Seq<CharacteristicsVal>) -> Seq<u16> {
    flags.map_values(|f: CharacteristicsVal| f.bit())
}

impl Characteristics {
    /// The flag list holds exactly the named flags set in `value`, highest
    /// bit first.
    pub open spec fn wf(&self) -> bool {
        flag_bits(self.characteristics_list@) == named_bits(self.value)
    }
}

/// Standard fields that are all zero.
pub open spec fn zero_standard_fields() -> StandardFields {
    StandardFields {
        magic: 0,
        major_linker_version: 0,
        minor_linker_version: 0,
        size_of_code: 0,
        size_of_initialized_data: 0,
        size_of_uninitialized_data: 0,
        address_of_entry_point: 0,
        base_of_code: 0,
        base_of_data: 0,
    }
}

/// Windows-specific fields that are all zero.
pub open spec fn zero_windows_specific() -> WindowsSpecific {
    WindowsSpecific {
        image_base: 0,
        section_alignment: 0,
        file_alignment: 0,
        major_operating_system_version: 0,
        minor_operating_system_version: 0,
        major_image_version: 0,
        minor_image_version: 0,
        major_subsystem_version: 0,
        minor_subsystem_version: 0,
        win32_version_value: 0,
        size_of_image: 0,
        size_of_headers: 0,
        checksum: 0,
        subsystem: 0,
        dll_characteristics: 0,
        size_of_stack_reserve: 0,
        size_of_stack_commit: 0,
        size_of_heap_reserve: 0,
        size_of_heap_commit: 0,
        loader_flags: 0,
        number_of_rva_and_sizes: 0,
    }
}

impl Default for DataDirectory {
    fn default() -> (r: DataDirectory)
        ensures
            r.virtual_address == 0,
            r.size == 0,
    {
        DataDirectory { virtual_address: 0, size: 0 }
    }
}

impl Default for DataDirectories {
    fn default() -> (r: DataDirectories)
        ensures
            forall|j: int|
                0 <= j < 16 ==> (#[trigger] r.directories@[j]).virtual_address == 0
                    && r.directories@[j].size == 0,
    {
        DataDirectories { directories: [DataDirectory { virtual_address: 0, size: 0 }; 16] }
    }
}

impl Default for Characteristics {
    fn default() -> (r: Characteristics)
        ensures
            r.value == 0,
            r.characteristics_list@ == Seq::<CharacteristicsVal>::empty(),
    {
        Characteristics { value: 0, characteristics_list: Vec::new() }
    }
}

impl Default for DOSHeaders {
    fn default() -> (r: DOSHeaders)
        ensures
            r.magic == 0 && r.last_size == 0 && r.pages_in_file == 0 && r.relocations == 0,
            r.header_size_in_paragraph == 0 && r.min_extra_paragraph_needed == 0
                && r.max_extra_paragraph_needed == 0,
            r.initial_ss == 0 && r.initial_sp == 0 && r.checksum == 0 && r.initial_ip == 0
                && r.initial_cs == 0,
            r.file_add_of_relocation_table == 0 && r.overlay_number == 0,
            r.oem_identifier == 0 && r.oem_information == 0 && r.offset_to_pe_headers == 0,
            forall|j: int| 0 <= j < 8 ==> r.reserved_one@[j] == 0,
            forall|j: int| 0 <= j < 20 ==> r.reserved_two@[j] == 0,
    {
        DOSHeaders {
            magic: 0,
            last_size: 0,
            pages_in_file: 0,
            relocations: 0,
            header_size_in_paragraph: 0,
            min_extra_paragraph_needed: 0,
            max_extra_paragraph_needed: 0,
            initial_ss: 0,
            initial_sp: 0,
            checksum: 0,
            initial_ip: 0,
            initial_cs: 0,
            file_add_of_relocation_table: 0,
            overlay_number: 0,
            reserved_one: [0u8; 8],
            oem_identifier: 0,
            oem_information: 0,
            reserved_two: [0u8; 20],
            offset_to_pe_headers: 0,
        }
    }
}

impl Default for COFFHeaders {
    fn default() -> (r: COFFHeaders)
        ensures
            r.magic == 0 && r.target_machine == 0 && r.number_of_sections == 0,
            r.time_date_stamp == 0 && r.pointer_to_symbol_table == 0 && r.number_of_symbols == 0,
            r.size_of_optional_headers == 0,
            r.characteristics.value == 0,
            r.characteristics.characteristics_list@ == Seq::<CharacteristicsVal>::empty(),
    {
        COFFHeaders {
            magic: 0,
            target_machine: 0,
            number_of_sections: 0,
            time_date_stamp: 0,
            pointer_to_symbol_table: 0,
            number_of_symbols: 0,
            size_of_optional_headers: 0,
            characteristics: Characteristics::default(),
        }
    }
}

impl Default for StandardFields {
    fn default() -> (r: StandardFields)
        ensures
            r == zero_standard_fields(),
    {
        StandardFields {
            magic: 0,
            major_linker_version: 0,
            minor_linker_version: 0,
            size_of_code: 0,
            size_of_initialized_data: 0,
            size_of_uninitialized_data: 0,
            address_of_entry_point: 0,
            base_of_code: 0,
            base_of_data: 0,
        }
    }
}

impl Default for WindowsSpecific {
    fn default() -> (r: WindowsSpecific)
        ensures
            r == zero_windows_specific(),
    {
        WindowsSpecific {
            image_base: 0,
            section_alignment: 0,
            file_alignment: 0,
            major_operating_system_version: 0,
            minor_operating_system_version: 0,
            major_image_version: 0,
            minor_image_version: 0,
            major_subsystem_version: 0,
            minor_subsystem_version: 0,
            win32_version_value: 0,
            size_of_image: 0,
            size_of_headers: 0,
            checksum: 0,
            subsystem: 0,
            dll_characteristics: 0,
            size_of_stack_reserve: 0,
            size_of_stack_commit: 0,
            size_of_heap_reserve: 0,
            size_of_heap_commit: 0,
            loader_flags: 0,
            number_of_rva_and_sizes: 0,
        }
    }
}

impl Default for OptionalHeaders {
    fn default() -> (r: OptionalHeaders)
        ensures
            r.standard_fields == zero_standard_fields(),
            r.windows_specific == zero_windows_specific(),
            forall|j: int|
                0 <= j < 16 ==> (#[trigger] r.data_directories.directories@[j]).virtual_address
                    == 0 && r.data_directories.directories@[j].size == 0,
    {
        OptionalHeaders {
            standard_fields: StandardFields::default(),
            windows_specific: WindowsSpecific::default(),
            data_directories: DataDirectories::default(),
        }
    }
}

impl Default for Headers {
    fn default() -> (r: Headers)
        ensures
            r.coff_headers.characteristics.characteristics_list@ == Seq::<
                CharacteristicsVal,
            >::empty(),
            r.dos_headers.offset_to_pe_headers == 0,
            r.optional_headers.standard_fields == zero_standard_fields(),
            r.optional_headers.windows_specific == zero_windows_specific(),
    {
        Headers {
            dos_headers: DOSHeaders::default(),
            coff_headers: COFFHeaders::default(),
            optional_headers: OptionalHeaders::default(),
        }
    }
}

} // verus!
