use vstd::prelude::*;

use crate::encode::{
    encodable, encode_coff, encode_directories, encode_dos, encode_headers, encode_standard,
    encode_windows, lemma_cat, lemma_coff_at, lemma_directories_at, lemma_directories_encoded,
    lemma_dos_at, lemma_encoded_lengths, lemma_standard_at, lemma_sub_sub, lemma_windows_at,
    same_headers,
};
use crate::error::DecodeError;
use crate::layout::{
    coff_matches, decode_error, directories_match, directories_start, directory_count,
    dos_matches, headers_match, image_variant, pe_offset, standard_len, standard_matches,
    standard_start, windows_len, windows_matches, DOS_LEN,
};
use crate::structs::{
    flag_bits, variant_of, Characteristics, DataDirectory, Headers, MAX_DIRECTORIES,
};

verus! {

/// A declared directory count above the table's capacity is refused with
/// `InvalidDirectoryCount` once every region before the table is present.
pub proof fn lemma_too_many_directories(b: Seq<u8>)
    requires
        b.len() >= DOS_LEN,
        pe_offset(b) >= DOS_LEN,
        directories_start(b) <= b.len(),
        directory_count(b) > MAX_DIRECTORIES,
    ensures
        decode_error(b) == Some(
            DecodeError::InvalidDirectoryCount {
                declared: directory_count(b) as u32,
                max: MAX_DIRECTORIES,
            },
        ),
{
}

/// With no data directories declared, every table entry is zero and the
/// table region is empty: the buffer cut just past the Windows-specific
/// fields decodes to the same headers.
pub proof fn lemma_no_directories(b: Seq<u8>, h: Headers)
    requires
        decode_error(b) is None,
        directory_count(b) == 0,
        headers_match(h, b),
    ensures
        forall|j: int|
            0 <= j < 16 ==> (#[trigger] h.optional_headers.data_directories.directories@[j])
                == (DataDirectory { virtual_address: 0, size: 0 }),
        decode_error(b.subrange(0, directories_start(b))) is None,
        headers_match(h, b.subrange(0, directories_start(b))),
{
    let p = b.subrange(0, directories_start(b));
    assert(p.subrange(28, 36) =~= b.subrange(28, 36));
    assert(p.subrange(40, 60) =~= b.subrange(40, 60));
    assert(pe_offset(p) == pe_offset(b));
    assert(standard_start(p) == standard_start(b));
    assert(image_variant(p) == image_variant(b));
    assert(directories_start(p) == directories_start(b));
}

/// Two well-formed characteristics with the same raw value list the same
/// flags: a flag is determined by its bit.
proof fn lemma_flags_determined(a: Characteristics, b: Characteristics)
    requires
        a.wf(),
        b.wf(),
        a.value == b.value,
    ensures
        a.characteristics_list@ == b.characteristics_list@,
{
    let (x, y) = (a.characteristics_list@, b.characteristics_list@);
    assert(flag_bits(x).len() == x.len());
    assert(flag_bits(y).len() == y.len());
    assert forall|i: int| 0 <= i < x.len() implies x[i] == y[i] by {
        assert(flag_bits(x)[i] == x[i].bit());
        assert(flag_bits(y)[i] == y[i].bit());
    }
    assert(x =~= y);
}

/// Headers that match the same bytes hold the same values: decoding
/// determines every field.
pub proof fn lemma_headers_determined(r: Headers, h: Headers, b: Seq<u8>)
    requires
        headers_match(r, b),
        headers_match(h, b),
    ensures
        same_headers(r, h),
{
    assert(r.dos_headers.reserved_one =~= h.dos_headers.reserved_one);
    assert(r.dos_headers.reserved_two =~= h.dos_headers.reserved_two);
    lemma_flags_determined(r.coff_headers.characteristics, h.coff_headers.characteristics);
    let rd = r.optional_headers.data_directories.directories;
    let hd = h.optional_headers.data_directories.directories;
    assert forall|j: int| 0 <= j < 16 implies rd[j] == hd[j] by {
        assert(rd@[j] == rd[j]);
        assert(hd@[j] == hd[j]);
    }
    assert(rd =~= hd);
}

/// Where each region of the encoding of `h` lies.
proof fn lemma_encoded_regions(h: Headers)
    requires
        encodable(h),
    ensures
        ({
            let o = h.optional_headers;
            let v = variant_of(o.standard_fields.magic);
            let e = encode_headers(h);
            let off = h.dos_headers.offset_to_pe_headers as int;
            let ss = off + 24;
            let ws = ss + standard_len(v);
            let ds = ws + windows_len(v);
            let n = o.windows_specific.number_of_rva_and_sizes as int;
            &&& e.len() == ds + 8 * n
            &&& e.subrange(0, 64) == encode_dos(h.dos_headers)
            &&& e.subrange(off, ss) == encode_coff(h.coff_headers)
            &&& e.subrange(ss, ws) == encode_standard(o.standard_fields)
            &&& e.subrange(ws, ds) == encode_windows(o.windows_specific, v)
            &&& e.subrange(ds, ds + 8 * n) == encode_directories(o.data_directories, n as nat)
        }),
{
    let o = h.optional_headers;
    let v = variant_of(o.standard_fields.magic);
    let n = o.windows_specific.number_of_rva_and_sizes as nat;
    let off = h.dos_headers.offset_to_pe_headers as int;
    let a = encode_dos(h.dos_headers);
    let z = Seq::new((off - 64) as nat, |i: int| 0u8);
    let c = encode_coff(h.coff_headers);
    let d = encode_standard(o.standard_fields);
    let w = encode_windows(o.windows_specific, v);
    let t = encode_directories(o.data_directories, n);
    let e = encode_headers(h);
    reveal(encode_headers);
    lemma_encoded_lengths(h);
    lemma_directories_encoded(o.data_directories, n);
    let thru_pad = a + z;
    let thru_coff = thru_pad + c;
    let thru_standard = thru_coff + d;
    let thru_windows = thru_standard + w;
    assert(e == thru_windows + t);
    lemma_cat(thru_windows, t);
    lemma_cat(thru_standard, w);
    lemma_cat(thru_coff, d);
    lemma_cat(thru_pad, c);
    lemma_cat(a, z);
    let n_pad = thru_pad.len() as int;
    let n_coff = thru_coff.len() as int;
    let n_standard = thru_standard.len() as int;
    let n_windows = thru_windows.len() as int;
    lemma_sub_sub(e, 0, n_windows, n_standard, n_windows);
    lemma_sub_sub(e, 0, n_windows, 0, n_standard);
    lemma_sub_sub(e, 0, n_standard, n_coff, n_standard);
    lemma_sub_sub(e, 0, n_standard, 0, n_coff);
    lemma_sub_sub(e, 0, n_coff, n_pad, n_coff);
    lemma_sub_sub(e, 0, n_coff, 0, n_pad);
    lemma_sub_sub(e, 0, n_pad, 0, 64);
    lemma_sub_sub(thru_windows, 0, n_standard, n_coff, n_standard);
    lemma_sub_sub(thru_windows, 0, n_standard, 0, n_coff);
    lemma_sub_sub(thru_standard, 0, n_coff, n_pad, n_coff);
    lemma_sub_sub(thru_standard, 0, n_coff, 0, n_pad);
    lemma_sub_sub(thru_coff, 0, n_pad, 0, 64);
}

/// The encoding of `h` holds each region of `h` where the one before it
/// ends.
proof fn lemma_encoded_regions_match(h: Headers)
    requires
        encodable(h),
    ensures
        ({
            let o = h.optional_headers;
            let v = variant_of(o.standard_fields.magic);
            let e = encode_headers(h);
            let off = h.dos_headers.offset_to_pe_headers as int;
            let ss = off + 24;
            let ws = ss + standard_len(v);
            let ds = ws + windows_len(v);
            &&& dos_matches(h.dos_headers, e)
            &&& coff_matches(h.coff_headers, e, off)
            &&& standard_matches(o.standard_fields, e, ss)
            &&& windows_matches(o.windows_specific, e, ws, v)
            &&& directories_match(
                o.data_directories,
                e,
                ds,
                o.windows_specific.number_of_rva_and_sizes as int,
            )
        }),
{
    let o = h.optional_headers;
    let v = variant_of(o.standard_fields.magic);
    let n = o.windows_specific.number_of_rva_and_sizes as nat;
    let off = h.dos_headers.offset_to_pe_headers as int;
    let e = encode_headers(h);
    lemma_encoded_regions(h);
    lemma_encoded_lengths(h);
    let ss = off + 24;
    let ws = ss + standard_len(v);
    let ds = ws + windows_len(v);
    lemma_dos_at(h.dos_headers, e);
    lemma_coff_at(h.coff_headers, e, off);
    lemma_standard_at(o.standard_fields, e, ss);
    lemma_windows_at(o.windows_specific, v, e, ws);
    lemma_directories_at(o.data_directories, n, e, ds);
}

/// Where the decoder finds the COFF header, the layout and the directory
/// count in the encoding of `h`, and that `h` matches the encoding.
proof fn lemma_encoded_fields(h: Headers)
    requires
        encodable(h),
    ensures
        pe_offset(encode_headers(h)) == h.dos_headers.offset_to_pe_headers,
        image_variant(encode_headers(h)) == variant_of(
            h.optional_headers.standard_fields.magic,
        ),
        directory_count(encode_headers(h))
            == h.optional_headers.windows_specific.number_of_rva_and_sizes,
        headers_match(h, encode_headers(h)),
{
    lemma_encoded_regions_match(h);
}

/// The decoder accepts the encoding of encodable headers.
proof fn lemma_encoded_accepted(h: Headers)
    requires
        encodable(h),
    ensures
        decode_error(encode_headers(h)) is None,
{
    let e = encode_headers(h);
    let v = variant_of(h.optional_headers.standard_fields.magic);
    let n = h.optional_headers.windows_specific.number_of_rva_and_sizes as int;
    lemma_encoded_regions(h);
    lemma_encoded_fields(h);
    assert(standard_start(e) == h.dos_headers.offset_to_pe_headers + 24);
    assert(directories_start(e) == standard_start(e) + standard_len(v) + windows_len(v));
    assert(e.len() == directories_start(e) + 8 * n);
}

/// Round trip: the image written from encodable headers decodes without
/// error, the headers match it, and every headers value that matches it
/// holds the values that were written.
pub proof fn lemma_round_trip(h: Headers)
    requires
        encodable(h),
    ensures
        decode_error(encode_headers(h)) is None,
        headers_match(h, encode_headers(h)),
        forall|r: Headers| #[trigger] headers_match(r, encode_headers(h)) ==> same_headers(r, h),
{
    let e = encode_headers(h);
    lemma_encoded_accepted(h);
    lemma_encoded_fields(h);
    assert forall|r: Headers| #[trigger] headers_match(r, e) implies same_headers(r, h) by {
        lemma_headers_determined(r, h, e);
    }
}

} // verus!
