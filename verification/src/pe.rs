//! Locating a named section's raw bytes inside a PE/PE32+ image.
//!
//! The reader walks the image's headers: the DOS header gives the offset of
//! the PE signature, the COFF header behind it gives the section count and
//! the size of the optional header, and the section table follows. The
//! first section whose name (the 8-byte field, truncated at the first NUL
//! byte) matches exactly is returned as the raw bytes in
//! `[pointer_to_raw_data, pointer_to_raw_data + virtual_size)`.
//!
//! A matched section with `virtual_size > size_of_raw_data` signals a
//! malformed or packed image: that is a hard failure, never a silent clamp
//! or truncation. An image whose headers do not parse yields no section at
//! all. The reader is read-only and allocates only the returned bytes.

use vstd::prelude::*;
use vstd::slice::slice_index_get;
use vstd::slice::slice_subrange;
use vstd::slice::slice_to_vec;

verus! {

/// A matched section that cannot be returned as stated.
#[derive(Clone, Copy, PartialEq, Eq, Structural, Debug)]
pub enum PeError {
    /// The matched section's `virtual_size` exceeds its
    /// `size_of_raw_data`: the image is malformed or packed.
    SectionSizeExceedsRawData,
    /// The matched section's raw data range runs past the end of the
    /// image.
    SectionOutOfBounds,
}

/// The 16-bit little-endian value at byte offset `i`.
pub open spec fn spec_u16_le(d: Seq<u8>, i: int) -> nat
    recommends
        0 <= i,
        i + 2 <= d.len(),
{
    d[i] as nat + 256 * (d[i + 1] as nat)
}

/// The 32-bit little-endian value at byte offset `i`.
pub open spec fn spec_u32_le(d: Seq<u8>, i: int) -> nat
    recommends
        0 <= i,
        i + 4 <= d.len(),
{
    spec_u16_le(d, i) + 0x10000 * spec_u16_le(d, i + 2)
}

/// Offset of the PE signature, read from the DOS header.
pub open spec fn spec_pe_offset(d: Seq<u8>) -> int {
    spec_u32_le(d, 0x3c) as int
}

/// Number of entries in the section table, from the COFF header.
pub open spec fn spec_num_sections(d: Seq<u8>) -> int {
    spec_u16_le(d, spec_pe_offset(d) + 6) as int
}

/// Size of the optional header, from the COFF header.
pub open spec fn spec_opt_header_size(d: Seq<u8>) -> int {
    spec_u16_le(d, spec_pe_offset(d) + 20) as int
}

/// Offset of the section table: it follows the PE signature, the COFF
/// header and the optional header.
pub open spec fn spec_section_table(d: Seq<u8>) -> int {
    spec_pe_offset(d) + 24 + spec_opt_header_size(d)
}

/// The image's headers parse: DOS magic, PE signature, a section table
/// that lies inside the image, and a PE32 or PE32+ optional-header magic
/// when an optional header is present.
pub open spec fn spec_headers_ok(d: Seq<u8>) -> bool {
    &&& d.len() >= 0x40
    &&& d[0] == 0x4du8
    &&& d[1] == 0x5au8
    &&& spec_pe_offset(d) + 24 <= d.len()
    &&& d[spec_pe_offset(d)] == 0x50u8
    &&& d[spec_pe_offset(d) + 1] == 0x45u8
    &&& d[spec_pe_offset(d) + 2] == 0u8
    &&& d[spec_pe_offset(d) + 3] == 0u8
    &&& spec_section_table(d) + 40 * spec_num_sections(d) <= d.len()
    &&& (spec_opt_header_size(d) >= 2 ==> (spec_u16_le(d, spec_pe_offset(d) + 24) == 0x10b
        || spec_u16_le(d, spec_pe_offset(d) + 24) == 0x20b))
}

/// Offset of section `i`'s 40-byte table entry.
pub open spec fn spec_section_base(d: Seq<u8>, i: int) -> int {
    spec_section_table(d) + 40 * i
}

/// A byte sequence truncated at its first NUL byte.
pub open spec fn spec_trunc_nul(s: Seq<u8>) -> Seq<u8>
    decreases s.len(),
{
    if s.len() == 0 {
        s
    } else if s[0] == 0 {
        Seq::<u8>::empty()
    } else {
        seq![s[0]] + spec_trunc_nul(s.subrange(1, s.len() as int))
    }
}

/// Section `i`'s name: its 8-byte name field truncated at the first NUL.
pub open spec fn spec_section_name(d: Seq<u8>, i: int) -> Seq<u8> {
    spec_trunc_nul(d.subrange(spec_section_base(d, i), spec_section_base(d, i) + 8))
}

/// Section `i`'s `virtual_size` field.
pub open spec fn spec_section_virtual_size(d: Seq<u8>, i: int) -> nat {
    spec_u32_le(d, spec_section_base(d, i) + 8)
}

/// Section `i`'s `size_of_raw_data` field.
pub open spec fn spec_section_raw_size(d: Seq<u8>, i: int) -> nat {
    spec_u32_le(d, spec_section_base(d, i) + 16)
}

/// Section `i`'s `pointer_to_raw_data` field.
pub open spec fn spec_section_raw_ptr(d: Seq<u8>, i: int) -> nat {
    spec_u32_le(d, spec_section_base(d, i) + 20)
}

/// Index of the first section at or after `i` whose name matches exactly.
pub open spec fn spec_find_section(d: Seq<u8>, name: Seq<u8>, i: int) -> Option<int>
    decreases spec_num_sections(d) - i,
{
    if i >= spec_num_sections(d) {
        None
    } else if spec_section_name(d, i) == name {
        Some(i)
    } else {
        spec_find_section(d, name, i + 1)
    }
}

/// What `pe_section` returns for each image and section name.
pub open spec fn spec_pe_section(d: Seq<u8>, name: Seq<u8>) -> Result<Option<Seq<u8>>, PeError> {
    if !spec_headers_ok(d) {
        Ok(None)
    } else {
        match spec_find_section(d, name, 0) {
            None => Ok(None),
            Some(i) => if spec_section_virtual_size(d, i) > spec_section_raw_size(d, i) {
                Err(PeError::SectionSizeExceedsRawData)
            } else if spec_section_raw_ptr(d, i) + spec_section_virtual_size(d, i) > d.len() {
                Err(PeError::SectionOutOfBounds)
            } else {
                Ok(
                    Some(
                        d.subrange(
                            spec_section_raw_ptr(d, i) as int,
                            spec_section_raw_ptr(d, i) as int + spec_section_virtual_size(d, i),
                        ),
                    ),
                )
            },
        }
    }
}

/// Read the 16-bit little-endian value at `off`.
fn read_u16_le(data: &[u8], off: usize) -> (r: u16)
    requires
        off + 2 <= data@.len(),
        data@.len() <= usize::MAX,
    ensures
        r as nat == spec_u16_le(data@, off as int),
{
    let b0 = *slice_index_get(data, off);
    let b1 = *slice_index_get(data, off + 1);
    (b0 as u16) + 256 * (b1 as u16)
}

/// Read the 32-bit little-endian value at `off`.
fn read_u32_le(data: &[u8], off: usize) -> (r: u32)
    requires
        off + 4 <= data@.len(),
        data@.len() <= usize::MAX,
    ensures
        r as nat == spec_u32_le(data@, off as int),
{
    let lo = read_u16_le(data, off);
    let hi = read_u16_le(data, off + 2);
    (lo as u32) + 0x10000 * (hi as u32)
}

/// A byte sequence whose first NUL stands at `k` truncates to its first
/// `k` bytes.
proof fn lemma_trunc_nul_prefix(s: Seq<u8>, k: int)
    requires
        0 <= k <= s.len(),
        forall|j: int| 0 <= j < k ==> s[j] != 0,
        k < s.len() ==> s[k] == 0,
    ensures
        spec_trunc_nul(s) == s.subrange(0, k),
    decreases s.len(),
{
    if s.len() == 0 {
        assert(s.subrange(0, 0) =~= s);
    } else if k == 0 {
        assert(s.subrange(0, 0) =~= Seq::<u8>::empty());
    } else {
        let t = s.subrange(1, s.len() as int);
        lemma_trunc_nul_prefix(t, k - 1);
        assert(seq![s[0]] + t.subrange(0, k - 1) =~= s.subrange(0, k));
    }
}

/// Whether the 8-byte name field at `base`, truncated at its first NUL,
/// equals `name`.
fn section_name_matches(data: &[u8], base: usize, name: &[u8]) -> (r: bool)
    requires
        base + 8 <= data@.len(),
        data@.len() <= usize::MAX,
    ensures
        r == (spec_trunc_nul(data@.subrange(base as int, base as int + 8)) == name@),
{
    let ghost field = data@.subrange(base as int, base as int + 8);
    let mut k: usize = 0;
    loop
        invariant
            base + 8 <= data@.len(),
            data@.len() <= usize::MAX,
            k <= 8,
            forall|j: int| 0 <= j < k ==> #[trigger] data@[base as int + j] != 0,
        ensures
            k <= 8,
            forall|j: int| 0 <= j < k ==> #[trigger] data@[base as int + j] != 0,
            k < 8 ==> data@[base as int + k as int] == 0,
        decreases 8 - k,
    {
        if k == 8 {
            break;
        }
        if *slice_index_get(data, base + k) == 0 {
            break;
        }
        k = k + 1;
    }
    proof {
        assert forall|j: int| 0 <= j < k implies field[j] != 0 by {
            assert(field[j] == data@[base as int + j]);
        }
        if k < 8 {
            assert(field[k as int] == data@[base as int + k as int]);
        }
        lemma_trunc_nul_prefix(field, k as int);
    }
    if name.len() != k {
        proof {
            assert(spec_trunc_nul(field).len() == k);
        }
        return false;
    }
    let mut j: usize = 0;
    while j < k
        invariant
            j <= k,
            k <= 8,
            base + 8 <= data@.len(),
            data@.len() <= usize::MAX,
            name@.len() == k,
            spec_trunc_nul(field) == field.subrange(0, k as int),
            field == data@.subrange(base as int, base as int + 8),
            forall|t: int| 0 <= t < j ==> field[t] == name@[t],
        decreases k - j,
    {
        if *slice_index_get(data, base + j) != *slice_index_get(name, j) {
            proof {
                assert(field[j as int] == data@[base as int + j as int]);
                assert(field.subrange(0, k as int)[j as int] != name@[j as int]);
            }
            return false;
        }
        proof {
            assert(field[j as int] == data@[base as int + j as int]);
        }
        j = j + 1;
    }
    proof {
        assert(field.subrange(0, k as int) =~= name@);
    }
    true
}

/// Locate the named section's raw bytes in a PE/PE32+ image.
///
/// Returns the first section whose name matches exactly, or nothing when
/// no section matches or the headers do not parse. A matched section whose
/// `virtual_size` exceeds its `size_of_raw_data`, or whose raw data range
/// runs past the end of the image, is a hard failure.
pub fn pe_section(data: &[u8], section_name: &[u8]) -> (r: Result<Option<Vec<u8>>, PeError>)
    ensures
        match r {
            Ok(Some(v)) => spec_pe_section(data@, section_name@) == Ok::<Option<Seq<u8>>, PeError>(
                Some(v@),
            ),
            Ok(None) => spec_pe_section(data@, section_name@) == Ok::<Option<Seq<u8>>, PeError>(
                None,
            ),
            Err(e) => spec_pe_section(data@, section_name@) == Err::<Option<Seq<u8>>, PeError>(e),
        },
{
    let n = data.len();
    if n < 0x40 {
        return Ok(None);
    }
    if *slice_index_get(data, 0) != 0x4d || *slice_index_get(data, 1) != 0x5a {
        return Ok(None);
    }
    let pe_off = read_u32_le(data, 0x3c);
    if pe_off as u64 + 24 > n as u64 {
        return Ok(None);
    }
    let pe = pe_off as usize;
    if *slice_index_get(data, pe) != 0x50 || *slice_index_get(data, pe + 1) != 0x45
        || *slice_index_get(data, pe + 2) != 0 || *slice_index_get(data, pe + 3) != 0 {
        return Ok(None);
    }
    let nsec = read_u16_le(data, pe + 6);
    let opt_size = read_u16_le(data, pe + 20);
    let table_u64: u64 = pe as u64 + 24 + opt_size as u64;
    if table_u64 + 40 * (nsec as u64) > n as u64 {
        return Ok(None);
    }
    let table: usize = table_u64 as usize;
    if opt_size >= 2 {
        let magic = read_u16_le(data, pe + 24);
        if magic != 0x10b && magic != 0x20b {
            return Ok(None);
        }
    }
    proof {
        assert(spec_headers_ok(data@));
    }
    let mut i: u16 = 0;
    while i < nsec
        invariant
            spec_headers_ok(data@),
            n == data@.len(),
            nsec as int == spec_num_sections(data@),
            table as int == spec_section_table(data@),
            table as int + 40 * (nsec as int) <= n as int,
            i <= nsec,
            spec_find_section(data@, section_name@, 0) == spec_find_section(
                data@,
                section_name@,
                i as int,
            ),
        decreases nsec - i,
    {
        let base: usize = table + 40 * (i as usize);
        proof {
            assert(base as int == spec_section_base(data@, i as int));
            assert(base + 40 <= n);
        }
        if section_name_matches(data, base, section_name) {
            let vsz = read_u32_le(data, base + 8);
            let rsz = read_u32_le(data, base + 16);
            let ptr = read_u32_le(data, base + 20);
            proof {
                assert(spec_find_section(data@, section_name@, i as int) == Some(i as int));
            }
            if vsz > rsz {
                return Err(PeError::SectionSizeExceedsRawData);
            }
            if ptr as u64 + vsz as u64 > n as u64 {
                return Err(PeError::SectionOutOfBounds);
            }
            let start: usize = ptr as usize;
            let end: usize = (ptr as u64 + vsz as u64) as usize;
            let sect = slice_subrange(data, start, end);
            return Ok(Some(slice_to_vec(sect)));
        }
        i = i + 1;
    }
    Ok(None)
}

} // verus!
