//! The static PE import extractor: parses a byte buffer's headers and
//! import table — without executing anything — and lists the statically
//! imported symbols that the registry recognizes, in first-appearance
//! order and without duplicates.

use vstd::prelude::*;
use vstd::utf8::{decode_utf8, valid_utf8};

use crate::{Analysis, TracedCall};
use crate::registry::is_known_symbol_spec;
use crate::shims::bytes_to_string;

verus! {

/// The little-endian 16-bit value at `off` (meaningful only in range).
pub open spec fn le16v(b: Seq<u8>, off: int) -> u16 {
    ((b[off] as int) + (b[off + 1] as int) * 0x100) as u16
}

/// The little-endian 32-bit value at `off`.
pub open spec fn le32v(b: Seq<u8>, off: int) -> u32 {
    ((b[off] as int) + (b[off + 1] as int) * 0x100 + (b[off + 2] as int) * 0x1_0000 + (b[off
        + 3] as int) * 0x100_0000) as u32
}

/// The little-endian 64-bit value at `off`.
pub open spec fn le64v(b: Seq<u8>, off: int) -> u64 {
    ((b[off] as int) + (b[off + 1] as int) * 0x100 + (b[off + 2] as int) * 0x1_0000 + (b[off
        + 3] as int) * 0x100_0000 + (b[off + 4] as int) * 0x1_0000_0000 + (b[off + 5] as int)
        * 0x100_0000_0000 + (b[off + 6] as int) * 0x1_0000_0000_0000 + (b[off + 7] as int)
        * 0x100_0000_0000_0000) as u64
}

/// The 16-bit read, `None` out of range.
pub open spec fn read16(b: Seq<u8>, off: int) -> Option<u16> {
    if 0 <= off && off + 2 <= b.len() {
        Some(le16v(b, off))
    } else {
        None
    }
}

/// The 32-bit read, `None` out of range.
pub open spec fn read32(b: Seq<u8>, off: int) -> Option<u32> {
    if 0 <= off && off + 4 <= b.len() {
        Some(le32v(b, off))
    } else {
        None
    }
}

/// The 64-bit read, `None` out of range.
pub open spec fn read64(b: Seq<u8>, off: int) -> Option<u64> {
    if 0 <= off && off + 8 <= b.len() {
        Some(le64v(b, off))
    } else {
        None
    }
}

/// Reads a little-endian `u16` at `offset`.
pub fn read_u16(bytes: &[u8], offset: usize) -> (r: Option<u16>)
    ensures
        r == read16(bytes@, offset as int),
{
    if bytes.len() >= 2 && offset <= bytes.len() - 2 {
        Some((bytes[offset] as u16) + (bytes[offset + 1] as u16) * 0x100)
    } else {
        None
    }
}

/// Reads a little-endian `u32` at `offset`.
pub fn read_u32(bytes: &[u8], offset: usize) -> (r: Option<u32>)
    ensures
        r == read32(bytes@, offset as int),
{
    if bytes.len() >= 4 && offset <= bytes.len() - 4 {
        Some(
            (bytes[offset] as u32) + (bytes[offset + 1] as u32) * 0x100 + (bytes[offset
                + 2] as u32) * 0x1_0000 + (bytes[offset + 3] as u32) * 0x100_0000,
        )
    } else {
        None
    }
}

/// Reads a little-endian `u64` at `offset`.
pub fn read_u64(bytes: &[u8], offset: usize) -> (r: Option<u64>)
    ensures
        r == read64(bytes@, offset as int),
{
    if bytes.len() >= 8 && offset <= bytes.len() - 8 {
        Some(
            (bytes[offset] as u64) + (bytes[offset + 1] as u64) * 0x100 + (bytes[offset
                + 2] as u64) * 0x1_0000 + (bytes[offset + 3] as u64) * 0x100_0000 + (bytes[offset
                + 4] as u64) * 0x1_0000_0000 + (bytes[offset + 5] as u64) * 0x100_0000_0000 + (
            bytes[offset + 6] as u64) * 0x1_0000_0000_0000 + (bytes[offset + 7] as u64)
                * 0x100_0000_0000_0000,
        )
    } else {
        None
    }
}

/// Index of the first NUL byte at or after `i`, or the length.
pub open spec fn first_zero(b: Seq<u8>, i: int) -> int
    decreases b.len() - i,
{
    if 0 <= i < b.len() {
        if b[i] == 0 {
            i
        } else {
            first_zero(b, i + 1)
        }
    } else {
        i
    }
}

/// The NUL-terminated name at `off`: the bytes up to the first NUL,
/// decoded as UTF-8; `None` when no NUL follows or the bytes are not
/// valid UTF-8.
pub open spec fn read_cstr(b: Seq<u8>, off: int) -> Option<Seq<char>> {
    if 0 <= off <= b.len() {
        let z = first_zero(b, off);
        if z < b.len() && valid_utf8(b.subrange(off, z)) {
            Some(decode_utf8(b.subrange(off, z)))
        } else {
            None
        }
    } else {
        None
    }
}

/// Reads the NUL-terminated UTF-8 name at `offset`.
pub fn read_c_string(bytes: &[u8], offset: usize) -> (r: Option<String>)
    ensures
        match r {
            Some(s) => read_cstr(bytes@, offset as int) == Some(s@),
            None => read_cstr(bytes@, offset as int) is None,
        },
{
    let len = bytes.len();
    if offset > len {
        return None;
    }
    let mut z: usize = offset;
    while z < len && bytes[z] != 0
        invariant
            len == bytes@.len(),
            offset <= z <= len,
            first_zero(bytes@, offset as int) == first_zero(bytes@, z as int),
        decreases len - z,
    {
        z = z + 1;
    }
    if z == len {
        return None;
    }
    let mut sub: Vec<u8> = Vec::new();
    let mut i: usize = offset;
    while i < z
        invariant
            offset <= i <= z <= bytes@.len(),
            sub@ == bytes@.subrange(offset as int, i as int),
        decreases z - i,
    {
        sub.push(bytes[i]);
        proof {
            assert(sub@ =~= bytes@.subrange(offset as int, i + 1 as int));
        }
        i = i + 1;
    }
    bytes_to_string(sub.as_slice())
}

/// One section's placement: its virtual address, its mapped size (the
/// larger of virtual and raw size, tolerating linker inconsistencies) and
/// its raw file offset.
pub struct PeSection {
    pub virtual_address: usize,
    pub mapped_size: usize,
    pub file_offset: usize,
}

/// The parsed header context: image width, import directory RVA, and the
/// section table.
pub struct PeContext {
    pub is_pe64: bool,
    pub import_rva: u32,
    pub sections: Vec<PeSection>,
}

/// The buffer is long enough and carries the MZ signature.
pub open spec fn mz_ok(b: Seq<u8>) -> bool {
    b.len() >= 0x40 && b[0] == 0x4D && b[1] == 0x5A
}

/// The PE header file offset, read from its fixed location.
pub open spec fn pe_off(b: Seq<u8>) -> int {
    le32v(b, 0x3C) as int
}

/// The PE signature is in range and valid.
pub open spec fn pe_sig_ok(b: Seq<u8>) -> bool {
    mz_ok(b) && pe_off(b) + 0x18 <= b.len() && b[pe_off(b)] == 0x50 && b[pe_off(b) + 1] == 0x45
        && b[pe_off(b) + 2] == 0 && b[pe_off(b) + 3] == 0
}

/// The declared section count.
pub open spec fn pe_count(b: Seq<u8>) -> int {
    le16v(b, pe_off(b) + 6) as int
}

/// The declared optional-header size.
pub open spec fn pe_opt_size(b: Seq<u8>) -> int {
    le16v(b, pe_off(b) + 20) as int
}

/// The optional header's magic, if readable.
pub open spec fn pe_magic(b: Seq<u8>) -> Option<u16> {
    read16(b, pe_off(b) + 24)
}

/// Whether the magic names a 64-bit image (the only two recognized magic
/// values are 0x10B and 0x20B).
pub open spec fn pe_is64(b: Seq<u8>) -> bool {
    pe_magic(b) == Some(0x20Bu16)
}

/// Where the data-directory array starts; it differs between the two
/// image widths.
pub open spec fn pe_ddo(b: Seq<u8>) -> int {
    if pe_is64(b) {
        pe_off(b) + 24 + 112
    } else {
        pe_off(b) + 24 + 96
    }
}

/// Where the section table starts.
pub open spec fn pe_table(b: Seq<u8>) -> int {
    pe_off(b) + 24 + pe_opt_size(b)
}

/// The four reads of section `i` all land inside the buffer.
pub open spec fn sec_read_ok(b: Seq<u8>, i: int) -> bool {
    pe_table(b) + i * 40 + 24 <= b.len()
}

/// Every structural read of the header parse succeeds.
pub open spec fn pe_parse_ok(b: Seq<u8>) -> bool {
    &&& pe_sig_ok(b)
    &&& (pe_magic(b) == Some(0x10Bu16) || pe_magic(b) == Some(0x20Bu16))
    &&& read32(b, pe_ddo(b) + 8) is Some
    &&& forall|i: int| 0 <= i < pe_count(b) ==> #[trigger] sec_read_ok(b, i)
}

/// The larger of two sizes.
pub open spec fn max_sz(a: int, c: int) -> int {
    if a >= c {
        a
    } else {
        c
    }
}

/// The section table the parse builds.
pub open spec fn pe_secs(b: Seq<u8>) -> Seq<PeSection> {
    Seq::new(
        pe_count(b) as nat,
        |i: int|
            PeSection {
                virtual_address: le32v(b, pe_table(b) + i * 40 + 12) as usize,
                mapped_size: max_sz(
                    le32v(b, pe_table(b) + i * 40 + 8) as int,
                    le32v(b, pe_table(b) + i * 40 + 16) as int,
                ) as usize,
                file_offset: le32v(b, pe_table(b) + i * 40 + 20) as usize,
            },
    )
}

impl PeContext {
    /// Validates the MZ and PE signatures, reads the image width, the
    /// import directory RVA and the section table. Any structural
    /// mismatch is a parse failure, not an error.
    pub fn parse(bytes: &[u8]) -> (r: Option<PeContext>)
        requires
            bytes@.len() < usize::MAX - 0x30_0000,
        ensures
            r is Some <==> pe_parse_ok(bytes@),
            r matches Some(pe) ==> {
                &&& pe.is_pe64 == pe_is64(bytes@)
                &&& pe.import_rva == le32v(bytes@, pe_ddo(bytes@) + 8)
                &&& pe.sections@ == pe_secs(bytes@)
            },
    {
        if bytes.len() < 0x40 {
            return None;
        }
        if !(bytes[0] == 0x4D && bytes[1] == 0x5A) {
            return None;
        }
        let pe_offset_32 = match read_u32(bytes, 0x3C) {
            Some(v) => v,
            None => {
                return None;
            },
        };
        let pe_offset = pe_offset_32 as usize;
        if bytes.len() < 0x18 || pe_offset > bytes.len() - 0x18 {
            return None;
        }
        if !(bytes[pe_offset] == 0x50 && bytes[pe_offset + 1] == 0x45 && bytes[pe_offset + 2] == 0
            && bytes[pe_offset + 3] == 0) {
            return None;
        }
        let section_count = match read_u16(bytes, pe_offset + 6) {
            Some(v) => v as usize,
            None => {
                return None;
            },
        };
        let optional_size = match read_u16(bytes, pe_offset + 20) {
            Some(v) => v as usize,
            None => {
                return None;
            },
        };
        let optional_header_offset = pe_offset + 24;
        let magic = match read_u16(bytes, optional_header_offset) {
            Some(v) => v,
            None => {
                return None;
            },
        };
        let (is_pe64, data_directory_offset): (bool, usize) = if magic == 0x10B {
            (false, optional_header_offset + 96)
        } else if magic == 0x20B {
            (true, optional_header_offset + 112)
        } else {
            return None;
        };
        let import_rva = match read_u32(bytes, data_directory_offset + 8) {
            Some(v) => v,
            None => {
                return None;
            },
        };
        let section_table = pe_offset + 24 + optional_size;
        let mut sections: Vec<PeSection> = Vec::new();
        let mut i: usize = 0;
        while i < section_count
            invariant
                bytes@.len() < usize::MAX - 0x30_0000,
                pe_parse_partial(bytes@, i as int),
                section_count == pe_count(bytes@),
                section_count <= 0xFFFF,
                section_table == pe_table(bytes@),
                section_table <= bytes@.len() + 0x1_0018,
                sections@ =~= pe_secs(bytes@).take(i as int),
                0 <= i <= section_count,
            decreases section_count - i,
        {
            let sec = section_table + i * 40;
            let virtual_size = match read_u32(bytes, sec + 8) {
                Some(v) => v as usize,
                None => {
                    proof {
                        assert(!sec_read_ok(bytes@, i as int));
                    }
                    return None;
                },
            };
            let virtual_address = match read_u32(bytes, sec + 12) {
                Some(v) => v as usize,
                None => {
                    proof {
                        assert(!sec_read_ok(bytes@, i as int));
                    }
                    return None;
                },
            };
            let raw_size = match read_u32(bytes, sec + 16) {
                Some(v) => v as usize,
                None => {
                    proof {
                        assert(!sec_read_ok(bytes@, i as int));
                    }
                    return None;
                },
            };
            let file_offset = match read_u32(bytes, sec + 20) {
                Some(v) => v as usize,
                None => {
                    proof {
                        assert(!sec_read_ok(bytes@, i as int));
                    }
                    return None;
                },
            };
            let mapped_size = if virtual_size >= raw_size {
                virtual_size
            } else {
                raw_size
            };
            sections.push(PeSection { virtual_address, mapped_size, file_offset });
            proof {
                assert(sections@ =~= pe_secs(bytes@).take(i + 1 as int));
            }
            i = i + 1;
        }
        proof {
            assert(sections@ =~= pe_secs(bytes@));
        }
        Some(PeContext { is_pe64, import_rva, sections })
    }
}

/// The reads of the first `i` sections succeed; a helper carried by the
/// section loop. The whole-header facts are phrased once here.
pub open spec fn pe_parse_partial(b: Seq<u8>, i: int) -> bool {
    &&& pe_sig_ok(b)
    &&& (pe_magic(b) == Some(0x10Bu16) || pe_magic(b) == Some(0x20Bu16))
    &&& read32(b, pe_ddo(b) + 8) is Some
    &&& forall|j: int| 0 <= j < i ==> #[trigger] sec_read_ok(b, j)
}

/// Every section placement fits in 32 bits, as the table it was read from
/// guarantees.
pub open spec fn sec_wf(secs: Seq<PeSection>) -> bool {
    forall|i: int|
        0 <= i < secs.len() ==> secs[i].virtual_address <= 0xFFFF_FFFF && secs[i].mapped_size
            <= 0xFFFF_FFFF && secs[i].file_offset <= 0xFFFF_FFFF
}

/// The parsed section table is 32-bit bounded.
pub proof fn lemma_pe_secs_wf(b: Seq<u8>)
    ensures
        sec_wf(pe_secs(b)),
{
}

/// RVA resolution: the file offset of `rva` within the first containing
/// section at or after index `i`, scanning linearly; `None` outside every
/// section (or where the offset would not be representable).
pub open spec fn rva_to_off_spec(secs: Seq<PeSection>, rva: int, i: int) -> Option<int>
    decreases secs.len() - i,
{
    if 0 <= i < secs.len() {
        let s = secs[i];
        if rva >= s.virtual_address && rva < s.virtual_address + s.mapped_size {
            if s.file_offset + (rva - s.virtual_address) <= usize::MAX {
                Some(s.file_offset + (rva - s.virtual_address))
            } else {
                None
            }
        } else {
            rva_to_off_spec(secs, rva, i + 1)
        }
    } else {
        None
    }
}

/// A resolved RVA, and its offset, are below 2^33 when the sections are
/// 32-bit bounded.
pub proof fn lemma_rva_off_bound(secs: Seq<PeSection>, rva: int, i: int)
    requires
        sec_wf(secs),
    ensures
        rva_to_off_spec(secs, rva, i) matches Some(o) ==> 0 <= o < 0x2_0000_0000 && 0 <= rva
            < 0x2_0000_0000,
    decreases secs.len() - i,
{
    if 0 <= i < secs.len() {
        lemma_rva_off_bound(secs, rva, i + 1);
    }
}

impl PeContext {
    /// Resolves an RVA to a file offset by a linear scan for the first
    /// containing section.
    pub fn rva_to_offset(&self, rva: usize) -> (r: Option<usize>)
        ensures
            match r {
                Some(o) => rva_to_off_spec(self.sections@, rva as int, 0) == Some(o as int),
                None => rva_to_off_spec(self.sections@, rva as int, 0) is None,
            },
    {
        let mut i: usize = 0;
        while i < self.sections.len()
            invariant
                0 <= i <= self.sections@.len(),
                rva_to_off_spec(self.sections@, rva as int, 0) == rva_to_off_spec(
                    self.sections@,
                    rva as int,
                    i as int,
                ),
            decreases self.sections@.len() - i,
        {
            let va = self.sections[i].virtual_address;
            let sz = self.sections[i].mapped_size;
            if rva >= va && rva - va < sz {
                let delta = rva - va;
                let ptr = self.sections[i].file_offset;
                if ptr <= usize::MAX - delta {
                    return Some(ptr + delta);
                } else {
                    return None;
                }
            }
            i = i + 1;
        }
        None
    }
}

/// The width of one thunk entry, by image class.
pub open spec fn thunk_size(is64: bool) -> int {
    if is64 {
        8
    } else {
        4
    }
}

/// The ordinal-import flag: the top bit of a thunk entry.
pub open spec fn ordinal_flag(is64: bool) -> u64 {
    if is64 {
        0x8000_0000_0000_0000
    } else {
        0x8000_0000
    }
}

/// Walks one descriptor's thunk array from entry `t` on, collecting the
/// recognized, not-yet-seen names in order. A resolution miss or a zero
/// entry ends the walk with what was collected; a failed read or
/// unreadable name aborts the whole parse (`None`).
pub open spec fn walk_thunks(
    b: Seq<u8>,
    secs: Seq<PeSection>,
    is64: bool,
    thunk_rva: int,
    t: int,
    acc: Seq<Seq<char>>,
) -> Option<Seq<Seq<char>>>
    decreases 0x2_0000_0010 - (thunk_rva + t * thunk_size(is64)),
    when 0 <= thunk_rva && 0 <= t && sec_wf(secs)
    via walk_thunks_dec
{
    let rva = thunk_rva + t * thunk_size(is64);
    if rva > usize::MAX as int {
        Some(acc)
    } else {
        match rva_to_off_spec(secs, rva, 0) {
            None => Some(acc),
            Some(off) => {
                let entry_opt: Option<u64> = if is64 {
                    read64(b, off)
                } else {
                    match read32(b, off) {
                        Some(v) => Some(v as u64),
                        None => None,
                    }
                };
                match entry_opt {
                    None => None,
                    Some(entry) => {
                        if entry == 0 {
                            Some(acc)
                        } else if entry >= ordinal_flag(is64) {
                            walk_thunks(b, secs, is64, thunk_rva, t + 1, acc)
                        } else {
                            match rva_to_off_spec(secs, (entry as usize) as int, 0) {
                                None => None,
                                Some(hn) => match read_cstr(b, hn + 2) {
                                    None => None,
                                    Some(name) => {
                                        let acc2 = if is_known_symbol_spec(name) && !acc.contains(
                                            name,
                                        ) {
                                            acc.push(name)
                                        } else {
                                            acc
                                        };
                                        walk_thunks(b, secs, is64, thunk_rva, t + 1, acc2)
                                    },
                                },
                            }
                        }
                    },
                }
            },
        }
    }
}

#[via_fn]
proof fn walk_thunks_dec(
    b: Seq<u8>,
    secs: Seq<PeSection>,
    is64: bool,
    thunk_rva: int,
    t: int,
    acc: Seq<Seq<char>>,
) {
    lemma_rva_off_bound(secs, thunk_rva + t * thunk_size(is64), 0);
}

/// Walks the 20-byte import descriptors from index `idx` on, until the
/// all-zero terminator; per descriptor, the populated thunk array
/// (preferring the original one) is walked. A failed read or resolution
/// at this level aborts the whole parse.
pub open spec fn walk_descs(
    b: Seq<u8>,
    secs: Seq<PeSection>,
    is64: bool,
    import_rva: int,
    idx: int,
    acc: Seq<Seq<char>>,
) -> Option<Seq<Seq<char>>>
    decreases 0x2_0000_0020 - (import_rva + idx * 20),
    when 0 <= import_rva && 0 <= idx && sec_wf(secs)
    via walk_descs_dec
{
    let rva = import_rva + idx * 20;
    if rva > usize::MAX as int {
        None
    } else {
        match rva_to_off_spec(secs, rva, 0) {
            None => None,
            Some(desc) => {
                match (read32(b, desc), read32(b, desc + 12), read32(b, desc + 16)) {
                    (Some(oft), Some(name_rva), Some(ft)) => {
                        if oft == 0 && name_rva == 0 && ft == 0 {
                            Some(acc)
                        } else {
                            let thunk_rva = (if oft != 0 {
                                oft
                            } else {
                                ft
                            }) as int;
                            match walk_thunks(b, secs, is64, thunk_rva, 0, acc) {
                                None => None,
                                Some(acc2) => walk_descs(b, secs, is64, import_rva, idx + 1, acc2),
                            }
                        }
                    },
                    _ => None,
                }
            },
        }
    }
}

#[via_fn]
proof fn walk_descs_dec(
    b: Seq<u8>,
    secs: Seq<PeSection>,
    is64: bool,
    import_rva: int,
    idx: int,
    acc: Seq<Seq<char>>,
) {
    lemma_rva_off_bound(secs, import_rva + idx * 20, 0);
}

/// What the import extractor finds: `None` on any structural failure
/// (then the caller falls back to the heuristic scanner); otherwise the
/// recognized import names, first appearance first, without duplicates.
/// An absent import directory is legal and yields no calls.
pub open spec fn pe_imports_spec(b: Seq<u8>) -> Option<Seq<Seq<char>>> {
    if !pe_parse_ok(b) {
        None
    } else if le32v(b, pe_ddo(b) + 8) == 0 {
        Some(Seq::empty())
    } else {
        walk_descs(b, pe_secs(b), pe_is64(b), le32v(b, pe_ddo(b) + 8) as int, 0, Seq::empty())
    }
}

/// The function names of a call sequence, in order.
pub open spec fn call_names(calls: Seq<TracedCall>) -> Seq<Seq<char>> {
    calls.map_values(|c: TracedCall| c.function@)
}

/// Whether some collected call already carries this name.
fn names_contain(calls: &Vec<TracedCall>, name: &str) -> (r: bool)
    ensures
        r == call_names(calls@).contains(name@),
{
    let mut i: usize = 0;
    while i < calls.len()
        invariant
            0 <= i <= calls@.len(),
            forall|k: int| 0 <= k < i ==> call_names(calls@)[k] != name@,
        decreases calls@.len() - i,
    {
        if crate::text::str_eq(calls[i].function.as_str(), name) {
            proof {
                assert(call_names(calls@)[i as int] == name@);
            }
            return true;
        }
        i = i + 1;
    }
    proof {
        if call_names(calls@).contains(name@) {
            let k = choose|k: int|
                0 <= k < call_names(calls@).len() && call_names(calls@)[k] == name@;
            assert(call_names(calls@)[k] == name@);
        }
    }
    false
}

/// Every collected call is bare: a name with no arguments or backtrace.
pub open spec fn bare_calls(calls: Seq<TracedCall>) -> bool {
    forall|k: int|
        0 <= k < calls.len() ==> #[trigger] calls[k].args@.len() == 0 && calls[k].backtrace@.len()
            == 0
}

/// Parses the buffer's import table and returns the recognized imports in
/// first-appearance order without duplicates, each as a bare call.
/// `None` reports a structural parse failure — "not a PE" — on which the
/// caller falls back to the heuristic text scanner.
pub fn parse_pe_imports(bytes: &[u8]) -> (r: Option<Analysis>)
    requires
        bytes@.len() < usize::MAX - 0x30_0000,
    ensures
        match r {
            None => pe_imports_spec(bytes@) is None,
            Some(an) => {
                &&& pe_imports_spec(bytes@) == Some(call_names(an.winapi_calls@))
                &&& bare_calls(an.winapi_calls@)
                &&& an.non_windows_libs@.len() == 0
            },
        },
{
    let ghost b = bytes@;
    let pe = match PeContext::parse(bytes) {
        Some(p) => p,
        None => {
            return None;
        },
    };
    proof {
        lemma_pe_secs_wf(b);
    }
    if pe.import_rva == 0 {
        return Some(Analysis { winapi_calls: Vec::new(), non_windows_libs: Vec::new() });
    }
    let irva = pe.import_rva;
    let is64 = pe.is_pe64;
    let ghost secs = pe.sections@;
    let mut calls: Vec<TracedCall> = Vec::new();
    let mut idx: usize = 0;
    let mut done = false;
    proof {
        assert(call_names(calls@) =~= Seq::<Seq<char>>::empty());
    }
    while !done
        invariant
            bytes@.len() < usize::MAX - 0x30_0000,
            b == bytes@,
            secs == pe.sections@,
            sec_wf(secs),
            is64 == pe.is_pe64,
            irva == pe.import_rva,
            irva >= 1,
            bare_calls(calls@),
            0 <= idx,
            irva + idx * 20 <= 0x2_0000_0014,
            !done ==> pe_imports_spec(b) == walk_descs(
                b,
                secs,
                is64,
                irva as int,
                idx as int,
                call_names(calls@),
            ),
            done ==> pe_imports_spec(b) == Some(call_names(calls@)),
        decreases 0x2_0000_0020 - (irva + idx * 20), (if done {
            0int
        } else {
            1
        }),
    {
        let rva64: u64 = (irva as u64) + (idx as u64) * 20;
        if rva64 > usize::MAX as u64 {
            return None;
        }
        let desc = match pe.rva_to_offset(rva64 as usize) {
            Some(d) => d,
            None => {
                return None;
            },
        };
        proof {
            lemma_rva_off_bound(secs, rva64 as int, 0);
        }
        let original_first_thunk = match read_u32(bytes, desc) {
            Some(v) => v,
            None => {
                return None;
            },
        };
        let name_rva = match read_u32(bytes, desc + 12) {
            Some(v) => v,
            None => {
                return None;
            },
        };
        let first_thunk = match read_u32(bytes, desc + 16) {
            Some(v) => v,
            None => {
                return None;
            },
        };
        if original_first_thunk == 0 && name_rva == 0 && first_thunk == 0 {
            done = true;
        } else {
            let trva: u32 = if original_first_thunk != 0 {
                original_first_thunk
            } else {
                first_thunk
            };
            let tsize: u64 = if is64 {
                8
            } else {
                4
            };
            let mut t: usize = 0;
            let mut tdone = false;
            while !tdone
                invariant
                    bytes@.len() < usize::MAX - 0x30_0000,
                    b == bytes@,
                    secs == pe.sections@,
                    sec_wf(secs),
                    is64 == pe.is_pe64,
                    irva == pe.import_rva,
                    irva >= 1,
                    irva + idx * 20 < 0x2_0000_0000,
                    bare_calls(calls@),
                    0 <= t,
                    tsize == thunk_size(is64),
                    trva + t * tsize <= 0x2_0000_0008,
                    !tdone ==> pe_imports_spec(b) == (match walk_thunks(
                        b,
                        secs,
                        is64,
                        trva as int,
                        t as int,
                        call_names(calls@),
                    ) {
                        None => None,
                        Some(a2) => walk_descs(b, secs, is64, irva as int, idx + 1 as int, a2),
                    }),
                    tdone ==> pe_imports_spec(b) == walk_descs(
                        b,
                        secs,
                        is64,
                        irva as int,
                        idx + 1 as int,
                        call_names(calls@),
                    ),
                decreases 0x2_0000_0010 - (trva + t * tsize), (if tdone {
                    0int
                } else {
                    1
                }),
            {
                let rva64t: u64 = (trva as u64) + (t as u64) * tsize;
                if rva64t > usize::MAX as u64 {
                    tdone = true;
                } else {
                    match pe.rva_to_offset(rva64t as usize) {
                        None => {
                            tdone = true;
                        },
                        Some(off) => {
                            proof {
                                lemma_rva_off_bound(secs, rva64t as int, 0);
                            }
                            let entry: u64 = if is64 {
                                match read_u64(bytes, off) {
                                    Some(v) => v,
                                    None => {
                                        return None;
                                    },
                                }
                            } else {
                                match read_u32(bytes, off) {
                                    Some(v) => v as u64,
                                    None => {
                                        return None;
                                    },
                                }
                            };
                            let flag: u64 = if is64 {
                                0x8000_0000_0000_0000
                            } else {
                                0x8000_0000
                            };
                            if entry == 0 {
                                tdone = true;
                            } else if entry >= flag {
                                t = t + 1;
                            } else {
                                let hint = #[verifier::truncate] (entry as usize);
                                let hn = match pe.rva_to_offset(hint) {
                                    Some(h) => h,
                                    None => {
                                        return None;
                                    },
                                };
                                proof {
                                    lemma_rva_off_bound(secs, hint as int, 0);
                                }
                                if hn > bytes.len() {
                                    return None;
                                }
                                let name = match read_c_string(bytes, hn + 2) {
                                    Some(n) => n,
                                    None => {
                                        return None;
                                    },
                                };
                                let keep = crate::registry::is_known_symbol(name.as_str())
                                    && !names_contain(&calls, name.as_str());
                                if keep {
                                    let ghost prev = calls@;
                                    calls.push(
                                        TracedCall {
                                            function: name,
                                            args: Vec::new(),
                                            backtrace: Vec::new(),
                                        },
                                    );
                                    proof {
                                        assert(call_names(calls@) =~= call_names(prev).push(
                                            calls@.last().function@,
                                        ));
                                    }
                                }
                                t = t + 1;
                            }
                        },
                    }
                }
            }
            idx = idx + 1;
        }
    }
    Some(Analysis { winapi_calls: calls, non_windows_libs: Vec::new() })
}

/// The leading-bytes format sniff: ELF, PE, or unknown.
pub open spec fn is_elf(b: Seq<u8>) -> bool {
    b.len() >= 4 && b[0] == 0x7F && b[1] == 0x45 && b[2] == 0x4C && b[3] == 0x46
}

/// Whether the buffer begins with the MZ signature.
pub open spec fn starts_mz(b: Seq<u8>) -> bool {
    b.len() >= 2 && b[0] == 0x4D && b[1] == 0x5A
}

/// Names the buffer's format from its magic bytes.
pub fn detect_format(bytes: &[u8]) -> (r: &'static str)
    ensures
        is_elf(bytes@) ==> r@ == "ELF"@,
        !is_elf(bytes@) && starts_mz(bytes@) ==> r@ == "PE/COFF (Windows)"@,
        !is_elf(bytes@) && !starts_mz(bytes@) ==> r@ == "unknown"@,
{
    if bytes.len() >= 4 && bytes[0] == 0x7F && bytes[1] == 0x45 && bytes[2] == 0x4C && bytes[3]
        == 0x46 {
        "ELF"
    } else if bytes.len() >= 2 && bytes[0] == 0x4D && bytes[1] == 0x5A {
        "PE/COFF (Windows)"
    } else {
        "unknown"
    }
}

/// Whether the buffer can run natively: only ELF images can.
pub fn can_run_natively(bytes: &[u8]) -> (r: bool)
    ensures
        r == is_elf(bytes@),
{
    bytes.len() >= 4 && bytes[0] == 0x7F && bytes[1] == 0x45 && bytes[2] == 0x4C && bytes[3] == 0x46
}

/// No name appears twice.
pub open spec fn distinct_names(s: Seq<Seq<char>>) -> bool {
    forall|i: int, j: int| 0 <= i < j < s.len() ==> s[i] != s[j]
}

/// Every name is in the registry.
pub open spec fn all_known(s: Seq<Seq<char>>) -> bool {
    forall|i: int| 0 <= i < s.len() ==> is_known_symbol_spec(s[i])
}

proof fn lemma_walk_thunks_distinct(
    b: Seq<u8>,
    secs: Seq<PeSection>,
    is64: bool,
    thunk_rva: int,
    t: int,
    acc: Seq<Seq<char>>,
)
    requires
        0 <= thunk_rva,
        0 <= t,
        sec_wf(secs),
        distinct_names(acc),
        all_known(acc),
    ensures
        walk_thunks(b, secs, is64, thunk_rva, t, acc) matches Some(res) ==> distinct_names(res)
            && all_known(res) && acc.len() <= res.len(),
    decreases 0x2_0000_0010 - (thunk_rva + t * thunk_size(is64)),
{
    let rva = thunk_rva + t * thunk_size(is64);
    lemma_rva_off_bound(secs, rva, 0);
    if rva <= usize::MAX as int {
        match rva_to_off_spec(secs, rva, 0) {
            None => {},
            Some(off) => {
                let entry_opt: Option<u64> = if is64 {
                    read64(b, off)
                } else {
                    match read32(b, off) {
                        Some(v) => Some(v as u64),
                        None => None,
                    }
                };
                match entry_opt {
                    None => {},
                    Some(entry) => {
                        if entry == 0 {
                        } else if entry >= ordinal_flag(is64) {
                            lemma_walk_thunks_distinct(b, secs, is64, thunk_rva, t + 1, acc);
                        } else {
                            match rva_to_off_spec(secs, (entry as usize) as int, 0) {
                                None => {},
                                Some(hn) => match read_cstr(b, hn + 2) {
                                    None => {},
                                    Some(name) => {
                                        if is_known_symbol_spec(name) && !acc.contains(name) {
                                            let acc2 = acc.push(name);
                                            assert(distinct_names(acc2)) by {
                                                assert forall|i: int, j: int|
                                                    0 <= i < j < acc2.len() implies acc2[i]
                                                    != acc2[j] by {
                                                    if j < acc.len() {
                                                        assert(acc2[i] == acc[i] && acc2[j]
                                                            == acc[j]);
                                                    } else {
                                                        assert(acc2[j] == name);
                                                        assert(acc2[i] == acc[i]);
                                                        if acc[i] == name {
                                                            assert(acc.contains(name));
                                                        }
                                                    }
                                                }
                                            }
                                            lemma_walk_thunks_distinct(
                                                b,
                                                secs,
                                                is64,
                                                thunk_rva,
                                                t + 1,
                                                acc2,
                                            );
                                        } else {
                                            lemma_walk_thunks_distinct(
                                                b,
                                                secs,
                                                is64,
                                                thunk_rva,
                                                t + 1,
                                                acc,
                                            );
                                        }
                                    },
                                },
                            }
                        }
                    },
                }
            },
        }
    }
}

proof fn lemma_walk_descs_distinct(
    b: Seq<u8>,
    secs: Seq<PeSection>,
    is64: bool,
    import_rva: int,
    idx: int,
    acc: Seq<Seq<char>>,
)
    requires
        0 <= import_rva,
        0 <= idx,
        sec_wf(secs),
        distinct_names(acc),
        all_known(acc),
    ensures
        walk_descs(b, secs, is64, import_rva, idx, acc) matches Some(res) ==> distinct_names(res)
            && all_known(res),
    decreases 0x2_0000_0020 - (import_rva + idx * 20),
{
    let rva = import_rva + idx * 20;
    lemma_rva_off_bound(secs, rva, 0);
    if rva <= usize::MAX as int {
        match rva_to_off_spec(secs, rva, 0) {
            None => {},
            Some(desc) => {
                match (read32(b, desc), read32(b, desc + 12), read32(b, desc + 16)) {
                    (Some(oft), Some(name_rva), Some(ft)) => {
                        if !(oft == 0 && name_rva == 0 && ft == 0) {
                            let thunk_rva = (if oft != 0 {
                                oft
                            } else {
                                ft
                            }) as int;
                            lemma_walk_thunks_distinct(b, secs, is64, thunk_rva, 0, acc);
                            match walk_thunks(b, secs, is64, thunk_rva, 0, acc) {
                                None => {},
                                Some(acc2) => {
                                    lemma_walk_descs_distinct(
                                        b,
                                        secs,
                                        is64,
                                        import_rva,
                                        idx + 1,
                                        acc2,
                                    );
                                },
                            }
                        }
                    },
                    _ => {},
                }
            },
        }
    }
}

/// For every valid image, the extractor lists only recognized import
/// names, each at most once — in first-appearance order, as the walk
/// appends each name when it is first seen and never again.
pub proof fn lemma_pe_imports_distinct(b: Seq<u8>)
    ensures
        pe_imports_spec(b) matches Some(names) ==> distinct_names(names) && all_known(names),
{
    if pe_parse_ok(b) && le32v(b, pe_ddo(b) + 8) != 0 {
        lemma_pe_secs_wf(b);
        lemma_walk_descs_distinct(
            b,
            pe_secs(b),
            pe_is64(b),
            le32v(b, pe_ddo(b) + 8) as int,
            0,
            Seq::empty(),
        );
    }
}

/// A buffer shorter than 0x40 bytes, or one that does not begin with the
/// MZ signature, never parses as a PE: the extractor reports "not a PE"
/// and the caller falls back to the heuristic scanner.
pub proof fn lemma_not_pe_falls_back(b: Seq<u8>)
    requires
        b.len() < 0x40 || b[0] != 0x4D || b[1] != 0x5A,
    ensures
        pe_imports_spec(b) is None,
{
}

} // verus!
