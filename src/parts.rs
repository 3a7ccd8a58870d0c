//! One decoded record: its header, its formatted area and its strings, with
//! bounds-checked reads of the formatted area.
use vstd::prelude::*;
use crate::header::{decode_header, le16, read_le16, Handle, Header, HEADER_SIZE};
use crate::text::{lossy_text, text_of};
use vstd::utf8::{decode_utf8, valid_utf8};
use crate::strings::{
    byte_strings, find_terminator, locate_terminator, split_string_area, split_strings,
    string_at,
};

verus! {

/// A little-endian 32-bit value from four bytes.
pub open spec fn le32(b0: u8, b1: u8, b2: u8, b3: u8) -> u32 {
    (le16(b0, b1) as int + 65536 * le16(b2, b3) as int) as u32
}

/// A little-endian 64-bit value from eight bytes.
pub open spec fn le64(b: Seq<u8>, o: int) -> u64 {
    (le32(b[o], b[o + 1], b[o + 2], b[o + 3]) as int + 0x1_0000_0000 * le32(
        b[o + 4],
        b[o + 5],
        b[o + 6],
        b[o + 7],
    ) as int) as u64
}

/// Reads a little-endian `u32` at `offset`.
pub fn read_le32(b: &[u8], offset: usize) -> (r: u32)
    requires
        offset + 4 <= b.len(),
    ensures
        r == le32(b@[offset as int], b@[offset as int + 1], b@[offset as int + 2], b@[offset as int + 3]),
{
    let lo = read_le16(b, offset) as u32;
    let hi = read_le16(b, offset + 2) as u32;
    lo + 65536 * hi
}

/// Whether `raw` starts with a header whose length fits inside `raw`.
pub open spec fn record_fits(raw: Seq<u8>) -> bool {
    &&& raw.len() >= HEADER_SIZE
    &&& raw[1] >= HEADER_SIZE
    &&& raw[1] <= raw.len()
}

/// Where the string area of the record in `raw` stops: at its first pair of
/// zero bytes or, when it has none, before a last zero byte, else at the end
/// of `raw`.
pub open spec fn string_area_end(raw: Seq<u8>) -> int {
    match find_terminator(raw, raw[1] as int) {
        Some(p) => p,
        None => if raw.len() > raw[1] && raw.last() == 0 {
            raw.len() - 1
        } else {
            raw.len() as int
        },
    }
}

/// Whether a zero byte stands right after the formatted area: the record has
/// no strings.
pub open spec fn starts_without_strings(raw: Seq<u8>) -> bool {
    raw.len() > raw[1] && raw[raw[1] as int] == 0
}

/// The strings of the record in `raw`.
pub open spec fn record_strings(raw: Seq<u8>) -> Seq<Seq<u8>> {
    if starts_without_strings(raw) {
        Seq::empty()
    } else {
        split_strings(raw.subrange(raw[1] as int, string_area_end(raw)))
    }
}

/// Whether `r` is the text of the string `s`, or both are absent. Valid
/// UTF-8, plain ASCII among it, gives the characters it encodes.
pub open spec fn text_matches(r: Option<String>, s: Option<Seq<u8>>) -> bool {
    match (r, s) {
        (Some(t), Some(b)) => t@ == lossy_text(b) && (valid_utf8(b) ==> t@ == decode_utf8(b)),
        (None, None) => true,
        _ => false,
    }
}

/// A read that would reach past the formatted area finds nothing, whatever
/// its width.
pub proof fn lemma_reads_past_end_absent(p: SMBiosStructParts, offset: int)
    ensures
        offset + 1 > p.header.length ==> p.spec_byte(offset) is None && p.spec_string(offset) is None,
        offset + 2 > p.header.length ==> p.spec_word(offset) is None,
        offset + 4 > p.header.length ==> p.spec_dword(offset) is None,
        offset + 8 > p.header.length ==> p.spec_qword(offset) is None,
{
}

/// A string field holding 0 names no string; holding `k` with `1 <= k <= count`
/// it names the `k`-th string met; holding more, none.
pub proof fn lemma_string_index(p: SMBiosStructParts, offset: int)
    requires
        p.spec_byte(offset) is Some,
    ensures
        ({
            let k = p.spec_byte(offset).unwrap() as int;
            &&& k == 0 ==> p.spec_string(offset) is None
            &&& 1 <= k <= p.string_list().len() ==> p.spec_string(offset) == Some(
                p.string_list()[k - 1],
            )
            &&& k > p.string_list().len() ==> p.spec_string(offset) is None
        }),
{
}

/// A record split into its parts.
#[derive(Debug)]
pub struct SMBiosStructParts {
    /// Type, length and handle.
    pub header: Header,
    /// The formatted area, header included: `header.length` bytes.
    pub fields: Vec<u8>,
    /// The strings, in the order in which they were met.
    pub strings: Vec<Vec<u8>>,
}

impl SMBiosStructParts {
    /// The formatted area holds exactly `header.length` bytes and starts with the header.
    pub open spec fn wf(&self) -> bool {
        &&& self.header.length >= HEADER_SIZE
        &&& self.fields@.len() == self.header.length
        &&& decode_header(self.fields@) == self.header
    }

    /// The strings as byte sequences.
    pub open spec fn string_list(&self) -> Seq<Seq<u8>> {
        byte_strings(self.strings@)
    }

    /// Whether these are the parts of the record in `raw`.
    pub open spec fn parts_of(&self, raw: Seq<u8>) -> bool {
        &&& self.header == decode_header(raw)
        &&& self.fields@ == raw.subrange(0, raw[1] as int)
        &&& self.string_list() == record_strings(raw)
    }

    /// Whether `width` bytes at `offset` lie inside the formatted area.
    pub open spec fn in_bounds(&self, offset: int, width: int) -> bool {
        0 <= offset && offset + width <= self.header.length
    }

    pub open spec fn spec_byte(&self, offset: int) -> Option<u8> {
        if self.in_bounds(offset, 1) {
            Some(self.fields@[offset])
        } else {
            None
        }
    }

    pub open spec fn spec_word(&self, offset: int) -> Option<u16> {
        if self.in_bounds(offset, 2) {
            Some(le16(self.fields@[offset], self.fields@[offset + 1]))
        } else {
            None
        }
    }

    pub open spec fn spec_dword(&self, offset: int) -> Option<u32> {
        if self.in_bounds(offset, 4) {
            Some(
                le32(
                    self.fields@[offset],
                    self.fields@[offset + 1],
                    self.fields@[offset + 2],
                    self.fields@[offset + 3],
                ),
            )
        } else {
            None
        }
    }

    pub open spec fn spec_qword(&self, offset: int) -> Option<u64> {
        if self.in_bounds(offset, 8) {
            Some(le64(self.fields@, offset))
        } else {
            None
        }
    }

    /// The string that the byte at `offset` names, if the byte is inside the
    /// formatted area and names one.
    pub open spec fn spec_string(&self, offset: int) -> Option<Seq<u8>> {
        match self.spec_byte(offset) {
            Some(k) => string_at(self.string_list(), k as int),
            None => None,
        }
    }

    /// Splits one record, given as its bytes, into its parts.
    pub fn new(data: &[u8]) -> (r: SMBiosStructParts)
        requires
            record_fits(data@),
        ensures
            r.wf(),
            r.parts_of(data@),
    {
        let header = Header::new(data);
        let len = header.length as usize;
        let fields = vstd::slice::slice_to_vec(&data[0..len]);
        let n = data.len();
        let end = match locate_terminator(data, len) {
            Some(p) => p,
            None => if n > len && data[n - 1] == 0 {
                n - 1
            } else {
                n
            },
        };
        let strings = if len < n && data[len] == 0 {
            Vec::new()
        } else {
            split_string_area(data, len, end)
        };
        let r = SMBiosStructParts { header, fields, strings };
        assert(decode_header(r.fields@) == decode_header(data@));
        assert(r.string_list() =~= record_strings(data@));
        r
    }

    /// The byte at `offset`, if inside the formatted area.
    pub fn get_field_byte(&self, offset: usize) -> (r: Option<u8>)
        requires
            self.wf(),
        ensures
            r == self.spec_byte(offset as int),
    {
        if offset < self.fields.len() {
            Some(self.fields[offset])
        } else {
            None
        }
    }

    /// The little-endian `u16` at `offset`, if inside the formatted area.
    pub fn get_field_word(&self, offset: usize) -> (r: Option<u16>)
        requires
            self.wf(),
        ensures
            r == self.spec_word(offset as int),
    {
        if offset < self.fields.len() && self.fields.len() - offset >= 2 {
            Some(read_le16(self.fields.as_slice(), offset))
        } else {
            None
        }
    }

    /// The little-endian `u32` at `offset`, if inside the formatted area.
    pub fn get_field_dword(&self, offset: usize) -> (r: Option<u32>)
        requires
            self.wf(),
        ensures
            r == self.spec_dword(offset as int),
    {
        if offset < self.fields.len() && self.fields.len() - offset >= 4 {
            Some(read_le32(self.fields.as_slice(), offset))
        } else {
            None
        }
    }

    /// The little-endian `u64` at `offset`, if inside the formatted area.
    pub fn get_field_qword(&self, offset: usize) -> (r: Option<u64>)
        requires
            self.wf(),
        ensures
            r == self.spec_qword(offset as int),
    {
        if offset < self.fields.len() && self.fields.len() - offset >= 8 {
            let f = self.fields.as_slice();
            let lo = read_le32(f, offset) as u64;
            let hi = read_le32(f, offset + 4) as u64;
            Some(lo + 0x1_0000_0000 * hi)
        } else {
            None
        }
    }

    /// The handle at `offset`, if inside the formatted area.
    pub fn get_field_handle(&self, offset: usize) -> (r: Option<Handle>)
        requires
            self.wf(),
        ensures
            r == (match self.spec_word(offset as int) {
                Some(w) => Some(Handle(w)),
                None => None,
            }),
    {
        match self.get_field_word(offset) {
            Some(w) => Some(Handle(w)),
            None => None,
        }
    }

    /// The bytes of the string that the byte at `offset` names: none when the
    /// byte is outside the formatted area, is 0, or is past the last string.
    pub fn get_field_string_bytes(&self, offset: usize) -> (r: Option<Vec<u8>>)
        requires
            self.wf(),
        ensures
            r matches Some(v) ==> self.spec_string(offset as int) == Some(v@),
            r is None ==> self.spec_string(offset as int) is None,
    {
        match self.get_field_byte(offset) {
            Some(k) => {
                if k == 0 || k as usize > self.strings.len() {
                    None
                } else {
                    let s = self.strings[k as usize - 1].as_slice();
                    Some(vstd::slice::slice_to_vec(s))
                }
            },
            None => None,
        }
    }

    /// The string that the byte at `offset` names, decoded as text.
    pub fn get_field_string(&self, offset: usize) -> (r: Option<String>)
        requires
            self.wf(),
        ensures
            text_matches(r, self.spec_string(offset as int)),
    {
        match self.get_field_string_bytes(offset) {
            Some(b) => Some(text_of(b.as_slice())),
            None => None,
        }
    }
}

} // verus!
