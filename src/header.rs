//! The four-byte header that opens every record.
use vstd::prelude::*;

verus! {

/// Type code of the record that closes the table.
pub const END_OF_TABLE: u8 = 127;

/// Number of bytes taken by a record header.
pub const HEADER_SIZE: usize = 4;

/// A 16-bit identifier by which one record refers to another.
///
/// A handle is a plain value: looking it up is the table's business.
#[derive(Clone, Copy, Debug, PartialEq, Eq, Structural)]
pub struct Handle(pub u16);

/// Type, length of the formatted area, and handle of one record.
#[derive(Clone, Copy, Debug, PartialEq, Eq, Structural)]
pub struct Header {
    pub struct_type: u8,
    pub length: u8,
    pub handle: Handle,
}

/// A little-endian 16-bit value from two bytes.
pub open spec fn le16(lo: u8, hi: u8) -> u16 {
    (lo as int + 256 * hi as int) as u16
}

/// The header that the first four bytes of `b` encode.
pub open spec fn decode_header(b: Seq<u8>) -> Header
    recommends
        b.len() >= 4,
{
    Header { struct_type: b[0], length: b[1], handle: Handle(le16(b[2], b[3])) }
}

/// The four bytes that encode `h`.
pub open spec fn encode_header(h: Header) -> Seq<u8> {
    seq![h.struct_type, h.length, (h.handle.0 % 256) as u8, (h.handle.0 / 256) as u8]
}

/// Decoding the first four bytes and encoding the result gives those bytes
/// back, and encoding a header and decoding it gives the header back.
pub proof fn lemma_header_round_trip(b: Seq<u8>, h: Header)
    requires
        b.len() == 4,
    ensures
        encode_header(decode_header(b)) == b,
        decode_header(encode_header(h)) == h,
{
    assert(encode_header(decode_header(b)) =~= b);
}

/// Reads a little-endian `u16` at `offset`.
pub fn read_le16(b: &[u8], offset: usize) -> (r: u16)
    requires
        offset + 2 <= b@.len(),
    ensures
        r == le16(b@[offset as int], b@[offset as int + 1]),
{
    b[offset] as u16 + 256 * (b[offset + 1] as u16)
}

impl Header {
    /// Decodes the header at the start of `data`.
    pub fn new(data: &[u8]) -> (r: Header)
        requires
            data@.len() >= HEADER_SIZE,
        ensures
            r == decode_header(data@),
    {
        Header { struct_type: data[0], length: data[1], handle: Handle(read_le16(data, 2)) }
    }

    /// The record's type code.
    pub fn struct_type(&self) -> (r: u8)
        ensures
            r == self.struct_type,
    {
        self.struct_type
    }

    /// The size of the record's formatted area, header included.
    pub fn length(&self) -> (r: u8)
        ensures
            r == self.length,
    {
        self.length
    }

    /// The record's own handle.
    pub fn handle(&self) -> (r: Handle)
        ensures
            r == self.handle,
    {
        self.handle
    }
}

} // verus!
