//! A record whose type code the standard leaves free.
use vstd::prelude::*;
use crate::parts::SMBiosStructParts;

verus! {

/// A record of a kind outside the standard's table, kept whole: header,
/// formatted area and strings.
#[derive(Debug)]
pub struct SMBiosUnknown<'a> {
    pub parts: &'a SMBiosStructParts,
}

impl<'a> SMBiosUnknown<'a> {
    pub fn new(parts: &'a SMBiosStructParts) -> (r: SMBiosUnknown<'a>)
        ensures
            r.parts == parts,
    {
        SMBiosUnknown { parts }
    }

    /// The record underneath.
    pub fn parts(&self) -> (r: &'a SMBiosStructParts)
        ensures
            r == self.parts,
    {
        self.parts
    }
}

} // verus!
