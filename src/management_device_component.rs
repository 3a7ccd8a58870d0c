//! Management device component records.
use vstd::prelude::*;
use crate::header::Handle;
use crate::parts::{text_matches, SMBiosStructParts};

verus! {

/// Ties a cooling device or probe to the management device that controls it
/// and, optionally, to its thresholds.
#[derive(Debug)]
pub struct SMBiosManagementDeviceComponent<'a> {
    pub parts: &'a SMBiosStructParts,
}

impl<'a> SMBiosManagementDeviceComponent<'a> {
    /// Type code of this kind of record.
    pub const STRUCT_TYPE: u8 = 35;

    pub fn new(parts: &'a SMBiosStructParts) -> (r: SMBiosManagementDeviceComponent<'a>)
        ensures
            r.parts == parts,
    {
        SMBiosManagementDeviceComponent { parts }
    }

    /// The record underneath.
    pub fn parts(&self) -> (r: &'a SMBiosStructParts)
        ensures
            r == self.parts,
    {
        self.parts
    }

    /// Further description of the component.
    pub fn description(&self) -> (r: Option<String>)
        requires
            self.parts.wf(),
        ensures
            text_matches(r, self.parts.spec_string(0x04)),
    {
        self.parts.get_field_string(0x04)
    }

    /// Handle of the management device that holds this component.
    pub fn management_device_handle(&self) -> (r: Option<Handle>)
        requires
            self.parts.wf(),
        ensures
            r == (match self.parts.spec_word(0x05) {
                Some(w) => Some(Handle(w)),
                None => None,
            }),
    {
        self.parts.get_field_handle(0x05)
    }

    /// Handle of the probe or cooling device that this component is.
    pub fn component_handle(&self) -> (r: Option<Handle>)
        requires
            self.parts.wf(),
        ensures
            r == (match self.parts.spec_word(0x07) {
                Some(w) => Some(Handle(w)),
                None => None,
            }),
    {
        self.parts.get_field_handle(0x07)
    }

    /// Handle of the threshold data; 0FFFFh when there is none.
    pub fn threshold_handle(&self) -> (r: Option<Handle>)
        requires
            self.parts.wf(),
        ensures
            r == (match self.parts.spec_word(0x09) {
                Some(w) => Some(Handle(w)),
                None => None,
            }),
    {
        self.parts.get_field_handle(0x09)
    }
}

} // verus!
