//! Portable battery records.
use vstd::prelude::*;
use crate::parts::{text_matches, SMBiosStructParts};

verus! {

/// Static attributes of one battery pack of the system.
#[derive(Debug)]
pub struct SMBiosPortableBattery<'a> {
    pub parts: &'a SMBiosStructParts,
}

impl<'a> SMBiosPortableBattery<'a> {
    /// Type code of this kind of record.
    pub const STRUCT_TYPE: u8 = 22;

    pub fn new(parts: &'a SMBiosStructParts) -> (r: SMBiosPortableBattery<'a>)
        ensures
            r.parts == parts,
    {
        SMBiosPortableBattery { parts }
    }

    /// The record underneath.
    pub fn parts(&self) -> (r: &'a SMBiosStructParts)
        ensures
            r == self.parts,
    {
        self.parts
    }

    /// Where the battery is.
    pub fn location(&self) -> (r: Option<String>)
        requires
            self.parts.wf(),
        ensures
            text_matches(r, self.parts.spec_string(0x04)),
    {
        self.parts.get_field_string(0x04)
    }

    /// The company that made the battery.
    pub fn manufacturer(&self) -> (r: Option<String>)
        requires
            self.parts.wf(),
        ensures
            text_matches(r, self.parts.spec_string(0x05)),
    {
        self.parts.get_field_string(0x05)
    }

    /// The date the battery was made.
    ///
    /// Left absent (string 0) where the SBDS manufacture date holds it.
    pub fn manufacture_date(&self) -> (r: Option<String>)
        requires
            self.parts.wf(),
        ensures
            text_matches(r, self.parts.spec_string(0x06)),
    {
        self.parts.get_field_string(0x06)
    }

    /// The serial number of the battery.
    ///
    /// Left absent (string 0) where the SBDS serial number holds it.
    pub fn serial_number(&self) -> (r: Option<String>)
        requires
            self.parts.wf(),
        ensures
            text_matches(r, self.parts.spec_string(0x07)),
    {
        self.parts.get_field_string(0x07)
    }

    /// The name of the battery device.
    pub fn device_name(&self) -> (r: Option<String>)
        requires
            self.parts.wf(),
        ensures
            text_matches(r, self.parts.spec_string(0x08)),
    {
        self.parts.get_field_string(0x08)
    }

    /// The battery chemistry; 02h (unknown) where the SBDS device
    /// chemistry holds it.
    pub fn device_chemistry(&self) -> (r: Option<u8>)
        requires
            self.parts.wf(),
        ensures
            r == self.parts.spec_byte(0x09),
    {
        self.parts.get_field_byte(0x09)
    }

    /// Design capacity in mWh, 0 when unknown; to be multiplied by the
    /// design capacity multiplier.
    pub fn design_capacity(&self) -> (r: Option<u16>)
        requires
            self.parts.wf(),
        ensures
            r == self.parts.spec_word(0x0A),
    {
        self.parts.get_field_word(0x0A)
    }

    /// Design voltage in mV, 0 when unknown.
    pub fn design_voltage(&self) -> (r: Option<u16>)
        requires
            self.parts.wf(),
        ensures
            r == self.parts.spec_word(0x0C),
    {
        self.parts.get_field_word(0x0C)
    }

    /// The Smart Battery Data Specification version the battery supports.
    pub fn sbds_version_number(&self) -> (r: Option<String>)
        requires
            self.parts.wf(),
        ensures
            text_matches(r, self.parts.spec_string(0x0E)),
    {
        self.parts.get_field_string(0x0E)
    }

    /// Upper bound, in percent, of the error in the reported energy;
    /// FFh when unknown.
    pub fn maximum_error_in_battery_data(&self) -> (r: Option<u8>)
        requires
            self.parts.wf(),
        ensures
            r == self.parts.spec_byte(0x0F),
    {
        self.parts.get_field_byte(0x0F)
    }

    /// 16-bit serial number, valid when the serial number string is 0.
    pub fn sbds_serial_number(&self) -> (r: Option<u16>)
        requires
            self.parts.wf(),
        ensures
            r == self.parts.spec_word(0x10),
    {
        self.parts.get_field_word(0x10)
    }

    /// Date the cell pack was made, in packed form.
    pub fn sbds_manufacture_date(&self) -> (r: Option<u16>)
        requires
            self.parts.wf(),
        ensures
            r == self.parts.spec_word(0x12),
    {
        self.parts.get_field_word(0x12)
    }

    /// The battery chemistry as a string, valid when the device
    /// chemistry is 02h.
    pub fn sbds_device_chemistry(&self) -> (r: Option<String>)
        requires
            self.parts.wf(),
        ensures
            text_matches(r, self.parts.spec_string(0x14)),
    {
        self.parts.get_field_string(0x14)
    }

    /// Factor of the design capacity.
    pub fn design_capacity_multiplier(&self) -> (r: Option<u8>)
        requires
            self.parts.wf(),
        ensures
            r == self.parts.spec_byte(0x15),
    {
        self.parts.get_field_byte(0x15)
    }

    /// Vendor-specific data.
    pub fn oem_specific(&self) -> (r: Option<u32>)
        requires
            self.parts.wf(),
        ensures
            r == self.parts.spec_dword(0x16),
    {
        self.parts.get_field_dword(0x16)
    }
}

} // verus!
