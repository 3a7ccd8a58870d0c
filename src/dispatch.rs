//! From a record's type code to the kind of record it is.
use vstd::prelude::*;
use crate::parts::SMBiosStructParts;
use crate::unknown::SMBiosUnknown;

verus! {

/// The record kinds that the standard defines.
#[derive(Clone, Copy, Debug, PartialEq, Eq, Structural)]
pub enum StructKind {
    BiosInformation,
    SystemInformation,
    BaseBoardInformation,
    SystemChassisInformation,
    ProcessorInformation,
    MemoryControllerInformation,
    MemoryModuleInformation,
    CacheInformation,
    PortConnectorInformation,
    SystemSlot,
    OnBoardDeviceInformation,
    OemStrings,
    SystemConfigurationOptions,
    BiosLanguageInformation,
    GroupAssociations,
    SystemEventLog,
    PhysicalMemoryArray,
    MemoryDevice,
    MemoryErrorInformation32,
    MemoryArrayMappedAddress,
    MemoryDeviceMappedAddress,
    BuiltInPointingDevice,
    PortableBattery,
    SystemReset,
    HardwareSecurity,
    SystemPowerControls,
    VoltageProbe,
    CoolingDevice,
    TemperatureProbe,
    ElectricalCurrentProbe,
    OutOfBandRemoteAccess,
    BisEntryPoint,
    SystemBootInformation,
    MemoryErrorInformation64,
    ManagementDevice,
    ManagementDeviceComponent,
    ManagementDeviceThresholdData,
    MemoryChannel,
    IpmiDeviceInformation,
    SystemPowerSupply,
    AdditionalInformation,
    OnboardDevicesExtendedInformation,
    ManagementControllerHostInterface,
    TpmDevice,
    ProcessorAdditionalInformation,
    FirmwareInventoryInformation,
    StringProperty,
    Inactive,
    EndOfTable,
}

/// The kind that `code` stands for, if the standard defines it.
pub open spec fn kind_of(code: u8) -> Option<StructKind> {
    match code {
        0 => Some(StructKind::BiosInformation),
        1 => Some(StructKind::SystemInformation),
        2 => Some(StructKind::BaseBoardInformation),
        3 => Some(StructKind::SystemChassisInformation),
        4 => Some(StructKind::ProcessorInformation),
        5 => Some(StructKind::MemoryControllerInformation),
        6 => Some(StructKind::MemoryModuleInformation),
        7 => Some(StructKind::CacheInformation),
        8 => Some(StructKind::PortConnectorInformation),
        9 => Some(StructKind::SystemSlot),
        10 => Some(StructKind::OnBoardDeviceInformation),
        11 => Some(StructKind::OemStrings),
        12 => Some(StructKind::SystemConfigurationOptions),
        13 => Some(StructKind::BiosLanguageInformation),
        14 => Some(StructKind::GroupAssociations),
        15 => Some(StructKind::SystemEventLog),
        16 => Some(StructKind::PhysicalMemoryArray),
        17 => Some(StructKind::MemoryDevice),
        18 => Some(StructKind::MemoryErrorInformation32),
        19 => Some(StructKind::MemoryArrayMappedAddress),
        20 => Some(StructKind::MemoryDeviceMappedAddress),
        21 => Some(StructKind::BuiltInPointingDevice),
        22 => Some(StructKind::PortableBattery),
        23 => Some(StructKind::SystemReset),
        24 => Some(StructKind::HardwareSecurity),
        25 => Some(StructKind::SystemPowerControls),
        26 => Some(StructKind::VoltageProbe),
        27 => Some(StructKind::CoolingDevice),
        28 => Some(StructKind::TemperatureProbe),
        29 => Some(StructKind::ElectricalCurrentProbe),
        30 => Some(StructKind::OutOfBandRemoteAccess),
        31 => Some(StructKind::BisEntryPoint),
        32 => Some(StructKind::SystemBootInformation),
        33 => Some(StructKind::MemoryErrorInformation64),
        34 => Some(StructKind::ManagementDevice),
        35 => Some(StructKind::ManagementDeviceComponent),
        36 => Some(StructKind::ManagementDeviceThresholdData),
        37 => Some(StructKind::MemoryChannel),
        38 => Some(StructKind::IpmiDeviceInformation),
        39 => Some(StructKind::SystemPowerSupply),
        40 => Some(StructKind::AdditionalInformation),
        41 => Some(StructKind::OnboardDevicesExtendedInformation),
        42 => Some(StructKind::ManagementControllerHostInterface),
        43 => Some(StructKind::TpmDevice),
        44 => Some(StructKind::ProcessorAdditionalInformation),
        45 => Some(StructKind::FirmwareInventoryInformation),
        46 => Some(StructKind::StringProperty),
        126 => Some(StructKind::Inactive),
        127 => Some(StructKind::EndOfTable),
        _ => None,
    }
}

/// The type code of `kind`.
pub open spec fn code_of(kind: StructKind) -> u8 {
    match kind {
        StructKind::BiosInformation => 0,
        StructKind::SystemInformation => 1,
        StructKind::BaseBoardInformation => 2,
        StructKind::SystemChassisInformation => 3,
        StructKind::ProcessorInformation => 4,
        StructKind::MemoryControllerInformation => 5,
        StructKind::MemoryModuleInformation => 6,
        StructKind::CacheInformation => 7,
        StructKind::PortConnectorInformation => 8,
        StructKind::SystemSlot => 9,
        StructKind::OnBoardDeviceInformation => 10,
        StructKind::OemStrings => 11,
        StructKind::SystemConfigurationOptions => 12,
        StructKind::BiosLanguageInformation => 13,
        StructKind::GroupAssociations => 14,
        StructKind::SystemEventLog => 15,
        StructKind::PhysicalMemoryArray => 16,
        StructKind::MemoryDevice => 17,
        StructKind::MemoryErrorInformation32 => 18,
        StructKind::MemoryArrayMappedAddress => 19,
        StructKind::MemoryDeviceMappedAddress => 20,
        StructKind::BuiltInPointingDevice => 21,
        StructKind::PortableBattery => 22,
        StructKind::SystemReset => 23,
        StructKind::HardwareSecurity => 24,
        StructKind::SystemPowerControls => 25,
        StructKind::VoltageProbe => 26,
        StructKind::CoolingDevice => 27,
        StructKind::TemperatureProbe => 28,
        StructKind::ElectricalCurrentProbe => 29,
        StructKind::OutOfBandRemoteAccess => 30,
        StructKind::BisEntryPoint => 31,
        StructKind::SystemBootInformation => 32,
        StructKind::MemoryErrorInformation64 => 33,
        StructKind::ManagementDevice => 34,
        StructKind::ManagementDeviceComponent => 35,
        StructKind::ManagementDeviceThresholdData => 36,
        StructKind::MemoryChannel => 37,
        StructKind::IpmiDeviceInformation => 38,
        StructKind::SystemPowerSupply => 39,
        StructKind::AdditionalInformation => 40,
        StructKind::OnboardDevicesExtendedInformation => 41,
        StructKind::ManagementControllerHostInterface => 42,
        StructKind::TpmDevice => 43,
        StructKind::ProcessorAdditionalInformation => 44,
        StructKind::FirmwareInventoryInformation => 45,
        StructKind::StringProperty => 46,
        StructKind::Inactive => 126,
        StructKind::EndOfTable => 127,
    }
}

/// Every kind has a code of its own, and the code leads back to the kind.
pub proof fn lemma_kind_code_inverse(kind: StructKind, code: u8)
    ensures
        kind_of(code_of(kind)) == Some(kind),
        kind_of(code) matches Some(k) ==> code_of(k) == code,
{
}

impl StructKind {
    /// The kind that `code` stands for; none for codes the standard leaves
    /// free, vendor codes among them.
    pub fn from_code(code: u8) -> (r: Option<StructKind>)
        ensures
            r == kind_of(code),
    {
        match code {
            0 => Some(StructKind::BiosInformation),
            1 => Some(StructKind::SystemInformation),
            2 => Some(StructKind::BaseBoardInformation),
            3 => Some(StructKind::SystemChassisInformation),
            4 => Some(StructKind::ProcessorInformation),
            5 => Some(StructKind::MemoryControllerInformation),
            6 => Some(StructKind::MemoryModuleInformation),
            7 => Some(StructKind::CacheInformation),
            8 => Some(StructKind::PortConnectorInformation),
            9 => Some(StructKind::SystemSlot),
            10 => Some(StructKind::OnBoardDeviceInformation),
            11 => Some(StructKind::OemStrings),
            12 => Some(StructKind::SystemConfigurationOptions),
            13 => Some(StructKind::BiosLanguageInformation),
            14 => Some(StructKind::GroupAssociations),
            15 => Some(StructKind::SystemEventLog),
            16 => Some(StructKind::PhysicalMemoryArray),
            17 => Some(StructKind::MemoryDevice),
            18 => Some(StructKind::MemoryErrorInformation32),
            19 => Some(StructKind::MemoryArrayMappedAddress),
            20 => Some(StructKind::MemoryDeviceMappedAddress),
            21 => Some(StructKind::BuiltInPointingDevice),
            22 => Some(StructKind::PortableBattery),
            23 => Some(StructKind::SystemReset),
            24 => Some(StructKind::HardwareSecurity),
            25 => Some(StructKind::SystemPowerControls),
            26 => Some(StructKind::VoltageProbe),
            27 => Some(StructKind::CoolingDevice),
            28 => Some(StructKind::TemperatureProbe),
            29 => Some(StructKind::ElectricalCurrentProbe),
            30 => Some(StructKind::OutOfBandRemoteAccess),
            31 => Some(StructKind::BisEntryPoint),
            32 => Some(StructKind::SystemBootInformation),
            33 => Some(StructKind::MemoryErrorInformation64),
            34 => Some(StructKind::ManagementDevice),
            35 => Some(StructKind::ManagementDeviceComponent),
            36 => Some(StructKind::ManagementDeviceThresholdData),
            37 => Some(StructKind::MemoryChannel),
            38 => Some(StructKind::IpmiDeviceInformation),
            39 => Some(StructKind::SystemPowerSupply),
            40 => Some(StructKind::AdditionalInformation),
            41 => Some(StructKind::OnboardDevicesExtendedInformation),
            42 => Some(StructKind::ManagementControllerHostInterface),
            43 => Some(StructKind::TpmDevice),
            44 => Some(StructKind::ProcessorAdditionalInformation),
            45 => Some(StructKind::FirmwareInventoryInformation),
            46 => Some(StructKind::StringProperty),
            126 => Some(StructKind::Inactive),
            127 => Some(StructKind::EndOfTable),
            _ => None,
        }
    }

    /// The type code of this kind.
    pub fn code(&self) -> (r: u8)
        ensures
            r == code_of(*self),
    {
        match self {
            StructKind::BiosInformation => 0,
            StructKind::SystemInformation => 1,
            StructKind::BaseBoardInformation => 2,
            StructKind::SystemChassisInformation => 3,
            StructKind::ProcessorInformation => 4,
            StructKind::MemoryControllerInformation => 5,
            StructKind::MemoryModuleInformation => 6,
            StructKind::CacheInformation => 7,
            StructKind::PortConnectorInformation => 8,
            StructKind::SystemSlot => 9,
            StructKind::OnBoardDeviceInformation => 10,
            StructKind::OemStrings => 11,
            StructKind::SystemConfigurationOptions => 12,
            StructKind::BiosLanguageInformation => 13,
            StructKind::GroupAssociations => 14,
            StructKind::SystemEventLog => 15,
            StructKind::PhysicalMemoryArray => 16,
            StructKind::MemoryDevice => 17,
            StructKind::MemoryErrorInformation32 => 18,
            StructKind::MemoryArrayMappedAddress => 19,
            StructKind::MemoryDeviceMappedAddress => 20,
            StructKind::BuiltInPointingDevice => 21,
            StructKind::PortableBattery => 22,
            StructKind::SystemReset => 23,
            StructKind::HardwareSecurity => 24,
            StructKind::SystemPowerControls => 25,
            StructKind::VoltageProbe => 26,
            StructKind::CoolingDevice => 27,
            StructKind::TemperatureProbe => 28,
            StructKind::ElectricalCurrentProbe => 29,
            StructKind::OutOfBandRemoteAccess => 30,
            StructKind::BisEntryPoint => 31,
            StructKind::SystemBootInformation => 32,
            StructKind::MemoryErrorInformation64 => 33,
            StructKind::ManagementDevice => 34,
            StructKind::ManagementDeviceComponent => 35,
            StructKind::ManagementDeviceThresholdData => 36,
            StructKind::MemoryChannel => 37,
            StructKind::IpmiDeviceInformation => 38,
            StructKind::SystemPowerSupply => 39,
            StructKind::AdditionalInformation => 40,
            StructKind::OnboardDevicesExtendedInformation => 41,
            StructKind::ManagementControllerHostInterface => 42,
            StructKind::TpmDevice => 43,
            StructKind::ProcessorAdditionalInformation => 44,
            StructKind::FirmwareInventoryInformation => 45,
            StructKind::StringProperty => 46,
            StructKind::Inactive => 126,
            StructKind::EndOfTable => 127,
        }
    }
}

/// A record seen through its kind: one the standard defines, or one it does not.
#[derive(Debug)]
pub enum DefinedStruct<'a> {
    Known(StructKind, &'a SMBiosStructParts),
    Unknown(SMBiosUnknown<'a>),
}

impl<'a> DefinedStruct<'a> {
    /// Sorts `parts` by its type code. This never fails: a code outside the
    /// standard's table keeps the whole record as an unknown one.
    pub fn dispatch(parts: &'a SMBiosStructParts) -> (r: DefinedStruct<'a>)
        ensures
            kind_of(parts.header.struct_type) matches Some(k) ==> r == DefinedStruct::Known(k, parts),
            kind_of(parts.header.struct_type) is None ==> (r matches DefinedStruct::Unknown(u)
                && u.parts == parts),
    {
        match StructKind::from_code(parts.header.struct_type) {
            Some(k) => DefinedStruct::Known(k, parts),
            None => DefinedStruct::Unknown(SMBiosUnknown::new(parts)),
        }
    }

    /// The record underneath, whatever its kind.
    pub fn parts(&self) -> (r: &'a SMBiosStructParts)
        ensures
            r == (match self {
                DefinedStruct::Known(_, p) => *p,
                DefinedStruct::Unknown(u) => u.parts,
            }),
    {
        match self {
            DefinedStruct::Known(_, p) => p,
            DefinedStruct::Unknown(u) => u.parts,
        }
    }
}

} // verus!
