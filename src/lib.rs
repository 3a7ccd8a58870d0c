//! Decoding of a firmware hardware-inventory table: a run of variable-length,
//! type-tagged records, each followed by its own string table.
//!
//! `SMBiosTable::parse` walks the table, `SMBiosStructParts` gives bounds-checked
//! reads of one record, `DefinedStruct::dispatch` sorts a record by its type
//! code, and the typed views name the fields of their kind of record.
use vstd::prelude::*;

pub mod header;
pub mod strings;
pub mod text;
pub mod parts;
pub mod table;
pub mod dispatch;
pub mod unknown;
pub mod portable_battery;
pub mod management_device_component;

pub use dispatch::{DefinedStruct, StructKind};
pub use header::{Handle, Header, END_OF_TABLE, HEADER_SIZE};
pub use management_device_component::SMBiosManagementDeviceComponent;
pub use parts::SMBiosStructParts;
pub use portable_battery::SMBiosPortableBattery;
pub use table::{SMBiosTable, TruncatedTable};
pub use unknown::SMBiosUnknown;

verus! {

} // verus!
