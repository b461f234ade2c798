//! The native boundary: the constants of the native header, the images of
//! its records, and the calls that can be asked of it.
//!
//! A record image holds what a native record held when it was read. A
//! string is the image of its pointer, with the bytes before the
//! terminator.

use vstd::prelude::*;
use crate::utils::Pointer;

verus! {

/// `libloading::Library`, a loaded shared library. Opaque here: the handle
/// owns it and lends it out, nothing more.
#[verifier::external_type_specification]
#[verifier::external_body]
pub struct ExSharedLibrary(libloading::Library);

/// `libloading::Error`, the failure to load the shared library or to find
/// one of its symbols. Opaque here: it is only carried through.
#[verifier::external_type_specification]
#[verifier::external_body]
pub struct ExLoadingFailure(libloading::Error);

/// The file name under which the native library is loaded.
pub const LIBRARY_NAME: &'static str = "libsensors.so.5";

pub const SENSORS_BUS_TYPE_ANY: i16 = -1;

pub const SENSORS_BUS_TYPE_I2C: i16 = 0;

pub const SENSORS_BUS_TYPE_ISA: i16 = 1;

pub const SENSORS_BUS_TYPE_PCI: i16 = 2;

pub const SENSORS_BUS_TYPE_SPI: i16 = 3;

pub const SENSORS_BUS_TYPE_VIRTUAL: i16 = 4;

pub const SENSORS_BUS_TYPE_ACPI: i16 = 5;

pub const SENSORS_BUS_TYPE_HID: i16 = 6;

pub const SENSORS_BUS_TYPE_MDIO: i16 = 7;

pub const SENSORS_BUS_TYPE_SCSI: i16 = 8;

/// Bus number wildcard: any bus.
pub const SENSORS_BUS_NR_ANY: i16 = -1;

/// Bus number wildcard: the bus number does not matter.
pub const SENSORS_BUS_NR_IGNORE: i16 = -2;

/// Capability flag: the subfeature can be read.
pub const SENSORS_MODE_R: u32 = 1;

/// Capability flag: the subfeature can be written.
pub const SENSORS_MODE_W: u32 = 2;

/// Capability flag: the subfeature is affected by the computation rules of
/// its main feature.
pub const SENSORS_COMPUTE_MAPPING: u32 = 4;

pub const SENSORS_FEATURE_IN: u32 = 0x00;

pub const SENSORS_FEATURE_FAN: u32 = 0x01;

pub const SENSORS_FEATURE_TEMP: u32 = 0x02;

pub const SENSORS_FEATURE_POWER: u32 = 0x03;

pub const SENSORS_FEATURE_ENERGY: u32 = 0x04;

pub const SENSORS_FEATURE_CURR: u32 = 0x05;

pub const SENSORS_FEATURE_HUMIDITY: u32 = 0x06;

pub const SENSORS_FEATURE_MAX_MAIN: u32 = 0x07;

pub const SENSORS_FEATURE_VID: u32 = 0x10;

pub const SENSORS_FEATURE_INTRUSION: u32 = 0x11;

pub const SENSORS_FEATURE_MAX_OTHER: u32 = 0x12;

pub const SENSORS_FEATURE_BEEP_ENABLE: u32 = 0x18;

pub const SENSORS_FEATURE_MAX: u32 = 0x19;

pub const SENSORS_FEATURE_UNKNOWN: u32 = 0x7fff_ffff;

pub const SENSORS_SUBFEATURE_IN_INPUT: u32 = 0x000;

pub const SENSORS_SUBFEATURE_IN_MIN: u32 = 0x001;

pub const SENSORS_SUBFEATURE_IN_MAX: u32 = 0x002;

pub const SENSORS_SUBFEATURE_FAN_INPUT: u32 = 0x100;

pub const SENSORS_SUBFEATURE_FAN_MIN: u32 = 0x101;

pub const SENSORS_SUBFEATURE_FAN_MAX: u32 = 0x102;

pub const SENSORS_SUBFEATURE_TEMP_INPUT: u32 = 0x200;

pub const SENSORS_SUBFEATURE_TEMP_MAX: u32 = 0x201;

pub const SENSORS_SUBFEATURE_TEMP_MIN: u32 = 0x203;

pub const SENSORS_SUBFEATURE_POWER_INPUT: u32 = 0x303;

pub const SENSORS_SUBFEATURE_POWER_MAX: u32 = 0x308;

pub const SENSORS_SUBFEATURE_POWER_MIN: u32 = 0x30a;

pub const SENSORS_SUBFEATURE_ENERGY_INPUT: u32 = 0x400;

pub const SENSORS_SUBFEATURE_CURR_INPUT: u32 = 0x500;

pub const SENSORS_SUBFEATURE_CURR_MIN: u32 = 0x501;

pub const SENSORS_SUBFEATURE_CURR_MAX: u32 = 0x502;

pub const SENSORS_SUBFEATURE_HUMIDITY_INPUT: u32 = 0x600;

/// The bit pattern of the not-a-number value that fills the output slot of
/// a reading before the native getter runs.
pub const NAN_BITS: u64 = 0x7ff8_0000_0000_0000;

/// Whether a bit pattern, read as a double, is not a number: all exponent
/// bits set and some mantissa bit set.
pub open spec fn is_nan(bits: u64) -> bool {
    (bits >> 52) & 0x7ff == 0x7ff && bits & 0x000f_ffff_ffff_ffff != 0
}

/// The sentinel that fills the output slot is not a number.
pub proof fn lemma_sentinel_is_nan()
    ensures
        is_nan(NAN_BITS),
{
    assert((0x7ff8_0000_0000_0000u64 >> 52) & 0x7ff == 0x7ff && 0x7ff8_0000_0000_0000u64
        & 0x000f_ffff_ffff_ffff != 0) by (bit_vector);
}

/// Image of the native bus id: the bus type code and the bus number, either
/// of which may be a wildcard.
#[allow(non_camel_case_types)]
#[derive(Debug, Clone, Copy, PartialEq, Eq)]
pub struct sensors_bus_id {
    pub type_: i16,
    pub nr: i16,
}

/// Image of the native chip name record. The path is never followed, so
/// only its address is held.
#[allow(non_camel_case_types)]
#[derive(Debug)]
pub struct sensors_chip_name {
    pub prefix: Pointer<Vec<u8>>,
    pub bus: sensors_bus_id,
    pub addr: i32,
    pub path: usize,
}

/// Image of the native feature record.
#[allow(non_camel_case_types)]
#[derive(Debug)]
pub struct sensors_feature {
    pub name: Pointer<Vec<u8>>,
    pub number: i32,
    pub type_: u32,
}

/// Image of the native subfeature record.
#[allow(non_camel_case_types)]
#[derive(Debug)]
pub struct sensors_subfeature {
    pub name: Pointer<Vec<u8>>,
    pub number: i32,
    pub type_: u32,
    pub mapping: i32,
    pub flags: u32,
}

/// A call of a native entry point, with its arguments as plain values.
/// Records are named by their address in native memory.
#[derive(Debug, Clone, Copy, PartialEq, Eq)]
pub enum Call {
    /// Initialise the native library with the default configuration (a null
    /// configuration file).
    Init,
    /// Release everything the native library holds.
    Cleanup,
    /// The detected chip at the cursor, matching any chip (a null pattern).
    GetDetectedChips { cursor: i32 },
    /// The adapter name of a bus.
    GetAdapterName { bus: sensors_bus_id },
    /// The feature of a chip at the cursor.
    GetFeatures { chip: usize, cursor: i32 },
    /// The subfeature of a feature at the cursor.
    GetAllSubfeatures { chip: usize, feature: usize, cursor: i32 },
    /// The subfeature of a feature that has the given type.
    GetSubfeature { chip: usize, feature: usize, type_: u32 },
    /// A freshly allocated copy of the label of a feature.
    GetLabel { chip: usize, feature: usize },
    /// Give a buffer back to the native allocator.
    Free { ptr: usize },
    /// Read the value of a subfeature into a slot that holds `slot` before.
    GetValue { chip: usize, number: i32, slot: u64 },
    /// Write the value of a subfeature, given as the bits of a double.
    SetValue { chip: usize, number: i32, value: u64 },
    /// The text for a native error code.
    StrError { code: i32 },
}

impl Call {
    /// The exported name of the entry point that a call goes to.
    pub open spec fn symbol_spec(self) -> Seq<char> {
        match self {
            Call::Init => "sensors_init"@,
            Call::Cleanup => "sensors_cleanup"@,
            Call::GetDetectedChips { .. } => "sensors_get_detected_chips"@,
            Call::GetAdapterName { .. } => "sensors_get_adapter_name"@,
            Call::GetFeatures { .. } => "sensors_get_features"@,
            Call::GetAllSubfeatures { .. } => "sensors_get_all_subfeatures"@,
            Call::GetSubfeature { .. } => "sensors_get_subfeature"@,
            Call::GetLabel { .. } => "sensors_get_label"@,
            Call::Free { .. } => "free"@,
            Call::GetValue { .. } => "sensors_get_value"@,
            Call::SetValue { .. } => "sensors_set_value"@,
            Call::StrError { .. } => "sensors_strerror"@,
        }
    }

    /// The exported name to look up in the loaded library for this call.
    pub fn symbol(&self) -> (r: &'static str)
        ensures
            r@ == self.symbol_spec(),
    {
        match self {
            Call::Init => "sensors_init",
            Call::Cleanup => "sensors_cleanup",
            Call::GetDetectedChips { .. } => "sensors_get_detected_chips",
            Call::GetAdapterName { .. } => "sensors_get_adapter_name",
            Call::GetFeatures { .. } => "sensors_get_features",
            Call::GetAllSubfeatures { .. } => "sensors_get_all_subfeatures",
            Call::GetSubfeature { .. } => "sensors_get_subfeature",
            Call::GetLabel { .. } => "sensors_get_label",
            Call::Free { .. } => "free",
            Call::GetValue { .. } => "sensors_get_value",
            Call::SetValue { .. } => "sensors_set_value",
            Call::StrError { .. } => "sensors_strerror",
        }
    }
}

} // verus!
