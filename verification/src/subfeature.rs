//! Subfeatures: the single values that can be read or written, and the
//! table from feature-independent kinds of subfeature to native codes.

use vstd::prelude::*;
use crate::error::{LibSensorsError, SensorsError};
use crate::feature::FeatureType;
use crate::ffi;
use crate::ffi::{sensors_subfeature, Call};
use crate::utils::{try_cstr, yielded, Pointer, Ref};
use crate::LibSensors;

verus! {

/// A subfeature of a feature: one value that can be read, written or both.
/// It borrows from the handle it was read through.
#[derive(Debug)]
pub struct Subfeature<'lib> {
    lib: &'lib LibSensors,
    chip: usize,
    raw: Ref<sensors_subfeature>,
}

impl<'lib> Subfeature<'lib> {
    /// The handle that the subfeature was read through.
    pub closed spec fn lib(&self) -> &'lib LibSensors {
        self.lib
    }

    /// The address of the record of the chip that the subfeature belongs
    /// to.
    pub closed spec fn chip(&self) -> usize {
        self.chip
    }

    /// The native record of the subfeature.
    pub closed spec fn raw(&self) -> Ref<sensors_subfeature> {
        self.raw
    }

    /// The subfeature that a record makes, read through a handle under the
    /// chip at an address.
    pub closed spec fn spec_new(raw: Ref<sensors_subfeature>, chip: usize, lib: &'lib LibSensors)
        -> Subfeature<'lib> {
        Subfeature { lib, chip, raw }
    }

    /// What a step of a subfeature enumeration finds behind the pointer
    /// that the native call handed out: nothing at a null pointer,
    /// otherwise the subfeature that the record makes.
    pub open spec fn found(lib: &'lib LibSensors, chip: usize, fetched: Pointer<sensors_subfeature>)
        -> Option<Subfeature<'lib>> {
        match yielded(fetched) {
            None => None,
            Some(raw) => Some(Self::spec_new(raw, chip, lib)),
        }
    }

    /// The subfeature that a record makes keeps the record, the chip and
    /// the handle.
    pub proof fn lemma_spec_new(raw: Ref<sensors_subfeature>, chip: usize, lib: &'lib LibSensors)
        ensures
            Self::spec_new(raw, chip, lib).raw() == raw,
            Self::spec_new(raw, chip, lib).chip() == chip,
            Self::spec_new(raw, chip, lib).lib() == lib,
    {
    }

    /// Makes a subfeature of a native record that was read through a
    /// handle, under the chip whose record lives at an address.
    pub fn new(raw: Ref<sensors_subfeature>, chip: usize, lib: &'lib LibSensors) -> (r: Self)
        ensures
            r == Self::spec_new(raw, chip, lib),
            r.raw() == raw,
            r.chip() == chip,
            r.lib() == lib,
    {
        Subfeature { lib, chip, raw }
    }

    /// The handle that the subfeature was read through.
    pub fn handle(&self) -> (r: &'lib LibSensors)
        ensures
            r == self.lib(),
    {
        self.lib
    }

    /// The name of the subfeature, where the native record holds one.
    pub fn get_name(&self) -> (r: Option<&Vec<u8>>)
        ensures
            match r {
                Some(name) => self.raw().value.name.target() == Some(*name),
                None => self.raw().value.name.target() is None,
            },
            self.raw().value.name.align() == 1 ==> (r is None <==> self.raw().value.name.null()),
    {
        try_cstr(&self.raw.value.name)
    }

    /// The call that reads the value of the subfeature. The output slot
    /// holds not-a-number before the call.
    pub fn get_value_call(&self) -> (r: Call)
        ensures
            r == (Call::GetValue {
                chip: self.chip(),
                number: self.raw().value.number,
                slot: ffi::NAN_BITS,
            }),
    {
        Call::GetValue { chip: self.chip, number: self.raw.value.number, slot: ffi::NAN_BITS }
    }

    /// The value of the subfeature, as the bits of a double, from what the
    /// call gave back: the return code and what the output slot holds
    /// after the call, or the failure to find the entry point.
    ///
    /// A negative return code is a native error that carries the code. With
    /// any other code the reading is what the slot holds, untouched.
    pub fn get_value(&self, reply: Result<(i32, u64), libloading::Error>) -> (r: Result<
        u64,
        LibSensorsError,
    >)
        ensures
            match reply {
                Ok((code, slot)) => if code < 0 {
                    r == Err::<u64, LibSensorsError>(
                        LibSensorsError::Sensors(SensorsError { code }),
                    )
                } else {
                    r == Ok::<u64, LibSensorsError>(slot)
                },
                Err(e) => r == Err::<u64, LibSensorsError>(LibSensorsError::Loading(e)),
            },
    {
        match reply {
            Ok((code, slot)) => {
                match SensorsError::convert_cint(code) {
                    Ok(_) => Ok(slot),
                    Err(e) => Err(LibSensorsError::Sensors(e)),
                }
            },
            Err(e) => Err(LibSensorsError::Loading(e)),
        }
    }

    /// The call that writes a value, given as the bits of a double, to the
    /// subfeature.
    pub fn set_value_call(&self, value: u64) -> (r: Call)
        ensures
            r == (Call::SetValue { chip: self.chip(), number: self.raw().value.number, value }),
    {
        Call::SetValue { chip: self.chip, number: self.raw.value.number, value }
    }

    /// Whether writing a value went through, from what the call gave back:
    /// the return code, or the failure to find the entry point.
    ///
    /// A negative return code is a native error that carries the code. Any
    /// other code is a success, which holds nothing.
    pub fn set_value(&self, reply: Result<i32, libloading::Error>) -> (r: Result<
        (),
        LibSensorsError,
    >)
        ensures
            match reply {
                Ok(code) => if code < 0 {
                    r == Err::<(), LibSensorsError>(
                        LibSensorsError::Sensors(SensorsError { code }),
                    )
                } else {
                    r == Ok::<(), LibSensorsError>(())
                },
                Err(e) => r == Err::<(), LibSensorsError>(LibSensorsError::Loading(e)),
            },
    {
        match reply {
            Ok(code) => {
                match SensorsError::convert_cint(code) {
                    Ok(_) => Ok(()),
                    Err(e) => Err(LibSensorsError::Sensors(e)),
                }
            },
            Err(e) => Err(LibSensorsError::Loading(e)),
        }
    }

    /// Whether capability flags allow reading: the lowest bit.
    pub open spec fn flags_allow_get(flags: u32) -> bool {
        flags & ffi::SENSORS_MODE_R != 0
    }

    /// Whether capability flags allow writing: the second lowest bit.
    pub open spec fn flags_allow_set(flags: u32) -> bool {
        flags & ffi::SENSORS_MODE_W != 0
    }

    /// Whether the value of the subfeature can be read.
    pub fn can_get(&self) -> (r: bool)
        ensures
            r == Self::flags_allow_get(self.raw().value.flags),
    {
        self.raw.value.flags & ffi::SENSORS_MODE_R != 0
    }

    /// Whether the value of the subfeature can be written.
    pub fn can_set(&self) -> (r: bool)
        ensures
            r == Self::flags_allow_set(self.raw().value.flags),
    {
        self.raw.value.flags & ffi::SENSORS_MODE_W != 0
    }

    /// The two capabilities are the two lowest bits of the flags, each on
    /// its own: flags that are even do not allow reading, and flags whose
    /// half is even do not allow writing. So flags 0 allow neither, flags 1
    /// reading only, flags 2 writing only and flags 3 both, whatever higher
    /// bits are set.
    pub proof fn lemma_flags(flags: u32)
        ensures
            Self::flags_allow_get(flags) <==> flags % 2 == 1,
            Self::flags_allow_set(flags) <==> (flags / 2) % 2 == 1,
    {
        assert((flags & 1 != 0) <==> flags % 2 == 1) by (bit_vector);
        assert((flags & 2 != 0) <==> (flags / 2) % 2 == 1) by (bit_vector);
    }
}

/// A kind of subfeature that several feature types share.
#[non_exhaustive]
#[derive(Debug, Clone, Copy, PartialEq, Eq)]
pub enum GenericSubfeature {
    /// The current reading.
    Input,
    /// The lower limit.
    Min,
    /// The upper limit.
    Max,
}

impl GenericSubfeature {
    /// Whether the native library defines this kind of subfeature for a
    /// feature type: a reading for each main feature type, limits for all of
    /// those but energy and humidity.
    pub open spec fn defined_for(self, feature_type: FeatureType) -> bool {
        &&& feature_type.is_main()
        &&& self is Input || (feature_type != FeatureType::Energy && feature_type
            != FeatureType::Humidity)
    }

    /// The native subfeature type for this kind of subfeature under a
    /// feature type, where the native library defines one.
    pub open spec fn primitive(self, feature_type: FeatureType) -> Option<u32> {
        match (self, feature_type) {
            (GenericSubfeature::Input, FeatureType::In) => Some(ffi::SENSORS_SUBFEATURE_IN_INPUT),
            (GenericSubfeature::Input, FeatureType::Fan) => Some(ffi::SENSORS_SUBFEATURE_FAN_INPUT),
            (GenericSubfeature::Input, FeatureType::Temp) => Some(
                ffi::SENSORS_SUBFEATURE_TEMP_INPUT,
            ),
            (GenericSubfeature::Input, FeatureType::Power) => Some(
                ffi::SENSORS_SUBFEATURE_POWER_INPUT,
            ),
            (GenericSubfeature::Input, FeatureType::Energy) => Some(
                ffi::SENSORS_SUBFEATURE_ENERGY_INPUT,
            ),
            (GenericSubfeature::Input, FeatureType::Current) => Some(
                ffi::SENSORS_SUBFEATURE_CURR_INPUT,
            ),
            (GenericSubfeature::Input, FeatureType::Humidity) => Some(
                ffi::SENSORS_SUBFEATURE_HUMIDITY_INPUT,
            ),
            (GenericSubfeature::Min, FeatureType::In) => Some(ffi::SENSORS_SUBFEATURE_IN_MIN),
            (GenericSubfeature::Min, FeatureType::Fan) => Some(ffi::SENSORS_SUBFEATURE_FAN_MIN),
            (GenericSubfeature::Min, FeatureType::Temp) => Some(ffi::SENSORS_SUBFEATURE_TEMP_MIN),
            (GenericSubfeature::Min, FeatureType::Power) => Some(ffi::SENSORS_SUBFEATURE_POWER_MIN),
            (GenericSubfeature::Min, FeatureType::Current) => Some(ffi::SENSORS_SUBFEATURE_CURR_MIN),
            (GenericSubfeature::Max, FeatureType::In) => Some(ffi::SENSORS_SUBFEATURE_IN_MAX),
            (GenericSubfeature::Max, FeatureType::Fan) => Some(ffi::SENSORS_SUBFEATURE_FAN_MAX),
            (GenericSubfeature::Max, FeatureType::Temp) => Some(ffi::SENSORS_SUBFEATURE_TEMP_MAX),
            (GenericSubfeature::Max, FeatureType::Power) => Some(ffi::SENSORS_SUBFEATURE_POWER_MAX),
            (GenericSubfeature::Max, FeatureType::Current) => Some(ffi::SENSORS_SUBFEATURE_CURR_MAX),
            _ => None,
        }
    }

    /// Looks up the native subfeature type for this kind of subfeature under
    /// a feature type. There is none where the native library defines no
    /// such subfeature: no lower limit of a humidity, nothing for a feature
    /// type that is not a main one.
    pub fn to_primitive(self, feature_type: FeatureType) -> (r: Option<u32>)
        ensures
            r == self.primitive(feature_type),
            r is Some <==> self.defined_for(feature_type),
            r matches Some(code) ==> code / 256 == feature_type.code(),
    {
        match self {
            GenericSubfeature::Input => {
                match feature_type {
                    FeatureType::In => Some(ffi::SENSORS_SUBFEATURE_IN_INPUT),
                    FeatureType::Fan => Some(ffi::SENSORS_SUBFEATURE_FAN_INPUT),
                    FeatureType::Temp => Some(ffi::SENSORS_SUBFEATURE_TEMP_INPUT),
                    FeatureType::Power => Some(ffi::SENSORS_SUBFEATURE_POWER_INPUT),
                    FeatureType::Energy => Some(ffi::SENSORS_SUBFEATURE_ENERGY_INPUT),
                    FeatureType::Current => Some(ffi::SENSORS_SUBFEATURE_CURR_INPUT),
                    FeatureType::Humidity => Some(ffi::SENSORS_SUBFEATURE_HUMIDITY_INPUT),
                    _ => None,
                }
            },
            GenericSubfeature::Min => {
                match feature_type {
                    FeatureType::In => Some(ffi::SENSORS_SUBFEATURE_IN_MIN),
                    FeatureType::Fan => Some(ffi::SENSORS_SUBFEATURE_FAN_MIN),
                    FeatureType::Temp => Some(ffi::SENSORS_SUBFEATURE_TEMP_MIN),
                    FeatureType::Power => Some(ffi::SENSORS_SUBFEATURE_POWER_MIN),
                    FeatureType::Current => Some(ffi::SENSORS_SUBFEATURE_CURR_MIN),
                    _ => None,
                }
            },
            GenericSubfeature::Max => {
                match feature_type {
                    FeatureType::In => Some(ffi::SENSORS_SUBFEATURE_IN_MAX),
                    FeatureType::Fan => Some(ffi::SENSORS_SUBFEATURE_FAN_MAX),
                    FeatureType::Temp => Some(ffi::SENSORS_SUBFEATURE_TEMP_MAX),
                    FeatureType::Power => Some(ffi::SENSORS_SUBFEATURE_POWER_MAX),
                    FeatureType::Current => Some(ffi::SENSORS_SUBFEATURE_CURR_MAX),
                    _ => None,
                }
            },
        }
    }

    /// The table is total and never makes a code up: each pair of a kind
    /// and a feature type either has the code that the native library
    /// defines for it, which lies in the range of codes of that feature
    /// type, or has none; and under one feature type no two kinds share a
    /// code.
    pub proof fn lemma_primitive_is_total(
        kind: GenericSubfeature,
        other: GenericSubfeature,
        feature_type: FeatureType,
    )
        ensures
            kind.primitive(feature_type) is Some <==> kind.defined_for(feature_type),
            kind.primitive(feature_type) matches Some(code) ==> code / 256 == feature_type.code()
                && code % 256 < 128,
            kind.primitive(feature_type) is Some && kind.primitive(feature_type)
                == other.primitive(feature_type) ==> kind == other,
    {
    }
}

} // verus!
