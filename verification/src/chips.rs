//! Chips: the bus a chip sits on, the chip itself, and the enumeration of
//! its features.

use vstd::prelude::*;
use crate::error::LibSensorsError;
use crate::feature::{Feature, FeatureType};
use crate::ffi;
use crate::ffi::{sensors_bus_id, sensors_chip_name, sensors_feature, Call};
use crate::utils::{
    enumerated, inverted, invert_res_opt, lemma_enumerated_ends_at_first_none, ptr_to_ref,
    ptr_to_ref_spec, reference, try_cstr, walks_records, yielded, Pointer, Ref,
};
use crate::LibSensors;

verus! {

/// The type of a bus. A wildcard is no bus type.
#[derive(Debug, Clone, Copy, PartialEq, Eq, PartialOrd, Ord)]
pub enum BusType {
    I2C,
    ISA,
    PCI,
    SPI,
    VIRTUAL,
    ACPI,
    HID,
    MDIO,
    SCSI,
}

impl BusType {
    /// The native code of a bus type.
    pub open spec fn code(self) -> i16 {
        match self {
            BusType::I2C => ffi::SENSORS_BUS_TYPE_I2C,
            BusType::ISA => ffi::SENSORS_BUS_TYPE_ISA,
            BusType::PCI => ffi::SENSORS_BUS_TYPE_PCI,
            BusType::SPI => ffi::SENSORS_BUS_TYPE_SPI,
            BusType::VIRTUAL => ffi::SENSORS_BUS_TYPE_VIRTUAL,
            BusType::ACPI => ffi::SENSORS_BUS_TYPE_ACPI,
            BusType::HID => ffi::SENSORS_BUS_TYPE_HID,
            BusType::MDIO => ffi::SENSORS_BUS_TYPE_MDIO,
            BusType::SCSI => ffi::SENSORS_BUS_TYPE_SCSI,
        }
    }

    /// What decoding a native bus type code gives: the bus type with that
    /// code, or the code itself as an unexpected value.
    pub open spec fn decode(value: i16) -> Result<BusType, LibSensorsError> {
        if value == ffi::SENSORS_BUS_TYPE_I2C {
            Ok(BusType::I2C)
        } else if value == ffi::SENSORS_BUS_TYPE_ISA {
            Ok(BusType::ISA)
        } else if value == ffi::SENSORS_BUS_TYPE_PCI {
            Ok(BusType::PCI)
        } else if value == ffi::SENSORS_BUS_TYPE_SPI {
            Ok(BusType::SPI)
        } else if value == ffi::SENSORS_BUS_TYPE_VIRTUAL {
            Ok(BusType::VIRTUAL)
        } else if value == ffi::SENSORS_BUS_TYPE_ACPI {
            Ok(BusType::ACPI)
        } else if value == ffi::SENSORS_BUS_TYPE_HID {
            Ok(BusType::HID)
        } else if value == ffi::SENSORS_BUS_TYPE_MDIO {
            Ok(BusType::MDIO)
        } else if value == ffi::SENSORS_BUS_TYPE_SCSI {
            Ok(BusType::SCSI)
        } else {
            Err(LibSensorsError::UnexpectedWildcard(value as i64))
        }
    }

    /// The native code of a bus type.
    pub fn repr(self) -> (r: i16)
        ensures
            r == self.code(),
    {
        match self {
            BusType::I2C => ffi::SENSORS_BUS_TYPE_I2C,
            BusType::ISA => ffi::SENSORS_BUS_TYPE_ISA,
            BusType::PCI => ffi::SENSORS_BUS_TYPE_PCI,
            BusType::SPI => ffi::SENSORS_BUS_TYPE_SPI,
            BusType::VIRTUAL => ffi::SENSORS_BUS_TYPE_VIRTUAL,
            BusType::ACPI => ffi::SENSORS_BUS_TYPE_ACPI,
            BusType::HID => ffi::SENSORS_BUS_TYPE_HID,
            BusType::MDIO => ffi::SENSORS_BUS_TYPE_MDIO,
            BusType::SCSI => ffi::SENSORS_BUS_TYPE_SCSI,
        }
    }

    /// The name of a bus type, spelled as its variant.
    pub open spec fn name_spec(self) -> Seq<char> {
        match self {
            BusType::I2C => "I2C"@,
            BusType::ISA => "ISA"@,
            BusType::PCI => "PCI"@,
            BusType::SPI => "SPI"@,
            BusType::VIRTUAL => "VIRTUAL"@,
            BusType::ACPI => "ACPI"@,
            BusType::HID => "HID"@,
            BusType::MDIO => "MDIO"@,
            BusType::SCSI => "SCSI"@,
        }
    }

    /// The name of a bus type, spelled as its variant.
    pub fn name(self) -> (r: &'static str)
        ensures
            r@ == self.name_spec(),
    {
        match self {
            BusType::I2C => "I2C",
            BusType::ISA => "ISA",
            BusType::PCI => "PCI",
            BusType::SPI => "SPI",
            BusType::VIRTUAL => "VIRTUAL",
            BusType::ACPI => "ACPI",
            BusType::HID => "HID",
            BusType::MDIO => "MDIO",
            BusType::SCSI => "SCSI",
        }
    }

    /// Decoding gives back exactly the bus type whose code was decoded, and
    /// turns down every code that no bus type has.
    pub proof fn lemma_decode_inverts_code(value: i16, bus_type: BusType)
        ensures
            Self::decode(bus_type.code()) == Ok::<BusType, LibSensorsError>(bus_type),
            Self::decode(value) is Ok <==> 0 <= value <= 8,
            Self::decode(value) == Ok::<BusType, LibSensorsError>(bus_type) ==> bus_type.code()
                == value,
    {
    }
}

impl TryFrom<i16> for BusType {
    type Error = LibSensorsError;

    /// Decodes a native bus type code. A code that no bus type has, the
    /// wildcard among them, is an unexpected value.
    fn try_from(value: i16) -> (r: Result<BusType, LibSensorsError>)
        ensures
            r == BusType::decode(value),
            match r {
                Ok(t) => t.code() == value,
                Err(e) => e == LibSensorsError::UnexpectedWildcard(value as i64) && forall|
                    t: BusType,
                | t.code() != value,
            },
    {
        if value == ffi::SENSORS_BUS_TYPE_I2C {
            Ok(BusType::I2C)
        } else if value == ffi::SENSORS_BUS_TYPE_ISA {
            Ok(BusType::ISA)
        } else if value == ffi::SENSORS_BUS_TYPE_PCI {
            Ok(BusType::PCI)
        } else if value == ffi::SENSORS_BUS_TYPE_SPI {
            Ok(BusType::SPI)
        } else if value == ffi::SENSORS_BUS_TYPE_VIRTUAL {
            Ok(BusType::VIRTUAL)
        } else if value == ffi::SENSORS_BUS_TYPE_ACPI {
            Ok(BusType::ACPI)
        } else if value == ffi::SENSORS_BUS_TYPE_HID {
            Ok(BusType::HID)
        } else if value == ffi::SENSORS_BUS_TYPE_MDIO {
            Ok(BusType::MDIO)
        } else if value == ffi::SENSORS_BUS_TYPE_SCSI {
            Ok(BusType::SCSI)
        } else {
            Err(LibSensorsError::UnexpectedWildcard(value as i64))
        }
    }
}

impl vstd::std_specs::convert::TryFromSpecImpl<i16> for BusType {
    open spec fn obeys_try_from_spec() -> bool {
        true
    }

    open spec fn try_from_spec(value: i16) -> Result<BusType, LibSensorsError> {
        BusType::decode(value)
    }
}

/// The identity of the bus that hosts a chip: its type and its number.
/// Neither is ever a wildcard.
#[derive(Debug, Clone, Copy, PartialEq, Eq)]
pub struct BusId {
    pub type_: BusType,
    pub nr: i16,
}

impl BusId {
    /// Whether a bus number is one of the two wildcards.
    pub open spec fn is_wildcard_nr(nr: i16) -> bool {
        nr == ffi::SENSORS_BUS_NR_ANY || nr == ffi::SENSORS_BUS_NR_IGNORE
    }

    /// What decoding a native bus id gives. A wildcard bus number is turned
    /// down first, whatever the bus type code; then the bus type code is
    /// decoded.
    pub open spec fn decode(value: sensors_bus_id) -> Result<BusId, LibSensorsError> {
        if Self::is_wildcard_nr(value.nr) {
            Err(LibSensorsError::UnexpectedWildcard(value.nr as i64))
        } else {
            match BusType::decode(value.type_) {
                Ok(type_) => Ok(BusId { type_, nr: value.nr }),
                Err(e) => Err(e),
            }
        }
    }

    /// A bus id with a wildcard for its number never decodes, whatever its
    /// bus type code: the wildcard comes back as the unexpected value.
    pub proof fn lemma_wildcard_nr_never_decodes(value: sensors_bus_id)
        requires
            Self::is_wildcard_nr(value.nr),
        ensures
            Self::decode(value) == Err::<BusId, LibSensorsError>(
                LibSensorsError::UnexpectedWildcard(value.nr as i64),
            ),
    {
    }
}

impl TryFrom<sensors_bus_id> for BusId {
    type Error = LibSensorsError;

    /// Decodes a native bus id into the identity of a concrete bus.
    fn try_from(value: sensors_bus_id) -> (r: Result<BusId, LibSensorsError>)
        ensures
            r == BusId::decode(value),
            BusId::is_wildcard_nr(value.nr) ==> r == Err::<BusId, LibSensorsError>(
                LibSensorsError::UnexpectedWildcard(value.nr as i64),
            ),
            r matches Ok(bus) ==> bus.nr == value.nr && bus.type_.code() == value.type_
                && !BusId::is_wildcard_nr(bus.nr),
            r is Ok <==> !BusId::is_wildcard_nr(value.nr) && 0 <= value.type_ <= 8,
    {
        if value.nr == ffi::SENSORS_BUS_NR_ANY || value.nr == ffi::SENSORS_BUS_NR_IGNORE {
            return Err(LibSensorsError::UnexpectedWildcard(value.nr as i64));
        }
        match BusType::try_from(value.type_) {
            Ok(type_) => Ok(BusId { type_, nr: value.nr }),
            Err(e) => Err(e),
        }
    }
}

impl vstd::std_specs::convert::TryFromSpecImpl<sensors_bus_id> for BusId {
    open spec fn obeys_try_from_spec() -> bool {
        true
    }

    open spec fn try_from_spec(value: sensors_bus_id) -> Result<BusId, LibSensorsError> {
        BusId::decode(value)
    }
}

/// A chip that the native library detected. It borrows from the handle it
/// was read through.
#[derive(Debug)]
pub struct Chip<'lib> {
    lib: &'lib LibSensors,
    raw: Ref<sensors_chip_name>,
    bus: BusId,
}

impl<'lib> Chip<'lib> {
    /// The handle that the chip was read through.
    pub closed spec fn lib(&self) -> &'lib LibSensors {
        self.lib
    }

    /// The native record of the chip.
    pub closed spec fn raw(&self) -> Ref<sensors_chip_name> {
        self.raw
    }

    /// The decoded identity of the bus that hosts the chip.
    pub closed spec fn bus(&self) -> BusId {
        self.bus
    }

    /// Whether the record of a chip holds a prefix. A chip without one
    /// cannot be made.
    pub open spec fn has_prefix(raw: Ref<sensors_chip_name>) -> bool {
        raw.value.prefix.target() is Some
    }

    /// A chip keeps the record it was made of, which holds a prefix, and the
    /// bus identity that the record decodes to.
    pub open spec fn wf(&self) -> bool {
        &&& Self::has_prefix(self.raw())
        &&& BusId::decode(self.raw().value.bus) == Ok::<BusId, LibSensorsError>(self.bus())
    }

    #[verifier::type_invariant]
    spec fn inv(&self) -> bool {
        self.wf()
    }

    /// Whether this is the chip that a record read through a handle makes.
    pub open spec fn made_of(&self, lib: &'lib LibSensors, raw: Ref<sensors_chip_name>) -> bool {
        &&& self.lib() == lib
        &&& self.raw() == raw
        &&& self.wf()
    }

    /// What making a chip of a record gives: the chip, or the reason why the
    /// bus id of the record does not decode.
    pub closed spec fn spec_new(lib: &'lib LibSensors, raw: Ref<sensors_chip_name>) -> Result<
        Chip<'lib>,
        LibSensorsError,
    > {
        match BusId::decode(raw.value.bus) {
            Ok(bus) => Ok(Chip { lib, raw, bus }),
            Err(e) => Err(e),
        }
    }

    /// What a step of a chip enumeration finds behind the pointer that the
    /// native call handed out: nothing at a null pointer, otherwise what
    /// making a chip of the record gives.
    pub open spec fn found(lib: &'lib LibSensors, fetched: Pointer<sensors_chip_name>) -> Option<
        Result<Chip<'lib>, LibSensorsError>,
    > {
        match yielded(fetched) {
            None => None,
            Some(raw) => Some(Self::spec_new(lib, raw)),
        }
    }

    /// Making a chip succeeds exactly when the bus id of the record
    /// decodes. The chip is then made of the record; otherwise the error
    /// is that of the decoding.
    pub proof fn lemma_spec_new(lib: &'lib LibSensors, raw: Ref<sensors_chip_name>)
        requires
            Self::has_prefix(raw),
        ensures
            match BusId::decode(raw.value.bus) {
                Ok(_) => Self::spec_new(lib, raw) matches Ok(chip) && chip.made_of(lib, raw),
                Err(e) => Self::spec_new(lib, raw) == Err::<Chip<'lib>, LibSensorsError>(e),
            },
    {
    }

    /// Makes a chip of a native record that was read through a handle.
    ///
    /// The prefix of the record has to be there. The bus id of the record
    /// is decoded: a wildcard in it is an error.
    pub fn new(lib: &'lib LibSensors, raw: Ref<sensors_chip_name>) -> (r: Result<
        Self,
        LibSensorsError,
    >)
        requires
            Self::has_prefix(raw),
        ensures
            r == Self::spec_new(lib, raw),
            match BusId::decode(raw.value.bus) {
                Ok(_) => r matches Ok(chip) && chip.made_of(lib, raw),
                Err(e) => r == Err::<Self, LibSensorsError>(e),
            },
    {
        match BusId::try_from(raw.value.bus) {
            Ok(bus) => Ok(Chip { lib, raw, bus }),
            Err(e) => Err(e),
        }
    }

    /// The call that asks for the name of the adapter of the chip's bus.
    pub fn get_name_call(&self) -> (r: Call)
        ensures
            r == (Call::GetAdapterName { bus: self.raw().value.bus }),
    {
        Call::GetAdapterName { bus: self.raw.value.bus }
    }

    /// The name of the adapter of the chip's bus, from what the call gave
    /// back: the pointer to the name, or the failure to find the entry
    /// point. There is no name where the pointer is null.
    pub fn get_name(&self, reply: Result<Pointer<Vec<u8>>, libloading::Error>) -> (r: Result<
        Option<Vec<u8>>,
        LibSensorsError,
    >)
        ensures
            match reply {
                Ok(name) => r == Ok::<Option<Vec<u8>>, LibSensorsError>(name.target()) && (
                name.align() == 1 ==> (r == Ok::<Option<Vec<u8>>, LibSensorsError>(None)
                    <==> name.null())),
                Err(e) => r == Err::<Option<Vec<u8>>, LibSensorsError>(
                    LibSensorsError::Loading(e),
                ),
            },
    {
        match reply {
            Ok(name) => Ok(name.into_target()),
            Err(e) => Err(LibSensorsError::Loading(e)),
        }
    }

    /// The prefix of the chip: the name of its driver.
    pub fn get_prefix(&self) -> (r: &Vec<u8>)
        ensures
            self.raw().value.prefix.target() == Some(*r),
    {
        proof {
            use_type_invariant(self);
        }
        try_cstr(&self.raw.value.prefix).unwrap()
    }

    /// The identity of the bus that hosts the chip.
    pub fn get_bus_id(&self) -> (r: BusId)
        ensures
            r == self.bus(),
            BusId::decode(self.raw().value.bus) == Ok::<BusId, LibSensorsError>(r),
            !BusId::is_wildcard_nr(r.nr),
    {
        proof {
            use_type_invariant(self);
        }
        self.bus
    }

    /// The handle that the chip was read through.
    pub fn handle(&self) -> (r: &'lib LibSensors)
        ensures
            r == self.lib(),
    {
        self.lib
    }

    /// The address of the native record of the chip, which names the chip
    /// in calls.
    pub fn address(&self) -> (r: usize)
        ensures
            r == self.raw().addr,
    {
        self.raw.addr
    }

    /// The call that asks for the feature of the chip at a cursor.
    pub fn get_feature_call(&self, index: i32) -> (r: Call)
        ensures
            r == (Call::GetFeatures { chip: self.raw().addr, cursor: index }),
    {
        Call::GetFeatures { chip: self.raw.addr, cursor: index }
    }

    /// The feature of the chip at a cursor, from what the call gave back:
    /// the pointer to the feature record, or the failure to find the entry
    /// point. There is no feature where the pointer is null. A misaligned
    /// pointer is not to be handed in: it means that native memory is
    /// corrupt.
    pub fn get_feature(
        &self,
        reply: Result<Pointer<sensors_feature>, libloading::Error>,
    ) -> (r: Result<Option<Feature<'lib>>, LibSensorsError>)
        requires
            reply matches Ok(fetched) ==> ptr_to_ref_spec(fetched) is Ok,
        ensures
            match reply {
                Ok(fetched) => r == inverted(Feature::found(self.lib(), self.raw().addr, fetched)),
                Err(e) => r == Err::<Option<Feature<'lib>>, LibSensorsError>(
                    LibSensorsError::Loading(e),
                ),
            },
    {
        match reply {
            Ok(fetched) => invert_res_opt(get_feature_raw(self.lib, self.raw.addr, fetched)),
            Err(e) => Err(LibSensorsError::Loading(e)),
        }
    }

    /// Starts the enumeration of the features of the chip, given what
    /// became of looking up the entry point for it: the entry point, which
    /// the enumeration keeps for all its steps, or the failure to find it.
    pub fn get_features<F>(&self, resolved: Result<F, libloading::Error>) -> (r: Result<
        FeatureIterator<'lib, F>,
        LibSensorsError,
    >)
        ensures
            match resolved {
                Ok(fun) => r matches Ok(features) && features.lib() == self.lib() && features.fun()
                    == fun && features.chip() == self.raw().addr && features.cursor() == 0,
                Err(e) => r == Err::<FeatureIterator<'lib, F>, LibSensorsError>(
                    LibSensorsError::Loading(e),
                ),
            },
    {
        match resolved {
            Ok(fun) => Ok(FeatureIterator::new(self.lib, fun, self.raw.addr)),
            Err(e) => Err(LibSensorsError::Loading(e)),
        }
    }
}

/// One step of a feature enumeration: the feature behind the pointer that
/// the native call handed out, or nothing at a null pointer.
fn get_feature_raw<'lib>(lib: &'lib LibSensors, chip: usize, fetched: Pointer<sensors_feature>) -> (r:
    Option<Result<Feature<'lib>, LibSensorsError>>)
    requires
        ptr_to_ref_spec(fetched) is Ok,
    ensures
        r == Feature::found(lib, chip, fetched),
{
    match ptr_to_ref(fetched) {
        Ok(Some(raw)) => Some(Feature::new(lib, chip, raw)),
        _ => None,
    }
}

/// The enumeration of the features of a chip: a single pass that is driven
/// by the native cursor. It keeps the entry point `F` that fetches a
/// feature, so that no step has to look it up again.
#[derive(Debug)]
pub struct FeatureIterator<'lib, F> {
    lib: &'lib LibSensors,
    fun: F,
    chip: usize,
    index: i32,
}

impl<'lib, F> FeatureIterator<'lib, F> {
    /// The handle that the features are read through.
    pub closed spec fn lib(&self) -> &'lib LibSensors {
        self.lib
    }

    /// The entry point that fetches a feature.
    pub closed spec fn fun(&self) -> F {
        self.fun
    }

    /// The address of the record of the chip.
    pub closed spec fn chip(&self) -> usize {
        self.chip
    }

    /// The cursor to hand to the next native call.
    pub closed spec fn cursor(&self) -> i32 {
        self.index
    }

    /// An enumeration of the features of the chip whose record lives at an
    /// address, through the given entry point. It starts at cursor 0.
    pub fn new(lib: &'lib LibSensors, fun: F, chip: usize) -> (r: Self)
        ensures
            r.lib() == lib,
            r.fun() == fun,
            r.chip() == chip,
            r.cursor() == 0,
    {
        FeatureIterator { lib, fun, chip, index: 0 }
    }

    /// The entry point that fetches a feature.
    pub fn entry_point(&self) -> (r: &F)
        ensures
            *r == self.fun(),
    {
        &self.fun
    }

    /// All the features that the enumeration yields when the native call
    /// hands out these pointers in turn: what each step finds, until one
    /// finds nothing.
    pub open spec fn items(lib: &'lib LibSensors, chip: usize, replies: Seq<Pointer<sensors_feature>>)
        -> Seq<Result<Feature<'lib>, LibSensorsError>> {
        enumerated(replies, |fetched: Pointer<sensors_feature>| Feature::found(lib, chip, fetched))
    }

    /// Over a chip that holds `n` features the enumeration yields exactly
    /// `n` items and ends at the first null pointer. The items come in the
    /// order of the records: for a record whose type code is that of a
    /// feature type, the feature made of it; for any other, the type code
    /// as an unexpected value.
    pub proof fn lemma_yields_each_feature(
        lib: &'lib LibSensors,
        chip: usize,
        replies: Seq<Pointer<sensors_feature>>,
        n: nat,
    )
        requires
            walks_records(replies, n),
        ensures
            Self::items(lib, chip, replies).len() == n,
            forall|i: int|
                0 <= i < n ==> match FeatureType::of_code(reference(replies[i]).value.type_) {
                    Some(_) => (#[trigger] Self::items(lib, chip, replies)[i]) matches Ok(feature)
                        && feature.made_of(lib, chip, reference(replies[i])),
                    None => Self::items(lib, chip, replies)[i] == Err::<
                        Feature<'lib>,
                        LibSensorsError,
                    >(
                        LibSensorsError::UnexpectedWildcard(
                            reference(replies[i]).value.type_ as i64,
                        ),
                    ),
                },
    {
        let step = |fetched: Pointer<sensors_feature>| Feature::found(lib, chip, fetched);
        assert forall|i: int| 0 <= i < n implies #[trigger] step(replies[i]) is Some by {
            assert(!replies[i].null() && replies[i].aligned());
        }
        lemma_enumerated_ends_at_first_none(replies, step, n);
        assert forall|i: int| 0 <= i < n implies match FeatureType::of_code(
            reference(replies[i]).value.type_,
        ) {
            Some(_) => (#[trigger] Self::items(lib, chip, replies)[i]) matches Ok(feature)
                && feature.made_of(lib, chip, reference(replies[i])),
            None => Self::items(lib, chip, replies)[i] == Err::<Feature<'lib>, LibSensorsError>(
                LibSensorsError::UnexpectedWildcard(reference(replies[i]).value.type_ as i64),
            ),
        } by {
            assert(!replies[i].null() && replies[i].aligned());
            assert(Self::items(lib, chip, replies)[i] == step(replies[i])->0);
            Feature::lemma_spec_new(lib, chip, reference(replies[i]));
        }
    }

    /// The call that fetches the next feature.
    pub fn call(&self) -> (r: Call)
        ensures
            r == (Call::GetFeatures { chip: self.chip(), cursor: self.cursor() }),
    {
        Call::GetFeatures { chip: self.chip, cursor: self.index }
    }

    /// Takes what the call gave back: the cursor as the native library left
    /// it, and the pointer it returned. Yields the next feature, or nothing
    /// where the pointer is null: the enumeration is then over. A
    /// misaligned pointer is not to be handed in.
    pub fn next(&mut self, cursor: i32, fetched: Pointer<sensors_feature>) -> (r: Option<
        Result<Feature<'lib>, LibSensorsError>,
    >)
        requires
            ptr_to_ref_spec(fetched) is Ok,
        ensures
            r == Feature::found(old(self).lib(), old(self).chip(), fetched),
            r is None <==> fetched.null(),
            final(self).lib() == old(self).lib(),
            final(self).fun() == old(self).fun(),
            final(self).chip() == old(self).chip(),
            final(self).cursor() == cursor,
    {
        self.index = cursor;
        get_feature_raw(self.lib, self.chip, fetched)
    }
}

} // verus!
