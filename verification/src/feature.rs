//! Features: the measurement groups of a chip, their kinds and labels, and
//! the enumeration of their subfeatures.

use vstd::prelude::*;
use vstd::string::*;
use vstd::utf8::{decode_utf8, valid_utf8};
use crate::error::LibSensorsError;
use crate::ffi;
use crate::ffi::{sensors_feature, sensors_subfeature, Call};
use crate::subfeature::Subfeature;
use crate::utils::{
    enumerated, lemma_enumerated_ends_at_first_none, ptr_to_ref, ptr_to_ref_spec, reference,
    try_cstr, walks_records, yielded, GLibCBox, Pointer, Ref,
};
use crate::LibSensors;

verus! {

/// The kind of a feature, as the native library numbers it.
#[derive(Debug, Clone, Copy, PartialEq, Eq, PartialOrd, Ord)]
pub enum FeatureType {
    In,
    Fan,
    Temp,
    Power,
    Energy,
    Current,
    Humidity,
    MaxMain,
    Vid,
    Intrusion,
    MaxOther,
    BeepEnable,
    Max,
}

impl FeatureType {
    /// The native code of a feature type.
    pub open spec fn code(self) -> u32 {
        match self {
            FeatureType::In => ffi::SENSORS_FEATURE_IN,
            FeatureType::Fan => ffi::SENSORS_FEATURE_FAN,
            FeatureType::Temp => ffi::SENSORS_FEATURE_TEMP,
            FeatureType::Power => ffi::SENSORS_FEATURE_POWER,
            FeatureType::Energy => ffi::SENSORS_FEATURE_ENERGY,
            FeatureType::Current => ffi::SENSORS_FEATURE_CURR,
            FeatureType::Humidity => ffi::SENSORS_FEATURE_HUMIDITY,
            FeatureType::MaxMain => ffi::SENSORS_FEATURE_MAX_MAIN,
            FeatureType::Vid => ffi::SENSORS_FEATURE_VID,
            FeatureType::Intrusion => ffi::SENSORS_FEATURE_INTRUSION,
            FeatureType::MaxOther => ffi::SENSORS_FEATURE_MAX_OTHER,
            FeatureType::BeepEnable => ffi::SENSORS_FEATURE_BEEP_ENABLE,
            FeatureType::Max => ffi::SENSORS_FEATURE_MAX,
        }
    }

    /// Whether a feature type is one of the main kinds, the ones that
    /// measure a physical quantity.
    pub open spec fn is_main(self) -> bool {
        self.code() < ffi::SENSORS_FEATURE_MAX_MAIN
    }

    /// The native code of a feature type.
    pub fn repr(self) -> (r: u32)
        ensures
            r == self.code(),
    {
        match self {
            FeatureType::In => ffi::SENSORS_FEATURE_IN,
            FeatureType::Fan => ffi::SENSORS_FEATURE_FAN,
            FeatureType::Temp => ffi::SENSORS_FEATURE_TEMP,
            FeatureType::Power => ffi::SENSORS_FEATURE_POWER,
            FeatureType::Energy => ffi::SENSORS_FEATURE_ENERGY,
            FeatureType::Current => ffi::SENSORS_FEATURE_CURR,
            FeatureType::Humidity => ffi::SENSORS_FEATURE_HUMIDITY,
            FeatureType::MaxMain => ffi::SENSORS_FEATURE_MAX_MAIN,
            FeatureType::Vid => ffi::SENSORS_FEATURE_VID,
            FeatureType::Intrusion => ffi::SENSORS_FEATURE_INTRUSION,
            FeatureType::MaxOther => ffi::SENSORS_FEATURE_MAX_OTHER,
            FeatureType::BeepEnable => ffi::SENSORS_FEATURE_BEEP_ENABLE,
            FeatureType::Max => ffi::SENSORS_FEATURE_MAX,
        }
    }

    /// The feature type that a native code stands for: the one whose code it
    /// is, or nothing where no feature type has that code.
    pub open spec fn of_code(code: u32) -> Option<FeatureType> {
        if code == ffi::SENSORS_FEATURE_IN {
            Some(FeatureType::In)
        } else if code == ffi::SENSORS_FEATURE_FAN {
            Some(FeatureType::Fan)
        } else if code == ffi::SENSORS_FEATURE_TEMP {
            Some(FeatureType::Temp)
        } else if code == ffi::SENSORS_FEATURE_POWER {
            Some(FeatureType::Power)
        } else if code == ffi::SENSORS_FEATURE_ENERGY {
            Some(FeatureType::Energy)
        } else if code == ffi::SENSORS_FEATURE_CURR {
            Some(FeatureType::Current)
        } else if code == ffi::SENSORS_FEATURE_HUMIDITY {
            Some(FeatureType::Humidity)
        } else if code == ffi::SENSORS_FEATURE_MAX_MAIN {
            Some(FeatureType::MaxMain)
        } else if code == ffi::SENSORS_FEATURE_VID {
            Some(FeatureType::Vid)
        } else if code == ffi::SENSORS_FEATURE_INTRUSION {
            Some(FeatureType::Intrusion)
        } else if code == ffi::SENSORS_FEATURE_MAX_OTHER {
            Some(FeatureType::MaxOther)
        } else if code == ffi::SENSORS_FEATURE_BEEP_ENABLE {
            Some(FeatureType::BeepEnable)
        } else if code == ffi::SENSORS_FEATURE_MAX {
            Some(FeatureType::Max)
        } else {
            None
        }
    }

    /// Decodes a native feature type code.
    pub fn from_repr(code: u32) -> (r: Option<FeatureType>)
        ensures
            r == Self::of_code(code),
            match r {
                Some(t) => t.code() == code,
                None => forall|t: FeatureType| t.code() != code,
            },
    {
        if code == ffi::SENSORS_FEATURE_IN {
            Some(FeatureType::In)
        } else if code == ffi::SENSORS_FEATURE_FAN {
            Some(FeatureType::Fan)
        } else if code == ffi::SENSORS_FEATURE_TEMP {
            Some(FeatureType::Temp)
        } else if code == ffi::SENSORS_FEATURE_POWER {
            Some(FeatureType::Power)
        } else if code == ffi::SENSORS_FEATURE_ENERGY {
            Some(FeatureType::Energy)
        } else if code == ffi::SENSORS_FEATURE_CURR {
            Some(FeatureType::Current)
        } else if code == ffi::SENSORS_FEATURE_HUMIDITY {
            Some(FeatureType::Humidity)
        } else if code == ffi::SENSORS_FEATURE_MAX_MAIN {
            Some(FeatureType::MaxMain)
        } else if code == ffi::SENSORS_FEATURE_VID {
            Some(FeatureType::Vid)
        } else if code == ffi::SENSORS_FEATURE_INTRUSION {
            Some(FeatureType::Intrusion)
        } else if code == ffi::SENSORS_FEATURE_MAX_OTHER {
            Some(FeatureType::MaxOther)
        } else if code == ffi::SENSORS_FEATURE_BEEP_ENABLE {
            Some(FeatureType::BeepEnable)
        } else if code == ffi::SENSORS_FEATURE_MAX {
            Some(FeatureType::Max)
        } else {
            None
        }
    }

    /// No two feature types share a native code, and decoding inverts
    /// coding: it gives back the feature type whose code was decoded, and
    /// nothing for a code that no feature type has.
    pub proof fn lemma_of_code_inverts_code(code: u32, a: FeatureType, b: FeatureType)
        ensures
            a.code() == b.code() ==> a == b,
            Self::of_code(a.code()) == Some(a),
            Self::of_code(code) == Some(a) <==> a.code() == code,
            Self::of_code(code) is None <==> forall|t: FeatureType| t.code() != code,
    {
        if Self::of_code(code) is None {
            assert forall|t: FeatureType| t.code() != code by {
                assert(Self::of_code(t.code()) == Some(t));
            }
        } else {
            assert(Self::of_code(code)->0.code() == code);
        }
    }
}

/// Calls `std::str::from_utf8`. The standard library documents that it
/// succeeds exactly on valid UTF-8 and that the string slice then holds the
/// text that the bytes encode.
#[verifier::external_body]
fn str_from_utf8(bytes: &[u8]) -> (r: Result<&str, std::str::Utf8Error>)
    ensures
        r is Ok <==> valid_utf8(bytes@),
        r matches Ok(text) ==> text@ == decode_utf8(bytes@),
{
    std::str::from_utf8(bytes)
}

/// Why the label of a feature could not be had.
#[derive(Debug)]
pub enum GetLabelError {
    /// The native library had no label to give: it returned a null pointer.
    GetLabelFailed,
    /// The call could not be made, or the label is no valid text.
    LibSensors(LibSensorsError),
}

impl GetLabelError {
    /// Whether a text is the text of the error: its kind and, where it
    /// carries an error of the library, the text of that after a colon.
    pub open spec fn is_message(&self, text: Seq<char>) -> bool {
        match *self {
            GetLabelError::GetLabelFailed => text == "GetLabelError(GetLabelFailed)"@,
            GetLabelError::LibSensors(e) => exists|inner: Seq<char>|
                #[trigger] e.is_message(inner) && text == "GetLabelError(LibSensors: "@ + inner
                    + ")"@,
        }
    }

    /// The text of the error.
    pub fn message(&self) -> (r: String)
        ensures
            self.is_message(r@),
    {
        match self {
            GetLabelError::GetLabelFailed => String::from_str("GetLabelError(GetLabelFailed)"),
            GetLabelError::LibSensors(e) => {
                let inner = e.message();
                String::from_str("GetLabelError(LibSensors: ").concat(inner.as_str()).concat(")")
            },
        }
    }
}

/// A feature of a chip. It borrows from the handle it was read through.
#[derive(Debug)]
pub struct Feature<'lib> {
    lib: &'lib LibSensors,
    chip: usize,
    raw: Ref<sensors_feature>,
    type_: FeatureType,
}

impl<'lib> Feature<'lib> {
    /// The handle that the feature was read through.
    pub closed spec fn lib(&self) -> &'lib LibSensors {
        self.lib
    }

    /// The address of the record of the chip that the feature belongs to.
    pub closed spec fn chip(&self) -> usize {
        self.chip
    }

    /// The native record of the feature.
    pub closed spec fn raw(&self) -> Ref<sensors_feature> {
        self.raw
    }

    /// The decoded type of the feature.
    pub closed spec fn type_(&self) -> FeatureType {
        self.type_
    }

    /// A feature keeps the record it was made of and the feature type that
    /// the type code of the record stands for.
    pub open spec fn wf(&self) -> bool {
        self.type_().code() == self.raw().value.type_
    }

    #[verifier::type_invariant]
    spec fn inv(&self) -> bool {
        self.wf()
    }

    /// Whether this is the feature that a record makes, read through a
    /// handle under the chip at an address.
    pub open spec fn made_of(
        &self,
        lib: &'lib LibSensors,
        chip: usize,
        raw: Ref<sensors_feature>,
    ) -> bool {
        &&& self.lib() == lib
        &&& self.chip() == chip
        &&& self.raw() == raw
        &&& self.wf()
    }

    /// What making a feature of a record gives: the feature, or the type
    /// code of the record as an unexpected value.
    pub closed spec fn spec_new(lib: &'lib LibSensors, chip: usize, raw: Ref<sensors_feature>)
        -> Result<Feature<'lib>, LibSensorsError> {
        match FeatureType::of_code(raw.value.type_) {
            Some(type_) => Ok(Feature { lib, chip, raw, type_ }),
            None => Err(LibSensorsError::UnexpectedWildcard(raw.value.type_ as i64)),
        }
    }

    /// What a step of a feature enumeration finds behind the pointer that
    /// the native call handed out: nothing at a null pointer, otherwise
    /// what making a feature of the record gives.
    pub open spec fn found(lib: &'lib LibSensors, chip: usize, fetched: Pointer<sensors_feature>)
        -> Option<Result<Feature<'lib>, LibSensorsError>> {
        match yielded(fetched) {
            None => None,
            Some(raw) => Some(Self::spec_new(lib, chip, raw)),
        }
    }

    /// Making a feature succeeds exactly when the type code of the record
    /// is that of a feature type. The feature is then made of the record;
    /// otherwise the error carries the code.
    pub proof fn lemma_spec_new(lib: &'lib LibSensors, chip: usize, raw: Ref<sensors_feature>)
        ensures
            match FeatureType::of_code(raw.value.type_) {
                Some(_) => Self::spec_new(lib, chip, raw) matches Ok(feature) && feature.made_of(
                    lib,
                    chip,
                    raw,
                ),
                None => Self::spec_new(lib, chip, raw) == Err::<Feature<'lib>, LibSensorsError>(
                    LibSensorsError::UnexpectedWildcard(raw.value.type_ as i64),
                ),
            },
    {
    }

    /// Makes a feature of a native record that was read through a handle,
    /// under the chip whose record lives at an address. A type code that
    /// no feature type has is an error.
    pub fn new(lib: &'lib LibSensors, chip: usize, raw: Ref<sensors_feature>) -> (r: Result<
        Self,
        LibSensorsError,
    >)
        ensures
            r == Self::spec_new(lib, chip, raw),
            match FeatureType::of_code(raw.value.type_) {
                Some(_) => r matches Ok(feature) && feature.made_of(lib, chip, raw),
                None => r == Err::<Self, LibSensorsError>(
                    LibSensorsError::UnexpectedWildcard(raw.value.type_ as i64),
                ),
            },
    {
        match FeatureType::from_repr(raw.value.type_) {
            Some(type_) => Ok(Feature { lib, chip, raw, type_ }),
            None => Err(LibSensorsError::UnexpectedWildcard(raw.value.type_ as i64)),
        }
    }

    /// The type of the feature.
    pub fn get_type(&self) -> (r: FeatureType)
        ensures
            r == self.type_(),
            r.code() == self.raw().value.type_,
    {
        proof {
            use_type_invariant(self);
        }
        self.type_
    }

    /// Whether the record holds the name that the native library promises
    /// for every feature.
    pub fn has_name(&self) -> (r: bool)
        ensures
            r == (self.raw().value.name.target() is Some),
    {
        try_cstr(&self.raw.value.name).is_some()
    }

    /// The name of the feature, as the native library spells it. The
    /// native library promises the name: a record that lacks it is not to
    /// be asked for it.
    pub fn get_name(&self) -> (r: &Vec<u8>)
        requires
            self.raw().value.name.target() is Some,
        ensures
            self.raw().value.name.target() == Some(*r),
    {
        try_cstr(&self.raw.value.name).unwrap()
    }

    /// The handle that the feature was read through.
    pub fn handle(&self) -> (r: &'lib LibSensors)
        ensures
            r == self.lib(),
    {
        self.lib
    }

    /// The address of the native record of the feature, which names the
    /// feature in calls.
    pub fn address(&self) -> (r: usize)
        ensures
            r == self.raw().addr,
    {
        self.raw.addr
    }

    /// The call that asks for the subfeature of a given native type.
    pub fn get_subfeature_by_type_call(&self, type_: u32) -> (r: Call)
        ensures
            r == (Call::GetSubfeature { chip: self.chip(), feature: self.raw().addr, type_ }),
    {
        Call::GetSubfeature { chip: self.chip, feature: self.raw.addr, type_ }
    }

    /// The subfeature of a given native type, from what the call gave back:
    /// the pointer to the subfeature record, or the failure to find the
    /// entry point. There is none where the pointer is null. A misaligned
    /// pointer is not to be handed in.
    pub fn get_subfeature_by_type(
        &self,
        reply: Result<Pointer<sensors_subfeature>, libloading::Error>,
    ) -> (r: Result<Option<Subfeature<'lib>>, LibSensorsError>)
        requires
            reply matches Ok(fetched) ==> ptr_to_ref_spec(fetched) is Ok,
        ensures
            match reply {
                Ok(fetched) => r == Ok::<Option<Subfeature<'lib>>, LibSensorsError>(
                    Subfeature::found(self.lib(), self.chip(), fetched),
                ),
                Err(e) => r == Err::<Option<Subfeature<'lib>>, LibSensorsError>(
                    LibSensorsError::Loading(e),
                ),
            },
    {
        match reply {
            Ok(fetched) => {
                match ptr_to_ref(fetched) {
                    Ok(Some(raw)) => Ok(Some(Subfeature::new(raw, self.chip, self.lib))),
                    _ => Ok(None),
                }
            },
            Err(e) => Err(LibSensorsError::Loading(e)),
        }
    }

    /// The call that asks for the subfeature of the feature at a cursor.
    pub fn get_subfeature_call(&self, index: i32) -> (r: Call)
        ensures
            r == (Call::GetAllSubfeatures {
                chip: self.chip(),
                feature: self.raw().addr,
                cursor: index,
            }),
    {
        Call::GetAllSubfeatures { chip: self.chip, feature: self.raw.addr, cursor: index }
    }

    /// The record of the subfeature at a cursor, from what the call gave
    /// back: the pointer to the record, or the failure to find the entry
    /// point. There is none where the pointer is null. A misaligned pointer
    /// is not to be handed in.
    pub fn get_subfeature(
        &self,
        reply: Result<Pointer<sensors_subfeature>, libloading::Error>,
    ) -> (r: Result<Option<Ref<sensors_subfeature>>, LibSensorsError>)
        requires
            reply matches Ok(fetched) ==> ptr_to_ref_spec(fetched) is Ok,
        ensures
            match reply {
                Ok(fetched) => r == Ok::<Option<Ref<sensors_subfeature>>, LibSensorsError>(
                    yielded(fetched),
                ),
                Err(e) => r == Err::<Option<Ref<sensors_subfeature>>, LibSensorsError>(
                    LibSensorsError::Loading(e),
                ),
            },
    {
        match reply {
            Ok(fetched) => {
                match ptr_to_ref(fetched) {
                    Ok(found) => Ok(found),
                    Err(_) => Ok(None),
                }
            },
            Err(e) => Err(LibSensorsError::Loading(e)),
        }
    }

    /// Starts the enumeration of the subfeatures of the feature, given what
    /// became of looking up the entry point for it: the entry point, which
    /// the enumeration keeps for all its steps, or the failure to find it.
    pub fn get_subfeatures<F>(&self, resolved: Result<F, libloading::Error>) -> (r: Result<
        SubfeatureIterator<'lib, F>,
        LibSensorsError,
    >)
        ensures
            match resolved {
                Ok(fun) => r matches Ok(subfeatures) && subfeatures.lib() == self.lib()
                    && subfeatures.fun() == fun && subfeatures.chip() == self.chip()
                    && subfeatures.feature() == self.raw().addr && subfeatures.cursor() == 0,
                Err(e) => r == Err::<SubfeatureIterator<'lib, F>, LibSensorsError>(
                    LibSensorsError::Loading(e),
                ),
            },
    {
        match resolved {
            Ok(fun) => Ok(SubfeatureIterator::new(fun, self.chip, self.raw.addr, self.lib)),
            Err(e) => Err(LibSensorsError::Loading(e)),
        }
    }

    /// The call that asks for the label of the feature. The native library
    /// allocates the label anew at each call.
    pub fn get_label_call(&self) -> (r: Call)
        ensures
            r == (Call::GetLabel { chip: self.chip(), feature: self.raw().addr }),
    {
        Call::GetLabel { chip: self.chip, feature: self.raw.addr }
    }

    /// Takes charge of the buffer that the label call handed out, if the
    /// call could be made at all: otherwise there is nothing to own.
    fn get_label_extremely_raw(
        &self,
        reply: Result<Pointer<Vec<u8>>, libloading::Error>,
    ) -> (r: Result<GLibCBox<Vec<u8>>, LibSensorsError>)
        ensures
            match reply {
                Ok(label) => r matches Ok(owned) && owned.ptr() == label,
                Err(e) => r == Err::<GLibCBox<Vec<u8>>, LibSensorsError>(
                    LibSensorsError::Loading(e),
                ),
            },
    {
        match reply {
            Ok(label) => Ok(GLibCBox::from_raw(label)),
            Err(e) => Err(LibSensorsError::Loading(e)),
        }
    }

    /// The deallocation that is due after a label call: one for the buffer
    /// that it handed out, none where it handed out a null pointer or could
    /// not be made.
    pub open spec fn label_due(reply: Result<Pointer<Vec<u8>>, libloading::Error>) -> Option<
        Call,
    > {
        match reply {
            Ok(label) => GLibCBox::<Vec<u8>>::due(label),
            Err(_) => None,
        }
    }

    /// The label of the feature as bytes, from what the label call gave
    /// back: the pointer to the freshly allocated label with a copy of its
    /// bytes, or the failure to find the entry point or the deallocator.
    ///
    /// Comes with the deallocation that is due now that the bytes are
    /// copied. There is no label where the pointer is null.
    pub fn get_label_raw(&self, reply: Result<Pointer<Vec<u8>>, libloading::Error>) -> (r: (
        Result<Option<Vec<u8>>, LibSensorsError>,
        Option<Call>,
    ))
        ensures
            match reply {
                Ok(label) => r.0 == Ok::<Option<Vec<u8>>, LibSensorsError>(label.target()),
                Err(e) => r.0 == Err::<Option<Vec<u8>>, LibSensorsError>(
                    LibSensorsError::Loading(e),
                ),
            },
            r.1 == Self::label_due(reply),
    {
        match self.get_label_extremely_raw(reply) {
            Ok(owned) => {
                let (label, due) = owned.release();
                (Ok(label), due)
            },
            Err(e) => (Err(e), None),
        }
    }

    /// The label of the feature as text, from what the label call gave
    /// back, with the deallocation that is due.
    ///
    /// A null pointer means that the label is unavailable. A call that
    /// could not be made is an error of the library, and so are bytes that
    /// are no valid UTF-8: the error then wraps what the decoding said.
    /// Valid bytes give the text that they encode.
    pub fn get_label(&self, reply: Result<Pointer<Vec<u8>>, libloading::Error>) -> (r: (
        Result<String, GetLabelError>,
        Option<Call>,
    ))
        ensures
            match reply {
                Ok(label) => match label.target() {
                    Some(bytes) => if valid_utf8(bytes@) {
                        r.0 matches Ok(text) && text@ == decode_utf8(bytes@)
                    } else {
                        r.0 matches Err(GetLabelError::LibSensors(LibSensorsError::Utf8(_)))
                    },
                    None => r.0 == Err::<String, GetLabelError>(GetLabelError::GetLabelFailed),
                },
                Err(e) => r.0 == Err::<String, GetLabelError>(
                    GetLabelError::LibSensors(LibSensorsError::Loading(e)),
                ),
            },
            r.1 == Self::label_due(reply),
    {
        let (raw, due) = self.get_label_raw(reply);
        let label = match raw {
            Ok(Some(bytes)) => {
                match str_from_utf8(bytes.as_slice()) {
                    Ok(text) => Ok(String::from_str(text)),
                    Err(e) => Err(GetLabelError::LibSensors(LibSensorsError::Utf8(e))),
                }
            },
            Ok(None) => Err(GetLabelError::GetLabelFailed),
            Err(e) => Err(GetLabelError::LibSensors(e)),
        };
        (label, due)
    }
}

/// The enumeration of the subfeatures of a feature: a single pass that is
/// driven by the native cursor. It keeps the entry point `F` that fetches
/// a subfeature, so that no step has to look it up again.
#[derive(Debug)]
pub struct SubfeatureIterator<'lib, F> {
    lib: &'lib LibSensors,
    fun: F,
    chip: usize,
    feature: usize,
    index: i32,
}

impl<'lib, F> SubfeatureIterator<'lib, F> {
    /// The handle that the subfeatures are read through.
    pub closed spec fn lib(&self) -> &'lib LibSensors {
        self.lib
    }

    /// The entry point that fetches a subfeature.
    pub closed spec fn fun(&self) -> F {
        self.fun
    }

    /// The address of the record of the chip.
    pub closed spec fn chip(&self) -> usize {
        self.chip
    }

    /// The address of the record of the feature.
    pub closed spec fn feature(&self) -> usize {
        self.feature
    }

    /// The cursor to hand to the next native call.
    pub closed spec fn cursor(&self) -> i32 {
        self.index
    }

    /// An enumeration of the subfeatures of the feature whose record lives
    /// at an address, under the chip at another, through the given entry
    /// point. It starts at cursor 0.
    pub fn new(fun: F, chip: usize, feature: usize, lib: &'lib LibSensors) -> (r: Self)
        ensures
            r.lib() == lib,
            r.fun() == fun,
            r.chip() == chip,
            r.feature() == feature,
            r.cursor() == 0,
    {
        SubfeatureIterator { lib, fun, chip, feature, index: 0 }
    }

    /// The entry point that fetches a subfeature.
    pub fn entry_point(&self) -> (r: &F)
        ensures
            *r == self.fun(),
    {
        &self.fun
    }

    /// All the subfeatures that the enumeration yields when the native
    /// call hands out these pointers in turn: what each step finds, until
    /// one finds nothing.
    pub open spec fn items(
        lib: &'lib LibSensors,
        chip: usize,
        replies: Seq<Pointer<sensors_subfeature>>,
    ) -> Seq<Subfeature<'lib>> {
        enumerated(
            replies,
            |fetched: Pointer<sensors_subfeature>| Subfeature::found(lib, chip, fetched),
        )
    }

    /// Over a feature that holds `n` subfeatures the enumeration yields
    /// exactly `n` items and ends at the first null pointer. The items come
    /// in the order of the records, each the subfeature made of its record.
    pub proof fn lemma_yields_each_subfeature(
        lib: &'lib LibSensors,
        chip: usize,
        replies: Seq<Pointer<sensors_subfeature>>,
        n: nat,
    )
        requires
            walks_records(replies, n),
        ensures
            Self::items(lib, chip, replies).len() == n,
            forall|i: int|
                0 <= i < n ==> {
                    &&& (#[trigger] Self::items(lib, chip, replies)[i]).raw() == reference(
                        replies[i],
                    )
                    &&& Self::items(lib, chip, replies)[i].chip() == chip
                    &&& Self::items(lib, chip, replies)[i].lib() == lib
                },
    {
        let step = |fetched: Pointer<sensors_subfeature>| Subfeature::found(lib, chip, fetched);
        assert forall|i: int| 0 <= i < n implies #[trigger] step(replies[i]) is Some by {
            assert(!replies[i].null() && replies[i].aligned());
        }
        lemma_enumerated_ends_at_first_none(replies, step, n);
        assert forall|i: int| 0 <= i < n implies {
            &&& (#[trigger] Self::items(lib, chip, replies)[i]).raw() == reference(replies[i])
            &&& Self::items(lib, chip, replies)[i].chip() == chip
            &&& Self::items(lib, chip, replies)[i].lib() == lib
        } by {
            assert(!replies[i].null() && replies[i].aligned());
            assert(Self::items(lib, chip, replies)[i] == step(replies[i])->0);
            Subfeature::lemma_spec_new(reference(replies[i]), chip, lib);
        }
    }

    /// The call that fetches the next subfeature.
    pub fn call(&self) -> (r: Call)
        ensures
            r == (Call::GetAllSubfeatures {
                chip: self.chip(),
                feature: self.feature(),
                cursor: self.cursor(),
            }),
    {
        Call::GetAllSubfeatures { chip: self.chip, feature: self.feature, cursor: self.index }
    }

    /// Takes what the call gave back: the cursor as the native library left
    /// it, and the pointer it returned. Yields the next subfeature, or
    /// nothing where the pointer is null: the enumeration is then over. A
    /// misaligned pointer is not to be handed in.
    pub fn next(&mut self, cursor: i32, fetched: Pointer<sensors_subfeature>) -> (r: Option<
        Subfeature<'lib>,
    >)
        requires
            ptr_to_ref_spec(fetched) is Ok,
        ensures
            r == Subfeature::found(old(self).lib(), old(self).chip(), fetched),
            r is None <==> fetched.null(),
            final(self).lib() == old(self).lib(),
            final(self).fun() == old(self).fun(),
            final(self).chip() == old(self).chip(),
            final(self).feature() == old(self).feature(),
            final(self).cursor() == cursor,
    {
        self.index = cursor;
        match ptr_to_ref(fetched) {
            Ok(Some(raw)) => Some(Subfeature::new(raw, self.chip, self.lib)),
            _ => None,
        }
    }
}

} // verus!
