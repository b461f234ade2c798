//! Verified decision core of a binding to the libsensors hardware-monitoring
//! library.
//!
//! The native library is loaded at run time and can only be reached through
//! foreign calls, which this crate never makes. It holds everything around
//! them: the lifecycle of the one library handle a process may own, the
//! plain-value images of the native records, the decoding of sentinel values
//! and return codes, and the enumeration protocol for chips, features and
//! subfeatures. Each operation comes as a pair: a function that says which
//! native entry point to call and with what ([`ffi::Call`]), and a function
//! that takes what the call gave back and decides the result.

use vstd::prelude::*;
use vstd::string::*;
use crate::chips::{BusId, Chip};
use crate::error::{LibSensorsError, SensorsError};
use crate::ffi::{sensors_chip_name, Call};
use crate::utils::{
    enumerated, inverted, invert_res_opt, lemma_enumerated_ends_at_first_none, ptr_to_ref,
    ptr_to_ref_spec, reference, walks_records, yielded, Pointer,
};

pub mod chips;
pub mod error;
pub mod feature;
pub mod ffi;
pub mod subfeature;
pub mod text;
pub mod utils;

verus! {

/// Why no handle to the native library could be had.
#[derive(Debug)]
pub enum LoadingError {
    /// Loading or initialising the native library failed.
    Init(LibSensorsError),
    /// Another handle is live.
    AlreadyInitialised,
}

impl From<LibSensorsError> for LoadingError {
    fn from(value: LibSensorsError) -> (r: LoadingError) {
        LoadingError::Init(value)
    }
}

impl vstd::std_specs::convert::FromSpecImpl<LibSensorsError> for LoadingError {
    open spec fn obeys_from_spec() -> bool {
        true
    }

    open spec fn from_spec(value: LibSensorsError) -> LoadingError {
        LoadingError::Init(value)
    }
}

impl LoadingError {
    /// Whether a text is the text of the error: that of the failure
    /// inside, or a fixed sentence.
    pub open spec fn is_message(&self, text: Seq<char>) -> bool {
        match *self {
            LoadingError::Init(e) => e.is_message(text),
            LoadingError::AlreadyInitialised => text == "Already initialised"@,
        }
    }

    /// The text of the error.
    pub fn message(&self) -> (r: String)
        ensures
            self.is_message(r@),
    {
        match self {
            LoadingError::Init(e) => e.message(),
            LoadingError::AlreadyInitialised => String::from_str("Already initialised"),
        }
    }
}

/// The one slot for a live handle that a process has. It is either
/// available or taken.
#[derive(Debug)]
pub struct LibrarySingleton {
    available: bool,
}

/// The right to initialise the native library, had by claiming the slot and
/// used up by [`LibSensors::init`].
#[derive(Debug)]
pub struct InitClaim {
    granted: (),
}

impl LibrarySingleton {
    /// Whether the slot is available.
    pub closed spec fn available(&self) -> bool {
        self.available
    }

    /// Whether a claim on a slot is granted: only an available slot can be
    /// claimed.
    pub open spec fn claim_granted(available: bool) -> bool {
        available
    }

    /// The slot after a claim, granted or not: taken.
    pub open spec fn after_claim(available: bool) -> bool {
        false
    }

    /// The slot after an initialisation that held a claim, given the code
    /// that the native initialisation returned, if it ran. The slot stays
    /// as it is only where a handle comes of the initialisation: with a
    /// code that is not negative. Every failure gives the slot back, be it
    /// a native library that refused to initialise or one that could not
    /// be loaded at all.
    pub open spec fn after_init(available: bool, code: Option<i32>) -> bool {
        match code {
            Some(code) => if code < 0 {
                true
            } else {
                available
            },
            None => true,
        }
    }

    /// The slot after a handle was closed: available.
    pub open spec fn after_close(available: bool) -> bool {
        true
    }

    /// The slot after one cycle: a claim, an initialisation in which the
    /// native library returned the given code, and the close of the handle
    /// that came of it.
    pub open spec fn after_cycle(available: bool, code: i32) -> bool {
        Self::after_close(Self::after_init(Self::after_claim(available), Some(code)))
    }

    /// The slot after a run of such cycles, one for each code, in order.
    pub open spec fn after_cycles(available: bool, codes: Seq<i32>) -> bool
        decreases codes.len(),
    {
        if codes.len() == 0 {
            available
        } else {
            Self::after_cycles(Self::after_cycle(available, codes[0]), codes.drop_first())
        }
    }

    /// The slot of a process that holds no handle yet.
    pub fn new() -> (r: Self)
        ensures
            r.available(),
    {
        LibrarySingleton { available: true }
    }

    /// Whether the slot is available.
    pub fn is_available(&self) -> (r: bool)
        ensures
            r == self.available(),
    {
        self.available
    }

    /// Claims the slot for a new handle. An available slot becomes taken and
    /// grants the claim; a taken slot stays as it is and answers that a
    /// handle is live already.
    pub fn claim(&mut self) -> (r: Result<InitClaim, LoadingError>)
        ensures
            r is Ok <==> Self::claim_granted(old(self).available()),
            r is Err ==> r == Err::<InitClaim, LoadingError>(LoadingError::AlreadyInitialised),
            final(self).available() == Self::after_claim(old(self).available()),
    {
        if self.available {
            self.available = false;
            Ok(InitClaim { granted: () })
        } else {
            Err(LoadingError::AlreadyInitialised)
        }
    }
}

/// A handle to the initialised native library. It owns the loaded shared
/// library; everything that is read through it borrows from it and so
/// cannot outlive it.
#[derive(Debug)]
pub struct LibSensors {
    inner: libloading::Library,
}

impl LibSensors {
    /// The loaded shared library that the handle owns.
    pub closed spec fn inner(&self) -> libloading::Library {
        self.inner
    }

    /// The code that the native initialisation returned, if the shared
    /// library was loaded and the initialisation ran.
    pub open spec fn init_code(loaded: Result<(libloading::Library, i32), libloading::Error>)
        -> Option<i32> {
        match loaded {
            Ok((_, code)) => Some(code),
            Err(_) => None,
        }
    }

    /// The call that initialises the native library, to be made once the
    /// shared library is loaded.
    pub fn init_call() -> (r: Call)
        ensures
            r == Call::Init,
    {
        Call::Init
    }

    /// Finishes the initialisation that a claim on the slot began. The slot
    /// is the one that granted the claim, and so is taken.
    ///
    /// `loaded` is what became of loading the shared library and calling its
    /// initialisation: the library with the code that the call returned, or
    /// the failure to load the library or to find the entry point. A handle
    /// comes of a code that is not negative, and the slot stays taken. A
    /// negative code is a native error and a failure to load is a loading
    /// error; after either the slot is available again, so that no failed
    /// attempt uses the slot up.
    pub fn init(
        slot: &mut LibrarySingleton,
        claim: InitClaim,
        loaded: Result<(libloading::Library, i32), libloading::Error>,
    ) -> (r: Result<LibSensors, LoadingError>)
        requires
            !old(slot).available(),
        ensures
            match loaded {
                Ok((library, code)) => if code < 0 {
                    r == Err::<LibSensors, LoadingError>(
                        LoadingError::Init(LibSensorsError::Sensors(SensorsError { code })),
                    )
                } else {
                    r matches Ok(handle) && handle.inner() == library
                },
                Err(e) => r == Err::<LibSensors, LoadingError>(
                    LoadingError::Init(LibSensorsError::Loading(e)),
                ),
            },
            final(slot).available() == LibrarySingleton::after_init(
                old(slot).available(),
                Self::init_code(loaded),
            ),
            final(slot).available() <==> r is Err,
    {
        match loaded {
            Ok((inner, code)) => {
                match SensorsError::convert_cint(code) {
                    Ok(_) => Ok(LibSensors { inner }),
                    Err(e) => {
                        slot.available = true;
                        Err(LoadingError::Init(LibSensorsError::Sensors(e)))
                    },
                }
            },
            Err(e) => {
                slot.available = true;
                Err(LoadingError::Init(LibSensorsError::Loading(e)))
            },
        }
    }

    /// The loaded shared library, for looking up the entry points.
    pub fn library(&self) -> (r: &libloading::Library)
        ensures
            *r == self.inner(),
    {
        &self.inner
    }

    /// The call that releases what the native library holds, to be made
    /// before the handle is closed.
    pub fn close_call(&self) -> (r: Call)
        ensures
            r == Call::Cleanup,
    {
        Call::Cleanup
    }

    /// Closes the handle and makes the slot available again.
    ///
    /// `cleanup` tells whether the native cleanup entry point was found (and
    /// so called). Closing goes through either way and hands the outcome
    /// back unchanged; the shared library is unloaded with the handle.
    pub fn close(self, slot: &mut LibrarySingleton, cleanup: Result<(), libloading::Error>) -> (r:
        Result<(), libloading::Error>)
        ensures
            r == cleanup,
            final(slot).available() == LibrarySingleton::after_close(old(slot).available()),
    {
        slot.available = true;
        cleanup
    }

    /// The call that asks for the detected chip at a cursor.
    pub fn get_chip_call(&self, index: i32) -> (r: Call)
        ensures
            r == (Call::GetDetectedChips { cursor: index }),
    {
        Call::GetDetectedChips { cursor: index }
    }

    /// The detected chip at a cursor, from what the call gave back: the
    /// pointer to the chip record, or the failure to find the entry point.
    /// There is no chip where the pointer is null. A misaligned pointer is
    /// not to be handed in: it means that native memory is corrupt; nor is
    /// a record without a prefix.
    pub fn get_chip<'lib>(
        &'lib self,
        reply: Result<Pointer<sensors_chip_name>, libloading::Error>,
    ) -> (r: Result<Option<Chip<'lib>>, LibSensorsError>)
        requires
            reply matches Ok(fetched) ==> ptr_to_ref_spec(fetched) is Ok && (yielded(
                fetched,
            ) matches Some(raw) ==> Chip::has_prefix(raw)),
        ensures
            match reply {
                Ok(fetched) => r == inverted(Chip::found(self, fetched)),
                Err(e) => r == Err::<Option<Chip<'lib>>, LibSensorsError>(
                    LibSensorsError::Loading(e),
                ),
            },
    {
        match reply {
            Ok(fetched) => {
                let found = match ptr_to_ref(fetched) {
                    Ok(Some(raw)) => Some(Chip::new(self, raw)),
                    _ => None,
                };
                invert_res_opt(found)
            },
            Err(e) => Err(LibSensorsError::Loading(e)),
        }
    }

    /// Starts the enumeration of the detected chips, given what became of
    /// looking up the entry point for it: the entry point, which the
    /// enumeration keeps for all its steps, or the failure to find it.
    pub fn get_chips<'lib, F>(&'lib self, resolved: Result<F, libloading::Error>) -> (r: Result<
        ChipIterator<'lib, F>,
        LibSensorsError,
    >)
        ensures
            match resolved {
                Ok(fun) => r matches Ok(chips) && chips.lib() == self && chips.fun() == fun
                    && chips.cursor() == 0,
                Err(e) => r == Err::<ChipIterator<'lib, F>, LibSensorsError>(
                    LibSensorsError::Loading(e),
                ),
            },
    {
        match resolved {
            Ok(fun) => Ok(ChipIterator::new(self, fun)),
            Err(e) => Err(LibSensorsError::Loading(e)),
        }
    }

    /// A second handle can be had after the first was closed, and not
    /// before.
    ///
    /// Start with an available slot and run any number of cycles in which
    /// the native library accepts the initialisation (a code that is not
    /// negative) and the handle is closed. After them the slot grants a
    /// claim. While the handle that comes of it is live, no further claim
    /// is granted, however often it is tried; once that handle is closed,
    /// a claim is granted again.
    pub proof fn lemma_init_after_close(codes: Seq<i32>, code: i32)
        requires
            forall|i: int| 0 <= i < codes.len() ==> codes[i] >= 0,
            code >= 0,
        ensures
            ({
                let now = LibrarySingleton::after_cycles(true, codes);
                let live = LibrarySingleton::after_init(
                    LibrarySingleton::after_claim(now),
                    Some(code),
                );
                &&& LibrarySingleton::claim_granted(now)
                &&& !LibrarySingleton::claim_granted(live)
                &&& !LibrarySingleton::claim_granted(LibrarySingleton::after_claim(live))
                &&& LibrarySingleton::claim_granted(LibrarySingleton::after_close(live))
            }),
        decreases codes.len(),
    {
        if codes.len() > 0 {
            let rest = codes.drop_first();
            assert forall|i: int| 0 <= i < rest.len() implies rest[i] >= 0 by {
                assert(rest[i] == codes[i + 1]);
            }
            Self::lemma_init_after_close(rest, code);
        }
    }

    /// No failed initialisation uses the slot up: after a claim on an
    /// available slot and an initialisation that fails, because the shared
    /// library or its entry point could not be loaded or because the native
    /// library returned a negative code, the slot grants a claim again.
    pub proof fn lemma_failed_init_frees_slot(code: Option<i32>)
        requires
            code matches Some(c) ==> c < 0,
        ensures
            LibrarySingleton::claim_granted(
                LibrarySingleton::after_init(LibrarySingleton::after_claim(true), code),
            ),
    {
    }
}

/// The enumeration of the detected chips: a single pass that is driven by
/// the native cursor. It keeps the entry point `F` that fetches a chip, so
/// that no step has to look it up again.
#[derive(Debug)]
pub struct ChipIterator<'lib, F> {
    lib: &'lib LibSensors,
    fun: F,
    index: i32,
}

impl<'lib, F> ChipIterator<'lib, F> {
    /// The handle that the chips are read through.
    pub closed spec fn lib(&self) -> &'lib LibSensors {
        self.lib
    }

    /// The entry point that fetches a chip.
    pub closed spec fn fun(&self) -> F {
        self.fun
    }

    /// The cursor to hand to the next native call.
    pub closed spec fn cursor(&self) -> i32 {
        self.index
    }

    fn new(lib: &'lib LibSensors, fun: F) -> (r: Self)
        ensures
            r.lib() == lib,
            r.fun() == fun,
            r.cursor() == 0,
    {
        ChipIterator { lib, fun, index: 0 }
    }

    /// The entry point that fetches a chip.
    pub fn entry_point(&self) -> (r: &F)
        ensures
            *r == self.fun(),
    {
        &self.fun
    }

    /// All the chips that the enumeration yields when the native call
    /// hands out these pointers in turn: what each step finds, until one
    /// finds nothing.
    pub open spec fn items(lib: &'lib LibSensors, replies: Seq<Pointer<sensors_chip_name>>) -> Seq<
        Result<Chip<'lib>, LibSensorsError>,
    > {
        enumerated(replies, |fetched: Pointer<sensors_chip_name>| Chip::found(lib, fetched))
    }

    /// Over a native library that detected `n` chips the enumeration
    /// yields exactly `n` items and ends at the first null pointer. The
    /// items come in the order of the records: for a record whose bus id
    /// decodes, the chip made of it; for any other, the error of the
    /// decoding.
    pub proof fn lemma_yields_each_chip(
        lib: &'lib LibSensors,
        replies: Seq<Pointer<sensors_chip_name>>,
        n: nat,
    )
        requires
            walks_records(replies, n),
            forall|i: int| 0 <= i < n ==> Chip::has_prefix(reference(#[trigger] replies[i])),
        ensures
            Self::items(lib, replies).len() == n,
            forall|i: int|
                0 <= i < n ==> match BusId::decode(reference(replies[i]).value.bus) {
                    Ok(_) => (#[trigger] Self::items(lib, replies)[i]) matches Ok(chip)
                        && chip.made_of(lib, reference(replies[i])),
                    Err(e) => Self::items(lib, replies)[i] == Err::<Chip<'lib>, LibSensorsError>(
                        e,
                    ),
                },
    {
        let step = |fetched: Pointer<sensors_chip_name>| Chip::found(lib, fetched);
        assert forall|i: int| 0 <= i < n implies #[trigger] step(replies[i]) is Some by {
            assert(!replies[i].null() && replies[i].aligned());
        }
        lemma_enumerated_ends_at_first_none(replies, step, n);
        assert forall|i: int| 0 <= i < n implies match BusId::decode(
            reference(replies[i]).value.bus,
        ) {
            Ok(_) => (#[trigger] Self::items(lib, replies)[i]) matches Ok(chip) && chip.made_of(
                lib,
                reference(replies[i]),
            ),
            Err(e) => Self::items(lib, replies)[i] == Err::<Chip<'lib>, LibSensorsError>(e),
        } by {
            assert(!replies[i].null() && replies[i].aligned());
            assert(Self::items(lib, replies)[i] == step(replies[i])->0);
            Chip::lemma_spec_new(lib, reference(replies[i]));
        }
    }

    /// The call that fetches the next chip.
    pub fn call(&self) -> (r: Call)
        ensures
            r == (Call::GetDetectedChips { cursor: self.cursor() }),
    {
        Call::GetDetectedChips { cursor: self.index }
    }

    /// Takes what the call gave back: the cursor as the native library left
    /// it, and the pointer it returned. Yields the next chip, or nothing
    /// where the pointer is null: the enumeration is then over. A
    /// misaligned pointer is not to be handed in, nor a record without a
    /// prefix.
    pub fn next(&mut self, cursor: i32, fetched: Pointer<sensors_chip_name>) -> (r: Option<
        Result<Chip<'lib>, LibSensorsError>,
    >)
        requires
            ptr_to_ref_spec(fetched) is Ok,
            yielded(fetched) matches Some(raw) ==> Chip::has_prefix(raw),
        ensures
            r == Chip::found(old(self).lib(), fetched),
            r is None <==> fetched.null(),
            final(self).lib() == old(self).lib(),
            final(self).fun() == old(self).fun(),
            final(self).cursor() == cursor,
    {
        self.index = cursor;
        match ptr_to_ref(fetched) {
            Ok(Some(raw)) => Some(Chip::new(self.lib, raw)),
            _ => None,
        }
    }
}

} // verus!
