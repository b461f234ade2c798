//! The error model: native return codes, loading failures and sentinel
//! values met where a concrete value was required.

use vstd::prelude::*;
use vstd::string::*;
use crate::ffi::Call;
use crate::text::{signed_decimal, write_signed_decimal};
use crate::utils::Pointer;

verus! {

/// A negative return code of a native call.
#[derive(Debug, Clone, Copy, PartialEq, Eq)]
pub struct SensorsError {
    pub code: i32,
}

impl SensorsError {
    /// The native convention for integer results: negative is an error code,
    /// anything else a success value or count.
    pub open spec fn convert_spec(code: i32) -> Result<u32, SensorsError> {
        if code < 0 {
            Err(SensorsError { code })
        } else {
            Ok(code as u32)
        }
    }

    /// Decodes the integer result of a native call.
    pub fn convert_cint(code: i32) -> (r: Result<u32, SensorsError>)
        ensures
            r == Self::convert_spec(code),
            code < 0 <==> r is Err,
            r matches Err(e) ==> e.code == code,
            r matches Ok(n) ==> n == code,
    {
        if code < 0 {
            Err(SensorsError { code })
        } else {
            Ok(code as u32)
        }
    }

    /// The text of the error: a fixed sentence and the code in decimal.
    pub open spec fn message_spec(&self) -> Seq<char> {
        "Unknown error during libsensors call: "@ + signed_decimal(self.code as int)
    }

    /// The text of the error.
    pub fn message(&self) -> (r: String)
        ensures
            r@ == self.message_spec(),
    {
        let code = write_signed_decimal(self.code as i64);
        String::from_str("Unknown error during libsensors call: ").concat(code.as_str())
    }

    /// The call that asks the native library for its own text for the
    /// code.
    pub fn strerror_call(&self) -> (r: Call)
        ensures
            r == (Call::StrError { code: self.code }),
    {
        Call::StrError { code: self.code }
    }

    /// The text that the native library has for the code, from what the
    /// call gave back: the pointer to the text, or the failure to find the
    /// entry point. There is no text where the pointer is null.
    pub fn strerror(&self, reply: Result<Pointer<Vec<u8>>, libloading::Error>) -> (r: Result<
        Option<Vec<u8>>,
        LibSensorsError,
    >)
        ensures
            match reply {
                Ok(text) => r == Ok::<Option<Vec<u8>>, LibSensorsError>(text.target()),
                Err(e) => r == Err::<Option<Vec<u8>>, LibSensorsError>(
                    LibSensorsError::Loading(e),
                ),
            },
    {
        match reply {
            Ok(text) => Ok(text.into_target()),
            Err(e) => Err(LibSensorsError::Loading(e)),
        }
    }
}

/// `std::str::Utf8Error`, what `std::str::from_utf8` says of bytes that
/// are no UTF-8. Opaque here: it is only carried through.
#[verifier::external_type_specification]
#[verifier::external_body]
pub struct ExUtf8Error(std::str::Utf8Error);

/// Any failure of an operation on an initialised library.
#[derive(Debug)]
pub enum LibSensorsError {
    /// A native call returned a negative code.
    Sensors(SensorsError),
    /// The shared library or one of its symbols could not be loaded.
    Loading(libloading::Error),
    /// A native value was a wildcard or an unknown enumeration code where a
    /// concrete value was required. Carries the offending value.
    UnexpectedWildcard(i64),
    /// Bytes that the native library handed out as text are no valid
    /// UTF-8.
    Utf8(std::str::Utf8Error),
}

impl LibSensorsError {
    /// Whether a text is the text of the error: the kind of the error,
    /// around the text of what it carries. What a loading failure or a
    /// decoding failure says of itself is its own matter.
    pub open spec fn is_message(&self, text: Seq<char>) -> bool {
        match *self {
            LibSensorsError::Sensors(e) => text == "Sensors("@ + e.message_spec() + ")"@,
            LibSensorsError::Loading(e) => exists|inner: String|
                #[trigger] to_string_from_display_ensures::<libloading::Error>(&e, inner) && text
                    == "Loading("@ + inner@ + ")"@,
            LibSensorsError::UnexpectedWildcard(value) => text == "Unexpected wildcard value: "@
                + signed_decimal(value as int),
            LibSensorsError::Utf8(e) => exists|inner: String|
                #[trigger] to_string_from_display_ensures::<std::str::Utf8Error>(&e, inner) && text
                    == "Utf8("@ + inner@ + ")"@,
        }
    }

    /// The text of the error.
    pub fn message(&self) -> (r: String)
        ensures
            self.is_message(r@),
    {
        match self {
            LibSensorsError::Sensors(e) => {
                let inner = e.message();
                String::from_str("Sensors(").concat(inner.as_str()).concat(")")
            },
            LibSensorsError::Loading(e) => {
                let inner = e.to_string();
                String::from_str("Loading(").concat(inner.as_str()).concat(")")
            },
            LibSensorsError::UnexpectedWildcard(value) => {
                let inner = write_signed_decimal(*value);
                String::from_str("Unexpected wildcard value: ").concat(inner.as_str())
            },
            LibSensorsError::Utf8(e) => {
                let inner = e.to_string();
                String::from_str("Utf8(").concat(inner.as_str()).concat(")")
            },
        }
    }
}

impl From<SensorsError> for LibSensorsError {
    fn from(value: SensorsError) -> (r: LibSensorsError) {
        LibSensorsError::Sensors(value)
    }
}

impl vstd::std_specs::convert::FromSpecImpl<SensorsError> for LibSensorsError {
    open spec fn obeys_from_spec() -> bool {
        true
    }

    open spec fn from_spec(value: SensorsError) -> LibSensorsError {
        LibSensorsError::Sensors(value)
    }
}

impl From<libloading::Error> for LibSensorsError {
    fn from(value: libloading::Error) -> (r: LibSensorsError) {
        LibSensorsError::Loading(value)
    }
}

impl vstd::std_specs::convert::FromSpecImpl<libloading::Error> for LibSensorsError {
    open spec fn obeys_from_spec() -> bool {
        true
    }

    open spec fn from_spec(value: libloading::Error) -> LibSensorsError {
        LibSensorsError::Loading(value)
    }
}

impl From<std::str::Utf8Error> for LibSensorsError {
    fn from(value: std::str::Utf8Error) -> (r: LibSensorsError) {
        LibSensorsError::Utf8(value)
    }
}

impl vstd::std_specs::convert::FromSpecImpl<std::str::Utf8Error> for LibSensorsError {
    open spec fn obeys_from_spec() -> bool {
        true
    }

    open spec fn from_spec(value: std::str::Utf8Error) -> LibSensorsError {
        LibSensorsError::Utf8(value)
    }
}

} // verus!
