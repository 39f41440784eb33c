//! The error translator: native error codes to a closed enumeration.
//!
//! The native library reports asynchronous errors through an installed
//! callback as an integer code plus a description string.  The code set is
//! fixed and documented by the native library; this module maps each code to
//! a named variant and treats every other code as a decode failure rather
//! than reinterpreting it unchecked.

use vstd::prelude::*;

verus! {

/// Native error code: the library has not been initialized.
pub const GLFW_NOT_INITIALIZED: i32 = 0x0001_0001;

/// Native error code: no context is current on the calling thread.
pub const GLFW_NO_CURRENT_CONTEXT: i32 = 0x0001_0002;

/// Native error code: an enumeration argument was invalid.
pub const GLFW_INVALID_ENUM: i32 = 0x0001_0003;

/// Native error code: a value argument was invalid.
pub const GLFW_INVALID_VALUE: i32 = 0x0001_0004;

/// Native error code: a memory allocation failed.
pub const GLFW_OUT_OF_MEMORY: i32 = 0x0001_0005;

/// Native error code: the requested client API is unavailable.
pub const GLFW_API_UNAVAILABLE: i32 = 0x0001_0006;

/// Native error code: the requested client API version is unavailable.
pub const GLFW_VERSION_UNAVAILABLE: i32 = 0x0001_0007;

/// Native error code: a platform-specific error occurred.
pub const GLFW_PLATFORM_ERROR: i32 = 0x0001_0008;

/// Native error code: the requested format is unavailable.
pub const GLFW_FORMAT_UNAVAILABLE: i32 = 0x0001_0009;

/// The closed enumeration of native error categories.
///
/// Each variant corresponds to exactly one native error code; the
/// correspondence is stated by [`Error::spec_code`] and
/// [`Error::spec_decode`] and proved to be a bijection onto the defined
/// code set by [`lemma_error_code_round_trip`] and
/// [`lemma_error_decode_inverse`].
#[derive(Debug, Clone, Copy, PartialEq, Eq, Hash, Structural)]
pub enum Error {
    NotInitialized,
    NoCurrentContext,
    InvalidEnum,
    InvalidValue,
    OutOfMemory,
    ApiUnavailable,
    VersionUnavailable,
    PlatformError,
    FormatUnavailable,
}

impl Error {
    /// The native code of this error category.
    pub open spec fn spec_code(self) -> i32 {
        match self {
            Error::NotInitialized => GLFW_NOT_INITIALIZED,
            Error::NoCurrentContext => GLFW_NO_CURRENT_CONTEXT,
            Error::InvalidEnum => GLFW_INVALID_ENUM,
            Error::InvalidValue => GLFW_INVALID_VALUE,
            Error::OutOfMemory => GLFW_OUT_OF_MEMORY,
            Error::ApiUnavailable => GLFW_API_UNAVAILABLE,
            Error::VersionUnavailable => GLFW_VERSION_UNAVAILABLE,
            Error::PlatformError => GLFW_PLATFORM_ERROR,
            Error::FormatUnavailable => GLFW_FORMAT_UNAVAILABLE,
        }
    }

    /// The variant a native code decodes to, or `None` for a code outside
    /// the defined set.
    pub open spec fn spec_decode(code: i32) -> Option<Error> {
        if code == GLFW_NOT_INITIALIZED {
            Some(Error::NotInitialized)
        } else if code == GLFW_NO_CURRENT_CONTEXT {
            Some(Error::NoCurrentContext)
        } else if code == GLFW_INVALID_ENUM {
            Some(Error::InvalidEnum)
        } else if code == GLFW_INVALID_VALUE {
            Some(Error::InvalidValue)
        } else if code == GLFW_OUT_OF_MEMORY {
            Some(Error::OutOfMemory)
        } else if code == GLFW_API_UNAVAILABLE {
            Some(Error::ApiUnavailable)
        } else if code == GLFW_VERSION_UNAVAILABLE {
            Some(Error::VersionUnavailable)
        } else if code == GLFW_PLATFORM_ERROR {
            Some(Error::PlatformError)
        } else if code == GLFW_FORMAT_UNAVAILABLE {
            Some(Error::FormatUnavailable)
        } else {
            None
        }
    }

    /// The native code of this error category.
    pub fn code(self) -> (c: i32)
        ensures
            c == self.spec_code(),
    {
        match self {
            Error::NotInitialized => GLFW_NOT_INITIALIZED,
            Error::NoCurrentContext => GLFW_NO_CURRENT_CONTEXT,
            Error::InvalidEnum => GLFW_INVALID_ENUM,
            Error::InvalidValue => GLFW_INVALID_VALUE,
            Error::OutOfMemory => GLFW_OUT_OF_MEMORY,
            Error::ApiUnavailable => GLFW_API_UNAVAILABLE,
            Error::VersionUnavailable => GLFW_VERSION_UNAVAILABLE,
            Error::PlatformError => GLFW_PLATFORM_ERROR,
            Error::FormatUnavailable => GLFW_FORMAT_UNAVAILABLE,
        }
    }

    /// Decode a native code; `None` when the code is outside the defined
    /// set, so that no code is ever reinterpreted unchecked.
    pub fn decode(code: i32) -> (r: Option<Error>)
        ensures
            r == Error::spec_decode(code),
    {
        if code == GLFW_NOT_INITIALIZED {
            Some(Error::NotInitialized)
        } else if code == GLFW_NO_CURRENT_CONTEXT {
            Some(Error::NoCurrentContext)
        } else if code == GLFW_INVALID_ENUM {
            Some(Error::InvalidEnum)
        } else if code == GLFW_INVALID_VALUE {
            Some(Error::InvalidValue)
        } else if code == GLFW_OUT_OF_MEMORY {
            Some(Error::OutOfMemory)
        } else if code == GLFW_API_UNAVAILABLE {
            Some(Error::ApiUnavailable)
        } else if code == GLFW_VERSION_UNAVAILABLE {
            Some(Error::VersionUnavailable)
        } else if code == GLFW_PLATFORM_ERROR {
            Some(Error::PlatformError)
        } else if code == GLFW_FORMAT_UNAVAILABLE {
            Some(Error::FormatUnavailable)
        } else {
            None
        }
    }
}

/// What [`parse_params`] returns: the decoded category together with the
/// owned description, or `None` for a code outside the defined set.
pub open spec fn spec_parse_params(code: i32, description: String) -> Option<(Error, String)> {
    match Error::spec_decode(code) {
        Some(e) => Some((e, description)),
        None => None,
    }
}

/// Translate the pair an error callback receives — a native code and an
/// already owned copy of the description — into a structured error value.
///
/// A code outside the defined set yields `None` (a decode failure), never
/// an unchecked reinterpretation.
pub fn parse_params(code: i32, description: String) -> (r: Option<(Error, String)>)
    ensures
        r == spec_parse_params(code, description),
{
    match Error::decode(code) {
        Some(e) => Some((e, description)),
        None => None,
    }
}

/// Decoding is a left inverse of encoding: every error category comes back
/// out of the translator under its own native code.
pub proof fn lemma_error_code_round_trip(e: Error)
    ensures
        Error::spec_decode(e.spec_code()) == Some(e),
{
}

/// Encoding is a left inverse of decoding: whatever a native code decodes
/// to carries exactly that code, so decoding loses nothing.
pub proof fn lemma_error_decode_inverse(code: i32)
    ensures
        Error::spec_decode(code) matches Some(e) ==> e.spec_code() == code,
{
}

} // verus!
