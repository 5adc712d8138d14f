//! The error type of the library.
use core::str::Utf8Error;
use vstd::prelude::*;
use vstd::std_specs::convert::FromSpecImpl;

verus! {

/// `core::str::Utf8Error`, the error of `core::str::from_utf8`. Nothing is
/// claimed of what it holds: it is carried from where an id fails to decode
/// to the caller.
#[verifier::external_type_specification]
#[verifier::external_body]
pub struct ExUtf8Error(core::str::Utf8Error);

/// The error type returned by all fallible functions.
#[derive(Debug)]
pub enum CubismError {
    /// An arena of the requested size and alignment could not be allocated.
    AllocationFailure,
    /// The runtime answered a revive or an initialize call with a null pointer:
    /// it does not accept the compiled data or the memory it was given.
    VendorRejected,
    /// A parameter, part or drawable had an invalid id: its bytes are not UTF-8.
    InvalidId(Utf8Error),
    /// A different error.
    Other(String),
}

impl CubismError {
    /// A short description of the error.
    pub fn description(&self) -> (r: String)
        ensures
            self is AllocationFailure ==> r@ == "Allocation error"@,
            self is VendorRejected ==> r@ == "The runtime returned a null pointer"@,
            self matches CubismError::Other(s) ==> r@ == s@,
    {
        match self {
            CubismError::AllocationFailure => "Allocation error".to_owned(),
            CubismError::VendorRejected => "The runtime returned a null pointer".to_owned(),
            CubismError::InvalidId(err) => err.to_string(),
            CubismError::Other(s) => s.clone(),
        }
    }
}

impl From<Utf8Error> for CubismError {
    fn from(e: Utf8Error) -> (r: CubismError) {
        CubismError::InvalidId(e)
    }
}

impl FromSpecImpl<Utf8Error> for CubismError {
    open spec fn obeys_from_spec() -> bool {
        true
    }

    open spec fn from_spec(e: Utf8Error) -> CubismError {
        CubismError::InvalidId(e)
    }
}

} // verus!
