//! The library's error type.
use vstd::prelude::*;

verus! {

/// Every way this library can fail: an error raised by the proving
/// library, an I/O or serialization error met by a caller that persists
/// proofs, or an internal-consistency violation detected by the library
/// itself.
#[derive(Debug)]
pub enum InspectError {
    Halo2Error(halo2_axiom::plonk::Error),
    StdError(std::io::Error),
    SerdeJsonError(serde_json::Error),
    InternalError(&'static str),
}

impl From<halo2_axiom::plonk::Error> for InspectError {
    fn from(err: halo2_axiom::plonk::Error) -> (r: Self) {
        InspectError::Halo2Error(err)
    }
}

impl vstd::std_specs::convert::FromSpecImpl<halo2_axiom::plonk::Error> for InspectError {
    open spec fn obeys_from_spec() -> bool {
        true
    }

    open spec fn from_spec(err: halo2_axiom::plonk::Error) -> InspectError {
        InspectError::Halo2Error(err)
    }
}

impl From<std::io::Error> for InspectError {
    fn from(err: std::io::Error) -> (r: Self) {
        InspectError::StdError(err)
    }
}

impl vstd::std_specs::convert::FromSpecImpl<std::io::Error> for InspectError {
    open spec fn obeys_from_spec() -> bool {
        true
    }

    open spec fn from_spec(err: std::io::Error) -> InspectError {
        InspectError::StdError(err)
    }
}

impl From<serde_json::Error> for InspectError {
    fn from(err: serde_json::Error) -> (r: Self) {
        InspectError::SerdeJsonError(err)
    }
}

impl vstd::std_specs::convert::FromSpecImpl<serde_json::Error> for InspectError {
    open spec fn obeys_from_spec() -> bool {
        true
    }

    open spec fn from_spec(err: serde_json::Error) -> InspectError {
        InspectError::SerdeJsonError(err)
    }
}

} // verus!
