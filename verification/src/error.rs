//! The library's error type. Read failures on the input stream and
//! failures writing or flushing the terminal are fatal and carried in this
//! type; the surrounding program maps them to a non-zero exit after
//! restoring the terminal.

use vstd::prelude::*;

verus! {

/// `std::io::Error`, declared so values of it can be carried through the
/// library. The library never inspects one; it only stores and returns it.
#[verifier::external_type_specification]
#[verifier::external_body]
pub struct ExIoError(std::io::Error);

/// A fatal failure of the viewer: bad input, or an I/O failure reading the
/// input stream or writing the terminal.
pub enum AppError {
    InputError(String),
    IOError(std::io::Error),
}

impl From<std::io::Error> for AppError {
    /// Wrap an I/O failure unchanged.
    fn from(err: std::io::Error) -> (r: AppError)
        ensures
            r == AppError::IOError(err),
    {
        AppError::IOError(err)
    }
}

impl vstd::std_specs::convert::FromSpecImpl<std::io::Error> for AppError {
    open spec fn obeys_from_spec() -> bool {
        true
    }

    open spec fn from_spec(err: std::io::Error) -> AppError {
        AppError::IOError(err)
    }
}

} // verus!
