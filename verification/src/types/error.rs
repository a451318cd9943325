//! The ways in which a wire record can fail to become a typed value.

use vstd::prelude::*;

verus! {

/// Why a wire record was turned down.
#[derive(Clone, Copy, Debug, PartialEq, Eq)]
pub enum Error {
    /// The bytes of an identifier do not make up a valid identifier.
    InvalidIdentifier,
    /// A required field, given by its name, was absent.
    MissingField(&'static str),
}

} // verus!
