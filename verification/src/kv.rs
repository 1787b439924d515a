//! Types of the generic key-value store interface.
//!
//! The key-value store itself is an external collaborator: it reads and
//! writes records at byte offsets inside a segment.  The segment core only
//! supplies the raw byte region; these are the error taxonomy and the
//! addressing type that interface is stated over.

use vstd::prelude::*;

verus! {

/// Errors that can occur during store operations.
#[derive(Debug)]
pub enum Error {
    /// Key not found in the store.
    KeyNotFound,
    /// I/O error occurred during store operation.
    Io { source: std::io::Error },
    /// Store is in an invalid state or corrupted.
    Corrupted { message: String },
    /// Operation not supported by this store implementation.
    Unsupported { operation: String },
}

impl Error {
    /// A short description of the error, for diagnostics.
    pub fn message(&self) -> (r: String)
        ensures
            self matches Error::KeyNotFound ==> r@ == "Key not found"@,
            self matches Error::Corrupted { message } ==> r@ == message@,
            self matches Error::Unsupported { operation } ==> r@ == operation@,
    {
        match self {
            Error::KeyNotFound => "Key not found".to_owned(),
            Error::Io { source } => crate::mapping::io_error_text(source),
            Error::Corrupted { message } => message.clone(),
            Error::Unsupported { operation } => operation.clone(),
        }
    }
}

/// The location tells how to find the data in the store: an opaque 64-bit
/// offset or identifier inside a segment's byte region.
#[derive(Debug, Clone, Copy)]
pub struct Location(u64);

impl Location {
    /// The raw offset/identifier this location carries.
    pub closed spec fn spec_value(self) -> u64 {
        self.0
    }

    /// Wrap a raw offset/identifier.
    pub fn new(v: u64) -> (r: Location)
        ensures
            r.spec_value() == v,
    {
        Location(v)
    }

    /// Read the raw offset/identifier back.
    pub fn value(&self) -> (r: u64)
        ensures
            r == self.spec_value(),
    {
        self.0
    }
}

} // verus!
