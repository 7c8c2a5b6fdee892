//! What the store manager reports when the engine fails.

use vstd::prelude::*;

verus! {

/// A failure of a store operation. The first three carry the engine's own
/// error as the cause.
#[derive(Debug)]
pub enum StoreError {
    /// The store could not be established at the path.
    StoreOpen(sled::Error),
    /// A named collection could not be opened or created; the store itself
    /// stays usable.
    CollectionOpen(sled::Error),
    /// A flush or a size query failed after the store was open.
    StoreIo(sled::Error),
    /// A collection's name is not well-formed UTF-8, so it cannot be shown
    /// as text. Carries the name's bytes.
    NameDecode(Vec<u8>),
}

/// What became of a request to drop a collection.
#[derive(Debug)]
pub enum DropOutcome {
    /// The collection existed and is gone.
    Removed,
    /// There was no collection of that name.
    NotFound,
    /// The engine refused or failed; carries its error.
    Failed(sled::Error),
}

impl DropOutcome {
    /// The boolean view: `true` only for `Removed`.
    pub open spec fn spec_removed(&self) -> bool {
        self is Removed
    }

    #[verifier::when_used_as_spec(spec_removed)]
    pub fn removed(&self) -> (yes: bool)
        ensures
            yes == (self is Removed),
    {
        match self {
            DropOutcome::Removed => true,
            _ => false,
        }
    }
}

/// Sorts what the engine answered to a drop request: `Ok(true)` is a
/// removal, `Ok(false)` a name it did not hold, an error a failure.
pub fn drop_outcome(raw: Result<bool, sled::Error>) -> (outcome: DropOutcome)
    ensures
        outcome == match raw {
            Ok(true) => DropOutcome::Removed,
            Ok(false) => DropOutcome::NotFound,
            Err(cause) => DropOutcome::Failed(cause),
        },
{
    match raw {
        Ok(true) => DropOutcome::Removed,
        Ok(false) => DropOutcome::NotFound,
        Err(cause) => DropOutcome::Failed(cause),
    }
}

/// Passes on the value of a flush or a size query, and files the engine's
/// error under `StoreIo`.
pub fn io_outcome<T>(raw: Result<T, sled::Error>) -> (result: Result<T, StoreError>)
    ensures
        result == match raw {
            Ok(value) => Ok::<T, StoreError>(value),
            Err(cause) => Err(StoreError::StoreIo(cause)),
        },
{
    match raw {
        Ok(value) => Ok(value),
        Err(cause) => Err(StoreError::StoreIo(cause)),
    }
}

} // verus!
