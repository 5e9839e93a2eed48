//! Failure states of the record store.

use vstd::prelude::*;
use vstd::std_specs::convert::FromSpecImpl;

verus! {

/// Opaque declaration of `std::io::Error`: a value of it is carried through,
/// and nothing is claimed of what it holds.
#[verifier::external_type_specification]
#[verifier::external_body]
pub struct ExIoError(std::io::Error);

/// Every way in which an operation on a [`crate::Database`] can fail.
#[derive(Debug)]
pub enum DatabaseError {
    /// The record addressed by a removal, an update or a query is not stored.
    ItemNotFound,
    /// A record equal to the one being stored is already present, and the
    /// database rejects duplicates.
    DupeFound,
    /// No location to persist to could be resolved.
    SavePathRequired,
    /// A failure of the file system or of decoding, with its cause.
    IOError(std::io::Error),
    /// Nothing exists at the location a database was to be loaded from.
    DatabaseNotFound,
    /// A database name from which no file stem can be taken.
    BadDbName,
}

impl From<std::io::Error> for DatabaseError {
    fn from(e: std::io::Error) -> (res: Self) {
        DatabaseError::IOError(e)
    }
}

impl FromSpecImpl<std::io::Error> for DatabaseError {
    open spec fn obeys_from_spec() -> bool {
        true
    }

    open spec fn from_spec(e: std::io::Error) -> Self {
        DatabaseError::IOError(e)
    }
}

/// Carries a success through unchanged and files an I/O failure under
/// [`DatabaseError::IOError`], keeping its cause.
pub fn io_to_dberror<T>(io_res: Result<T, std::io::Error>) -> (res: Result<T, DatabaseError>)
    ensures
        res == match io_res {
            Ok(x) => Ok::<T, DatabaseError>(x),
            Err(e) => Err::<T, DatabaseError>(DatabaseError::IOError(e)),
        },
{
    match io_res {
        Ok(x) => Ok(x),
        Err(e) => Err(DatabaseError::IOError(e)),
    }
}

} // verus!
