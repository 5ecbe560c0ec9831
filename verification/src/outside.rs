use vstd::prelude::*;
use rusqlite::Error as SqliteError;

verus! {

/// rusqlite's error type, carried through the library as an opaque value.
#[verifier::external_type_specification]
#[verifier::external_body]
pub struct ExRusqliteError(SqliteError);

} // verus!
