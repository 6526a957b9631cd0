//! Decisions taken at the storage-engine boundary.
//!
//! The engine hands back raw values — an optional row, an affected-row
//! count — and the functions here turn them into the domain results the
//! contracts promise. The front end's encryption key is also derived here,
//! from ambient machine identity; it is deliberately weak and deterministic,
//! documentation-grade secrecy only, not a real security boundary.

use vstd::prelude::*;
use vstd::string::StringExecFns;

use crate::error::Error;

verus! {

/// Interprets the result row of a checked-state query: a row read means that
/// state, no row means the item is gone — the distinguished missing-item
/// condition, never a default.
pub fn checked_state_from_row(row: Option<bool>) -> (r: Result<bool, Error>)
    ensures
        row is Some ==> r == Ok::<bool, Error>(row->0),
        row is None ==> r == Err::<bool, Error>(Error::MissingItem),
{
    match row {
        Option::Some(checked) => Ok(checked),
        Option::None => Err(Error::MissingItem),
    }
}

/// Interprets the affected-row count of a checked-state update: zero rows
/// means the item is gone and the write must fail as missing, not silently
/// succeed; any touched row is success.
pub fn update_result(rows_affected: u64) -> (r: Result<(), Error>)
    ensures
        rows_affected == 0 ==> r == Err::<(), Error>(Error::MissingItem),
        rows_affected > 0 ==> r == Ok::<(), Error>(()),
{
    if rows_affected == 0 {
        Err(Error::MissingItem)
    } else {
        Ok(())
    }
}

/// Derives the database encryption key from machine identity: device name,
/// architecture and username joined with dashes. Deterministic on one
/// machine and per user, so the same file opens across runs; weakly secret
/// by construction and documented as such.
pub fn derive_key(device: &str, arch: &str, username: &str) -> (k: String)
    ensures
        k@ == device@ + "-"@ + arch@ + "-"@ + username@,
{
    let mut k = device.to_owned();
    k.append("-");
    k.append(arch);
    k.append("-");
    k.append(username);
    k
}

} // verus!
