//! Clearing the output directory before a build.

use vstd::prelude::*;

verus! {

/// `std::io::Error`, held as it is.
#[verifier::external_type_specification]
#[verifier::external_body]
pub struct ExIoError(std::io::Error);

/// Whether the kind of an I/O error is `NotFound`: what was asked for is not
/// there.
pub uninterp spec fn is_not_found(e: std::io::Error) -> bool;

/// `std::io::Error::kind`, compared with `std::io::ErrorKind::NotFound`:
/// whether the error's kind is that one.
#[verifier::external_body]
pub(crate) fn reports_not_found(e: &std::io::Error) -> (b: bool)
    ensures
        b == is_not_found(*e),
{
    e.kind() == std::io::ErrorKind::NotFound
}

/// Lets the removal of a directory that is not there count as done: a
/// not-found error becomes success, and every other error is handed back as
/// it is.
pub fn ignore_not_found(e: std::io::Error) -> (r: Result<(), std::io::Error>)
    ensures
        is_not_found(e) ==> r is Ok,
        !is_not_found(e) ==> r == Err::<(), std::io::Error>(e),
{
    if reports_not_found(&e) {
        Ok(())
    } else {
        Err(e)
    }
}

} // verus!
