//! The Kubernetes `Secret` backend's decisions: what a stored credential
//! Secret holds, and when a delete counts as done.
use vstd::prelude::*;
use crate::ports::SecretStoreError;

verus! {

/// Outcome of deleting a credential Secret: deleted, or already gone (the
/// API answered 404), is success; any other failure is a `Delete` error
/// carrying the failure's text.
pub fn delete_outcome(status: Option<u16>, rendered: String) -> (r: Result<(), SecretStoreError>)
    ensures
        status == Some(404u16) ==> r is Ok,
        status != Some(404u16) ==> r == Err::<(), SecretStoreError>(SecretStoreError::Delete(rendered)),
{
    match status {
        Some(code) => if code == 404 {
            Ok(())
        } else {
            Err(SecretStoreError::Delete(rendered))
        },
        None => Err(SecretStoreError::Delete(rendered)),
    }
}

} // verus!
