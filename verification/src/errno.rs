//! The operating system's error codes.

use vstd::prelude::*;

verus! {

/// `nix::errno::Errno`, the error code that a failed device-control call
/// reports. Nothing is claimed of its values: the library hands each one on
/// as it came.
#[verifier::external_type_specification]
#[verifier::external_body]
pub struct ExErrno(nix::errno::Errno);

} // verus!
