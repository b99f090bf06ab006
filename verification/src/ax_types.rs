//! Declarations of the outside ArceOS types that appear in this crate's
//! signatures: the error type of `axerrno` and the device classification tag
//! of `axvmconfig`.

use vstd::prelude::*;

verus! {

/// Relies on `axerrno::AxError`: the opaque error value that device
/// operations return through `axerrno::AxResult`. This crate never constructs
/// or reads one; the declaration only lets the type stand in signatures.
#[verifier::external_type_specification]
#[verifier::external_body]
pub struct ExAxError(axerrno::AxError);

/// Relies on `axvmconfig::EmulatedDeviceType`: the opaque classification tag
/// a device reports through [`crate::BaseDeviceOps::emu_type`]. This crate
/// never constructs or reads one; the declaration only lets the type stand in
/// signatures.
#[verifier::external_type_specification]
#[verifier::external_body]
pub struct ExEmulatedDeviceType(axvmconfig::EmulatedDeviceType);

} // verus!
