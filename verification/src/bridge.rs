//! Runtime meaning of the emitted upcall bridges.
//!
//! The emitters in [`crate::win32`] produce bridge bodies as token fragments;
//! the functions here give the two status-code conventions their runtime
//! meaning over plain values, so that the status and ownership rules baked
//! into those bodies can be stated and proved once. A success value is
//! modelled as owning one unit of a counted resource: [`construct`] raises the
//! count of live values, [`finalize`] lowers it, and the value-convention
//! bridge hands its unit to the caller through the output slot without
//! finalizing anything itself — the copy owns the resource from then on.

use vstd::prelude::*;

verus! {

/// A success value produced by a higher-level implementation: a 4-byte handle
/// owning one unit of the counted resource.
pub struct OwnedHandle {
    pub handle: u32,
}

/// Constructs a success value, raising the count of live values by one.
pub fn construct(live: &mut u64, handle: u32) -> (v: OwnedHandle)
    requires
        *old(live) < u64::MAX,
    ensures
        *final(live) == *old(live) + 1,
        v.handle == handle,
{
    *live = *live + 1;
    OwnedHandle { handle }
}

/// Finalizes a value, lowering the count of live values by one.
pub fn finalize(live: &mut u64, v: OwnedHandle)
    requires
        *old(live) >= 1,
    ensures
        *final(live) == *old(live) - 1,
{
    *live = *live - 1;
}

/// Reassembles the owning value that a successful value-convention call left
/// in the output slot. The unit of ownership moves with the bits, so the count
/// of live values is untouched: the caller finalizes the adopted value in
/// place of the one whose finalization the bridge suppressed.
pub fn adopt(handle: u32) -> (v: OwnedHandle)
    ensures
        v.handle == handle,
{
    OwnedHandle { handle }
}

/// The value convention: on success the handle is copied into the output slot,
/// the value's own finalization is suppressed — its unit of ownership belongs
/// to the caller through the slot from here on — and the zero status is
/// returned; on failure the nonzero error code is returned and the slot is not
/// written. The count of live values is passed in only so the contract can say
/// that the bridge itself finalizes nothing: each successful invocation
/// transfers exactly one unit of ownership, and the sole finalization of the
/// produced value is the caller's.
pub fn bridge_value(outcome: Result<OwnedHandle, u32>, slot: &mut u32, live: &mut u64) -> (status:
    u32)
    requires
        outcome matches Err(e) ==> e != 0,
    ensures
        *final(live) == *old(live),
        outcome matches Ok(v) ==> status == 0 && *final(slot) == v.handle,
        outcome matches Err(e) ==> status == e && status != 0 && *final(slot) == *old(slot),
{
    match outcome {
        Ok(v) => {
            *slot = v.handle;
            0
        },
        Err(e) => e,
    }
}

/// The void convention: the outcome becomes the status directly — zero exactly
/// on success, the nonzero error code on failure — and no parameter is
/// written.
pub fn bridge_void(outcome: Result<(), u32>) -> (status: u32)
    requires
        outcome matches Err(e) ==> e != 0,
    ensures
        status == 0 <==> outcome is Ok,
        outcome matches Err(e) ==> status == e,
{
    match outcome {
        Ok(()) => 0,
        Err(e) => e,
    }
}

} // verus!
