use vstd::prelude::*;

use crate::error::CUDA_SUCCESS;
use crate::error::PlatformError;

verus! {

/// Mathematical view of a registered resource: the registration token the
/// runtime handed out, the native pointer of the renderer buffer it covers,
/// and the native pointer of the command-submission context used for
/// renderer-side operations.
pub ghost struct ResourceModel {
    pub handle: u64,
    pub buffer: u64,
    pub context: u64,
}

impl ResourceModel {
    /// The registration token is non-null for as long as the resource is
    /// registered or mapped.
    pub open spec fn valid(self) -> bool {
        self.handle != 0
    }
}

/// View of a mapping that the runtime has accepted but whose device pointer
/// has not been retrieved yet.
pub ghost struct PendingModel {
    pub resource: ResourceModel,
    pub stream: u64,
}

/// View of a live mapping: the parent resource, the stream recorded at map
/// time (the unmap must use the same one), and the compute-visible address
/// and extent, valid only while the mapping is.
pub ghost struct GuardModel {
    pub resource: ResourceModel,
    pub stream: u64,
    pub device_pointer: u64,
    pub byte_size: usize,
}

/// View of a mapping that must be unwound: the map call succeeded but the
/// pointer retrieval did not, so a compensating unmap on the recorded stream
/// is owed before the error surfaces.
pub ghost struct UnwindModel {
    pub resource: ResourceModel,
    pub stream: u64,
    pub error: PlatformError,
}

/// Outcome of construction, decided by the native register call: on success
/// the resource is registered under the returned token; on failure no partial
/// object exists and the raw code is preserved.
pub open spec fn register_model(context: u64, buffer: u64, handle: u64, status: u32) -> Result<
    ResourceModel,
    PlatformError,
> {
    if status == CUDA_SUCCESS {
        Ok(ResourceModel { handle, buffer, context })
    } else {
        Err(PlatformError::RegistrationFailed(status))
    }
}

/// Outcome of the native map call: on success the mapping is pending its
/// device pointer; on failure the resource is returned unchanged, still
/// registered, together with the raw code.
pub open spec fn map_step_model(resource: ResourceModel, stream: u64, status: u32) -> Result<
    PendingModel,
    (ResourceModel, PlatformError),
> {
    if status == CUDA_SUCCESS {
        Ok(PendingModel { resource, stream })
    } else {
        Err((resource, PlatformError::MapFailed(status)))
    }
}

/// Outcome of the native pointer retrieval: on success the mapping is live
/// with exactly the reported address and extent; on failure a compensating
/// unmap is owed on the stream recorded at map time.
pub open spec fn pointer_step_model(
    pending: PendingModel,
    device_pointer: u64,
    byte_size: usize,
    status: u32,
) -> Result<GuardModel, UnwindModel> {
    if status == CUDA_SUCCESS {
        Ok(
            GuardModel {
                resource: pending.resource,
                stream: pending.stream,
                device_pointer,
                byte_size,
            },
        )
    } else {
        Err(
            UnwindModel {
                resource: pending.resource,
                stream: pending.stream,
                error: PlatformError::GetPointerFailed(status),
            },
        )
    }
}

/// Observability record of a native unmap: nothing on success, the raw code
/// otherwise. Cleanup paths have no caller to report to, so this is never
/// propagated as a failure.
pub open spec fn unmap_fault(status: u32) -> Option<PlatformError> {
    if status == CUDA_SUCCESS {
        None
    } else {
        Some(PlatformError::UnmapFailed(status))
    }
}

/// Observability record of a native unregister, analogous to `unmap_fault`.
pub open spec fn unregister_fault(status: u32) -> Option<PlatformError> {
    if status == CUDA_SUCCESS {
        None
    } else {
        Some(PlatformError::UnregisterFailed(status))
    }
}

/// Outcome of releasing a live mapping: the parent resource comes back
/// exactly as it was registered, whatever the unmap reported; the fault, if
/// any, is recorded but not propagated.
pub open spec fn release_model(guard: GuardModel, status: u32) -> (ResourceModel, Option<
    PlatformError,
>) {
    (guard.resource, unmap_fault(status))
}

/// Outcome of the compensating unmap after a failed pointer retrieval: the
/// resource is back in the registered state it had before the map, the caller
/// receives the pointer-retrieval error, and the unmap's own fault is only
/// recorded.
pub open spec fn compensate_model(unwind: UnwindModel, status: u32) -> (
    ResourceModel,
    PlatformError,
    Option<PlatformError>,
) {
    (unwind.resource, unwind.error, unmap_fault(status))
}

/// Outcome of unregistration: the token that was released (always the one
/// registration produced) and the fault record of the native call.
pub open spec fn unregister_model(resource: ResourceModel, status: u32) -> (u64, Option<
    PlatformError,
>) {
    (resource.handle, unregister_fault(status))
}

} // verus!
