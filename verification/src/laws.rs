use vstd::prelude::*;

use crate::error::CUDA_SUCCESS;
use crate::error::PlatformError;
use crate::model::GuardModel;
use crate::model::ResourceModel;
use crate::model::compensate_model;
use crate::model::map_step_model;
use crate::model::pointer_step_model;
use crate::model::register_model;
use crate::model::release_model;
use crate::model::unregister_model;

verus! {

/// Law: a successful registration is undone by exactly the matching
/// unregistration — unregistering releases the very token registration
/// produced, and a fault is recorded precisely when the native call failed.
/// (That unregistration runs exactly once, and never while a mapping guard
/// is alive, is enforced by ownership: `unregister` consumes the resource.)
pub proof fn lemma_unregister_matches_registration(
    context: u64,
    buffer: u64,
    handle: u64,
    unregister_status: u32,
)
    ensures
        register_model(context, buffer, handle, CUDA_SUCCESS) is Ok,
        register_model(context, buffer, handle, CUDA_SUCCESS)->Ok_0.handle == handle,
        unregister_model(register_model(context, buffer, handle, CUDA_SUCCESS)->Ok_0, unregister_status).0
            == handle,
        unregister_status == CUDA_SUCCESS <==> unregister_model(
            register_model(context, buffer, handle, CUDA_SUCCESS)->Ok_0,
            unregister_status,
        ).1 is None,
{
}

/// Law: a failed map yields no pending mapping; the resource is left
/// registered and unchanged, and the error carries the original native code.
pub proof fn lemma_map_failure_leaves_registered(
    resource: ResourceModel,
    stream: u64,
    map_status: u32,
)
    requires
        map_status != CUDA_SUCCESS,
    ensures
        map_step_model(resource, stream, map_status) is Err,
        map_step_model(resource, stream, map_status)->Err_0.0 == resource,
        map_step_model(resource, stream, map_status)->Err_0.1 == PlatformError::MapFailed(
            map_status,
        ),
{
}

/// Law: a fully successful mapping, once released, gives the resource back
/// exactly as it was registered — whatever the release reported — and the
/// guard carried the stream recorded at map time and exactly the reported
/// pointer and size. In particular the resource is reusable: a later map
/// sees the identical model.
pub proof fn lemma_map_release_round_trip(
    resource: ResourceModel,
    stream: u64,
    device_pointer: u64,
    byte_size: usize,
    unmap_status: u32,
)
    ensures
        ({
            let pending = map_step_model(resource, stream, CUDA_SUCCESS)->Ok_0;
            let step = pointer_step_model(pending, device_pointer, byte_size, CUDA_SUCCESS);
            &&& map_step_model(resource, stream, CUDA_SUCCESS) is Ok
            &&& step is Ok
            &&& step->Ok_0 == (GuardModel { resource, stream, device_pointer, byte_size })
            &&& release_model(step->Ok_0, unmap_status).0 == resource
        }),
{
}

/// Law: releasing a mapping returns its parent resource unchanged, and the
/// fault record names the native unmap code exactly when that call failed.
pub proof fn lemma_release_reports_faults(guard: GuardModel, unmap_status: u32)
    ensures
        release_model(guard, unmap_status).0 == guard.resource,
        unmap_status == CUDA_SUCCESS <==> release_model(guard, unmap_status).1 is None,
        unmap_status != CUDA_SUCCESS ==> release_model(guard, unmap_status).1 == Some(
            PlatformError::UnmapFailed(unmap_status),
        ),
{
}

/// Law: if the pointer retrieval fails after a successful map, the
/// compensating unmap — on the stream recorded at map time — puts the
/// resource back in exactly the registered state it had before the map, and
/// the caller receives the pointer-retrieval error, never a guard and never
/// the map success.
pub proof fn lemma_pointer_failure_compensates(
    resource: ResourceModel,
    stream: u64,
    device_pointer: u64,
    byte_size: usize,
    pointer_status: u32,
    unmap_status: u32,
)
    requires
        pointer_status != CUDA_SUCCESS,
    ensures
        ({
            let pending = map_step_model(resource, stream, CUDA_SUCCESS)->Ok_0;
            let step = pointer_step_model(pending, device_pointer, byte_size, pointer_status);
            &&& map_step_model(resource, stream, CUDA_SUCCESS) is Ok
            &&& step is Err
            &&& step->Err_0.stream == stream
            &&& compensate_model(step->Err_0, unmap_status).0 == resource
            &&& compensate_model(step->Err_0, unmap_status).1 == PlatformError::GetPointerFailed(
                pointer_status,
            )
        }),
{
}

} // verus!
