use cuda_d3d11_interop::CUDA_SUCCESS;
use cuda_d3d11_interop::CopyCommand;
use cuda_d3d11_interop::CudaD3D11Resource;
use cuda_d3d11_interop::CudaMappedResource;
use cuda_d3d11_interop::D3d11Buffer;
use cuda_d3d11_interop::D3d11DeviceContext;
use cuda_d3d11_interop::MapAttempt;
use cuda_d3d11_interop::PlatformError;
use cuda_d3d11_interop::PointerStep;

fn register(handle: u64) -> CudaD3D11Resource {
    let context = D3d11DeviceContext::new(0x1100);
    let buffer = D3d11Buffer::new(0x2200);
    CudaD3D11Resource::new(context, buffer, handle, CUDA_SUCCESS).unwrap()
}

fn map_fully(resource: CudaD3D11Resource, stream: u64, dev_ptr: u64, size: usize) -> CudaMappedResource {
    let pending = match CudaMappedResource::new(resource, stream, CUDA_SUCCESS) {
        MapAttempt::Mapped(pending) => pending,
        MapAttempt::Failed(_, error) => panic!("map refused: {:?}", error),
    };
    match pending.pointer(dev_ptr, size, CUDA_SUCCESS) {
        PointerStep::Mapped(guard) => guard,
        PointerStep::Unwind(_) => panic!("pointer retrieval refused"),
    }
}

#[test]
fn scenario_register_map_observe_release_remap() {
    let stream: u64 = 0x5000;
    let resource = register(0x1000);
    let guard = map_fully(resource, stream, 0xBEEF_0000, 1024);

    let (pointer, bytes) = guard.as_ptr();
    assert_ne!(pointer, 0);
    assert_eq!(bytes, 1024);
    assert_eq!(guard.stream_ptr(), stream);
    assert_eq!(guard.raw(), 0x1000);

    let (resource, fault) = guard.unmap(CUDA_SUCCESS);
    assert!(fault.is_none());
    assert_eq!(resource.raw(), 0x1000);

    // The resource is reusable: a second map on the same stream succeeds.
    let guard = map_fully(resource, stream, 0xBEEF_0000, 1024);
    assert_eq!(guard.as_ptr(), (0xBEEF_0000, 1024));
}

#[test]
fn map_failure_preserves_resource() {
    let resource = register(0x1000);
    let (resource, error) = match CudaMappedResource::new(resource, 0x5000, 77) {
        MapAttempt::Mapped(_) => panic!("a failed map must not produce a mapping"),
        MapAttempt::Failed(resource, error) => (resource, error),
    };
    assert_eq!(error, PlatformError::MapFailed(77));
    assert_eq!(error.code(), 77);
    assert_eq!(resource.raw(), 0x1000);

    // A subsequent map attempt is still possible and succeeds.
    let guard = map_fully(resource, 0x5000, 0xABCD, 64);
    assert_eq!(guard.as_ptr(), (0xABCD, 64));
}

#[test]
fn pointer_failure_triggers_exactly_one_compensating_unmap() {
    let stream: u64 = 0x5000;
    let resource = register(0x1000);
    let pending = match CudaMappedResource::new(resource, stream, CUDA_SUCCESS) {
        MapAttempt::Mapped(pending) => pending,
        MapAttempt::Failed(_, error) => panic!("map refused: {:?}", error),
    };
    let unwind = match pending.pointer(0, 0, 5) {
        PointerStep::Mapped(_) => panic!("a failed retrieval must not produce a guard"),
        PointerStep::Unwind(unwind) => unwind,
    };
    // The obligation names the same registration and the stream recorded at
    // map time, and already carries the error the caller will receive.
    assert_eq!(unwind.raw(), 0x1000);
    assert_eq!(unwind.stream_ptr(), stream);
    assert_eq!(unwind.error(), PlatformError::GetPointerFailed(5));

    let (resource, error, fault) = unwind.finish(CUDA_SUCCESS);
    assert_eq!(error, PlatformError::GetPointerFailed(5));
    assert!(fault.is_none());
    assert_eq!(resource.raw(), 0x1000);
}

#[test]
fn unregister_releases_registration_token() {
    let resource = register(0x7777);
    let (handle, fault) = resource.unregister(CUDA_SUCCESS);
    assert_eq!(handle, 0x7777);
    assert!(fault.is_none());
}

#[test]
fn registration_failure_yields_no_resource_and_keeps_code() {
    let context = D3d11DeviceContext::new(0x1100);
    let buffer = D3d11Buffer::new(0x2200);
    let outcome = CudaD3D11Resource::new(context, buffer, 0, 3);
    assert_eq!(outcome.err(), Some(PlatformError::RegistrationFailed(3)));
}

#[test]
fn unmap_fault_is_recorded_not_propagated() {
    let resource = register(0x1000);
    let guard = map_fully(resource, 0, 0xF00D, 16);
    let (resource, fault) = guard.unmap(4);
    assert_eq!(fault, Some(PlatformError::UnmapFailed(4)));
    // The resource is still treated as registered going forward.
    assert_eq!(resource.raw(), 0x1000);
}

#[test]
fn compensating_unmap_fault_is_recorded_beside_the_error() {
    let resource = register(0x1000);
    let pending = match CudaMappedResource::new(resource, 9, CUDA_SUCCESS) {
        MapAttempt::Mapped(pending) => pending,
        MapAttempt::Failed(_, error) => panic!("map refused: {:?}", error),
    };
    let unwind = match pending.pointer(0, 0, 5) {
        PointerStep::Mapped(_) => panic!("a failed retrieval must not produce a guard"),
        PointerStep::Unwind(unwind) => unwind,
    };
    let (resource, error, fault) = unwind.finish(6);
    assert_eq!(error, PlatformError::GetPointerFailed(5));
    assert_eq!(fault, Some(PlatformError::UnmapFailed(6)));
    assert_eq!(resource.raw(), 0x1000);
}

#[test]
fn unregister_fault_is_recorded() {
    let resource = register(0x1000);
    let (handle, fault) = resource.unregister(9);
    assert_eq!(handle, 0x1000);
    assert_eq!(fault, Some(PlatformError::UnregisterFailed(9)));
}

#[test]
fn copy_from_names_stored_context_and_destination() {
    let context = D3d11DeviceContext::new(0x1100);
    let buffer = D3d11Buffer::new(0x2200);
    let mut resource = CudaD3D11Resource::new(context, buffer, 0x1000, CUDA_SUCCESS).unwrap();
    let source = D3d11Buffer::new(0x3300);
    let command = resource.copy_from(source);
    assert_eq!(
        command,
        CopyCommand { context: 0x1100, destination: 0x2200, source: 0x3300 },
    );
    // The resource is untouched and still usable.
    assert_eq!(resource.raw(), 0x1000);
}

#[test]
fn default_null_stream_is_accepted() {
    let resource = register(u64::MAX);
    let guard = map_fully(resource, 0, 0x1, 1);
    assert_eq!(guard.stream_ptr(), 0);
    let (resource, fault) = guard.unmap(CUDA_SUCCESS);
    assert!(fault.is_none());
    assert_eq!(resource.raw(), u64::MAX);
}

#[test]
fn getters_expose_registration_data() {
    let context = D3d11DeviceContext::new(0x1100);
    let buffer = D3d11Buffer::new(0x2200);
    let resource = CudaD3D11Resource::new(context, buffer, 0x1000, CUDA_SUCCESS).unwrap();
    assert_eq!(resource.raw(), 0x1000);
    assert_eq!(resource.resource().native(), 0x2200);
    assert_eq!(resource.device_context().native(), 0x1100);
}

#[test]
fn error_code_is_preserved_for_each_variant() {
    assert_eq!(PlatformError::RegistrationFailed(1).code(), 1);
    assert_eq!(PlatformError::MapFailed(2).code(), 2);
    assert_eq!(PlatformError::GetPointerFailed(3).code(), 3);
    assert_eq!(PlatformError::UnmapFailed(4).code(), 4);
    assert_eq!(PlatformError::UnregisterFailed(5).code(), 5);
}
