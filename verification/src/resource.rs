use vstd::prelude::*;

use crate::error::CUDA_SUCCESS;
use crate::error::PlatformError;
use crate::model::ResourceModel;
use crate::model::register_model;
use crate::model::unregister_model;
use crate::renderer::CopyCommand;
use crate::renderer::D3d11Buffer;
use crate::renderer::D3d11DeviceContext;

verus! {

/// A renderer buffer registered with the compute runtime.
///
/// Construction registers; consuming the value with [`Self::unregister`]
/// unregisters, exactly once, since ownership rules make a second call
/// impossible to express. While a mapping guard is alive it owns this value
/// outright, so no renderer-side operation — and no second mapping — can
/// reach the resource until the guard has released it.
pub struct CudaD3D11Resource {
    handle: u64,
    resource: D3d11Buffer,
    device_context: D3d11DeviceContext,
}

impl View for CudaD3D11Resource {
    type V = ResourceModel;

    closed spec fn view(&self) -> ResourceModel {
        ResourceModel {
            handle: self.handle,
            buffer: self.resource@,
            context: self.device_context@,
        }
    }
}

/// The model a construction outcome stands for: the registered resource on
/// success, the typed error otherwise.
pub open spec fn registration_view(outcome: Result<CudaD3D11Resource, PlatformError>) -> Result<
    ResourceModel,
    PlatformError,
> {
    match outcome {
        Ok(registered) => Ok(registered@),
        Err(error) => Err(error),
    }
}

impl CudaD3D11Resource {
    /// Well-formedness: the registration token is non-null for as long as
    /// the value exists.
    pub open spec fn wf(self) -> bool {
        self@.valid()
    }

    /// Register a renderer buffer with the compute runtime.
    ///
    /// The native register call has already run; `handle` and `status` are
    /// what it reported. On success the resource is registered under that
    /// token; on failure no partial object is produced and the raw code is
    /// preserved in the error.
    pub fn new(
        device_context: D3d11DeviceContext,
        resource: D3d11Buffer,
        handle: u64,
        status: u32,
    ) -> (outcome: Result<CudaD3D11Resource, PlatformError>)
        requires
            status == CUDA_SUCCESS ==> handle != 0,
        ensures
            registration_view(outcome) == register_model(device_context@, resource@, handle, status),
            outcome matches Ok(registered) ==> registered.wf(),
    {
        if status == CUDA_SUCCESS {
            Ok(CudaD3D11Resource { handle, resource, device_context })
        } else {
            Err(PlatformError::RegistrationFailed(status))
        }
    }

    /// The raw registration token, for handing to the native calls.
    pub fn raw(&self) -> (handle: u64)
        ensures
            handle == self@.handle,
    {
        self.handle
    }

    /// The renderer buffer this registration covers.
    pub fn resource(&self) -> (buffer: &D3d11Buffer)
        ensures
            buffer@ == self@.buffer,
    {
        &self.resource
    }

    /// The command-submission context used for renderer-side operations.
    pub fn device_context(&self) -> (context: &D3d11DeviceContext)
        ensures
            context@ == self@.context,
    {
        &self.device_context
    }

    /// Decide the renderer-side copy of `buf` into the shared resource.
    ///
    /// Exclusive access is the whole point: while a mapping guard is alive it
    /// owns the resource, so this cannot be called, and the two APIs never
    /// touch the memory concurrently. The returned command names exactly the
    /// stored context, the registered buffer as destination, and `buf` as
    /// source; the resource itself is untouched.
    pub fn copy_from(&mut self, buf: D3d11Buffer) -> (command: CopyCommand)
        ensures
            *final(self) == *old(self),
            command == (CopyCommand {
                context: old(self)@.context,
                destination: old(self)@.buffer,
                source: buf@,
            }),
    {
        CopyCommand {
            context: self.device_context.native(),
            destination: self.resource.native(),
            source: buf.native(),
        }
    }

    /// Unregister: the final transition. Consumes the resource, so it runs at
    /// most once and never while a mapping guard is alive (the guard would
    /// own the value). The native unregister call has already run; `status`
    /// is what it reported. Returns the token that was released and the fault
    /// record — cleanup has no caller to report to, so the fault is never
    /// propagated.
    pub fn unregister(self, status: u32) -> (outcome: (u64, Option<PlatformError>))
        ensures
            outcome == unregister_model(self@, status),
    {
        let fault = if status == CUDA_SUCCESS {
            None
        } else {
            Some(PlatformError::UnregisterFailed(status))
        };
        (self.handle, fault)
    }
}

} // verus!
