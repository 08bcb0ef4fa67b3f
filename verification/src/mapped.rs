use vstd::prelude::*;

use crate::error::CUDA_SUCCESS;
use crate::error::PlatformError;
use crate::model::GuardModel;
use crate::model::PendingModel;
use crate::model::ResourceModel;
use crate::model::UnwindModel;
use crate::model::compensate_model;
use crate::model::map_step_model;
use crate::model::pointer_step_model;
use crate::model::release_model;
use crate::resource::CudaD3D11Resource;

verus! {

/// Outcome of the native map call on a registered resource.
pub enum MapAttempt {
    /// The runtime accepted the map; the device pointer must now be
    /// retrieved before the mapping is usable.
    Mapped(PendingPointer),
    /// The map call failed: the resource comes back unchanged, still
    /// registered and usable, together with the raw code.
    Failed(CudaD3D11Resource, PlatformError),
}

/// The model a map attempt stands for.
pub open spec fn map_attempt_view(attempt: MapAttempt) -> Result<
    PendingModel,
    (ResourceModel, PlatformError),
> {
    match attempt {
        MapAttempt::Mapped(pending) => Ok(pending@),
        MapAttempt::Failed(resource, error) => Err((resource@, error)),
    }
}

/// A mapping the runtime has accepted but whose device pointer has not been
/// retrieved yet. Owns the registered resource, so nothing else can touch it
/// until this resolves into a guard or an unwind.
pub struct PendingPointer {
    cuda_res: CudaD3D11Resource,
    stream_ptr: u64,
}

impl View for PendingPointer {
    type V = PendingModel;

    closed spec fn view(&self) -> PendingModel {
        PendingModel { resource: self.cuda_res@, stream: self.stream_ptr }
    }
}

/// Outcome of the native pointer retrieval on a pending mapping.
pub enum PointerStep {
    /// The mapping is live: the guard owns the resource and exposes the
    /// device pointer and byte size for its lifetime.
    Mapped(CudaMappedResource),
    /// Retrieval failed: a compensating unmap is owed before the error
    /// surfaces. The obligation owns the resource until it is discharged.
    Unwind(PendingUnmap),
}

/// The model a pointer step stands for.
pub open spec fn pointer_step_view(step: PointerStep) -> Result<GuardModel, UnwindModel> {
    match step {
        PointerStep::Mapped(guard) => Ok(guard@),
        PointerStep::Unwind(unwind) => Err(unwind@),
    }
}

/// The compensating-unmap obligation left by a failed pointer retrieval. A
/// partial map must never be left dangling: the only way back to a usable
/// [`CudaD3D11Resource`] is through [`Self::finish`], which records the
/// outcome of the unmap the shell was told to issue.
pub struct PendingUnmap {
    cuda_res: CudaD3D11Resource,
    stream_ptr: u64,
    error: PlatformError,
}

impl View for PendingUnmap {
    type V = UnwindModel;

    closed spec fn view(&self) -> UnwindModel {
        UnwindModel { resource: self.cuda_res@, stream: self.stream_ptr, error: self.error }
    }
}

/// A guard that witnesses an active mapping of a registered resource into
/// the compute address space.
///
/// The guard owns its parent resource outright, so for as long as it exists
/// no other mapping, no renderer-side copy and no unregistration can even be
/// expressed — at most one live guard per resource, by construction. The
/// mapping ends exactly once, through [`Self::unmap`], which gives the parent
/// back.
pub struct CudaMappedResource {
    cuda_res: CudaD3D11Resource,
    stream_ptr: u64,
    dev_ptr: u64,
    size: usize,
}

impl View for CudaMappedResource {
    type V = GuardModel;

    closed spec fn view(&self) -> GuardModel {
        GuardModel {
            resource: self.cuda_res@,
            stream: self.stream_ptr,
            device_pointer: self.dev_ptr,
            byte_size: self.size,
        }
    }
}

impl CudaMappedResource {
    /// Decide the outcome of mapping `cuda_res` under `stream_ptr`.
    ///
    /// The native map call has already run; `map_status` is what it reported.
    /// Consuming the resource here is what makes a second live mapping
    /// impossible: until the attempt resolves and the resource is given back,
    /// no other operation on it can be expressed.
    pub fn new(cuda_res: CudaD3D11Resource, stream_ptr: u64, map_status: u32) -> (attempt:
        MapAttempt)
        ensures
            map_attempt_view(attempt) == map_step_model(cuda_res@, stream_ptr, map_status),
    {
        if map_status == CUDA_SUCCESS {
            MapAttempt::Mapped(PendingPointer { cuda_res, stream_ptr })
        } else {
            MapAttempt::Failed(cuda_res, PlatformError::MapFailed(map_status))
        }
    }

    /// The compute-visible device pointer and byte size of the mapped
    /// memory, valid only for the guard's lifetime.
    pub fn as_ptr(&self) -> (pointer_and_size: (u64, usize))
        ensures
            pointer_and_size == (self@.device_pointer, self@.byte_size),
    {
        (self.dev_ptr, self.size)
    }

    /// The raw registration token of the mapped resource, for the native
    /// unmap call.
    pub fn raw(&self) -> (handle: u64)
        ensures
            handle == self@.resource.handle,
    {
        self.cuda_res.raw()
    }

    /// The stream recorded at map time; the unmap must use the same one.
    pub fn stream_ptr(&self) -> (stream: u64)
        ensures
            stream == self@.stream,
    {
        self.stream_ptr
    }

    /// Release the mapping. Consumes the guard, so the release happens
    /// exactly once. The native unmap call — on the stream recorded at map
    /// time — has already run; `status` is what it reported. The parent
    /// resource comes back exactly as it was registered; a fault is recorded
    /// but never propagated, since this path has no caller to report to.
    pub fn unmap(self, status: u32) -> (outcome: (CudaD3D11Resource, Option<PlatformError>))
        ensures
            (outcome.0@, outcome.1) == release_model(self@, status),
    {
        let fault = if status == CUDA_SUCCESS {
            None
        } else {
            Some(PlatformError::UnmapFailed(status))
        };
        (self.cuda_res, fault)
    }
}

impl PendingPointer {
    /// Decide the outcome of the pointer retrieval on this pending mapping.
    ///
    /// The native call has already run; `dev_ptr`, `size` and `status` are
    /// what it reported. On success the guard is live with exactly those
    /// values; on failure the result is the compensating-unmap obligation —
    /// the error surfaces only once that unmap has been issued, so the
    /// resource always ends up back in the registered state.
    pub fn pointer(self, dev_ptr: u64, size: usize, status: u32) -> (step: PointerStep)
        ensures
            pointer_step_view(step) == pointer_step_model(self@, dev_ptr, size, status),
    {
        if status == CUDA_SUCCESS {
            PointerStep::Mapped(
                CudaMappedResource {
                    cuda_res: self.cuda_res,
                    stream_ptr: self.stream_ptr,
                    dev_ptr,
                    size,
                },
            )
        } else {
            PointerStep::Unwind(
                PendingUnmap {
                    cuda_res: self.cuda_res,
                    stream_ptr: self.stream_ptr,
                    error: PlatformError::GetPointerFailed(status),
                },
            )
        }
    }

    /// The raw registration token, for the native pointer-retrieval call.
    pub fn raw(&self) -> (handle: u64)
        ensures
            handle == self@.resource.handle,
    {
        self.cuda_res.raw()
    }

    /// The stream the map was requested under.
    pub fn stream_ptr(&self) -> (stream: u64)
        ensures
            stream == self@.stream,
    {
        self.stream_ptr
    }
}

impl PendingUnmap {
    /// The raw registration token, for the compensating native unmap call.
    pub fn raw(&self) -> (handle: u64)
        ensures
            handle == self@.resource.handle,
    {
        self.cuda_res.raw()
    }

    /// The stream recorded at map time; the compensating unmap must use the
    /// same one.
    pub fn stream_ptr(&self) -> (stream: u64)
        ensures
            stream == self@.stream,
    {
        self.stream_ptr
    }

    /// The pointer-retrieval error this unwind will surface.
    pub fn error(&self) -> (error: PlatformError)
        ensures
            error == self@.error,
    {
        self.error
    }

    /// Discharge the obligation. The compensating native unmap has already
    /// run; `status` is what it reported. The resource comes back registered
    /// and unchanged, the caller receives the pointer-retrieval error — not
    /// the map success — and the unmap's own fault is only recorded.
    pub fn finish(self, status: u32) -> (outcome: (
        CudaD3D11Resource,
        PlatformError,
        Option<PlatformError>,
    ))
        ensures
            (outcome.0@, outcome.1, outcome.2) == compensate_model(self@, status),
    {
        let fault = if status == CUDA_SUCCESS {
            None
        } else {
            Some(PlatformError::UnmapFailed(status))
        };
        (self.cuda_res, self.error, fault)
    }
}

} // verus!
