//! Lifecycle manager for a GPU memory resource shared between a Direct3D 11
//! renderer and the CUDA compute runtime.
//!
//! A single device allocation, owned by the renderer, is registered with the
//! compute runtime so kernels can read it without a round trip through host
//! memory. The rules that make this safe form a small state machine:
//!
//! * registration happens at construction and is undone exactly once, when
//!   the resource is consumed;
//! * a mapping is a scoped guard that owns the registered resource for its
//!   whole lifetime, so a second mapping, a renderer-side copy, or an
//!   unregistration cannot even be expressed while one is live;
//! * every failure path unwinds: a failed pointer retrieval after a
//!   successful map demands a compensating unmap before the error surfaces.
//!
//! The native calls themselves are blocking FFI entry points; an unverified
//! shell performs them and feeds each raw status code into the verified
//! transition functions here, which decide every state change.

mod error;
mod laws;
mod mapped;
mod model;
mod renderer;
mod resource;

pub use error::CUDA_SUCCESS;
pub use error::PlatformError;
pub use laws::lemma_map_failure_leaves_registered;
pub use laws::lemma_map_release_round_trip;
pub use laws::lemma_pointer_failure_compensates;
pub use laws::lemma_release_reports_faults;
pub use laws::lemma_unregister_matches_registration;
pub use mapped::CudaMappedResource;
pub use mapped::MapAttempt;
pub use mapped::map_attempt_view;
pub use mapped::pointer_step_view;
pub use mapped::PendingPointer;
pub use mapped::PendingUnmap;
pub use mapped::PointerStep;
pub use model::GuardModel;
pub use model::PendingModel;
pub use model::ResourceModel;
pub use model::UnwindModel;
pub use model::compensate_model;
pub use model::map_step_model;
pub use model::pointer_step_model;
pub use model::register_model;
pub use model::release_model;
pub use model::unmap_fault;
pub use model::unregister_fault;
pub use model::unregister_model;
pub use renderer::CopyCommand;
pub use renderer::D3d11Buffer;
pub use renderer::D3d11DeviceContext;
pub use resource::CudaD3D11Resource;
pub use resource::registration_view;
