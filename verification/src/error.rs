use vstd::prelude::*;

verus! {

/// Status code the compute runtime designates as success. Every native
/// interop entry point returns a status; any value other than this one is a
/// distinct driver/runtime failure cause and is preserved verbatim.
pub const CUDA_SUCCESS: u32 = 0;

/// Typed failure of a native interop call, carrying the raw status code the
/// runtime reported.
///
/// The first three variants are returned to the caller of the failing
/// operation. The last two arise only on cleanup paths, which have no caller
/// left to report to: they are handed back as observability records and never
/// propagated.
#[derive(Clone, Copy, Debug, PartialEq, Eq, Structural)]
pub enum PlatformError {
    /// The runtime rejected the registration of the renderer resource.
    RegistrationFailed(u32),
    /// The native map call failed; the resource stays registered.
    MapFailed(u32),
    /// The resource mapped, but the device pointer could not be retrieved;
    /// a compensating unmap restores the registered state.
    GetPointerFailed(u32),
    /// The native unmap failed while releasing a mapping.
    UnmapFailed(u32),
    /// The native unregister failed while discarding the resource.
    UnregisterFailed(u32),
}

impl PlatformError {
    /// The raw native status code carried by any variant.
    pub open spec fn code_spec(self) -> u32 {
        match self {
            PlatformError::RegistrationFailed(code) => code,
            PlatformError::MapFailed(code) => code,
            PlatformError::GetPointerFailed(code) => code,
            PlatformError::UnmapFailed(code) => code,
            PlatformError::UnregisterFailed(code) => code,
        }
    }

    /// Returns the raw native status code this error preserves.
    pub fn code(&self) -> (code: u32)
        ensures
            code == self.code_spec(),
    {
        match self {
            PlatformError::RegistrationFailed(code) => *code,
            PlatformError::MapFailed(code) => *code,
            PlatformError::GetPointerFailed(code) => *code,
            PlatformError::UnmapFailed(code) => *code,
            PlatformError::UnregisterFailed(code) => *code,
        }
    }
}

} // verus!
