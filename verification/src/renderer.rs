use vstd::prelude::*;

verus! {

/// Renderer-side buffer, reduced to the one datum this library reads from it:
/// the address of the platform-native interface backing the buffer. The
/// unverified shell extracts that address from the real renderer object and
/// keeps the object itself alive for at least as long as the registration.
#[derive(Clone, Copy, Debug, PartialEq, Eq, Structural)]
pub struct D3d11Buffer {
    native: u64,
}

impl View for D3d11Buffer {
    type V = u64;

    closed spec fn view(&self) -> u64 {
        self.native
    }
}

impl D3d11Buffer {
    /// Wraps the address of a platform-native buffer interface.
    pub fn new(native: u64) -> (buffer: D3d11Buffer)
        ensures
            buffer@ == native,
    {
        D3d11Buffer { native }
    }

    /// The address of the platform-native interface backing this buffer.
    pub fn native(&self) -> (native: u64)
        ensures
            native == self@,
    {
        self.native
    }
}

/// Renderer command-submission context, likewise reduced to the address of
/// its platform-native interface. Non-mapped operations (the copy-in) are
/// issued through it.
#[derive(Clone, Copy, Debug, PartialEq, Eq, Structural)]
pub struct D3d11DeviceContext {
    native: u64,
}

impl View for D3d11DeviceContext {
    type V = u64;

    closed spec fn view(&self) -> u64 {
        self.native
    }
}

impl D3d11DeviceContext {
    /// Wraps the address of a platform-native device-context interface.
    pub fn new(native: u64) -> (context: D3d11DeviceContext)
        ensures
            context@ == native,
    {
        D3d11DeviceContext { native }
    }

    /// The address of the platform-native interface backing this context.
    pub fn native(&self) -> (native: u64)
        ensures
            native == self@,
    {
        self.native
    }
}

/// A renderer-side resource-to-resource copy, fully determined: which context
/// issues it, which resource receives the bytes and which supplies them. The
/// unverified shell turns this into the one native copy call.
#[derive(Clone, Copy, Debug, PartialEq, Eq, Structural)]
pub struct CopyCommand {
    /// Native address of the command-submission context that issues the copy.
    pub context: u64,
    /// Native address of the shared resource the bytes are copied into.
    pub destination: u64,
    /// Native address of the caller-supplied source buffer.
    pub source: u64,
}

} // verus!
