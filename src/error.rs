use vstd::prelude::*;

verus! {

/// The failures the overlay reports to its host.
#[derive(Clone, Copy, Debug, PartialEq, Eq, Structural)]
pub enum OverlayError {
    /// The window class could not be registered.
    RegisterClassA,
    /// The native window could not be created.
    CreateWindowExA,
    /// The colour key that makes the window transparent could not be set.
    SetLayeredWindowAttributes,
    /// The 2D factory could not be created.
    CreateFactory,
    /// The stroke style could not be created.
    CreateStrokeStyle,
    /// Neither a hardware nor a software device could be created.
    CreateDevice,
    /// The render target or swapchain could not be set up.
    CreateRenderTarget,
    /// The geometry does not describe a window of positive size that fits in `i32`.
    InvalidGeometry,
    /// A frame rate of zero was asked for.
    ZeroFrameRate,
    /// The shared rectangle buffer's lock was poisoned.
    LockPoisoned,
    /// The thread's message queue could not be read.
    GetMessageA,
}

/// The name of an error, as its description reads.
pub open spec fn error_name(e: OverlayError) -> Seq<char> {
    match e {
        OverlayError::RegisterClassA => "RegisterClassA"@,
        OverlayError::CreateWindowExA => "CreateWindowExA"@,
        OverlayError::SetLayeredWindowAttributes => "SetLayeredWindowAttributes"@,
        OverlayError::CreateFactory => "CreateFactory"@,
        OverlayError::CreateStrokeStyle => "CreateStrokeStyle"@,
        OverlayError::CreateDevice => "CreateDevice"@,
        OverlayError::CreateRenderTarget => "CreateRenderTarget"@,
        OverlayError::InvalidGeometry => "InvalidGeometry"@,
        OverlayError::ZeroFrameRate => "ZeroFrameRate"@,
        OverlayError::LockPoisoned => "LockPoisoned"@,
        OverlayError::GetMessageA => "GetMessageA"@,
    }
}

impl OverlayError {
    /// The error's name, which is how it is described to the user.
    pub fn name(&self) -> (r: String)
        ensures
            r@ == error_name(*self),
    {
        match self {
            OverlayError::RegisterClassA => "RegisterClassA".to_owned(),
            OverlayError::CreateWindowExA => "CreateWindowExA".to_owned(),
            OverlayError::SetLayeredWindowAttributes => "SetLayeredWindowAttributes".to_owned(),
            OverlayError::CreateFactory => "CreateFactory".to_owned(),
            OverlayError::CreateStrokeStyle => "CreateStrokeStyle".to_owned(),
            OverlayError::CreateDevice => "CreateDevice".to_owned(),
            OverlayError::CreateRenderTarget => "CreateRenderTarget".to_owned(),
            OverlayError::InvalidGeometry => "InvalidGeometry".to_owned(),
            OverlayError::ZeroFrameRate => "ZeroFrameRate".to_owned(),
            OverlayError::LockPoisoned => "LockPoisoned".to_owned(),
            OverlayError::GetMessageA => "GetMessageA".to_owned(),
        }
    }
}

} // verus!
