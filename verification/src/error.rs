use vstd::prelude::*;

verus! {

/// Everything that can go wrong while setting up the device or running a
/// frame.
#[derive(Clone, Copy, PartialEq, Eq, Structural, Debug)]
pub enum RenderError {
    /// No graphics adapter was found at startup.
    NoAdapter,
    /// The adapter refused to hand out a logical device.
    NoDevice,
    /// The surface reports no preferred texture format.
    NoPreferredFormat,
    /// The device ran out of memory.
    OutOfMemory,
    /// The presentation surface is lost or outdated and needs
    /// reconfiguration.
    SurfaceOutdated,
    /// An asynchronous read mapping of an instance slot failed.
    ReadMapFailed,
    /// An asynchronous write mapping of an instance slot failed.
    WriteMapFailed,
    /// A read mapping resolved with other than a whole slot's bytes.
    BadSlotLength,
}

/// How the event loop answers an error.
#[derive(Clone, Copy, PartialEq, Eq, Structural, Debug)]
pub enum Severity {
    /// Reconfigure the surface and retry the acquisition.
    Retry,
    /// Log, drop the current frame, and go on with the next one.
    Skip,
    /// Report and terminate the application.
    Fatal,
}

/// Whether the error only asks for a surface reconfiguration and a retry.
pub open spec fn spec_is_retry(e: RenderError) -> bool {
    e == RenderError::SurfaceOutdated
}

/// Whether the error costs at worst the current frame.
pub open spec fn spec_is_skip(e: RenderError) -> bool {
    e == RenderError::ReadMapFailed || e == RenderError::WriteMapFailed || e
        == RenderError::BadSlotLength
}

/// Sorts every error into the taxonomy: a lost or outdated surface asks for
/// reconfigure-and-retry, a failed mapping costs one frame, and everything
/// else ends the application.
pub fn severity(e: RenderError) -> (s: Severity)
    ensures
        s == Severity::Retry <==> spec_is_retry(e),
        s == Severity::Skip <==> spec_is_skip(e),
        s == Severity::Fatal <==> !spec_is_retry(e) && !spec_is_skip(e),
{
    match e {
        RenderError::SurfaceOutdated => Severity::Retry,
        RenderError::ReadMapFailed => Severity::Skip,
        RenderError::WriteMapFailed => Severity::Skip,
        RenderError::BadSlotLength => Severity::Skip,
        RenderError::NoAdapter => Severity::Fatal,
        RenderError::NoDevice => Severity::Fatal,
        RenderError::NoPreferredFormat => Severity::Fatal,
        RenderError::OutOfMemory => Severity::Fatal,
    }
}

} // verus!
