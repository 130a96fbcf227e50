use vstd::prelude::*;

verus! {

/// Initial window width in pixels.
pub const INITIAL_WIDTH: u32 = 640;

/// Initial window height in pixels.
pub const INITIAL_HEIGHT: u32 = 360;

/// Interval, in milliseconds, at which the background poller drives the
/// device's completion queue forward.
pub const POLL_INTERVAL_MS: u64 = 100;

/// The presentation surface's configuration: pixel dimensions and a token for
/// the texture format chosen once at startup as the surface's preferred one.
/// The presentation mode is always first-in-first-out (vertical sync) and is
/// not recorded per value.
#[derive(Clone, Copy, PartialEq, Eq, Structural, Debug)]
pub struct SurfaceConfig {
    pub width: u32,
    pub height: u32,
    pub format: u32,
}

/// One presentable frame target, carrying the pixel dimensions the surface
/// was configured with when it was acquired.
#[derive(Clone, Copy, PartialEq, Eq, Structural, Debug)]
pub struct FrameTarget {
    pub width: u32,
    pub height: u32,
}

/// The configuration after reconfiguring for a new size: both dimensions are
/// replaced together and the startup format is kept.
pub open spec fn spec_configured(c: SurfaceConfig, width: u32, height: u32) -> SurfaceConfig {
    SurfaceConfig { width, height, format: c.format }
}

/// The frame target the surface hands out on a successful acquisition under
/// configuration `c`.
pub open spec fn spec_target_of(c: SurfaceConfig) -> FrameTarget {
    FrameTarget { width: c.width, height: c.height }
}

impl SurfaceConfig {
    /// The configuration built at startup from the preferred format and the
    /// window's current size.
    pub fn new(format: u32, width: u32, height: u32) -> (c: SurfaceConfig)
        ensures
            c == (SurfaceConfig { width, height, format }),
    {
        SurfaceConfig { width, height, format }
    }

    /// Reconfigures for the given pixel dimensions. Callable on every resize;
    /// for an unchanged size it leaves the configuration exactly as it was.
    pub fn configure(&mut self, width: u32, height: u32)
        ensures
            *final(self) == spec_configured(*old(self), width, height),
            final(self).width == width,
            final(self).height == height,
            final(self).format == old(self).format,
            old(self).width == width && old(self).height == height ==> *final(self) == *old(
                self,
            ),
    {
        self.width = width;
        self.height = height;
    }
}

/// What one attempt to acquire a presentable frame reported.
#[derive(Clone, Copy, PartialEq, Eq, Structural, Debug)]
pub enum AcquireOutcome {
    /// The surface handed out a frame target.
    Acquired,
    /// The surface is lost or outdated and needs reconfiguration.
    Outdated,
    /// The device is out of memory.
    OutOfMemory,
}

/// What the frame pipeline does next after one acquisition attempt.
#[derive(Clone, Copy, PartialEq, Eq, Structural, Debug)]
pub enum AcquireAction {
    /// Record and present against this target.
    UseFrame(FrameTarget),
    /// Reconfigure the surface at the current size, then attempt again.
    ReconfigureAndRetry,
    /// Drop this frame and report it; the next frame starts fresh.
    SkipFrame,
    /// Report and terminate: the device cannot continue.
    Halt,
}

/// Decides the reconfigure-and-retry policy for frame acquisition: a target
/// acquired under `config` is used as-is, a lost or outdated surface is
/// reconfigured exactly once before the retry, a second consecutive failure
/// drops the frame, and out-of-memory is fatal.
pub fn acquire_decision(config: &SurfaceConfig, outcome: AcquireOutcome, retried: bool) -> (a:
    AcquireAction)
    ensures
        outcome == AcquireOutcome::Acquired ==> a == AcquireAction::UseFrame(
            spec_target_of(*config),
        ),
        outcome == AcquireOutcome::Outdated && !retried ==> a
            == AcquireAction::ReconfigureAndRetry,
        outcome == AcquireOutcome::Outdated && retried ==> a == AcquireAction::SkipFrame,
        outcome == AcquireOutcome::OutOfMemory ==> a == AcquireAction::Halt,
{
    match outcome {
        AcquireOutcome::Acquired => AcquireAction::UseFrame(
            FrameTarget { width: config.width, height: config.height },
        ),
        AcquireOutcome::Outdated => if retried {
            AcquireAction::SkipFrame
        } else {
            AcquireAction::ReconfigureAndRetry
        },
        AcquireOutcome::OutOfMemory => AcquireAction::Halt,
    }
}

/// A resize is visible before the next acquisition: after reconfiguring for a
/// new size, a successfully acquired frame target has exactly that size.
pub proof fn lemma_resize_before_render(c: SurfaceConfig, width: u32, height: u32)
    ensures
        spec_target_of(spec_configured(c, width, height)) == (FrameTarget { width, height }),
{
}

/// A reader of the configuration never sees a torn size: a value observed
/// around a resize is the whole configuration from before it or the whole one
/// from after it, so its dimensions always belong to one size, never to a mix
/// of the two.
pub proof fn lemma_no_torn_configuration(
    c: SurfaceConfig,
    width: u32,
    height: u32,
    observed: SurfaceConfig,
)
    requires
        observed == c || observed == spec_configured(c, width, height),
    ensures
        (observed.width == c.width && observed.height == c.height) || (observed.width == width
            && observed.height == height),
        observed.format == c.format,
{
}

} // verus!
