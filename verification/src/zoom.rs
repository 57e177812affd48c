//! The zoom level of the webview window.
//!
//! A level is a whole percentage: 100 renders the content at its actual
//! size, 50 at half and 300 at three times that size. The window takes the
//! level as a scale factor, which is the percentage divided by one hundred.
//! Every level the shell stores lies between [`MIN_ZOOM_PERCENT`] and
//! [`MAX_ZOOM_PERCENT`]; a request outside that range is moved to the nearest
//! bound instead of being refused.

use vstd::prelude::*;

verus! {

/// Smallest zoom the window accepts, in percent.
pub const MIN_ZOOM_PERCENT: u64 = 50;

/// Largest zoom the window accepts, in percent.
pub const MAX_ZOOM_PERCENT: u64 = 300;

/// Zoom of a freshly opened window, and the target of "actual size".
pub const DEFAULT_ZOOM_PERCENT: u64 = 100;

/// How far one zoom-in or zoom-out command moves the level, in percent.
pub const ZOOM_STEP_PERCENT: u64 = 10;

/// What a zoom command asks for.
#[derive(Clone, Copy, Debug, PartialEq, Eq, Structural)]
pub enum ZoomCommand {
    /// Enlarge the content by one step.
    ZoomIn,
    /// Shrink the content by one step.
    ZoomOut,
    /// Return to the actual size.
    ZoomReset,
}

/// The percentage within `MIN_ZOOM_PERCENT ..= MAX_ZOOM_PERCENT` that lies
/// nearest to `requested`.
pub open spec fn clamp_percent(requested: int) -> int {
    if requested < MIN_ZOOM_PERCENT {
        MIN_ZOOM_PERCENT as int
    } else if requested > MAX_ZOOM_PERCENT {
        MAX_ZOOM_PERCENT as int
    } else {
        requested
    }
}

/// The percentage that `command` asks for when the level stands at `current`,
/// before it is brought into range.
pub open spec fn requested_percent(current: int, command: ZoomCommand) -> int {
    match command {
        ZoomCommand::ZoomIn => current + ZOOM_STEP_PERCENT,
        ZoomCommand::ZoomOut => current - ZOOM_STEP_PERCENT,
        ZoomCommand::ZoomReset => DEFAULT_ZOOM_PERCENT as int,
    }
}

/// The level that follows `current` once `command` has been carried out.
pub open spec fn zoom_after(current: int, command: ZoomCommand) -> int {
    clamp_percent(requested_percent(current, command))
}

/// Brings a requested percentage into the accepted range.
pub fn clamp_zoom_percent(requested: u64) -> (clamped: u64)
    ensures
        clamped == clamp_percent(requested as int),
{
    if requested < MIN_ZOOM_PERCENT {
        MIN_ZOOM_PERCENT
    } else if requested > MAX_ZOOM_PERCENT {
        MAX_ZOOM_PERCENT
    } else {
        requested
    }
}

/// The zoom level of one window, always within the accepted range.
#[derive(Clone, Copy, Debug, PartialEq, Eq, Structural)]
pub struct ZoomLevel {
    percent: u64,
}

impl ZoomLevel {
    #[verifier::type_invariant]
    spec fn in_range(self) -> bool {
        MIN_ZOOM_PERCENT <= self.percent <= MAX_ZOOM_PERCENT
    }

    /// The level as a percentage.
    pub closed spec fn view(&self) -> int {
        self.percent as int
    }

    /// The level of a freshly opened window.
    pub fn new() -> (level: ZoomLevel)
        ensures
            level@ == DEFAULT_ZOOM_PERCENT,
    {
        ZoomLevel { percent: DEFAULT_ZOOM_PERCENT }
    }

    /// The level nearest to `requested`.
    pub fn from_percent(requested: u64) -> (level: ZoomLevel)
        ensures
            level@ == clamp_percent(requested as int),
    {
        ZoomLevel { percent: clamp_zoom_percent(requested) }
    }

    /// The level as a percentage, for storing it or handing it to the window.
    pub fn percent(&self) -> (percent: u64)
        ensures
            percent == self@,
            MIN_ZOOM_PERCENT <= percent <= MAX_ZOOM_PERCENT,
    {
        proof {
            use_type_invariant(self);
        }
        self.percent
    }

    /// Moves the level to the percentage nearest to `requested` and returns
    /// the percentage that the window is to show from now on.
    pub fn set_percent(&mut self, requested: u64) -> (applied: u64)
        ensures
            final(self)@ == clamp_percent(requested as int),
            applied == final(self)@,
    {
        let clamped = clamp_zoom_percent(requested);
        self.percent = clamped;
        clamped
    }

    /// Carries out `command` and returns the percentage that the window is to
    /// show from now on.
    ///
    /// Zooming in at the upper bound and zooming out at the lower bound leave
    /// the level where it is; the returned percentage is then the old one.
    pub fn apply(&mut self, command: ZoomCommand) -> (applied: u64)
        ensures
            final(self)@ == zoom_after(old(self)@, command),
            applied == final(self)@,
    {
        proof {
            use_type_invariant(&*self);
        }
        let requested = match command {
            ZoomCommand::ZoomIn => self.percent + ZOOM_STEP_PERCENT,
            ZoomCommand::ZoomOut => self.percent - ZOOM_STEP_PERCENT,
            ZoomCommand::ZoomReset => DEFAULT_ZOOM_PERCENT,
        };
        self.set_percent(requested)
    }
}

impl Default for ZoomLevel {
    /// The level of a freshly opened window.
    fn default() -> (level: ZoomLevel)
        ensures
            level@ == DEFAULT_ZOOM_PERCENT,
    {
        ZoomLevel::new()
    }
}

/// Clamping lands inside the accepted range, whatever was requested.
pub proof fn lemma_clamp_in_range(requested: int)
    ensures
        MIN_ZOOM_PERCENT <= clamp_percent(requested) <= MAX_ZOOM_PERCENT,
{
}

/// Clamping leaves a percentage alone exactly when it is already in range.
pub proof fn lemma_clamp_fixes_range(requested: int)
    ensures
        clamp_percent(requested) == requested <==> MIN_ZOOM_PERCENT <= requested
            <= MAX_ZOOM_PERCENT,
{
}

/// Clamping keeps the order of requests: a larger request never ends up at a
/// smaller level.
pub proof fn lemma_clamp_monotonic(smaller: int, larger: int)
    requires
        smaller <= larger,
    ensures
        clamp_percent(smaller) <= clamp_percent(larger),
{
}

/// Every command leads from any level to a level inside the accepted range.
pub proof fn lemma_zoom_after_in_range(current: int, command: ZoomCommand)
    ensures
        MIN_ZOOM_PERCENT <= zoom_after(current, command) <= MAX_ZOOM_PERCENT,
{
}

/// Resetting leads to the default level from everywhere.
pub proof fn lemma_reset_is_default(current: int)
    ensures
        zoom_after(current, ZoomCommand::ZoomReset) == DEFAULT_ZOOM_PERCENT,
{
}

/// A zoom-in that had room for a full step is undone by one zoom-out, and a
/// zoom-out that had room for a full step by one zoom-in.
pub proof fn lemma_steps_undo_each_other(current: int)
    requires
        MIN_ZOOM_PERCENT <= current <= MAX_ZOOM_PERCENT,
    ensures
        current + ZOOM_STEP_PERCENT <= MAX_ZOOM_PERCENT ==> zoom_after(
            zoom_after(current, ZoomCommand::ZoomIn),
            ZoomCommand::ZoomOut,
        ) == current,
        current - ZOOM_STEP_PERCENT >= MIN_ZOOM_PERCENT ==> zoom_after(
            zoom_after(current, ZoomCommand::ZoomOut),
            ZoomCommand::ZoomIn,
        ) == current,
{
}

/// At the bounds a further step in the same direction changes nothing.
pub proof fn lemma_bounds_absorb_steps()
    ensures
        zoom_after(MAX_ZOOM_PERCENT as int, ZoomCommand::ZoomIn) == MAX_ZOOM_PERCENT,
        zoom_after(MIN_ZOOM_PERCENT as int, ZoomCommand::ZoomOut) == MIN_ZOOM_PERCENT,
{
}

} // verus!
