//! The settings that the timeline and the lid handling read.
use vstd::prelude::*;

verus! {

/// Which geometric model warps the captured screen.
#[derive(Debug, Clone, Copy, PartialEq, Eq, Structural)]
pub enum DepthMode {
    /// The bottom edge shrinks about its middle into a trapezoid, row by row.
    Stretch,
    /// The picture is a plane turning about the hinge, seen in true perspective.
    Perspective,
}

impl Default for DepthMode {
    fn default() -> (r: DepthMode)
        ensures
            r == DepthMode::Perspective,
    {
        DepthMode::Perspective
    }
}

/// The value a missing `auto_demo_on_lid` setting takes.
pub fn default_true() -> (r: bool)
    ensures
        r,
{
    true
}

/// The value a missing `lid_open_delay_ms` setting takes.
pub fn default_lid_open_delay() -> (r: u64)
    ensures
        r == 300,
{
    300
}

/// The whole-number settings: the timeline's durations, the lid
/// handling and the warp model.
#[derive(Debug, Clone, Copy, PartialEq, Eq, Structural)]
pub struct DemoSettings {
    pub close_duration_ms: u64,
    pub hold_duration_ms: u64,
    pub open_duration_ms: u64,
    /// Play the matching animation when the lid is closed or opened.
    pub auto_demo_on_lid: bool,
    /// How long to wait after the lid opens before capturing the screen.
    pub lid_open_delay_ms: u64,
    pub depth_mode: DepthMode,
}

impl Default for DemoSettings {
    fn default() -> (r: DemoSettings)
        ensures
            r == (DemoSettings {
                close_duration_ms: 500,
                hold_duration_ms: 500,
                open_duration_ms: 2000,
                auto_demo_on_lid: true,
                lid_open_delay_ms: 300,
                depth_mode: DepthMode::Perspective,
            }),
    {
        DemoSettings {
            close_duration_ms: 500,
            hold_duration_ms: 500,
            open_duration_ms: 2000,
            auto_demo_on_lid: default_true(),
            lid_open_delay_ms: default_lid_open_delay(),
            depth_mode: DepthMode::default(),
        }
    }
}

} // verus!
