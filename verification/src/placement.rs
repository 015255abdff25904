//! Initial placement of the main window, chosen by host operating system.

use vstd::prelude::*;

verus! {

/// The host operating systems the shell distinguishes at startup.
#[derive(Clone, Copy, PartialEq, Eq, Structural, Debug)]
pub enum HostOs {
    Windows,
    MacOs,
    Linux,
    Other,
}

/// Monitor and window sizes in physical pixels, as measured by the host.
#[derive(Clone, Copy, PartialEq, Eq, Structural, Debug)]
pub struct Geometry {
    pub monitor_width: u32,
    pub monitor_height: u32,
    pub window_width: u32,
    pub window_height: u32,
}

/// What the host should do with the window's initial position.
#[derive(Clone, Copy, PartialEq, Eq, Structural, Debug)]
pub enum PlacementDirective {
    /// Set an explicit physical position.
    Physical { x: i32, y: i32 },
    /// Use the host's native centering facility.
    Center,
    /// Apply no positioning; the window opens at its default position.
    Default,
}

/// Pixels kept free to the right of the window under bottom-right placement.
pub const RIGHT_MARGIN: u32 = 10;

/// Pixels kept free below the window under bottom-right placement.
pub const BOTTOM_MARGIN: u32 = 50;

/// The fixed position used on hosts placed at a constant point.
pub const FIXED_X: i32 = 100;

/// The fixed position used on hosts placed at a constant point.
pub const FIXED_Y: i32 = 100;

/// The placement policy, one independent branch per host: bottom-right with
/// fixed margins, native centering, a fixed point, or the default position.
pub open spec fn spec_placement(os: HostOs, g: Geometry) -> PlacementDirective {
    match os {
        HostOs::Windows => PlacementDirective::Physical {
            x: (g.monitor_width - g.window_width - RIGHT_MARGIN) as i32,
            y: (g.monitor_height - g.window_height - BOTTOM_MARGIN) as i32,
        },
        HostOs::MacOs => PlacementDirective::Center,
        HostOs::Linux => PlacementDirective::Physical { x: FIXED_X, y: FIXED_Y },
        HostOs::Other => PlacementDirective::Default,
    }
}

/// Compute the window's initial placement for the given host and geometry.
/// Only the bottom-right branch computes with the geometry, so only that
/// host bounds it; the bounds are forced by the physical-position type.
pub fn initial_placement(os: HostOs, g: Geometry) -> (p: PlacementDirective)
    requires
        os == HostOs::Windows ==> g.monitor_width <= i32::MAX,
        os == HostOs::Windows ==> g.monitor_height <= i32::MAX,
        os == HostOs::Windows ==> g.window_width <= i32::MAX,
        os == HostOs::Windows ==> g.window_height <= i32::MAX,
        os == HostOs::Windows ==> i32::MIN <= g.monitor_width - g.window_width - RIGHT_MARGIN,
        os == HostOs::Windows ==> i32::MIN <= g.monitor_height - g.window_height - BOTTOM_MARGIN,
    ensures
        p == spec_placement(os, g),
{
    match os {
        HostOs::Windows => {
            let x: i32 = g.monitor_width as i32 - g.window_width as i32 - RIGHT_MARGIN as i32;
            let y: i32 = g.monitor_height as i32 - g.window_height as i32 - BOTTOM_MARGIN as i32;
            PlacementDirective::Physical { x, y }
        },
        HostOs::MacOs => PlacementDirective::Center,
        HostOs::Linux => PlacementDirective::Physical { x: FIXED_X, y: FIXED_Y },
        HostOs::Other => PlacementDirective::Default,
    }
}

} // verus!
