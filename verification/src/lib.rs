//! Verified core of a real-time GPU renderer: fence-synchronized command
//! submission, descriptor-view bump allocation, and ray-tracing acceleration
//! structure (BLAS/TLAS) maintenance, modeled over plain values so that every
//! decision the core makes is checked. The device itself (resource creation,
//! command recording, presentation) lives outside the library; callers hand in
//! what the device reports and carry out the actions the core decides on.

use vstd::prelude::*;

pub mod command;
pub mod math;
pub mod mesh;
pub mod pix;
pub mod present;
pub mod raytracing;
pub mod resource;
pub mod view;

verus! {

/// Startup configuration for the renderer window and debug layers.
pub struct Config {
    pub client_width: u32,
    pub client_height: u32,
    pub debug_layer_enabled: bool,
    pub gpu_validation_enabled: bool,
}

impl Config {
    pub fn client_width(&self) -> (r: u32)
        ensures
            r == self.client_width,
    {
        self.client_width
    }

    pub fn client_height(&self) -> (r: u32)
        ensures
            r == self.client_height,
    {
        self.client_height
    }

    /// GPU-based validation implies the debug layer.
    pub fn debug_layer_enabled(&self) -> (r: bool)
        ensures
            r == (self.debug_layer_enabled || self.gpu_validation_enabled),
    {
        self.debug_layer_enabled || self.gpu_validation_enabled
    }

    pub fn gpu_validation_enabled(&self) -> (r: bool)
        ensures
            r == self.gpu_validation_enabled,
    {
        self.gpu_validation_enabled
    }
}

/// Builds the fixed startup configuration; command-line arguments are
/// accepted but not yet interpreted.
pub fn parse_args(_args: Vec<String>) -> (c: Config)
    ensures
        c.client_width == 1280,
        c.client_height == 720,
        c.debug_layer_enabled,
        c.gpu_validation_enabled,
{
    Config {
        client_width: 1280,
        client_height: 720,
        debug_layer_enabled: true,
        gpu_validation_enabled: true,
    }
}

} // verus!
