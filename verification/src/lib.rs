//! Verified core of a buffer-mapping subsystem for a graphics device
//! abstraction.
//!
//! The heart of the crate is [`mapping`]: usage-based access validation,
//! mutual exclusion between host mappings of one buffer, and
//! synchronization against outstanding device work before any host read
//! or write. [`memory`] and [`handle`] model the values that flow through
//! it: access modes, usages, buffers and fences. [`host`] supplies a
//! host-memory backend so the core can be exercised end to end.
//!
//! The crate root keeps the small application-shell surface: the shading
//! [`Backend`] selector, the window [`Config`], and the per-backend launch
//! traits that window shells implement outside the verified core.

use vstd::prelude::*;

pub mod handle;
pub mod host;
pub mod mapping;
pub mod memory;

verus! {

/// The rendering backend an application shell drives.
pub enum Backend {
    /// OpenGL 2-era context.
    OpenGL2,
    /// Direct3D 11 context.
    Direct3D11 {
        /// Shade in pixel mode rather than vertex mode.
        pix_mode: bool,
    },
    /// Metal context.
    Metal,
}

/// Window configuration an application is launched with.
pub struct Config {
    /// Window size in pixels: width, then height.
    pub size: (u16, u16),
}

impl Default for Config {
    /// The stock window size.
    fn default() -> (c: Config)
        ensures
            c.size.0 == 800,
            c.size.1 == 520,
    {
        Config { size: (800, 520) }
    }
}

/// Entry point of an application shell running on an OpenGL window.
/// Implementations live with the windowing code, outside the verified
/// core; they open the window and drive the event loop.
pub trait ApplicationGL {
    /// Open a window titled `title` and run until the window closes.
    fn launch(title: &str, config: Config);
}

/// Entry point of an application shell running on a Direct3D 11 window.
pub trait ApplicationD3D11 {
    /// Open a window titled `title` and run until the window closes.
    fn launch(title: &str, config: Config);
}

/// Entry point of an application shell running on a Metal window.
pub trait ApplicationMetal {
    /// Open a window titled `title` and run until the window closes.
    fn launch(title: &str, config: Config);
}

/// Entry point of an application shell running on a Vulkan window.
pub trait ApplicationVulkan {
    /// Open a window titled `title` and run until the window closes.
    fn launch(title: &str, config: Config);
}

} // verus!
