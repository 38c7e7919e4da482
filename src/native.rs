//! The native entry points, described as plain values.
use vstd::prelude::*;

verus! {

/// Selector of the GLFW windowing backend.
pub const BACKEND_GLFW: i32 = 1;

/// Selector of the controller that navigates two-dimensional axes.
pub const CONTROLLER_AXES_2D: i32 = 2;

/// The flag word that asks for no optional behaviour.
pub const NO_FLAGS: i32 = 0;

/// One call into the native library, with every argument fixed.
///
/// Handles are carried as the integer value of the native pointer.
#[derive(Debug, Clone, Copy, PartialEq, Eq, Structural)]
pub enum NativeCall {
    /// Draw `point_count` points read from a flat coordinate buffer.
    DemoScatter { point_count: i32 },
    /// Create the application against a windowing backend.
    CreateApp { backend: i32 },
    /// Open the GPU numbered `index` of an application.
    CreateGpu { app: u64, index: u32 },
    /// Create a drawable surface on a GPU.
    CreateCanvas { gpu: u64, width: u32, height: u32, flags: i32 },
    /// Lay a grid of `rows` by `cols` panels over a canvas.
    CreateScene { canvas: u64, rows: u32, cols: u32 },
    /// Create the panel at one cell of a scene's grid.
    CreatePanel { scene: u64, row: u32, col: u32, controller: i32, flags: i32 },
    /// Run the application's event loop for `frame_count` frames.
    RunApp { app: u64, frame_count: u64 },
    /// Release the application and everything created from it.
    DestroyApp { app: u64 },
}

} // verus!
