//! Owned handles of the native resources.
//!
//! Each value holds the one handle the native side returned when it was
//! created. The resources form a chain: an application yields GPUs, a GPU
//! yields canvases, a canvas yields a scene, a scene yields panels. Every
//! `*_call` function fixes the arguments of the native call that creates or
//! drives a resource; `from_handle` takes the handle that call returned.
//! The native side does not report failure here: a null handle is kept as
//! it is, like any other.
use vstd::prelude::*;
use crate::native::{NativeCall, BACKEND_GLFW, CONTROLLER_AXES_2D, NO_FLAGS};

verus! {

/// The native application: the runtime, its windows and event loop.
pub struct App {
    handle: u64,
}

/// A GPU device opened through an application.
pub struct Gpu {
    handle: u64,
}

/// A drawable surface on a GPU.
pub struct Canvas {
    handle: u64,
}

/// A grid of panels laid over a canvas.
pub struct Scene {
    handle: u64,
}

/// One cell of a scene's grid, with its own controller.
pub struct Panel {
    handle: u64,
}

impl View for App {
    type V = u64;

    closed spec fn view(&self) -> u64 {
        self.handle
    }
}

impl View for Gpu {
    type V = u64;

    closed spec fn view(&self) -> u64 {
        self.handle
    }
}

impl View for Canvas {
    type V = u64;

    closed spec fn view(&self) -> u64 {
        self.handle
    }
}

impl View for Scene {
    type V = u64;

    closed spec fn view(&self) -> u64 {
        self.handle
    }
}

impl View for Panel {
    type V = u64;

    closed spec fn view(&self) -> u64 {
        self.handle
    }
}

impl App {
    /// The call that creates an application on the GLFW backend.
    pub fn create_call() -> (r: NativeCall)
        ensures
            r == (NativeCall::CreateApp { backend: BACKEND_GLFW }),
    {
        NativeCall::CreateApp { backend: BACKEND_GLFW }
    }

    /// Takes ownership of the handle that `create_call` returned.
    pub fn from_handle(handle: u64) -> (r: App)
        ensures
            r@ == handle,
    {
        App { handle }
    }

    pub fn handle(&self) -> (r: u64)
        ensures
            r == self@,
    {
        self.handle
    }

    /// The call that runs the event loop for `frame_count` frames. It
    /// returns once those frames are done; the application stays usable.
    pub fn run_call(&self, frame_count: u64) -> (r: NativeCall)
        ensures
            r == (NativeCall::RunApp { app: self@, frame_count }),
    {
        NativeCall::RunApp { app: self.handle, frame_count }
    }

    /// The call that releases the application. The value is consumed, so
    /// no call can be asked of it afterwards.
    pub fn destroy_call(self) -> (r: NativeCall)
        ensures
            r == (NativeCall::DestroyApp { app: self@ }),
    {
        NativeCall::DestroyApp { app: self.handle }
    }
}

impl Gpu {
    /// The call that opens the GPU numbered `index` of `app`.
    pub fn create_call(app: &App, index: u32) -> (r: NativeCall)
        ensures
            r == (NativeCall::CreateGpu { app: app@, index }),
    {
        NativeCall::CreateGpu { app: app.handle(), index }
    }

    /// Takes ownership of the handle that `create_call` returned.
    pub fn from_handle(handle: u64) -> (r: Gpu)
        ensures
            r@ == handle,
    {
        Gpu { handle }
    }

    pub fn handle(&self) -> (r: u64)
        ensures
            r == self@,
    {
        self.handle
    }
}

impl Canvas {
    /// The call that creates a `width` by `height` canvas on `gpu`, with no
    /// optional flags. The dimensions are handed over as given.
    pub fn create_call(gpu: &Gpu, width: u32, height: u32) -> (r: NativeCall)
        ensures
            r == (NativeCall::CreateCanvas { gpu: gpu@, width, height, flags: NO_FLAGS }),
    {
        NativeCall::CreateCanvas { gpu: gpu.handle(), width, height, flags: NO_FLAGS }
    }

    /// Takes ownership of the handle that `create_call` returned.
    pub fn from_handle(handle: u64) -> (r: Canvas)
        ensures
            r@ == handle,
    {
        Canvas { handle }
    }

    pub fn handle(&self) -> (r: u64)
        ensures
            r == self@,
    {
        self.handle
    }
}

impl Scene {
    /// The call that lays a grid of `rows` by `cols` panels over `canvas`.
    pub fn create_call(canvas: &Canvas, rows: u32, cols: u32) -> (r: NativeCall)
        ensures
            r == (NativeCall::CreateScene { canvas: canvas@, rows, cols }),
    {
        NativeCall::CreateScene { canvas: canvas.handle(), rows, cols }
    }

    /// Takes ownership of the handle that `create_call` returned.
    pub fn from_handle(handle: u64) -> (r: Scene)
        ensures
            r@ == handle,
    {
        Scene { handle }
    }

    pub fn handle(&self) -> (r: u64)
        ensures
            r == self@,
    {
        self.handle
    }
}

impl Panel {
    /// The call that creates the panel at (`row`, `col`) of `scene`, driven
    /// by the two-dimensional axes controller, with no optional flags.
    pub fn create_call(scene: &Scene, row: u32, col: u32) -> (r: NativeCall)
        ensures
            r == (NativeCall::CreatePanel {
                scene: scene@,
                row,
                col,
                controller: CONTROLLER_AXES_2D,
                flags: NO_FLAGS,
            }),
    {
        NativeCall::CreatePanel {
            scene: scene.handle(),
            row,
            col,
            controller: CONTROLLER_AXES_2D,
            flags: NO_FLAGS,
        }
    }

    /// Takes ownership of the handle that `create_call` returned.
    pub fn from_handle(handle: u64) -> (r: Panel)
        ensures
            r@ == handle,
    {
        Panel { handle }
    }

    pub fn handle(&self) -> (r: u64)
        ensures
            r == self@,
    {
        self.handle
    }
}

} // verus!
