//! A typed layer over the datoviz native visualization library.
//!
//! The native library is reached through opaque handles. This crate keeps
//! each handle in a value of its own type and decides, for every native
//! entry point, the exact arguments of the call. Performing a call is left to
//! the program that links the native library: it executes a `NativeCall`
//! and hands the returned handle back to the matching `from_handle`.
use vstd::prelude::*;

pub mod native;
pub mod handles;
pub mod scatter;

pub use native::NativeCall;
pub use handles::{App, Gpu, Canvas, Scene, Panel};
pub use scatter::PointLayout;
