//! A minimal verified host core for third-party native audio plugins.
//!
//! The library models the plugin-hosting lifecycle: module loading and
//! instantiation, buffer binding for the per-block render call, timed-event
//! delivery ahead of rendering, and the render loop's ordering guarantees.

pub mod buffers;
pub mod callback;
pub mod descriptor;
pub mod errors;
pub mod events;
pub mod instance;
pub mod laws;
pub mod module;
pub mod render_loop;

use vstd::prelude::*;

verus! {

/// A sample value in a synthetic audio block.
pub type Sample = i64;

} // verus!
