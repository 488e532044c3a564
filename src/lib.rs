//! Construction and lifecycle of a render group made of one graphics pipeline: the
//! resolved pipeline state with its defaults, the packing of vertex buffers into
//! bindings and attribute locations, the build session that sequences device work
//! and unwinds it on failure, the teardown order, and width-safe integer helpers.

pub mod group;
pub mod pipeline;
pub mod session;
pub mod util;
pub mod vertex;
