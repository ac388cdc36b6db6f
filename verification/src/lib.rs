//! Host-side core of a full-screen fragment shader viewer.
//!
//! The host owns a window, a GPU session and one render pipeline, and draws
//! a frame on every tick of the display. This library holds what the host
//! decides and none of what it performs:
//!
//! - [`params`]: the parameter block that every frame pushes to the shader,
//!   and its layout in memory;
//! - [`input`]: the tracker that folds pointer and key events into the
//!   block's cursor, drag and click fields;
//! - [`session`]: the start-up negotiation with the GPU and the life of the
//!   session;
//! - [`render_loop`]: the answer to each window event, and the content of
//!   each frame;
//! - [`shader`]: the interface in front of the fragment payload;
//! - [`scalar`]: single-precision values as the host carries them.
//!
//! Window, event loop, device and clock belong to the caller. The caller
//! reports what happened as plain events and carries out the plain actions
//! that come back.

pub mod input;
pub mod params;
pub mod render_loop;
pub mod scalar;
pub mod session;
pub mod shader;
