//! A viewer for fragment shaders written in the Shadertoy dialect: the rules
//! by which one full-screen fragment program is chosen, composed, checked,
//! reloaded while it runs and fed its per-frame uniforms.
//!
//! The window, the GPU, the file system and the network are the caller's
//! business. The caller hands this library what it read or received and acts
//! on what the library decides.

pub mod argvalues;
pub mod clock;
pub mod download;
pub mod error;
pub mod loader;
pub mod runner;
pub mod text;
pub mod uniforms;
pub mod watch;
