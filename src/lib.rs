//! A verified core for an immediate-mode GUI overlay renderer on a fixed-function
//! 3D pipeline: grow-only staging buffers, a texture registry with channel
//! conversion, the per-frame texture negotiation, the list of device calls of a
//! frame, and the order in which device state is restored.

pub mod buffer;
pub mod color;
pub mod error;
pub mod texture;
pub mod sync;
pub mod frame;
pub mod state;
pub mod engine;
