//! Frame pacing and external-texture rules of the Windows renderer.
//!
//! The library holds the decisions of the renderer's waitable-present gate,
//! the opt-in DXGI queue limit and the external-texture path: each is a
//! function over plain values, with a contract that states what it returns.
//! The Direct3D and DXGI calls themselves live in the application layer.

pub mod permit;
pub mod latency;
pub mod gate;
pub mod texture;
pub mod cache;
