//! Core of an interactive hexagonal tile map.
//!
//! The library owns the logic of the map editor: converting pointer rays
//! into hex-cell coordinates through a ground-plane intersection and an
//! exact cube-rounding rule, the click/drag state machine of the pointer,
//! the procedural fill of the GPU-resident cell texture, the one-time
//! transition that makes that texture compute-writable, the retrying
//! bind-group preparation, the per-frame compute dispatch decision, and
//! the translation of a committed click into a single-texel write.
//!
//! Rendering, windowing and GPU submission are left to the surrounding
//! application; the library hands it plain values and verified decisions.

pub mod click;
pub mod dispatch;
pub mod fixed;
pub mod hex;
pub mod map_state;
pub mod mouse;
pub mod prepare;
pub mod tiles;
