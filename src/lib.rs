//! Embedding layer that runs an immediate-mode UI inside a host-owned native window:
//! input translation, a per-frame repaint scheduler and the ordering rules of the
//! rendering bridge, all over plain values.
pub mod translate;
pub mod units;
pub mod input;
pub mod window;
pub mod renderer;
