pub mod buffer;
pub mod gating;
pub mod output;
pub mod frames;
