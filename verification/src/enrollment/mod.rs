pub mod recorder;
pub mod profile;
