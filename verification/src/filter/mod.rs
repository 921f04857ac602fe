pub mod gate;
