pub mod ipc;
