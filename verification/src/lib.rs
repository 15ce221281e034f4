//! Core logic of a lightweight PC benchmark agent: disk-tier classification,
//! the shared progress/result state of a benchmark run, request routing for the
//! local web UI, the integer kernels of the CPU and memory benchmarks, aligned
//! IO buffers, and the summary of the detected hardware inventory.

pub mod browser;
pub mod cpu;
pub mod disk;
pub mod hardware;
pub mod inventory;
pub mod memory;
pub mod score;
pub mod server;
pub mod state;
pub mod text;
