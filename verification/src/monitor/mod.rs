//! What the library computes from the samples that the application reads
//! from the operating system.
pub mod cpu;
pub mod network;
pub mod gpu;
