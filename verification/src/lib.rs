//! The system bus of an emulated personal computer: memory, memory-mapped and
//! port I/O dispatch, clock-domain conversion and the per-slice scheduling of
//! the installed peripherals.
pub mod access;
pub mod bus;
pub mod bytequeue;
pub mod config;
pub mod cpu;
pub mod device;
pub mod dump;
pub mod event;
pub mod install;
pub mod machine;
pub mod memory;
pub mod mmio;
pub mod ports;
pub mod scheduler;
pub mod slots;
pub mod text;
pub mod timing;
