//! Core logic of a periodic strain-gauge acquisition and logging task.
//!
//! The library contains the verified heart of the task: ratiometric
//! calibration of raw converter codes, packing of calibrated sample pairs
//! into fixed-size log records, the append-only cursor discipline of the
//! flash log, the flight-mode gate, and the per-tick protocol that orders
//! excitation control, sampling, and writing. All hardware access (the
//! converter, the excitation pin, the flash bus, the ticker) is performed
//! by a surrounding driver that executes the actions this library emits
//! and feeds the resulting events back in.

pub mod calibrate;
pub mod laws;
pub mod mode;
pub mod record;
pub mod task;
