//! A verified core of a MOS 6502 microprocessor emulator.
//!
//! Two execution engines share one register/memory abstraction:
//! a fast-path interpreter (`vm`) that executes a whole instruction per
//! call, and a cycle-accurate state machine (`cycle`) that advances one
//! bus cycle per call.  The architectural state of either engine is
//! modelled by spec-level machine records (`model`, `cycle_model`), and
//! every step function is proved equal to its mathematical step relation.

pub mod addr;
pub mod bus;
pub mod consts;
pub mod cpu;
pub mod cycle;
pub mod cycle_model;
pub mod decode;
pub mod inspect;
pub mod laws;
pub mod model;
pub mod vm;
