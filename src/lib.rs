//! A cycle-counting emulator for a small 16-bit processor: an instruction
//! store, a data store, and an engine that fetches, decodes and executes.

pub mod ram;
pub mod rom;
pub mod spu;
pub mod lemmas;
