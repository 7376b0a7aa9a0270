//! An emulator for a 32-bit base-integer RISC machine: little-endian, with 32 registers of
//! which register 0 is hard-wired to zero.
//!
//! - [`rv32`]: instruction words, their fields and immediates, and the decoder.
//! - [`mem`]: flat byte-addressable memory.
//! - [`models`]: the state of the machine, the meaning of each instruction, and the
//!   interpreter that fetches, decodes and executes.
//! - [`image`]: executable images and the loader.
//! - [`uarch`]: the same machine as a pipeline of five stages.
//! - [`storage`], [`rename`], [`effects`]: building blocks for out-of-order models:
//!   renamed registers with their backing stores, execution units over them, and an
//!   intermediate form of effects.

pub mod effects;
mod entropy;
pub mod image;
pub mod mem;
pub mod models;
pub mod rename;
pub mod rv32;
pub mod storage;
pub mod uarch;
