//! A verified instruction-execution core for the LR35902, the Game Boy's
//! 8-bit CPU: register file and flags, a data-driven opcode table, and the
//! fetch-decode-execute engine with cycle accounting.
//!
//! The core works on plain values only. Loading a cartridge image from disk
//! and reporting fatal errors are the host's job; the host hands the core a
//! byte vector and drives it one `step` at a time.

pub mod bus;
pub mod cpu;
pub mod instruction_factory;
pub mod instruction_impl;
pub mod instructions_loader;
pub mod lr35902_instructions_impl;
pub mod rom;
