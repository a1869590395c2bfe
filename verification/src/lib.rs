//! Cycle-accurate simulator core for a custom 32-bit RISC processor.
//!
//! The crate models the instruction decoder (two encodings), the register
//! file, a typed word-addressed memory with spies, the five-stage datapath
//! with its timing model, and the debugger-facing simulator facade.
//!
//! Every function is verified against a contract. The contracts are stated
//! over plain values: each type with state has a view (`CpuState`,
//! `MemoryView`, `RegFileState`, `SimState`), and what a function does is a
//! function of views. Floats are bit patterns throughout; their arithmetic
//! is the business of a backend that the host supplies (`fpu::Fpu`), as the
//! devices are (`io::Input`, `io::Output`).
//!
//! - `bin`, `isa`, `register`, `ty`, `text`: bit fields, the two encodings,
//!   register names, run-time types, numbers as text.
//! - `instr`, `decode_instr`, `decode_instr_2nd`: instructions and decoders.
//! - `memory`, `reg_file`, `cache`, `branch_predictor`, `stat`: the state of
//!   the processor and its statistics.
//! - `execute`, `fpu`, `io`, `cpu`: what instructions compute, and the cycle.
//! - `sim`, `breakpoint`, `common`, `debug_symbol`: the simulator and its
//!   debugger.
//! - `sld`, `ppm`: the scene that a program reads and the picture it writes.

pub mod bin;
pub mod branch_predictor;
pub mod breakpoint;
pub mod cache;
pub mod common;
pub mod cpu;
pub mod debug_symbol;
pub mod decode_instr;
pub mod decode_instr_2nd;
pub mod execute;
pub mod fpu;
pub mod instr;
pub mod io;
pub mod isa;
pub mod memory;
pub mod ppm;
pub mod reg_file;
pub mod register;
pub mod sim;
pub mod sld;
pub mod stat;
pub mod text;
pub mod ty;
