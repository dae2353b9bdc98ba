//! Cycle-stepped emulation core for the SM83 processor.
//!
//! The engine is driven from outside, one machine cycle per call of
//! [`cpu::CPU::tick`]. A tick either fetches and decodes an opcode and queues
//! the micro-operations of its instruction, or runs the next queued
//! micro-operation; the fetch of an opcode overlaps the last micro-operation
//! of the instruction before it.
//!
//! The crate is organised leaf-first:
//!
//! * [`util`]: splitting and joining 16-bit words.
//! * [`ram`]: the memory bus with its echo and prohibited regions.
//! * [`alu`]: flag arithmetic shared by every computing micro-operation.
//! * [`decode`]: the opcode decoder.
//! * [`schedule`]: the micro-operations of each instruction and their order.
//! * [`execute`]: what each micro-operation does to the registers and the bus.
//! * [`cpu`]: the register file and the tick-by-tick engine.
//! * [`pipeline`]: what holds of the engine from tick to tick.
//! * [`gb`]: the engine and its bus as one machine.
pub mod alu;
pub mod cpu;
pub mod decode;
pub mod execute;
pub mod gb;
pub mod pipeline;
pub mod ram;
pub mod schedule;
pub mod util;
