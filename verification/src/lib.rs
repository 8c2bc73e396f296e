//! A cycle-counted MOS 6502 core.
//!
//! The processor is a [`CPU`] value. It owns no memory: every instruction
//! reaches the 64 KiB address space through a host that implements
//! [`Backplane`]. [`CPU::exec`] runs instructions for a budget of clock
//! cycles, [`CPU::step`] runs one, and [`CPU::reset`], [`CPU::irq`] and
//! [`CPU::nmi`] are called by the host between instructions.
//!
//! Every function states what it does to the processor and to the host as a
//! function of both, so that the processor is deterministic by
//! construction; `laws` collects what follows for every program.
//!
//! Decimal mode is honoured by ADC and SBC. The undocumented opcodes are
//! decoded but act as NOP.

pub mod bits;
pub mod flags;
pub mod backplane;
pub mod cpu;
pub mod addressing;
pub mod logic;
pub mod arithmetic;
pub mod moves;
pub mod control;
pub mod dispatch;
pub mod run;
pub mod system;
pub mod laws;

pub use crate::backplane::Backplane;
pub use crate::cpu::CPU;
pub use crate::system::{TestSystem, TEST_START_ADDR};
