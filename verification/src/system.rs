//! A bare machine around the processor: 64 KiB of RAM and a trap detector.

use vstd::prelude::*;
use crate::backplane;
use crate::backplane::Backplane;
use crate::cpu::CPU;

verus! {

/// Where programs for the bare machine start.
pub const TEST_START_ADDR: u16 = 0x0400;

/// A host that is nothing but memory. Programs written for it signal that
/// they are done by looping: either back to their start or on the spot.
/// The machine calls both a trap.
pub struct TestSystem {
    /// The 64 KiB of RAM.
    pub mem: [u8; 65536],
    /// The program counter after the previous instruction.
    pub last_addr: u16,
    /// Where the program started.
    pub start_addr: u16,
    /// Whether the last instruction ended in a trap.
    pub in_trap: bool,
}

/// What the processor can learn of a `TestSystem`.
pub struct SystemModel {
    /// The byte in every cell.
    pub cells: Map<u16, u8>,
    /// The program counter after the previous instruction.
    pub last_addr: u16,
    /// Where the program started.
    pub start_addr: u16,
    /// Whether the last instruction ended in a trap.
    pub in_trap: bool,
}

impl TestSystem {
    /// A machine whose memory is all zero and whose program starts at
    /// `TEST_START_ADDR`.
    pub fn new() -> (system: TestSystem)
        ensures
            system@ == (SystemModel {
                cells: Map::new(|a: u16| true, |a: u16| 0u8),
                last_addr: TEST_START_ADDR,
                start_addr: TEST_START_ADDR,
                in_trap: false,
            }),
    {
        let system = TestSystem {
            mem: [0u8; 65536],
            last_addr: TEST_START_ADDR,
            start_addr: TEST_START_ADDR,
            in_trap: false,
        };
        assert(system@.cells =~= Map::new(|a: u16| true, |a: u16| 0u8));
        system
    }

    /// Every page of the machine is RAM.
    pub proof fn lemma_all_ram(page: u8)
        ensures
            backplane::is_ram_page::<TestSystem>(page),
    {
    }
}

impl Backplane for TestSystem {
    type Model = SystemModel;

    open spec fn view(&self) -> SystemModel {
        SystemModel {
            cells: Map::new(|a: u16| true, |a: u16| self.mem@[a as int]),
            last_addr: self.last_addr,
            start_addr: self.start_addr,
            in_trap: self.in_trap,
        }
    }

    open spec fn peek(model: SystemModel, address: u16) -> u8 {
        model.cells[address]
    }

    open spec fn poke(model: SystemModel, address: u16, value: u8) -> SystemModel {
        SystemModel { cells: model.cells.insert(address, value), ..model }
    }

    /// The machine is trapped when the program counter did not move or is
    /// back at the start of the program; a run goes on until then.
    open spec fn observe(model: SystemModel, cpu: CPU) -> (SystemModel, bool) {
        let in_trap = cpu.pc == model.last_addr || cpu.pc == model.start_addr;
        (SystemModel { in_trap, last_addr: cpu.pc, ..model }, !in_trap)
    }

    fn read(&self, address: u16) -> (value: u8) {
        self.mem[address as usize]
    }

    fn write(&mut self, address: u16, value: u8) {
        self.mem[address as usize] = value;
        assert(self@.cells =~= old(self)@.cells.insert(address, value));
    }

    fn each_instr(&mut self, cpu: &CPU) -> (go_on: bool) {
        self.in_trap = cpu.pc == self.last_addr || cpu.pc == self.start_addr;
        self.last_addr = cpu.pc;
        !self.in_trap
    }
}

} // verus!
