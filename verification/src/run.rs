//! Fetching and executing instructions, one at a time or for a budget of
//! clock cycles, and entering interrupt handlers.

use vstd::prelude::*;
use crate::backplane::Backplane;
use crate::cpu::{CPU, IRQ_VECTOR, NMI_VECTOR};
use crate::dispatch;
use crate::dispatch::Operation;
use crate::flags;
use crate::flags::FLAG_CONSTANT;

verus! {

/// No instruction takes more clock cycles than this.
pub const MAX_INSTRUCTION_CYCLES: u32 = 8;

impl CPU {
    /// The processor right after it fetched the opcode at the program
    /// counter: Constant is set, and the marks of the previous instruction
    /// are cleared.
    pub open spec fn fetched<T: Backplane>(self, m: T::Model) -> CPU {
        CPU {
            opcode: T::peek(m, self.pc),
            pc: self.pc_after(1),
            status: flags::put_flag(self.status, FLAG_CONSTANT, true),
            penaltyop: false,
            penaltyaddr: false,
            addr_acc: false,
            ..self
        }
    }

    /// The extra cycle of an instruction that pays for page crossings and
    /// whose addressing mode crossed one.
    pub open spec fn penalty(self) -> int {
        if self.penaltyop && self.penaltyaddr {
            1
        } else {
            0
        }
    }

    /// The clock cycles that the instruction at the program counter takes:
    /// the base cycles of its opcode, what its operation charged on top,
    /// and the penalty for a page crossing.
    pub open spec fn next_cost<T: Backplane>(self, m: T::Model) -> int {
        let (c, m1, ticks) = self.fetched::<T>(m).spec_run_one_op::<T>(m);
        ticks + (c.clockticks - self.clockticks) + c.penalty()
    }

    /// The processor and the host after the instruction at the program
    /// counter: fetched, resolved, performed, its cycles added to
    /// `clockticks` and the instruction counted.
    pub open spec fn spec_execute_next<T: Backplane>(self, m: T::Model) -> (CPU, T::Model) {
        let (c, m1, ticks) = self.fetched::<T>(m).spec_run_one_op::<T>(m);
        (
            CPU {
                clockticks: (self.clockticks + self.next_cost::<T>(m)) as u32,
                instructions_ran: if c.instructions_ran == u32::MAX {
                    0
                } else {
                    (c.instructions_ran + 1) as u32
                },
                ..c
            },
            m1,
        )
    }

    /// The host after it was told of a completed instruction, if it is to
    /// be told, and whether a batched run goes on.
    pub open spec fn notified<T: Backplane>(self, m: T::Model) -> (T::Model, bool) {
        if self.do_callback {
            T::observe(m, self)
        } else {
            (m, true)
        }
    }

    /// The processor, the host and the host's answer after one single step.
    pub open spec fn spec_step<T: Backplane>(self, m: T::Model) -> (CPU, T::Model, bool) {
        let (c, m1) = self.spec_execute_next::<T>(m);
        let stepped = CPU { clockgoal: c.clockticks, ..c };
        let (m2, go_on) = stepped.notified::<T>(m1);
        (stepped, m2, go_on)
    }

    /// The cycles that are left until `clockticks` reaches `clockgoal`.
    pub open spec fn remaining(self) -> nat {
        if self.clockticks < self.clockgoal {
            (self.clockgoal - self.clockticks) as nat
        } else {
            0
        }
    }

    /// The processor and the host after instructions were executed until
    /// `clockticks` reached `clockgoal` or the host asked to stop.
    pub open spec fn run_to_goal<T: Backplane>(self, m: T::Model) -> (CPU, T::Model)
        decreases self.remaining(),
        when self.clockgoal <= u32::MAX - MAX_INSTRUCTION_CYCLES
    {
        if self.clockticks >= self.clockgoal {
            (self, m)
        } else {
            proof {
                CPU::lemma_instruction_cost::<T>(self, m);
            }
            let (c, m1) = self.spec_execute_next::<T>(m);
            let (m2, go_on) = c.notified::<T>(m1);
            if go_on {
                c.run_to_goal::<T>(m2)
            } else {
                (c, m2)
            }
        }
    }

    /// The processor and the host after `exec` was asked for `tickcount`
    /// more cycles.
    pub open spec fn spec_exec<T: Backplane>(self, m: T::Model, tickcount: u32) -> (CPU, T::Model) {
        CPU { clockgoal: (self.clockgoal + tickcount) as u32, ..self }.run_to_goal::<T>(m)
    }

    /// Resolving an operand touches neither the counters nor the flags nor
    /// the mark of the operation.
    pub proof fn lemma_resolve_keeps<T: Backplane>(self, mode: dispatch::AddrMode, m: T::Model)
        ensures
            ({
                let r = self.resolve::<T>(mode, m);
                &&& r.clockticks == self.clockticks
                &&& r.clockgoal == self.clockgoal
                &&& r.instructions_ran == self.instructions_ran
                &&& r.do_callback == self.do_callback
                &&& r.opcode == self.opcode
                &&& r.status == self.status
                &&& r.penaltyop == self.penaltyop
            }),
    {
        reveal(CPU::resolve);
    }

    /// What an operation may charge on top of its base cycles: up to two
    /// cycles for a branch, up to one for ADC and SBC, nothing otherwise.
    pub open spec fn extra_cycles_max(op: Operation) -> int {
        if CPU::is_branch(op) {
            2
        } else if op == Operation::Adc || op == Operation::Sbc {
            1
        } else {
            0
        }
    }

    /// Whether `op` acts as NOP.
    pub open spec fn acts_as_nop(op: Operation) -> bool {
        match op {
            Operation::Nop
            | Operation::Lax
            | Operation::Sax
            | Operation::Dcp
            | Operation::Isb
            | Operation::Slo
            | Operation::Rla
            | Operation::Sre
            | Operation::Rra => true,
            _ => false,
        }
    }

    /// Performing an operation keeps the goal, the hook setting, the
    /// opcode, the instruction counter and the mark of the addressing mode;
    /// it adds no more to `clockticks` than `extra_cycles_max` allows.
    #[verifier::rlimit(50)]
    pub proof fn lemma_perform_keeps<T: Backplane>(self, op: Operation, m: T::Model)
        requires
            self.clockticks <= u32::MAX - 2,
        ensures
            ({
                let (p, m1) = self.perform::<T>(op, m);
                &&& p.clockgoal == self.clockgoal
                &&& p.do_callback == self.do_callback
                &&& p.opcode == self.opcode
                &&& p.instructions_ran == self.instructions_ran
                &&& p.penaltyaddr == self.penaltyaddr
                &&& self.clockticks <= p.clockticks <= self.clockticks + CPU::extra_cycles_max(op)
                &&& CPU::acts_as_nop(op) ==> p.penaltyop == (self.penaltyop || CPU::nop_pays(
                    self.opcode,
                ))
            }),
    {
        reveal(CPU::perform);
    }

    /// What the opcode table allows an instruction to cost at most.
    pub proof fn lemma_table_bounds(opcode: u8)
        ensures
            2 <= dispatch::base_cycles(opcode) <= 8,
            CPU::extra_cycles_max(dispatch::operation_of(opcode)) == 2 ==> dispatch::base_cycles(
                opcode,
            ) == 2,
            CPU::extra_cycles_max(dispatch::operation_of(opcode)) == 1 ==> dispatch::base_cycles(
                opcode,
            ) <= 6,
            dispatch::base_cycles(opcode) == 8 ==> CPU::acts_as_nop(dispatch::operation_of(opcode))
                && !CPU::nop_pays(opcode),
    {
    }

    /// Every instruction keeps the goal and the hook setting and takes at
    /// least two and at most `MAX_INSTRUCTION_CYCLES` clock cycles.
    pub proof fn lemma_instruction_cost<T: Backplane>(self, m: T::Model)
        requires
            self.clockticks <= u32::MAX - MAX_INSTRUCTION_CYCLES,
        ensures
            2 <= self.next_cost::<T>(m) <= MAX_INSTRUCTION_CYCLES,
            ({
                let (c, m1, ticks) = self.fetched::<T>(m).spec_run_one_op::<T>(m);
                self.clockticks <= c.clockticks
            }),
            ({
                let (c, m1) = self.spec_execute_next::<T>(m);
                &&& c.clockgoal == self.clockgoal
                &&& c.do_callback == self.do_callback
                &&& c.clockticks == self.clockticks + self.next_cost::<T>(m)
            }),
    {
        let f = self.fetched::<T>(m);
        let mode = dispatch::mode_of(f.opcode);
        let op = dispatch::operation_of(f.opcode);
        let r = f.resolve::<T>(mode, m);
        f.lemma_resolve_keeps::<T>(mode, m);
        r.lemma_perform_keeps::<T>(op, m);
        CPU::lemma_table_bounds(f.opcode);
    }

    fn execute_next<T: Backplane>(&mut self, mem: &mut T)
        requires
            old(self).clockticks <= u32::MAX - MAX_INSTRUCTION_CYCLES,
        ensures
            (*final(self), final(mem)@) == old(self).spec_execute_next::<T>(old(mem)@),
    {
        proof {
            old(self).lemma_instruction_cost::<T>(old(mem)@);
        }
        self.opcode = mem.read(self.pc);
        self.pc = self.pc.wrapping_add(1);
        self.flagset(FLAG_CONSTANT);
        self.penaltyop = false;
        self.penaltyaddr = false;
        self.addr_acc = false;
        let ticks: u32 = self.run_one_op(mem);
        self.clockticks += ticks;
        if self.penaltyop && self.penaltyaddr {
            self.clockticks += 1;
        }
        self.instructions_ran = self.instructions_ran.wrapping_add(1);
    }

    /// Executes the instruction at the program counter, sets the goal of
    /// `exec` to the cycles consumed so far and, if the hook is enabled,
    /// tells the host. Returns the host's answer, `true` without a hook.
    pub fn step<T: Backplane>(&mut self, mem: &mut T) -> (go_on: bool)
        requires
            old(self).clockticks <= u32::MAX - MAX_INSTRUCTION_CYCLES,
        ensures
            (*final(self), final(mem)@, go_on) == old(self).spec_step::<T>(old(mem)@),
            old(self).clockticks + 2 <= final(self).clockticks <= old(self).clockticks
                + MAX_INSTRUCTION_CYCLES,
    {
        proof {
            old(self).lemma_instruction_cost::<T>(old(mem)@);
        }
        self.execute_next(mem);
        self.clockgoal = self.clockticks;
        if self.do_callback {
            mem.each_instr(self)
        } else {
            true
        }
    }

    /// Raises the goal by `tickcount` cycles and executes instructions
    /// until the cycles consumed reach it; the last instruction may
    /// overshoot it. While the hook is enabled, the host is told after
    /// every instruction and ends the run by answering `false`.
    pub fn exec<T: Backplane>(&mut self, mem: &mut T, tickcount: u32)
        requires
            old(self).clockgoal + tickcount <= u32::MAX - MAX_INSTRUCTION_CYCLES,
        ensures
            (*final(self), final(mem)@) == old(self).spec_exec::<T>(old(mem)@, tickcount),
            final(self).clockgoal == old(self).clockgoal + tickcount,
            final(self).clockticks >= old(self).clockticks,
            final(self).clockticks == old(self).clockticks || final(self).clockticks
                < old(self).clockgoal + tickcount + MAX_INSTRUCTION_CYCLES,
            !old(self).do_callback ==> final(self).clockticks >= final(self).clockgoal,
    {
        self.clockgoal += tickcount;
        let ghost start = *self;
        let ghost host = mem@;
        while self.clockticks < self.clockgoal
            invariant_except_break
                self.clockgoal <= u32::MAX - MAX_INSTRUCTION_CYCLES,
                self.run_to_goal::<T>(mem@) == start.run_to_goal::<T>(host),
                self.clockgoal == start.clockgoal,
                self.do_callback == start.do_callback,
                self.clockticks >= start.clockticks,
                self.clockticks == start.clockticks || self.clockticks < self.clockgoal
                    + MAX_INSTRUCTION_CYCLES,
            ensures
                (*self, mem@) == start.run_to_goal::<T>(host),
                self.clockgoal == start.clockgoal,
                self.clockticks >= start.clockticks,
                self.clockticks == start.clockticks || self.clockticks < self.clockgoal
                    + MAX_INSTRUCTION_CYCLES,
                !start.do_callback ==> self.clockticks >= self.clockgoal,
            decreases self.remaining(),
        {
            proof {
                self.lemma_instruction_cost::<T>(mem@);
            }
            self.execute_next(mem);
            if self.do_callback {
                if !mem.each_instr(self) {
                    break;
                }
            }
        }
    }

    /// Enters the IRQ handler: pushes the program counter and the status
    /// as it is, disables interrupts and continues at the address kept in
    /// the IRQ vector. The Interrupt flag is not consulted: a host that
    /// wants it honoured looks at it before calling.
    pub fn irq<T: Backplane>(&mut self, mem: &mut T)
        ensures
            (*final(self), final(mem)@) == old(self).entered::<T>(
                old(mem)@,
                old(self).pc,
                old(self).status,
                IRQ_VECTOR,
            ),
    {
        let status: u8 = self.status;
        self.enter(mem, status, IRQ_VECTOR);
    }

    /// Enters the NMI handler: like `irq`, but the address comes from the
    /// NMI vector.
    pub fn nmi<T: Backplane>(&mut self, mem: &mut T)
        ensures
            (*final(self), final(mem)@) == old(self).entered::<T>(
                old(mem)@,
                old(self).pc,
                old(self).status,
                NMI_VECTOR,
            ),
    {
        let status: u8 = self.status;
        self.enter(mem, status, NMI_VECTOR);
    }
}

} // verus!
