//! The bus between the processor and its host.

use vstd::prelude::*;
use crate::cpu::CPU;

verus! {

/// The 64 KiB address space that the processor is plugged into.
///
/// The processor owns no memory. Every load and store goes through `read`
/// and `write`, which the host is free to map onto RAM, ROM or device
/// registers. What the host does is described by three functions on its
/// `Model`: what a read returns, what a write leaves behind, and how the
/// host reacts to a completed instruction. Everything that is stated of the
/// processor is stated over these functions, for every host.
///
/// A host that comes with proofs defines the model and the three
/// functions, and shows that its methods follow them. A host without
/// proofs picks any `Model`, `()` will do, and writes the three methods
/// only.
pub trait Backplane {
    /// What the host looks like to the processor.
    type Model;

    /// The model of this host. Left unspecified unless a host says more.
    open spec fn view(&self) -> Self::Model {
        arbitrary()
    }

    /// The byte that a read of `address` returns.
    open spec fn peek(model: Self::Model, address: u16) -> u8 {
        arbitrary()
    }

    /// The host after `value` was written to `address`.
    open spec fn poke(model: Self::Model, address: u16, value: u8) -> Self::Model {
        arbitrary()
    }

    /// The host after it was shown `cpu` at the end of an instruction, and
    /// whether it lets a batched run go on.
    open spec fn observe(model: Self::Model, cpu: CPU) -> (Self::Model, bool) {
        arbitrary()
    }

    /// The byte at `address`.
    fn read(&self, address: u16) -> (value: u8)
        ensures
            value == Self::peek(self@, address),
    ;

    /// Stores `value` at `address`, or does whatever else the host does
    /// with a write there.
    fn write(&mut self, address: u16, value: u8)
        ensures
            final(self)@ == Self::poke(old(self)@, address, value),
    ;

    /// Called once after every instruction while `CPU::do_callback` is set.
    /// Returning `false` ends a batched run after this instruction.
    fn each_instr(&mut self, cpu: &CPU) -> (go_on: bool)
        ensures
            (final(self)@, go_on) == Self::observe(old(self)@, *cpu),
    ;
}

/// Whether the page `page` of every host of type `T` behaves as memory: a
/// read of a cell of the page returns what was last written to that cell,
/// and a write to another cell of the page does not change it.
pub open spec fn is_ram_page<T: Backplane>(page: u8) -> bool {
    forall|m: T::Model, written: u16, value: u8, read: u16|
        #![trigger T::peek(T::poke(m, written, value), read)]
        written / 256 == page && read / 256 == page ==> T::peek(T::poke(m, written, value), read)
            == (if written == read {
            value
        } else {
            T::peek(m, read)
        })
}

} // verus!
