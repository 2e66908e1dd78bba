use vstd::prelude::*;
use crate::mmap::{MAX_RAM, MEMORY_SIZE};

verus! {

/// Failures of memory accesses and of serial transfers.
#[derive(Clone, Copy, Debug, PartialEq, Eq, Structural)]
pub enum Fault {
    /// The address lies outside `0..=MAX_RAM`.
    OutOfRange,
    /// The device has no cable, or its cable slot holds none.
    NoCableConnected,
}

/// A 64 KiB byte store in which every address `0..=MAX_RAM` can be read and
/// written.
pub struct AddressSpace {
    bytes: Vec<u8>,
}

impl View for AddressSpace {
    type V = Seq<u8>;

    closed spec fn view(&self) -> Seq<u8> {
        self.bytes@
    }
}

impl AddressSpace {
    pub open spec fn wf(&self) -> bool {
        self@.len() == MEMORY_SIZE
    }

    /// An address space holding zero at every address.
    pub fn new() -> (r: AddressSpace)
        ensures
            r.wf(),
            forall|a: int| 0 <= a < MEMORY_SIZE ==> #[trigger] r@[a] == 0,
    {
        let mut bytes: Vec<u8> = Vec::new();
        let mut i: usize = 0;
        while i < MEMORY_SIZE
            invariant
                i <= MEMORY_SIZE,
                bytes@.len() == i,
                forall|a: int| 0 <= a < i ==> #[trigger] bytes@[a] == 0,
            decreases MEMORY_SIZE - i,
        {
            bytes.push(0);
            i += 1;
        }
        AddressSpace { bytes }
    }

    /// The byte at `address`.
    pub fn read(&self, address: usize) -> (r: Result<u8, Fault>)
        requires
            self.wf(),
        ensures
            address <= MAX_RAM ==> r == Ok::<u8, Fault>(self@[address as int]),
            address > MAX_RAM ==> r == Err::<u8, Fault>(Fault::OutOfRange),
    {
        if address <= MAX_RAM {
            Ok(self.bytes[address])
        } else {
            Err(Fault::OutOfRange)
        }
    }

    /// Stores `value` at `address` and returns the byte it replaced.
    pub fn write(&mut self, address: usize, value: u8) -> (r: Result<u8, Fault>)
        requires
            old(self).wf(),
        ensures
            final(self).wf(),
            address <= MAX_RAM ==> {
                &&& r == Ok::<u8, Fault>(old(self)@[address as int])
                &&& final(self)@ == old(self)@.update(address as int, value)
            },
            address > MAX_RAM ==> {
                &&& r == Err::<u8, Fault>(Fault::OutOfRange)
                &&& final(self)@ == old(self)@
            },
    {
        if address <= MAX_RAM {
            let previous = self.bytes[address];
            self.bytes.set(address, value);
            Ok(previous)
        } else {
            Err(Fault::OutOfRange)
        }
    }

    /// The byte at a 16-bit address; every such address is in range.
    pub fn byte(&self, address: u16) -> (r: u8)
        requires
            self.wf(),
        ensures
            r == self@[address as int],
    {
        self.bytes[address as usize]
    }

    /// Stores `value` at a 16-bit address and returns the byte it replaced.
    pub fn set_byte(&mut self, address: u16, value: u8) -> (r: u8)
        requires
            old(self).wf(),
        ensures
            final(self).wf(),
            r == old(self)@[address as int],
            final(self)@ == old(self)@.update(address as int, value),
    {
        let previous = self.bytes[address as usize];
        self.bytes.set(address as usize, value);
        previous
    }

    /// The whole store, for the dumps.
    pub fn snapshot(&self) -> (r: &Vec<u8>)
        ensures
            r@ == self@,
    {
        &self.bytes
    }
}

/// Writing a byte and then reading the same address gives that byte back, at
/// every address of the address space.
pub proof fn lemma_write_then_read(memory: Seq<u8>, address: int, value: u8)
    requires
        memory.len() == MEMORY_SIZE,
        0 <= address <= MAX_RAM,
    ensures
        memory.update(address, value).len() == MEMORY_SIZE,
        memory.update(address, value)[address] == value,
{
}

} // verus!
