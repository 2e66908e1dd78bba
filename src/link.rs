use vstd::prelude::*;
use uuid::Uuid;
use crate::memory::{AddressSpace, Fault};
use crate::mmap::{
    block_starts, describes, DumpBlock, MemoryMap, IO_START, MEMORY_SIZE, SERIAL_CONTROL,
    SERIAL_DATA,
};

verus! {

#[verifier::external_type_specification]
#[verifier::external_body]
pub struct ExUuid(Uuid);

/// Relies on uuid::Uuid::new_v4 for a fresh random identity; nothing is
/// known of its value.
pub assume_specification[ Uuid::new_v4 ]() -> Uuid;

/// A serial link cable: one shared byte, the line's current state, with an
/// identity. Devices refer to a cable by its slot in a list that the driver
/// owns; they never own it.
#[derive(Clone, Copy)]
pub struct Cable {
    id: Uuid,
    state: u8,
}

impl Cable {
    /// The byte on the line.
    pub closed spec fn value(&self) -> u8 {
        self.state
    }

    pub closed spec fn identity(&self) -> Uuid {
        self.id
    }

    pub fn new() -> (r: Cable)
        ensures
            r.value() == 0,
    {
        Cable { id: Uuid::new_v4(), state: 0 }
    }

    pub fn read_state(&self) -> (r: u8)
        ensures
            r == self.value(),
    {
        self.state
    }

    /// Drives `value` onto the line, replacing whatever was there.
    pub fn write_state(&mut self, value: u8)
        ensures
            final(self).value() == value,
            final(self).identity() == old(self).identity(),
    {
        self.state = value;
    }

    pub fn get_id(&self) -> (r: Uuid)
        ensures
            r == self.identity(),
    {
        self.id
    }
}

/// The bytes on a list of cables.
pub open spec fn line_values(cables: Seq<Cable>) -> Seq<u8> {
    cables.map_values(|c: Cable| c.value())
}

/// The identities of a list of cables.
pub open spec fn identities(cables: Seq<Cable>) -> Seq<Uuid> {
    cables.map_values(|c: Cable| c.identity())
}

/// A device's memory and its cable slot, if any.
pub struct DeviceView {
    pub memory: Seq<u8>,
    pub link: Option<usize>,
}

/// `link` names a slot that holds a cable.
pub open spec fn connected(link: Option<usize>, lines: Seq<u8>) -> bool {
    link is Some && link.unwrap() < lines.len()
}

/// The master's free-running transfer counter: one more, wrapping from 255 to 0.
pub open spec fn next_count(v: u8) -> u8 {
    if v == 255 {
        0
    } else {
        (v + 1) as u8
    }
}

/// The device acts as master for a step exactly when SERIAL_CONTROL is 0xFF.
pub open spec fn is_master(memory: Seq<u8>) -> bool {
    memory[SERIAL_CONTROL as int] == 0xFF
}

/// Lines after sending `v` through `link`, and the outcome.
pub open spec fn send_result(link: Option<usize>, lines: Seq<u8>, v: u8) -> (
    Seq<u8>,
    Result<u8, Fault>,
) {
    if connected(link, lines) {
        (lines.update(link.unwrap() as int, v), Ok(v))
    } else {
        (lines, Err(Fault::NoCableConnected))
    }
}

/// Memory after copying the line's byte into SERIAL_DATA, and the outcome:
/// the byte that SERIAL_DATA held before.
pub open spec fn receive_result(dev: DeviceView, lines: Seq<u8>) -> (Seq<u8>, Result<u8, Fault>) {
    if connected(dev.link, lines) {
        (
            dev.memory.update(SERIAL_DATA as int, lines[dev.link.unwrap() as int]),
            Ok(dev.memory[SERIAL_DATA as int]),
        )
    } else {
        (dev.memory, Err(Fault::NoCableConnected))
    }
}

/// One step of the serial transfer: the device, the lines and the outcome
/// afterwards. A master advances its counter in SERIAL_DATA, keeps it even
/// without a cable, and drives it onto its line; any other device copies its
/// line into SERIAL_DATA.
pub open spec fn step(dev: DeviceView, lines: Seq<u8>) -> (DeviceView, Seq<u8>, Result<(), Fault>) {
    if is_master(dev.memory) {
        let next = next_count(dev.memory[SERIAL_DATA as int]);
        let memory = dev.memory.update(SERIAL_DATA as int, next);
        let (after, sent) = send_result(dev.link, lines, next);
        (
            DeviceView { memory, link: dev.link },
            after,
            match sent {
                Ok(_) => Ok(()),
                Err(e) => Err(e),
            },
        )
    } else {
        let (memory, got) = receive_result(dev, lines);
        (
            DeviceView { memory, link: dev.link },
            lines,
            match got {
                Ok(_) => Ok(()),
                Err(e) => Err(e),
            },
        )
    }
}

/// A console: an identity, its own address space, and at most one cable slot.
pub struct Gameboy {
    id: Uuid,
    link_port: Option<usize>,
    memory: AddressSpace,
}

impl View for Gameboy {
    type V = DeviceView;

    closed spec fn view(&self) -> DeviceView {
        DeviceView { memory: self.memory@, link: self.link_port }
    }
}

impl Gameboy {
    pub open spec fn wf(&self) -> bool {
        self@.memory.len() == MEMORY_SIZE
    }

    pub closed spec fn identity(&self) -> Uuid {
        self.id
    }

    /// A device with zeroed memory and no cable.
    pub fn new() -> (r: Gameboy)
        ensures
            r.wf(),
            r@.link is None,
            forall|a: int| 0 <= a < MEMORY_SIZE ==> #[trigger] r@.memory[a] == 0,
    {
        Gameboy { id: Uuid::new_v4(), link_port: None, memory: AddressSpace::new() }
    }

    pub fn get_id(&self) -> (r: Uuid)
        ensures
            r == self.identity(),
    {
        self.id
    }

    /// Plugs the device into the cable at `slot` of the driver's cable list.
    pub fn link_cable(&mut self, slot: usize)
        ensures
            final(self)@.link == Some(slot),
            final(self)@.memory == old(self)@.memory,
            final(self).identity() == old(self).identity(),
    {
        self.link_port = Some(slot);
    }

    pub fn link_is_connected(&self) -> (r: bool)
        ensures
            r == self@.link is Some,
    {
        match self.link_port {
            Some(_) => true,
            None => false,
        }
    }

    /// Stores `value` at `address` and returns the byte it replaced.
    pub fn write_byte(&mut self, address: u16, value: u8) -> (r: Result<u8, Fault>)
        requires
            old(self).wf(),
        ensures
            final(self).wf(),
            r == Ok::<u8, Fault>(old(self)@.memory[address as int]),
            final(self)@.memory == old(self)@.memory.update(address as int, value),
            final(self)@.link == old(self)@.link,
            final(self).identity() == old(self).identity(),
    {
        Ok(self.memory.set_byte(address, value))
    }

    /// The byte at `address`; every 16-bit address can be read.
    pub fn read_byte(&self, address: u16) -> (r: Result<u8, Fault>)
        requires
            self.wf(),
        ensures
            r == Ok::<u8, Fault>(self@.memory[address as int]),
    {
        Ok(self.memory.byte(address))
    }

    /// Drives `outgoing` onto this device's cable.
    pub fn send(&self, cables: &mut Vec<Cable>, outgoing: u8) -> (r: Result<u8, Fault>)
        ensures
            (line_values(final(cables)@), r) == send_result(
                self@.link,
                line_values(old(cables)@),
                outgoing,
            ),
            final(cables)@.len() == old(cables)@.len(),
            identities(final(cables)@) == identities(old(cables)@),
    {
        match self.link_port {
            Some(slot) => {
                if slot < cables.len() {
                    let mut cable = cables[slot];
                    cable.write_state(outgoing);
                    cables.set(slot, cable);
                    assert(line_values(cables@) =~= line_values(old(cables)@).update(
                        slot as int,
                        outgoing,
                    ));
                    assert(identities(cables@) =~= identities(old(cables)@));
                    Ok(outgoing)
                } else {
                    Err(Fault::NoCableConnected)
                }
            },
            None => Err(Fault::NoCableConnected),
        }
    }

    /// Copies the byte on this device's cable into SERIAL_DATA and returns
    /// the byte it replaced.
    pub fn read_cable(&mut self, cables: &Vec<Cable>) -> (r: Result<u8, Fault>)
        requires
            old(self).wf(),
        ensures
            final(self).wf(),
            (final(self)@.memory, r) == receive_result(old(self)@, line_values(cables@)),
            final(self)@.link == old(self)@.link,
            final(self).identity() == old(self).identity(),
    {
        match self.link_port {
            Some(slot) => {
                if slot < cables.len() {
                    let data = cables[slot].read_state();
                    self.write_byte(SERIAL_DATA as u16, data)
                } else {
                    Err(Fault::NoCableConnected)
                }
            },
            None => Err(Fault::NoCableConnected),
        }
    }

    /// Advances the serial transfer by one step, as `step` describes. A
    /// missing cable is returned as `NoCableConnected`; a master's counter
    /// update is kept all the same.
    pub fn tick(&mut self, cables: &mut Vec<Cable>) -> (r: Result<(), Fault>)
        requires
            old(self).wf(),
        ensures
            final(self).wf(),
            final(self)@ == step(old(self)@, line_values(old(cables)@)).0,
            line_values(final(cables)@) == step(old(self)@, line_values(old(cables)@)).1,
            r == step(old(self)@, line_values(old(cables)@)).2,
            final(cables)@.len() == old(cables)@.len(),
            identities(final(cables)@) == identities(old(cables)@),
            final(self).identity() == old(self).identity(),
    {
        let mode = self.memory.byte(SERIAL_CONTROL as u16);
        if mode == 0xFF {
            let curr = self.memory.byte(SERIAL_DATA as u16);
            let next: u8 = if curr == u8::MAX {
                0
            } else {
                curr + 1
            };
            self.memory.set_byte(SERIAL_DATA as u16, next);
            match self.send(cables, next) {
                Ok(_) => Ok(()),
                Err(e) => Err(e),
            }
        } else {
            match self.read_cable(cables) {
                Ok(_) => Ok(()),
                Err(e) => Err(e),
            }
        }
    }

    /// Region-aware dump of this device's memory; see `MemoryMap::dump_memory`.
    pub fn dump_memory(&self) -> (r: Vec<DumpBlock>)
        requires
            self.wf(),
        ensures
            r@.len() == block_starts(MEMORY_SIZE as nat).len(),
            forall|k: int|
                0 <= k < r@.len() ==> describes(
                    #[trigger] r@[k],
                    self@.memory,
                    block_starts(MEMORY_SIZE as nat)[k],
                ),
    {
        let mmap = MemoryMap::new();
        mmap.dump_memory(self.memory.snapshot())
    }

    /// Flat dump of this device's IO window, eight bytes per row.
    pub fn dump_io_region(&self) -> (r: Vec<Vec<u8>>)
        requires
            self.wf(),
        ensures
            r@.len() == 16,
            forall|k: int|
                0 <= k < 16 ==> (#[trigger] r@[k])@ == self@.memory.subrange(
                    IO_START + 8 * k,
                    IO_START + 8 * k + 8,
                ),
    {
        let mmap = MemoryMap::new();
        mmap.dump_io(self.memory.snapshot())
    }
}

/// A byte that one device drives onto a cable is what any device plugged into
/// the same cable copies into its SERIAL_DATA next.
pub proof fn lemma_line_shared(sender: DeviceView, receiver: DeviceView, lines: Seq<u8>, x: u8)
    requires
        connected(sender.link, lines),
        receiver.link == sender.link,
        receiver.memory.len() == MEMORY_SIZE,
    ensures
        send_result(sender.link, lines, x).0[sender.link.unwrap() as int] == x,
        receive_result(receiver, send_result(sender.link, lines, x).0).0[SERIAL_DATA as int] == x,
{
}

/// Master before slave within a step, on a shared cable: both end the step
/// with the master's new counter in SERIAL_DATA, and the line holds it too.
pub proof fn lemma_master_then_slave(master: DeviceView, slave: DeviceView, lines: Seq<u8>)
    requires
        master.memory.len() == MEMORY_SIZE,
        slave.memory.len() == MEMORY_SIZE,
        is_master(master.memory),
        !is_master(slave.memory),
        connected(master.link, lines),
        slave.link == master.link,
    ensures
        ({
            let next = next_count(master.memory[SERIAL_DATA as int]);
            let (m, l1, r1) = step(master, lines);
            let (s, l2, r2) = step(slave, l1);
            &&& m.memory[SERIAL_DATA as int] == next
            &&& s.memory[SERIAL_DATA as int] == next
            &&& l2[master.link.unwrap() as int] == next
            &&& r1 is Ok && r2 is Ok
        }),
{
}

/// Slave before master within a step, on a shared cable: the slave sees the
/// byte left on the line by the previous step, not the master's new counter.
pub proof fn lemma_slave_then_master(master: DeviceView, slave: DeviceView, lines: Seq<u8>)
    requires
        master.memory.len() == MEMORY_SIZE,
        slave.memory.len() == MEMORY_SIZE,
        is_master(master.memory),
        !is_master(slave.memory),
        connected(master.link, lines),
        slave.link == master.link,
    ensures
        ({
            let next = next_count(master.memory[SERIAL_DATA as int]);
            let (s, l1, r1) = step(slave, lines);
            let (m, l2, r2) = step(master, l1);
            &&& s.memory[SERIAL_DATA as int] == lines[master.link.unwrap() as int]
            &&& m.memory[SERIAL_DATA as int] == next
            &&& l2[master.link.unwrap() as int] == next
            &&& r1 is Ok && r2 is Ok
        }),
{
}

/// A master keeps its advanced counter even when it has no cable, and the
/// step reports `NoCableConnected`.
pub proof fn lemma_master_without_cable(master: DeviceView, lines: Seq<u8>)
    requires
        master.memory.len() == MEMORY_SIZE,
        is_master(master.memory),
        !connected(master.link, lines),
    ensures
        ({
            let (m, l, r) = step(master, lines);
            &&& m.memory == master.memory.update(
                SERIAL_DATA as int,
                next_count(master.memory[SERIAL_DATA as int]),
            )
            &&& l == lines
            &&& r == Err::<(), Fault>(Fault::NoCableConnected)
        }),
{
}

} // verus!
