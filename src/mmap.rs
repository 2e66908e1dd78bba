use vstd::prelude::*;

verus! {

/// Highest valid address of the 64 KiB address space.
pub const MAX_RAM: usize = 0xFFFF;

/// Number of bytes in the address space.
pub const MEMORY_SIZE: usize = 0x10000;

pub const ROM_00_START: usize = 0x0;
pub const ROM_00_END: usize = 0x3FFF;
pub const ROM_01_START: usize = 0x4000;
pub const ROM_01_END: usize = 0x7FFF;
pub const VRAM_START: usize = 0x8000;
pub const VRAM_END: usize = 0x9FFF;
pub const EXRAM_START: usize = 0xA000;
pub const EXRAM_END: usize = 0xBFFF;
pub const WRAM_START: usize = 0xC000;
pub const WRAM_END: usize = 0xDFFF;
pub const ECHO_RAM_START: usize = 0xE000;
pub const ECHO_RAM_END: usize = 0xFDFF;
pub const OAM_START: usize = 0xFE00;
pub const OAM_END: usize = 0xFE9F;
pub const RESERVED_START: usize = 0xFEA0;
pub const RESERVED_END: usize = 0xFEFF;
pub const IO_START: usize = 0xFF00;
pub const IO_END: usize = 0xFF7F;
pub const HRAM_START: usize = 0xFF80;
pub const HRAM_END: usize = 0xFFFE;
pub const IE: usize = 0xFFFF;

pub const JOYPAD: usize = 0xFF00;
pub const SERIAL_START: usize = 0xFF01;
pub const SERIAL_END: usize = 0xFF02;
pub const TIMER_START: usize = 0xFF04;
pub const TIMER_END: usize = 0xFF07;
pub const INTERRUPTS: usize = 0xFF0F;
pub const AUDIO_START: usize = 0xFF10;
pub const AUDIO_END: usize = 0xFF26;
pub const WAVE_START: usize = 0xFF30;
pub const WAVE_END: usize = 0xFF3F;
pub const LCD_START: usize = 0xFF40;
pub const LCD_END: usize = 0xFF4B;
pub const VRAM_BANK_SELECT: usize = 0xFF4F;
pub const DISABLE_BOOT_ROM: usize = 0xFF50;
pub const VRAM_DMA_START: usize = 0xFF51;
pub const VRAM_DMA_END: usize = 0xFF55;
pub const BJ_OBJ_START: usize = 0xFF68;
pub const BJ_OBJ_END: usize = 0xFF6B;
pub const WRAM_BANK_SELECT: usize = 0xFF70;

/// The serial transfer byte.
pub const SERIAL_DATA: usize = 0xFF01;

/// The serial role byte: `0xFF` makes the device the master for a step.
pub const SERIAL_CONTROL: usize = 0xFF02;

/// Regions larger than this many bytes are not listed byte by byte in a dump.
pub const LARGE_REGION_THRESHOLD: usize = 256;

/// The top-level regions of the address space.
#[derive(Clone, Copy, Debug, PartialEq, Eq, Structural)]
pub enum RegionId {
    Rom0,
    Rom1,
    Vram,
    Exram,
    Wram,
    Echo,
    Oam,
    Reserved,
    Io,
    Hram,
    Ie,
}

/// The registers and register groups inside the IO region.
#[derive(Clone, Copy, Debug, PartialEq, Eq, Structural)]
pub enum IoRegister {
    Joypad,
    Serial,
    Timer,
    Interrupts,
    Audio,
    Wave,
    Lcd,
    VramBankSelect,
    DisableBootRom,
    VramDma,
    BjObj,
    WramBankSelect,
}

/// First and last address (inclusive) of a region.
pub open spec fn region_bounds(id: RegionId) -> (nat, nat) {
    match id {
        RegionId::Rom0 => (0x0000, 0x3FFF),
        RegionId::Rom1 => (0x4000, 0x7FFF),
        RegionId::Vram => (0x8000, 0x9FFF),
        RegionId::Exram => (0xA000, 0xBFFF),
        RegionId::Wram => (0xC000, 0xDFFF),
        RegionId::Echo => (0xE000, 0xFDFF),
        RegionId::Oam => (0xFE00, 0xFE9F),
        RegionId::Reserved => (0xFEA0, 0xFEFF),
        RegionId::Io => (0xFF00, 0xFF7F),
        RegionId::Hram => (0xFF80, 0xFFFE),
        RegionId::Ie => (0xFFFF, 0xFFFF),
    }
}

pub open spec fn region_size(id: RegionId) -> nat {
    (region_bounds(id).1 - region_bounds(id).0 + 1) as nat
}

/// The region that holds address `a` (meaningful for `a <= 0xFFFF`).
pub open spec fn region_containing(a: nat) -> RegionId {
    if a <= 0x3FFF {
        RegionId::Rom0
    } else if a <= 0x7FFF {
        RegionId::Rom1
    } else if a <= 0x9FFF {
        RegionId::Vram
    } else if a <= 0xBFFF {
        RegionId::Exram
    } else if a <= 0xDFFF {
        RegionId::Wram
    } else if a <= 0xFDFF {
        RegionId::Echo
    } else if a <= 0xFE9F {
        RegionId::Oam
    } else if a <= 0xFEFF {
        RegionId::Reserved
    } else if a <= 0xFF7F {
        RegionId::Io
    } else if a <= 0xFFFE {
        RegionId::Hram
    } else {
        RegionId::Ie
    }
}

/// The region whose first address is `a`, if any.
pub open spec fn region_starting_at(a: nat) -> Option<RegionId> {
    if a <= MAX_RAM && region_bounds(region_containing(a)).0 == a {
        Some(region_containing(a))
    } else {
        None
    }
}

/// First and last address (inclusive) of an IO register group.
pub open spec fn io_bounds(r: IoRegister) -> (nat, nat) {
    match r {
        IoRegister::Joypad => (0xFF00, 0xFF00),
        IoRegister::Serial => (0xFF01, 0xFF02),
        IoRegister::Timer => (0xFF04, 0xFF07),
        IoRegister::Interrupts => (0xFF0F, 0xFF0F),
        IoRegister::Audio => (0xFF10, 0xFF26),
        IoRegister::Wave => (0xFF30, 0xFF3F),
        IoRegister::Lcd => (0xFF40, 0xFF4B),
        IoRegister::VramBankSelect => (0xFF4F, 0xFF4F),
        IoRegister::DisableBootRom => (0xFF50, 0xFF50),
        IoRegister::VramDma => (0xFF51, 0xFF55),
        IoRegister::BjObj => (0xFF68, 0xFF6B),
        IoRegister::WramBankSelect => (0xFF70, 0xFF70),
    }
}

pub open spec fn io_size(r: IoRegister) -> nat {
    (io_bounds(r).1 - io_bounds(r).0 + 1) as nat
}

/// The IO register group whose first address is `a`, if any.
pub open spec fn io_starting_at(a: nat) -> Option<IoRegister> {
    if a == 0xFF00 {
        Some(IoRegister::Joypad)
    } else if a == 0xFF01 {
        Some(IoRegister::Serial)
    } else if a == 0xFF04 {
        Some(IoRegister::Timer)
    } else if a == 0xFF0F {
        Some(IoRegister::Interrupts)
    } else if a == 0xFF10 {
        Some(IoRegister::Audio)
    } else if a == 0xFF30 {
        Some(IoRegister::Wave)
    } else if a == 0xFF40 {
        Some(IoRegister::Lcd)
    } else if a == 0xFF4F {
        Some(IoRegister::VramBankSelect)
    } else if a == 0xFF50 {
        Some(IoRegister::DisableBootRom)
    } else if a == 0xFF51 {
        Some(IoRegister::VramDma)
    } else if a == 0xFF68 {
        Some(IoRegister::BjObj)
    } else if a == 0xFF70 {
        Some(IoRegister::WramBankSelect)
    } else {
        None
    }
}

impl RegionId {
    pub fn start(self) -> (r: usize)
        ensures
            r == region_bounds(self).0,
    {
        match self {
            RegionId::Rom0 => ROM_00_START,
            RegionId::Rom1 => ROM_01_START,
            RegionId::Vram => VRAM_START,
            RegionId::Exram => EXRAM_START,
            RegionId::Wram => WRAM_START,
            RegionId::Echo => ECHO_RAM_START,
            RegionId::Oam => OAM_START,
            RegionId::Reserved => RESERVED_START,
            RegionId::Io => IO_START,
            RegionId::Hram => HRAM_START,
            RegionId::Ie => IE,
        }
    }

    pub fn end(self) -> (r: usize)
        ensures
            r == region_bounds(self).1,
    {
        match self {
            RegionId::Rom0 => ROM_00_END,
            RegionId::Rom1 => ROM_01_END,
            RegionId::Vram => VRAM_END,
            RegionId::Exram => EXRAM_END,
            RegionId::Wram => WRAM_END,
            RegionId::Echo => ECHO_RAM_END,
            RegionId::Oam => OAM_END,
            RegionId::Reserved => RESERVED_END,
            RegionId::Io => IO_END,
            RegionId::Hram => HRAM_END,
            RegionId::Ie => IE,
        }
    }

    pub fn size(self) -> (r: usize)
        ensures
            r == region_size(self),
    {
        self.end() - self.start() + 1
    }
}

impl IoRegister {
    pub fn start(self) -> (r: usize)
        ensures
            r == io_bounds(self).0,
    {
        match self {
            IoRegister::Joypad => JOYPAD,
            IoRegister::Serial => SERIAL_START,
            IoRegister::Timer => TIMER_START,
            IoRegister::Interrupts => INTERRUPTS,
            IoRegister::Audio => AUDIO_START,
            IoRegister::Wave => WAVE_START,
            IoRegister::Lcd => LCD_START,
            IoRegister::VramBankSelect => VRAM_BANK_SELECT,
            IoRegister::DisableBootRom => DISABLE_BOOT_ROM,
            IoRegister::VramDma => VRAM_DMA_START,
            IoRegister::BjObj => BJ_OBJ_START,
            IoRegister::WramBankSelect => WRAM_BANK_SELECT,
        }
    }

    pub fn end(self) -> (r: usize)
        ensures
            r == io_bounds(self).1,
    {
        match self {
            IoRegister::Joypad => JOYPAD,
            IoRegister::Serial => SERIAL_END,
            IoRegister::Timer => TIMER_END,
            IoRegister::Interrupts => INTERRUPTS,
            IoRegister::Audio => AUDIO_END,
            IoRegister::Wave => WAVE_END,
            IoRegister::Lcd => LCD_END,
            IoRegister::VramBankSelect => VRAM_BANK_SELECT,
            IoRegister::DisableBootRom => DISABLE_BOOT_ROM,
            IoRegister::VramDma => VRAM_DMA_END,
            IoRegister::BjObj => BJ_OBJ_END,
            IoRegister::WramBankSelect => WRAM_BANK_SELECT,
        }
    }

    pub fn size(self) -> (r: usize)
        ensures
            r == io_size(self),
    {
        self.end() - self.start() + 1
    }
}

/// Classifies an address: the region that holds it, that region's size, and
/// whether the address is the region's first byte. Addresses past the end of
/// the address space have no region.
pub fn classify(address: usize) -> (r: Option<(RegionId, usize, bool)>)
    ensures
        address > MAX_RAM ==> r is None,
        address <= MAX_RAM ==> r == Some(
            (
                region_containing(address as nat),
                region_size(region_containing(address as nat)) as usize,
                region_bounds(region_containing(address as nat)).0 == address,
            ),
        ),
{
    if address > MAX_RAM {
        return None;
    }
    let id = if address <= ROM_00_END {
        RegionId::Rom0
    } else if address <= ROM_01_END {
        RegionId::Rom1
    } else if address <= VRAM_END {
        RegionId::Vram
    } else if address <= EXRAM_END {
        RegionId::Exram
    } else if address <= WRAM_END {
        RegionId::Wram
    } else if address <= ECHO_RAM_END {
        RegionId::Echo
    } else if address <= OAM_END {
        RegionId::Oam
    } else if address <= RESERVED_END {
        RegionId::Reserved
    } else if address <= IO_END {
        RegionId::Io
    } else if address <= HRAM_END {
        RegionId::Hram
    } else {
        RegionId::Ie
    };
    Some((id, id.size(), id.start() == address))
}

/// The name under which a dump lists a block: a region, or an IO register
/// group inside the IO region.
#[derive(Clone, Copy, Debug, PartialEq, Eq, Structural)]
pub enum BlockName {
    Region(RegionId),
    Io(IoRegister),
}

/// What a dump lists at address `a`: a region starting there, else an IO
/// register group starting there.
pub open spec fn block_name_at(a: nat) -> Option<BlockName> {
    match region_starting_at(a) {
        Some(id) => Some(BlockName::Region(id)),
        None => match io_starting_at(a) {
            Some(r) => Some(BlockName::Io(r)),
            None => None,
        },
    }
}

pub open spec fn block_size(n: BlockName) -> nat {
    match n {
        BlockName::Region(id) => region_size(id),
        BlockName::Io(r) => io_size(r),
    }
}

/// The addresses below `n` at which a dump lists a block, in increasing order.
pub open spec fn block_starts(n: nat) -> Seq<nat>
    decreases n,
{
    if n == 0 {
        Seq::empty()
    } else if block_name_at((n - 1) as nat) is Some {
        block_starts((n - 1) as nat).push((n - 1) as nat)
    } else {
        block_starts((n - 1) as nat)
    }
}

/// One block of a region-aware dump: its name, and its bytes unless the block
/// is larger than `LARGE_REGION_THRESHOLD`.
#[derive(Debug)]
pub struct DumpBlock {
    pub name: BlockName,
    pub contents: Option<Vec<u8>>,
}

/// `b` is the dump of the block that starts at `a` in `memory`.
pub open spec fn describes(b: DumpBlock, memory: Seq<u8>, a: nat) -> bool {
    &&& block_name_at(a) == Some(b.name)
    &&& if block_size(b.name) > LARGE_REGION_THRESHOLD {
        b.contents is None
    } else {
        &&& b.contents is Some
        &&& b.contents.unwrap()@ == memory.subrange(a as int, (a + block_size(b.name)) as int)
    }
}

/// The order in which the region table lists the regions.
pub open spec fn region_order() -> Seq<RegionId> {
    seq![
        RegionId::Rom0,
        RegionId::Rom1,
        RegionId::Vram,
        RegionId::Exram,
        RegionId::Wram,
        RegionId::Echo,
        RegionId::Oam,
        RegionId::Reserved,
        RegionId::Io,
        RegionId::Hram,
        RegionId::Ie,
    ]
}

/// The order in which the IO table lists the register groups.
pub open spec fn io_order() -> Seq<IoRegister> {
    seq![
        IoRegister::Joypad,
        IoRegister::Serial,
        IoRegister::Timer,
        IoRegister::Interrupts,
        IoRegister::Audio,
        IoRegister::Wave,
        IoRegister::Lcd,
        IoRegister::VramBankSelect,
        IoRegister::DisableBootRom,
        IoRegister::VramDma,
        IoRegister::BjObj,
        IoRegister::WramBankSelect,
    ]
}

proof fn lemma_region_table(id: RegionId)
    ensures
        region_starting_at(region_bounds(id).0) == Some(id),
        region_bounds(id).0 + region_size(id) <= MEMORY_SIZE,
        exists|j: int| 0 <= j < region_order().len() && region_order()[j] == id,
{
    match id {
        RegionId::Rom0 => assert(region_order()[0] == id),
        RegionId::Rom1 => assert(region_order()[1] == id),
        RegionId::Vram => assert(region_order()[2] == id),
        RegionId::Exram => assert(region_order()[3] == id),
        RegionId::Wram => assert(region_order()[4] == id),
        RegionId::Echo => assert(region_order()[5] == id),
        RegionId::Oam => assert(region_order()[6] == id),
        RegionId::Reserved => assert(region_order()[7] == id),
        RegionId::Io => assert(region_order()[8] == id),
        RegionId::Hram => assert(region_order()[9] == id),
        RegionId::Ie => assert(region_order()[10] == id),
    }
}

proof fn lemma_io_table(r: IoRegister)
    ensures
        io_starting_at(io_bounds(r).0) == Some(r),
        io_bounds(r).0 + io_size(r) <= MEMORY_SIZE,
        exists|j: int| 0 <= j < io_order().len() && io_order()[j] == r,
{
    match r {
        IoRegister::Joypad => assert(io_order()[0] == r),
        IoRegister::Serial => assert(io_order()[1] == r),
        IoRegister::Timer => assert(io_order()[2] == r),
        IoRegister::Interrupts => assert(io_order()[3] == r),
        IoRegister::Audio => assert(io_order()[4] == r),
        IoRegister::Wave => assert(io_order()[5] == r),
        IoRegister::Lcd => assert(io_order()[6] == r),
        IoRegister::VramBankSelect => assert(io_order()[7] == r),
        IoRegister::DisableBootRom => assert(io_order()[8] == r),
        IoRegister::VramDma => assert(io_order()[9] == r),
        IoRegister::BjObj => assert(io_order()[10] == r),
        IoRegister::WramBankSelect => assert(io_order()[11] == r),
    }
}

proof fn lemma_block_fits(a: nat)
    requires
        block_name_at(a) is Some,
    ensures
        a + block_size(block_name_at(a).unwrap()) <= MEMORY_SIZE,
{
    match block_name_at(a).unwrap() {
        BlockName::Region(id) => lemma_region_table(id),
        BlockName::Io(r) => lemma_io_table(r),
    }
}

/// Copies `len` bytes of `memory` from `start` on.
fn copy_range(memory: &Vec<u8>, start: usize, len: usize) -> (r: Vec<u8>)
    requires
        start + len <= memory.len(),
    ensures
        r@ == memory@.subrange(start as int, start + len),
{
    let mut out: Vec<u8> = Vec::new();
    let mut j: usize = 0;
    while j < len
        invariant
            j <= len,
            start + len <= memory.len(),
            out@ == memory@.subrange(start as int, start + j),
        decreases len - j,
    {
        out.push(memory[start + j]);
        j += 1;
        assert(out@ =~= memory@.subrange(start as int, start + j));
    }
    out
}

/// The tables of region and IO register names that the dumps consult.
pub struct MemoryMap {
    regions: Vec<RegionId>,
    io_ranges: Vec<IoRegister>,
}

impl MemoryMap {
    pub closed spec fn wf(&self) -> bool {
        &&& self.regions@ == region_order()
        &&& self.io_ranges@ == io_order()
    }

    pub fn new() -> (r: MemoryMap)
        ensures
            r.wf(),
    {
        let mut regions: Vec<RegionId> = Vec::new();
        regions.push(RegionId::Rom0);
        regions.push(RegionId::Rom1);
        regions.push(RegionId::Vram);
        regions.push(RegionId::Exram);
        regions.push(RegionId::Wram);
        regions.push(RegionId::Echo);
        regions.push(RegionId::Oam);
        regions.push(RegionId::Reserved);
        regions.push(RegionId::Io);
        regions.push(RegionId::Hram);
        regions.push(RegionId::Ie);
        let mut io_ranges: Vec<IoRegister> = Vec::new();
        io_ranges.push(IoRegister::Joypad);
        io_ranges.push(IoRegister::Serial);
        io_ranges.push(IoRegister::Timer);
        io_ranges.push(IoRegister::Interrupts);
        io_ranges.push(IoRegister::Audio);
        io_ranges.push(IoRegister::Wave);
        io_ranges.push(IoRegister::Lcd);
        io_ranges.push(IoRegister::VramBankSelect);
        io_ranges.push(IoRegister::DisableBootRom);
        io_ranges.push(IoRegister::VramDma);
        io_ranges.push(IoRegister::BjObj);
        io_ranges.push(IoRegister::WramBankSelect);
        assert(regions@ =~= region_order());
        assert(io_ranges@ =~= io_order());
        MemoryMap { regions, io_ranges }
    }

    /// The region that starts at `address`, looked up in the region table.
    pub fn region_at(&self, address: usize) -> (r: Option<RegionId>)
        requires
            self.wf(),
        ensures
            r == region_starting_at(address as nat),
    {
        let mut i: usize = 0;
        while i < self.regions.len()
            invariant
                self.wf(),
                i <= self.regions@.len(),
                forall|j: int| 0 <= j < i ==> region_bounds(#[trigger] self.regions@[j]).0 != address,
            decreases self.regions@.len() - i,
        {
            let id = self.regions[i];
            if id.start() == address {
                proof { lemma_region_table(id); }
                return Some(id);
            }
            i += 1;
        }
        proof {
            if let Some(id) = region_starting_at(address as nat) {
                lemma_region_table(id);
                let j = choose|j: int| 0 <= j < region_order().len() && region_order()[j] == id;
                assert(region_bounds(self.regions@[j]).0 != address);
            }
        }
        None
    }

    /// The IO register group that starts at `address`, looked up in the IO table.
    pub fn io_range_at(&self, address: usize) -> (r: Option<IoRegister>)
        requires
            self.wf(),
        ensures
            r == io_starting_at(address as nat),
    {
        let mut i: usize = 0;
        while i < self.io_ranges.len()
            invariant
                self.wf(),
                i <= self.io_ranges@.len(),
                forall|j: int| 0 <= j < i ==> io_bounds(#[trigger] self.io_ranges@[j]).0 != address,
            decreases self.io_ranges@.len() - i,
        {
            let reg = self.io_ranges[i];
            if reg.start() == address {
                proof { lemma_io_table(reg); }
                return Some(reg);
            }
            i += 1;
        }
        proof {
            if let Some(reg) = io_starting_at(address as nat) {
                lemma_io_table(reg);
                let j = choose|j: int| 0 <= j < io_order().len() && io_order()[j] == reg;
                assert(io_bounds(self.io_ranges@[j]).0 != address);
            }
        }
        None
    }

    /// The block that a dump lists at `address`: a region takes precedence
    /// over an IO register group that starts at the same address.
    pub fn block_at(&self, address: usize) -> (r: Option<BlockName>)
        requires
            self.wf(),
        ensures
            r == block_name_at(address as nat),
    {
        match self.region_at(address) {
            Some(id) => Some(BlockName::Region(id)),
            None => match self.io_range_at(address) {
                Some(reg) => Some(BlockName::Io(reg)),
                None => None,
            },
        }
    }

    /// Region-aware dump: for each address, in increasing order, at which a
    /// region or an IO register group starts, one block with its name and,
    /// unless the block is larger than `LARGE_REGION_THRESHOLD`, its bytes.
    pub fn dump_memory(&self, memory: &Vec<u8>) -> (r: Vec<DumpBlock>)
        requires
            self.wf(),
            memory@.len() == MEMORY_SIZE,
        ensures
            r@.len() == block_starts(MEMORY_SIZE as nat).len(),
            forall|k: int|
                0 <= k < r@.len() ==> describes(
                    #[trigger] r@[k],
                    memory@,
                    block_starts(MEMORY_SIZE as nat)[k],
                ),
    {
        let mut out: Vec<DumpBlock> = Vec::new();
        let mut i: usize = 0;
        while i < MEMORY_SIZE
            invariant
                self.wf(),
                memory@.len() == MEMORY_SIZE,
                i <= MEMORY_SIZE,
                out@.len() == block_starts(i as nat).len(),
                forall|k: int|
                    0 <= k < out@.len() ==> describes(
                        #[trigger] out@[k],
                        memory@,
                        block_starts(i as nat)[k],
                    ),
            decreases MEMORY_SIZE - i,
        {
            match self.block_at(i) {
                Some(name) => {
                    proof { lemma_block_fits(i as nat); }
                    let size = match name {
                        BlockName::Region(id) => id.size(),
                        BlockName::Io(reg) => reg.size(),
                    };
                    let contents = if size > LARGE_REGION_THRESHOLD {
                        None
                    } else {
                        Some(copy_range(memory, i, size))
                    };
                    let block = DumpBlock { name, contents };
                    assert(describes(block, memory@, i as nat));
                    out.push(block);
                },
                None => {},
            }
            assert(block_starts((i + 1) as nat) == if block_name_at(i as nat) is Some {
                block_starts(i as nat).push(i as nat)
            } else {
                block_starts(i as nat)
            });
            i += 1;
        }
        out
    }

    /// Flat dump of the IO window `IO_START..=IO_END`, eight bytes per row,
    /// regardless of the register groups inside it.
    pub fn dump_io(&self, memory: &Vec<u8>) -> (r: Vec<Vec<u8>>)
        requires
            memory@.len() == MEMORY_SIZE,
        ensures
            r@.len() == 16,
            forall|k: int|
                0 <= k < 16 ==> (#[trigger] r@[k])@ == memory@.subrange(
                    IO_START + 8 * k,
                    IO_START + 8 * k + 8,
                ),
    {
        let mut rows: Vec<Vec<u8>> = Vec::new();
        let mut k: usize = 0;
        while k < 16
            invariant
                memory@.len() == MEMORY_SIZE,
                k <= 16,
                rows@.len() == k,
                forall|m: int|
                    0 <= m < k ==> (#[trigger] rows@[m])@ == memory@.subrange(
                        IO_START + 8 * m,
                        IO_START + 8 * m + 8,
                    ),
            decreases 16 - k,
        {
            rows.push(copy_range(memory, IO_START + 8 * k, 8));
            k += 1;
        }
        rows
    }
}

} // verus!
