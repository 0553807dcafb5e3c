//! The memory space: one flat array of 64 KB, seen through mirrored windows.
//!
//! | Window                | Addresses         | Canonical cells     |
//! |-----------------------|-------------------|---------------------|
//! | internal RAM          | `0x0000..=0x1FFF` | `0x0000..=0x07FF`   |
//! | PPU-style registers   | `0x2000..=0x3FFF` | `0x2000..=0x2007`   |
//! | peripheral registers  | `0x4000..=0x401F` | themselves          |
//! | cartridge space       | `0x4020..=0xFFFF` | themselves          |
//!
//! Every access goes through [`canonical`], so an address and each of its
//! mirrors always name the same cell.
use vstd::prelude::*;

verus! {

/// Number of cells of the memory space.
pub const MEMORY_SIZE: usize = 0x10000;

/// The windows of the memory space.
#[derive(Clone, Copy, Debug, PartialEq, Eq, Structural)]
pub enum MemMap {
    /// 2 KB of work RAM, seen four times between `0x0000` and `0x1FFF`.
    InternalRam,
    /// Eight registers, repeated between `0x2000` and `0x3FFF`.
    PpuRegisters,
    /// Peripheral registers, `0x4000..=0x401F`.
    ApuIoRegisters,
    /// Cartridge-mapped space, `0x4020..=0xFFFF`.
    CartridgeSpace,
}

/// Why a program image was not loaded.
#[derive(Clone, Copy, Debug, PartialEq, Eq, Structural)]
pub enum LoadError {
    /// The image holds no program byte.
    Malformed,
    /// The image would run past the end of the 64 KB address space.
    Oversized,
}

/// The window that `addr` falls in.
pub open spec fn region_of(addr: u16) -> MemMap {
    if addr < 0x2000 {
        MemMap::InternalRam
    } else if addr < 0x4000 {
        MemMap::PpuRegisters
    } else if addr < 0x4020 {
        MemMap::ApuIoRegisters
    } else {
        MemMap::CartridgeSpace
    }
}

/// The cell that `addr` names once mirroring is undone.
pub open spec fn canonical(addr: u16) -> u16 {
    if addr < 0x2000 {
        (addr % 0x0800) as u16
    } else if addr < 0x4000 {
        (0x2000 + addr % 8) as u16
    } else {
        addr
    }
}

/// The byte that a read of `addr` observes in the cells `mem`.
pub open spec fn read_cell(mem: Seq<u8>, addr: u16) -> u8 {
    mem[canonical(addr) as int]
}

/// The cells `mem` after a write of `value` to `addr`.
pub open spec fn write_cell(mem: Seq<u8>, addr: u16, value: u8) -> Seq<u8> {
    mem.update(canonical(addr) as int, value)
}

/// The cells `mem` after the bytes of `image` were written, first to last, to
/// the consecutive addresses that start at `origin`.
pub open spec fn load_image(mem: Seq<u8>, origin: u16, image: Seq<u8>) -> Seq<u8>
    decreases image.len(),
{
    if image.len() == 0 {
        mem
    } else {
        write_cell(
            load_image(mem, origin, image.drop_last()),
            (origin + image.len() - 1) as u16,
            image.last(),
        )
    }
}

/// Whether an image of `len` bytes loaded at `origin` is accepted, and if not, why.
pub open spec fn load_check(origin: u16, len: nat) -> Result<(), LoadError> {
    if len == 0 {
        Err(LoadError::Malformed)
    } else if origin + len > MEMORY_SIZE {
        Err(LoadError::Oversized)
    } else {
        Ok(())
    }
}

impl MemMap {
    /// The address at which a program image for this window is placed.
    pub open spec fn origin_spec(self) -> u16 {
        match self {
            MemMap::InternalRam => 0x0000,
            MemMap::PpuRegisters => 0x2000,
            MemMap::ApuIoRegisters => 0x4000,
            MemMap::CartridgeSpace => 0xC000,
        }
    }

    /// The address at which a program image for this window is placed.
    #[verifier::when_used_as_spec(origin_spec)]
    pub fn origin(self) -> (addr: u16)
        ensures
            addr == self.origin_spec(),
    {
        match self {
            MemMap::InternalRam => 0x0000,
            MemMap::PpuRegisters => 0x2000,
            MemMap::ApuIoRegisters => 0x4000,
            MemMap::CartridgeSpace => 0xC000,
        }
    }

    /// The window that `addr` falls in.
    pub fn of(addr: u16) -> (region: MemMap)
        ensures
            region == region_of(addr),
    {
        if addr < 0x2000 {
            MemMap::InternalRam
        } else if addr < 0x4000 {
            MemMap::PpuRegisters
        } else if addr < 0x4020 {
            MemMap::ApuIoRegisters
        } else {
            MemMap::CartridgeSpace
        }
    }
}

/// Undoes mirroring: the one address-to-cell resolver behind every access.
pub fn resolve(addr: u16) -> (cell: u16)
    ensures
        cell == canonical(addr),
{
    match MemMap::of(addr) {
        MemMap::InternalRam => addr % 0x0800,
        MemMap::PpuRegisters => 0x2000 + addr % 8,
        MemMap::ApuIoRegisters => addr,
        MemMap::CartridgeSpace => addr,
    }
}

/// The 64 KB memory space. Its view is the sequence of its 65536 cells.
pub struct Memory {
    cells: [u8; MEMORY_SIZE],
}

impl View for Memory {
    type V = Seq<u8>;

    closed spec fn view(&self) -> Seq<u8> {
        self.cells@
    }
}

impl Memory {
    /// A memory always has exactly 64 K cells.
    pub proof fn lemma_size(&self)
        ensures
            self@.len() == MEMORY_SIZE,
    {
    }

    /// A memory whose cells all hold zero.
    pub fn new() -> (mem: Memory)
        ensures
            mem@ == Seq::new(MEMORY_SIZE as nat, |i: int| 0u8),
    {
        let mem = Memory { cells: [0u8; MEMORY_SIZE] };
        assert(mem@ =~= Seq::new(MEMORY_SIZE as nat, |i: int| 0u8));
        mem
    }

    /// Reads the cell that `addr` names.
    pub fn read(&self, addr: u16) -> (value: u8)
        ensures
            value == read_cell(self@, addr),
    {
        self.cells[resolve(addr) as usize]
    }

    /// Writes `value` to the cell that `addr` names; no other cell changes.
    pub fn write(&mut self, addr: u16, value: u8)
        ensures
            final(self)@ == write_cell(old(self)@, addr, value),
    {
        self.cells[resolve(addr) as usize] = value;
        assert(self@ =~= write_cell(old(self)@, addr, value));
    }

    /// Copies `image` to the consecutive addresses that start at `origin`, each
    /// byte through [`Memory::write`]. An empty image and one that would run
    /// past `0xFFFF` are rejected and leave the memory untouched.
    pub fn load(&mut self, origin: u16, image: &[u8]) -> (loaded: Result<(), LoadError>)
        ensures
            loaded == load_check(origin, image@.len()),
            loaded is Ok ==> final(self)@ == load_image(old(self)@, origin, image@),
            loaded is Err ==> final(self)@ == old(self)@,
    {
        if image.len() == 0 {
            return Err(LoadError::Malformed);
        }
        if image.len() > MEMORY_SIZE - origin as usize {
            return Err(LoadError::Oversized);
        }
        let mut i: usize = 0;
        while i < image.len()
            invariant
                i <= image@.len(),
                origin + image@.len() <= MEMORY_SIZE,
                self@ == load_image(old(self)@, origin, image@.take(i as int)),
            decreases image@.len() - i,
        {
            assert(image@.take(i + 1).drop_last() =~= image@.take(i as int));
            self.write((origin as usize + i) as u16, image[i]);
            i += 1;
        }
        assert(image@.take(i as int) =~= image@);
        Ok(())
    }
}

/// Where no mirroring is involved a loaded image reads back byte for byte,
/// and every cell outside its range keeps its value.
pub proof fn lemma_load_unmirrored(mem: Seq<u8>, origin: u16, image: Seq<u8>)
    requires
        mem.len() == MEMORY_SIZE,
        origin >= 0x4000,
        origin + image.len() <= MEMORY_SIZE,
    ensures
        load_image(mem, origin, image).len() == MEMORY_SIZE,
        forall|cell: int|
            0 <= cell < MEMORY_SIZE ==> #[trigger] load_image(mem, origin, image)[cell] == (if origin
                <= cell < origin + image.len() {
                image[cell - origin]
            } else {
                mem[cell]
            }),
    decreases image.len(),
{
    if image.len() > 0 {
        lemma_load_unmirrored(mem, origin, image.drop_last());
    }
}

} // verus!
