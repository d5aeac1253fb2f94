//! The address space: a ROM and a RAM behind one bus that reads and writes whole words
//! and selects bytes and halfwords by masking.

use vstd::prelude::*;
use self::bus_error::BusError;
use self::mmio_device::{word_at, MMIODevice};
use self::ram::RAMDevice;
use self::rom::ROMDevice;
use crate::pipeline::memory_access::MemoryAccessWidth;

pub mod bus_error;
pub mod mmio_device;
pub mod ram;
pub mod rom;

verus! {

/// Bytes in a word.
pub const ADDR_ALIGN: usize = 4;

/// The byte address of the first ROM word.
pub const ROM_START: usize = 0x4000_0000;

/// The byte address of the first RAM word.
pub const RAM_START: usize = 0x8000_0000;

/// The size of the RAM in bytes.
pub const RAM_SIZE: usize = 0x4000_0000;

/// The largest program, in words, that fits between the ROM base and the RAM base.
pub const ROM_MAX_WORDS: usize = 0x1000_0000;

/// Where the two regions lie, in bytes.
#[derive(Debug, Clone, Copy, PartialEq, Eq, Structural)]
pub struct MemoryLayout {
    pub rom_start: usize,
    pub rom_size: usize,
    pub ram_start: usize,
    pub ram_size: usize,
}

/// The fixed memory map for a program of `rom_words` words.
pub open spec fn layout_for(rom_words: nat) -> MemoryLayout {
    MemoryLayout {
        rom_start: ROM_START,
        rom_size: (rom_words * 4) as usize,
        ram_start: RAM_START,
        ram_size: RAM_SIZE,
    }
}

/// What the address space holds: the words of the ROM and the words of the RAM.
pub struct AddressSpace {
    pub rom: Seq<u32>,
    pub ram: Seq<u32>,
}

/// Whether an access of `width` at `addr` is refused: a halfword at an odd address, or a
/// word at an address that is no multiple of four.
pub open spec fn misaligned(addr: usize, width: MemoryAccessWidth) -> bool {
    match width {
        MemoryAccessWidth::Byte => false,
        MemoryAccessWidth::HalfWord => addr % 2 != 0,
        MemoryAccessWidth::Word => addr % 4 != 0,
    }
}

/// The part of `chunk` that an aligned access of `width` at byte `offset` of the word
/// reads, moved down to bit 0.
pub open spec fn select(chunk: u32, offset: int, width: MemoryAccessWidth) -> u32 {
    match width {
        MemoryAccessWidth::Byte => if offset == 0 {
            chunk & 0xFF
        } else if offset == 1 {
            (chunk >> 8) & 0xFF
        } else if offset == 2 {
            (chunk >> 16) & 0xFF
        } else {
            (chunk >> 24) & 0xFF
        },
        MemoryAccessWidth::HalfWord => if offset == 0 {
            chunk & 0xFFFF
        } else {
            (chunk >> 16) & 0xFFFF
        },
        MemoryAccessWidth::Word => chunk,
    }
}

/// `chunk` after an aligned store of `width` at byte `offset` of the word: the low bits
/// of `val` take the place of the addressed part, the rest stays.
pub open spec fn merge(chunk: u32, offset: int, width: MemoryAccessWidth, val: u32) -> u32 {
    match width {
        MemoryAccessWidth::Byte => if offset == 0 {
            (chunk & 0xFFFF_FF00) | (val & 0xFF)
        } else if offset == 1 {
            (chunk & 0xFFFF_00FF) | ((val & 0xFF) << 8)
        } else if offset == 2 {
            (chunk & 0xFF00_FFFF) | ((val & 0xFF) << 16)
        } else {
            (chunk & 0x00FF_FFFF) | ((val & 0xFF) << 24)
        },
        MemoryAccessWidth::HalfWord => if offset == 0 {
            (chunk & 0xFFFF_0000) | (val & 0xFFFF)
        } else {
            (chunk & 0x0000_FFFF) | ((val & 0xFFFF) << 16)
        },
        MemoryAccessWidth::Word => val,
    }
}

/// The largest value that an access of `width` moves.
pub open spec fn width_mask(width: MemoryAccessWidth) -> u32 {
    match width {
        MemoryAccessWidth::Byte => 0xFF,
        MemoryAccessWidth::HalfWord => 0xFFFF,
        MemoryAccessWidth::Word => 0xFFFF_FFFF,
    }
}

/// Whether byte `offset` of a word can be the place of an aligned access of `width`.
pub open spec fn lane(offset: int, width: MemoryAccessWidth) -> bool {
    match width {
        MemoryAccessWidth::Byte => 0 <= offset < 4,
        MemoryAccessWidth::HalfWord => offset == 0 || offset == 2,
        MemoryAccessWidth::Word => offset == 0,
    }
}

/// The bytes of a word are its digits to the base 256, the lowest at offset 0, and its
/// halfwords are its digits to the base 65536.
pub proof fn lemma_select_is_a_digit(chunk: u32)
    ensures
        select(chunk, 0, MemoryAccessWidth::Byte) == chunk % 0x100,
        select(chunk, 1, MemoryAccessWidth::Byte) == (chunk / 0x100) % 0x100,
        select(chunk, 2, MemoryAccessWidth::Byte) == (chunk / 0x1_0000) % 0x100,
        select(chunk, 3, MemoryAccessWidth::Byte) == chunk / 0x100_0000,
        select(chunk, 0, MemoryAccessWidth::HalfWord) == chunk % 0x1_0000,
        select(chunk, 2, MemoryAccessWidth::HalfWord) == chunk / 0x1_0000,
{
    assert(chunk & 0xFF == chunk % 0x100
        && (chunk >> 8) & 0xFF == (chunk / 0x100) % 0x100
        && (chunk >> 16) & 0xFF == (chunk / 0x1_0000) % 0x100
        && (chunk >> 24) & 0xFF == chunk / 0x100_0000
        && chunk & 0xFFFF == chunk % 0x1_0000
        && (chunk >> 16) & 0xFFFF == chunk / 0x1_0000) by (bit_vector);
}

/// A read never returns more bits than its width has.
pub proof fn lemma_select_bound(chunk: u32, offset: int, width: MemoryAccessWidth)
    ensures
        select(chunk, offset, width) <= width_mask(width),
{
    assert(chunk & 0xFF <= 0xFF
        && (chunk >> 8) & 0xFF <= 0xFF
        && (chunk >> 16) & 0xFF <= 0xFF
        && (chunk >> 24) & 0xFF <= 0xFF
        && chunk & 0xFFFF <= 0xFFFF
        && (chunk >> 16) & 0xFFFF <= 0xFFFF) by (bit_vector);
}

/// Within one word, a store followed by a load of the same width at the same place reads
/// back the low bits of the stored value.
pub proof fn lemma_select_merge(chunk: u32, offset: int, width: MemoryAccessWidth, val: u32)
    requires
        lane(offset, width),
    ensures
        select(merge(chunk, offset, width, val), offset, width) == val & width_mask(width),
{
    assert(((chunk & 0xFFFF_FF00) | (val & 0xFF)) & 0xFF == val & 0xFF
        && (((chunk & 0xFFFF_00FF) | ((val & 0xFF) << 8)) >> 8) & 0xFF == val & 0xFF
        && (((chunk & 0xFF00_FFFF) | ((val & 0xFF) << 16)) >> 16) & 0xFF == val & 0xFF
        && (((chunk & 0x00FF_FFFF) | ((val & 0xFF) << 24)) >> 24) & 0xFF == val & 0xFF
        && ((chunk & 0xFFFF_0000) | (val & 0xFFFF)) & 0xFFFF == val & 0xFFFF
        && (((chunk & 0x0000_FFFF) | ((val & 0xFFFF) << 16)) >> 16) & 0xFFFF == val & 0xFFFF
        && val == val & 0xFFFF_FFFF) by (bit_vector);
}

/// A byte store leaves the other three bytes of the word as they were.
pub proof fn lemma_byte_store_keeps_other_bytes(chunk: u32, offset: int, other: int, val: u32)
    requires
        0 <= offset < 4,
        0 <= other < 4,
        other != offset,
    ensures
        select(merge(chunk, offset, MemoryAccessWidth::Byte, val), other, MemoryAccessWidth::Byte)
            == select(chunk, other, MemoryAccessWidth::Byte),
{
    let b0 = (chunk & 0xFFFF_FF00) | (val & 0xFF);
    let b1 = (chunk & 0xFFFF_00FF) | ((val & 0xFF) << 8);
    let b2 = (chunk & 0xFF00_FFFF) | ((val & 0xFF) << 16);
    let b3 = (chunk & 0x00FF_FFFF) | ((val & 0xFF) << 24);
    assert((b0 >> 8) & 0xFF == (chunk >> 8) & 0xFF
        && (b0 >> 16) & 0xFF == (chunk >> 16) & 0xFF
        && (b0 >> 24) & 0xFF == (chunk >> 24) & 0xFF) by (bit_vector)
        requires
            b0 == (chunk & 0xFFFF_FF00) | (val & 0xFF),
    ;
    assert(b1 & 0xFF == chunk & 0xFF
        && (b1 >> 16) & 0xFF == (chunk >> 16) & 0xFF
        && (b1 >> 24) & 0xFF == (chunk >> 24) & 0xFF) by (bit_vector)
        requires
            b1 == (chunk & 0xFFFF_00FF) | ((val & 0xFF) << 8),
    ;
    assert(b2 & 0xFF == chunk & 0xFF
        && (b2 >> 8) & 0xFF == (chunk >> 8) & 0xFF
        && (b2 >> 24) & 0xFF == (chunk >> 24) & 0xFF) by (bit_vector)
        requires
            b2 == (chunk & 0xFF00_FFFF) | ((val & 0xFF) << 16),
    ;
    assert(b3 & 0xFF == chunk & 0xFF
        && (b3 >> 8) & 0xFF == (chunk >> 8) & 0xFF
        && (b3 >> 16) & 0xFF == (chunk >> 16) & 0xFF) by (bit_vector)
        requires
            b3 == (chunk & 0x00FF_FFFF) | ((val & 0xFF) << 24),
    ;
}

/// A halfword store leaves the other halfword of the word as it was.
pub proof fn lemma_half_store_keeps_other_half(chunk: u32, offset: int, val: u32)
    requires
        offset == 0 || offset == 2,
    ensures
        select(
            merge(chunk, offset, MemoryAccessWidth::HalfWord, val),
            2 - offset,
            MemoryAccessWidth::HalfWord,
        ) == select(chunk, 2 - offset, MemoryAccessWidth::HalfWord),
{
    assert((((chunk & 0xFFFF_0000) | (val & 0xFFFF)) >> 16) & 0xFFFF == (chunk >> 16) & 0xFFFF
        && ((chunk & 0x0000_FFFF) | ((val & 0xFFFF) << 16)) & 0xFFFF == chunk & 0xFFFF)
        by (bit_vector);
}

impl AddressSpace {
    /// The program fits below the RAM base and the RAM has its full size.
    pub open spec fn wf(self) -> bool {
        &&& self.rom.len() <= ROM_MAX_WORDS
        &&& self.ram.len() == RAM_SIZE / 4
    }

    /// Whether the byte at `addr` lies in the populated ROM.
    pub open spec fn in_rom(self, addr: usize) -> bool {
        ROM_START <= addr < ROM_START + self.rom.len() * 4
    }

    /// Whether the byte at `addr` lies in the RAM and not in the ROM.
    pub open spec fn in_ram(self, addr: usize) -> bool {
        !self.in_rom(addr) && RAM_START <= addr < RAM_START + RAM_SIZE
    }

    /// The word that contains the byte at `addr`: zero outside both regions.
    pub open spec fn chunk(self, addr: usize) -> u32 {
        if self.in_rom(addr) {
            word_at(self.rom, (addr - ROM_START) / 4)
        } else if self.in_ram(addr) {
            word_at(self.ram, (addr - RAM_START) / 4)
        } else {
            0
        }
    }

    /// The address space after the word that contains the byte at `addr` is written:
    /// only a word of the RAM changes.
    pub open spec fn with_chunk(self, addr: usize, val: u32) -> AddressSpace {
        if self.in_ram(addr) && (addr - RAM_START) / 4 < self.ram.len() {
            AddressSpace { rom: self.rom, ram: self.ram.update((addr - RAM_START) / 4, val) }
        } else {
            self
        }
    }

    /// What a read of `width` at `addr` returns.
    pub open spec fn read(self, addr: usize, width: MemoryAccessWidth) -> Result<u32, BusError> {
        if misaligned(addr, width) {
            Err(BusError::LoadAddrMisaligned(addr))
        } else {
            Ok(select(self.chunk(addr), (addr % 4) as int, width))
        }
    }

    /// Whether a write of `width` at `addr` is carried out, and the fault if it is not.
    pub open spec fn write_outcome(addr: usize, val: u32, width: MemoryAccessWidth) -> Result<
        (),
        BusError,
    > {
        if misaligned(addr, width) {
            Err(BusError::StoreAddrMisaligned(addr, val))
        } else {
            Ok(())
        }
    }

    /// The address space after a write of `width` at `addr`: unchanged where the write
    /// faults, falls into the ROM or falls outside both regions.
    pub open spec fn write(self, addr: usize, val: u32, width: MemoryAccessWidth)
        -> AddressSpace {
        if misaligned(addr, width) {
            self
        } else {
            self.with_chunk(addr, merge(self.chunk(addr), (addr % 4) as int, width, val))
        }
    }
}

/// A store into the RAM followed by a load of the same width at the same address reads
/// back the low bits of the stored value.
pub proof fn lemma_store_then_load(
    space: AddressSpace,
    addr: usize,
    val: u32,
    width: MemoryAccessWidth,
)
    requires
        space.wf(),
        space.in_ram(addr),
        !misaligned(addr, width),
    ensures
        space.write(addr, val, width).wf(),
        space.write(addr, val, width).read(addr, width) == Ok::<u32, BusError>(
            val & width_mask(width),
        ),
{
    lemma_select_merge(space.chunk(addr), (addr % 4) as int, width, val);
}

/// A store changes no word but the one that contains its address, and never the ROM.
pub proof fn lemma_store_is_local(
    space: AddressSpace,
    addr: usize,
    val: u32,
    width: MemoryAccessWidth,
    other: usize,
)
    requires
        space.wf(),
        other / 4 != addr / 4,
    ensures
        space.write(addr, val, width).rom == space.rom,
        space.write(addr, val, width).chunk(other) == space.chunk(other),
{
}

/// The bus: the two devices and the map by which it finds them.
pub struct Bus {
    ram: RAMDevice,
    rom: ROMDevice,
    memory_layout: MemoryLayout,
}

impl View for Bus {
    type V = AddressSpace;

    closed spec fn view(&self) -> AddressSpace {
        AddressSpace { rom: self.rom.cells(), ram: self.ram.cells() }
    }
}

impl Bus {
    /// The map by which the bus finds its devices.
    pub closed spec fn layout(&self) -> MemoryLayout {
        self.memory_layout
    }

    /// The devices have the sizes that the fixed memory map gives them.
    pub closed spec fn wf(&self) -> bool {
        &&& self@.wf()
        &&& self.memory_layout == layout_for(self.rom.cells().len())
    }

    /// A well-formed bus holds a well-formed address space and shows the fixed memory map.
    pub proof fn lemma_wf(&self)
        requires
            self.wf(),
        ensures
            self@.wf(),
            self.layout() == layout_for(self@.rom.len()),
    {
    }

    /// The memory map.
    pub fn memory_layout(&self) -> (layout: MemoryLayout)
        ensures
            layout == self.layout(),
    {
        self.memory_layout
    }

    /// A bus with `file` in its ROM and a RAM of zeros.
    pub fn new(file: &[u32]) -> (bus: Self)
        requires
            file@.len() <= ROM_MAX_WORDS,
        ensures
            bus.wf(),
            bus@.rom == file@,
            bus@.ram == Seq::new((RAM_SIZE / 4) as nat, |i: int| 0u32),
    {
        Self {
            ram: RAMDevice::new(RAM_SIZE / ADDR_ALIGN),
            rom: ROMDevice::new(file),
            memory_layout: MemoryLayout {
                rom_start: ROM_START,
                rom_size: file.len() * ADDR_ALIGN,
                ram_start: RAM_START,
                ram_size: RAM_SIZE,
            },
        }
    }

    /// Reads the word that contains the byte at `addr`.
    pub fn read_chunk(&self, addr: usize) -> (chunk: u32)
        requires
            self.wf(),
        ensures
            chunk == self@.chunk(addr),
    {
        if addr >= self.memory_layout.rom_start && addr < self.memory_layout.rom_start
            + self.memory_layout.rom_size {
            self.rom.read((addr - self.memory_layout.rom_start) / ADDR_ALIGN)
        } else if addr >= self.memory_layout.ram_start && addr < self.memory_layout.ram_start
            + self.memory_layout.ram_size {
            self.ram.read((addr - self.memory_layout.ram_start) / ADDR_ALIGN)
        } else {
            0_u32
        }
    }

    /// Writes the word that contains the byte at `addr`. Only the RAM takes a write.
    pub fn write_chunk(&mut self, addr: usize, val: u32)
        requires
            old(self).wf(),
        ensures
            final(self).wf(),
            final(self)@ == old(self)@.with_chunk(addr, val),
            final(self).layout() == old(self).layout(),
    {
        if addr >= self.memory_layout.rom_start && addr < self.memory_layout.rom_start
            + self.memory_layout.rom_size {
            self.rom.write((addr - self.memory_layout.rom_start) / ADDR_ALIGN, val);
        } else if addr >= self.memory_layout.ram_start && addr < self.memory_layout.ram_start
            + self.memory_layout.ram_size {
            self.ram.write((addr - self.memory_layout.ram_start) / ADDR_ALIGN, val);
        }
    }

    /// Reads a byte, a halfword or a word. A halfword at an odd address and a word at an
    /// address that is no multiple of four are refused; every other read succeeds, with
    /// zero for an address outside both regions.
    pub fn read(&self, addr: usize, width: MemoryAccessWidth) -> (outcome: Result<u32, BusError>)
        requires
            self.wf(),
        ensures
            outcome == self@.read(addr, width),
    {
        let val = self.read_chunk(addr);
        let offset = addr & 0b11;
        assert(addr & 0b11 == addr % 4) by (bit_vector);

        let read_result = match width {
            MemoryAccessWidth::Byte => {
                if offset == 0b00 {
                    val & 0xFF
                } else if offset == 0b01 {
                    (val >> 8) & 0xFF
                } else if offset == 0b10 {
                    (val >> 16) & 0xFF
                } else {
                    (val >> 24) & 0xFF
                }
            },
            MemoryAccessWidth::HalfWord => {
                if offset == 0b00 {
                    val & 0xFFFF
                } else if offset == 0b10 {
                    (val >> 16) & 0xFFFF
                } else {
                    return Err(BusError::LoadAddrMisaligned(addr));
                }
            },
            MemoryAccessWidth::Word => {
                if offset == 0b00 {
                    val
                } else {
                    return Err(BusError::LoadAddrMisaligned(addr));
                }
            },
        };

        Ok(read_result)
    }

    /// Writes a byte, a halfword or a word. A misaligned write is refused and changes
    /// nothing; a write into the ROM or outside both regions succeeds and changes nothing;
    /// a write into the RAM replaces the addressed part of one word.
    pub fn write(&mut self, addr: usize, val: u32, width: MemoryAccessWidth) -> (outcome: Result<
        (),
        BusError,
    >)
        requires
            old(self).wf(),
        ensures
            final(self).wf(),
            outcome == AddressSpace::write_outcome(addr, val, width),
            final(self)@ == old(self)@.write(addr, val, width),
            final(self).layout() == old(self).layout(),
            outcome is Err ==> *final(self) == *old(self),
    {
        let chunk = self.read_chunk(addr);
        let offset = addr & 0b11;
        assert(addr & 0b11 == addr % 4) by (bit_vector);

        let write_val = match width {
            MemoryAccessWidth::Byte => {
                if offset == 0b00 {
                    (chunk & 0xFFFF_FF00) | (val & 0xFF)
                } else if offset == 0b01 {
                    (chunk & 0xFFFF_00FF) | ((val & 0xFF) << 8)
                } else if offset == 0b10 {
                    (chunk & 0xFF00_FFFF) | ((val & 0xFF) << 16)
                } else {
                    (chunk & 0x00FF_FFFF) | ((val & 0xFF) << 24)
                }
            },
            MemoryAccessWidth::HalfWord => {
                if offset == 0b00 {
                    (chunk & 0xFFFF_0000) | (val & 0xFFFF)
                } else if offset == 0b10 {
                    (chunk & 0x0000_FFFF) | ((val & 0xFFFF) << 16)
                } else {
                    return Err(BusError::StoreAddrMisaligned(addr, val));
                }
            },
            MemoryAccessWidth::Word => {
                if offset == 0b00 {
                    val
                } else {
                    return Err(BusError::StoreAddrMisaligned(addr, val));
                }
            },
        };

        self.write_chunk(addr, write_val);

        Ok(())
    }

    /// The RAM words that cover its first `size` bytes.
    pub fn get_mem(&self, size: usize) -> (words: Vec<u32>)
        requires
            self.wf(),
            size / 4 <= RAM_SIZE / 4,
        ensures
            words@ == self@.ram.subrange(0, (size / 4) as int),
            words@.len() == size / 4,
    {
        self.ram.get_mem(size)
    }
}

} // verus!
