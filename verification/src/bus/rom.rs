use vstd::prelude::*;
use vstd::slice::slice_to_vec;
use vstd::string::StringExecFns;
use super::mmio_device::MMIODevice;
use super::ADDR_ALIGN;

verus! {

/// Why a program could not be put into a ROM.
#[derive(Debug, Clone, Copy, PartialEq, Eq, Structural)]
pub enum ROMError {
    /// The program is larger than the ROM.
    _LoadError,
}

impl ROMError {
    /// The error as a line of text.
    pub fn message(&self) -> (text: String)
        ensures
            text@ == "ROM Load Error"@,
    {
        String::from_str("ROM Load Error")
    }
}

/// Read-only memory: the words of the loaded program.
pub struct ROMDevice {
    rom: Vec<u32>,
    size: usize,
}

impl ROMDevice {
    /// The size of the device in bytes, fixed when it is made.
    pub closed spec fn capacity(&self) -> nat {
        self.size as nat
    }

    /// A ROM that holds `file` and is exactly as large.
    pub fn new(file: &[u32]) -> (device: Self)
        requires
            file@.len() * 4 <= usize::MAX,
        ensures
            device.cells() == file@,
            device.capacity() == file@.len() * 4,
    {
        Self { rom: slice_to_vec(file), size: file.len() * ADDR_ALIGN }
    }

    /// Replaces the program. A file of more bytes than the ROM has is refused and the
    /// ROM keeps what it held.
    pub fn _load(&mut self, file: &[u32]) -> (outcome: Result<(), ROMError>)
        ensures
            final(self).capacity() == old(self).capacity(),
            file@.len() * 4 > old(self).capacity() ==> outcome == Err::<(), ROMError>(
                ROMError::_LoadError,
            ) && final(self).cells() == old(self).cells(),
            file@.len() * 4 <= old(self).capacity() ==> outcome == Ok::<(), ROMError>(())
                && final(self).cells() == file@,
    {
        if file.len() > self.size / ADDR_ALIGN {
            Err(ROMError::_LoadError)
        } else {
            self.rom = slice_to_vec(file);
            Ok(())
        }
    }
}

impl MMIODevice for ROMDevice {
    closed spec fn cells(&self) -> Seq<u32> {
        self.rom@
    }

    fn read(&self, location: usize) -> (val: u32) {
        if location < self.rom.len() {
            self.rom[location]
        } else {
            0_u32
        }
    }

    /// Every write is discarded.
    fn write(&mut self, _location: usize, _val: u32)
        ensures
            final(self).cells() == old(self).cells(),
    {
    }
}

} // verus!
