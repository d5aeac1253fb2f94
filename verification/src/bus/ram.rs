use vstd::prelude::*;
use vstd::slice::{slice_subrange, slice_to_vec};
use super::mmio_device::MMIODevice;

verus! {

/// Random-access memory: a run of words, all zero at first.
pub struct RAMDevice {
    ram: Vec<u32>,
}

impl RAMDevice {
    /// A memory of `size` words, each zero.
    pub fn new(size: usize) -> (device: Self)
        ensures
            device.cells() == Seq::new(size as nat, |i: int| 0u32),
    {
        let device = Self { ram: vec![0_u32;size] };
        assert(device.ram@ =~= Seq::new(size as nat, |i: int| 0u32));
        device
    }

    /// The words that cover the first `size` bytes.
    pub fn get_mem(&self, size: usize) -> (words: Vec<u32>)
        requires
            size / 4 <= self.cells().len(),
        ensures
            words@ == self.cells().subrange(0, (size / 4) as int),
            words@.len() == size / 4,
    {
        slice_to_vec(slice_subrange(self.ram.as_slice(), 0, size / 4))
    }
}

impl MMIODevice for RAMDevice {
    closed spec fn cells(&self) -> Seq<u32> {
        self.ram@
    }

    fn read(&self, location: usize) -> (val: u32) {
        if location < self.ram.len() {
            self.ram[location]
        } else {
            0_u32
        }
    }

    /// A write inside the memory is kept; one outside it is discarded.
    fn write(&mut self, location: usize, val: u32)
        ensures
            final(self).cells() == if location < old(self).cells().len() {
                old(self).cells().update(location as int, val)
            } else {
                old(self).cells()
            },
    {
        if location < self.ram.len() {
            self.ram[location] = val;
        }
    }
}

} // verus!
