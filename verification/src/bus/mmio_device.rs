use vstd::prelude::*;

verus! {

/// The word at `location` of a device that holds `cells`: zero outside the device.
pub open spec fn word_at(cells: Seq<u32>, location: int) -> u32 {
    if 0 <= location < cells.len() {
        cells[location]
    } else {
        0
    }
}

/// A device on the bus, addressed by word.
pub trait MMIODevice {
    /// The words that the device holds.
    spec fn cells(&self) -> Seq<u32>;

    /// Reads one word; a location outside the device reads as zero.
    fn read(&self, location: usize) -> (val: u32)
        ensures
            val == word_at(self.cells(), location as int),
    ;

    /// Writes one word. A device either accepts the write, and then exactly the cell at
    /// `location` takes the value, or discards it.
    fn write(&mut self, location: usize, val: u32)
        ensures
            final(self).cells() == old(self).cells() || (location < old(self).cells().len()
                && final(self).cells() == old(self).cells().update(location as int, val)),
    ;
}

} // verus!
