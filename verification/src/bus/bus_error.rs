use vstd::prelude::*;
use vstd::string::StringExecFns;
use crate::text::{decimal_digits, hex_text, to_decimal_digits, to_hex_text};

verus! {

/// The faults of the bus. Both carry the byte address of the access; a store also carries
/// the value that was to be written.
#[derive(Debug, Clone, Copy, PartialEq, Eq, Structural)]
pub enum BusError {
    LoadAddrMisaligned(usize),
    StoreAddrMisaligned(usize, u32),
}

impl BusError {
    /// What the fault says: the faulting address in hexadecimal and, for a store, the
    /// value in decimal.
    pub open spec fn message_text(self) -> Seq<char> {
        match self {
            BusError::LoadAddrMisaligned(addr) => "Read Misaligned at "@ + hex_text(addr as nat),
            BusError::StoreAddrMisaligned(addr, val) => "Write Misaligned at "@ + hex_text(
                addr as nat,
            ) + " with value "@ + decimal_digits(val as nat),
        }
    }

    /// The fault as a line of text.
    pub fn message(&self) -> (text: String)
        ensures
            text@ == self.message_text(),
    {
        match self {
            BusError::LoadAddrMisaligned(addr) => {
                let mut text = String::from_str("Read Misaligned at ");
                text.append(to_hex_text(*addr).as_str());
                text
            },
            BusError::StoreAddrMisaligned(addr, val) => {
                let mut text = String::from_str("Write Misaligned at ");
                text.append(to_hex_text(*addr).as_str());
                text.append(" with value ");
                text.append(to_decimal_digits(*val as usize).as_str());
                text
            },
        }
    }
}

} // verus!
