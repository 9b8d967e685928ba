//! The byte-addressable memory that the CPU talks to.

use vstd::prelude::*;

verus! {

/// Anything the CPU can read bytes from and write bytes to.
///
/// Both operations are total: every 16-bit address can be read and written.
/// An implementation is modelled as a map from addresses to bytes, together with
/// the set of addresses whose writes take effect (a write elsewhere, say to ROM,
/// is ignored). A verified implementation states its model by overriding the two
/// spec functions below; one written outside verified code may leave them out,
/// and nothing is then known of it but that its reads and writes are total.
pub trait AddressSpace {
    /// The byte that a read of each address returns.
    closed spec fn contents(&self) -> Map<u16, u8> {
        Map::empty()
    }

    /// The addresses at which a write changes what is read back.
    closed spec fn writable(&self) -> Set<u16> {
        Set::empty()
    }

    /// Reads the byte at `address`.
    fn read(&self, address: u16) -> (r: u8)
        ensures
            r == self.contents()[address],
    ;

    /// Writes `value` at `address`; no other address changes.
    fn write(&mut self, address: u16, value: u8)
        ensures
            final(self).writable() == old(self).writable(),
            final(self).contents() == (if old(self).writable().contains(address) {
                old(self).contents().insert(address, value)
            } else {
                old(self).contents()
            }),
    ;
}

} // verus!
