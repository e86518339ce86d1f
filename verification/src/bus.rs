//! The memory bus: a flat, byte-addressable 16-bit address space.
//!
//! Policy for regions the real machine maps elsewhere (video RAM, I/O
//! registers, echo RAM, ...): every address is backed by a byte of this
//! image, so reads are total. Addresses below `0x8000` are the read-only
//! cartridge region: writes there are silently ignored. Everything from
//! `0x8000` up behaves as plain RAM. Addresses beyond the end of the
//! cartridge image power on holding the conventional unmapped-bus value
//! `0xFF`.

use vstd::prelude::*;

use crate::rom::Rom;

verus! {

/// Number of addressable bytes: the full 16-bit address space.
pub const ADDRESS_SPACE: usize = 0x10000;

/// First address of the writable region; everything below is cartridge ROM.
pub const WRITABLE_BASE: u16 = 0x8000;

/// The contents of memory after a write: stores to the read-only cartridge
/// region leave memory unchanged, all other stores take effect.
pub open spec fn spec_bus_write(m: Seq<u8>, address: u16, value: u8) -> Seq<u8> {
    if address < WRITABLE_BASE {
        m
    } else {
        m.update(address as int, value)
    }
}

/// Memory contents at power-on: the cartridge image, then `0xFF` up to the
/// end of the address space.
pub open spec fn spec_initial_mem(rom: Seq<u8>) -> Seq<u8> {
    Seq::new(ADDRESS_SPACE as nat, |i: int| if i < rom.len() { rom[i] } else { 0xFF_u8 })
}

/// The memory bus. Its view is the current contents of all `0x10000`
/// addressable bytes.
pub struct Bus {
    pub mem: Vec<u8>,
}

impl View for Bus {
    type V = Seq<u8>;

    open spec fn view(&self) -> Seq<u8> {
        self.mem@
    }
}

impl Bus {
    /// Every address is backed: the bus never fails an access.
    pub open spec fn wf(&self) -> bool {
        self@.len() == ADDRESS_SPACE
    }

    /// Builds the address space around a cartridge image. Bytes of the image
    /// beyond the address space are unreachable and dropped.
    pub fn new(rom: Rom) -> (r: Bus)
        ensures
            r.wf(),
            r@ == spec_initial_mem(rom@),
    {
        let mut mem: Vec<u8> = Vec::new();
        let mut i: usize = 0;
        while i < ADDRESS_SPACE
            invariant
                i <= ADDRESS_SPACE,
                mem@.len() == i,
                forall|j: int|
                    0 <= j < i ==> mem@[j] == (if j < rom@.len() {
                        rom@[j]
                    } else {
                        0xFF_u8
                    }),
            decreases ADDRESS_SPACE - i,
        {
            if i < rom.raw.len() {
                let b = rom.get_byte(i as u16);
                mem.push(b);
            } else {
                mem.push(0xFF);
            }
            i = i + 1;
        }
        proof {
            assert(mem@ =~= spec_initial_mem(rom@));
        }
        Bus { mem }
    }

    /// The byte currently at `address`. Total: unmapped regions are backed
    /// like RAM, so every read returns the byte most recently stored there
    /// (or the power-on value).
    pub fn read_byte(&self, address: u16) -> (r: u8)
        requires
            self.wf(),
        ensures
            r == self@[address as int],
    {
        self.mem[address as usize]
    }

    /// Stores `value` at `address`; stores into the read-only cartridge
    /// region are silently ignored, never fatal.
    pub fn write_byte(&mut self, address: u16, value: u8)
        requires
            old(self).wf(),
        ensures
            final(self).wf(),
            final(self)@ == spec_bus_write(old(self)@, address, value),
    {
        if address >= WRITABLE_BASE {
            self.mem[address as usize] = value;
        }
    }
}

} // verus!
