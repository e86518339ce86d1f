//! Cartridge ROM image: a plain byte buffer with bounds-checked access.

use vstd::prelude::*;

verus! {

/// The raw bytes of a cartridge image, as handed to the memory bus.
pub struct Rom {
    pub raw: Vec<u8>,
}

impl View for Rom {
    type V = Seq<u8>;

    open spec fn view(&self) -> Seq<u8> {
        self.raw@
    }
}

impl Rom {
    /// Wraps an already-loaded byte image. Reading the backing file is the
    /// host's job; the core never touches the file system.
    pub fn new(raw: Vec<u8>) -> (r: Rom)
        ensures
            r@ == raw@,
    {
        Rom { raw }
    }

    /// The byte at `address`, which must lie inside the image.
    pub fn get_byte(&self, address: u16) -> (r: u8)
        requires
            address < self@.len(),
        ensures
            r == self@[address as int],
    {
        self.raw[address as usize]
    }

    /// Overwrites the byte at `address`, which must lie inside the image.
    pub fn set_byte(&mut self, address: u16, value: u8)
        requires
            address < old(self)@.len(),
        ensures
            final(self)@ == old(self)@.update(address as int, value),
    {
        self.raw[address as usize] = value;
    }
}

} // verus!
