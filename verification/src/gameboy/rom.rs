//! The cartridge image: a read-only sequence of bytes with bounded access.

use vstd::prelude::*;

verus! {

/// The number of bytes of a cartridge that the bus can address.
pub const ROM_WINDOW: usize = 0x8000;

/// An access to the cartridge outside what it holds.
#[derive(Clone, Copy, Debug, PartialEq, Eq, Structural)]
pub struct BusError {
    /// The offending address.
    pub address: usize,
}

/// A cartridge image.
pub struct Rom {
    data: Vec<u8>,
}

impl View for Rom {
    type V = Seq<u8>;

    /// The bytes of the image.
    closed spec fn view(&self) -> Seq<u8> {
        self.data@
    }
}

/// Whether the bus can read `address` from an image of `len` bytes: the
/// address lies in the first 32 KiB and inside the image.
pub open spec fn addressable(len: nat, address: int) -> bool {
    0 <= address < 0x8000 && address < len
}

impl Rom {
    /// The image that holds `data`.
    pub fn new(data: Vec<u8>) -> (rom: Rom)
        ensures
            rom@ == data@,
    {
        Rom { data }
    }

    /// The byte at `address` as the bus sees it. Fails outside the first
    /// 32 KiB and outside the image.
    pub fn read(&self, address: usize) -> (res: Result<u8, BusError>)
        ensures
            addressable(self@.len(), address as int) ==> res == Ok::<u8, BusError>(
                self@[address as int],
            ),
            !addressable(self@.len(), address as int) ==> res == Err::<u8, BusError>(
                BusError { address },
            ),
    {
        if address < ROM_WINDOW && address < self.data.len() {
            Ok(self.data[address])
        } else {
            Err(BusError { address })
        }
    }

    /// A write from the bus. The image is read-only and there is no bank
    /// controller behind it, so the byte is dropped; the address is still
    /// checked as for a read.
    pub fn write(&mut self, address: usize, byte: u8) -> (res: Result<(), BusError>)
        ensures
            final(self)@ == old(self)@,
            addressable(old(self)@.len(), address as int) ==> res == Ok::<(), BusError>(()),
            !addressable(old(self)@.len(), address as int) ==> res == Err::<(), BusError>(
                BusError { address },
            ),
    {
        if address < ROM_WINDOW && address < self.data.len() {
            Ok(())
        } else {
            Err(BusError { address })
        }
    }

    /// The byte at `address` of the image, wherever in the image it lies.
    pub fn read_raw(&self, address: usize) -> (res: Result<u8, BusError>)
        ensures
            address < self@.len() ==> res == Ok::<u8, BusError>(self@[address as int]),
            address >= self@.len() ==> res == Err::<u8, BusError>(BusError { address }),
    {
        if address < self.data.len() {
            Ok(self.data[address])
        } else {
            Err(BusError { address })
        }
    }

    /// The number of bytes in the image.
    pub fn size(&self) -> (len: usize)
        ensures
            len == self@.len(),
    {
        self.data.len()
    }
}

} // verus!
