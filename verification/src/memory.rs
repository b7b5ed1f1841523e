//! A fixed-size, bounds-checked, byte-addressable store with a bulk loader.

use vstd::prelude::*;

verus! {

/// The smallest memory a cartridge console of this profile may carry.
pub const MIN_MEMORY_SIZE: u32 = 13824;

/// One past the highest address a 16-bit bus can form.
pub const MAX_MEMORY_SIZE: u32 = 65536;

/// A value fell outside its allowed window `[min, max]`.
///
/// The same shape reports an invalid memory size at construction and an
/// invalid address at load or store time; the `min`/`max` window tells
/// the two apart.
#[derive(Debug, Clone, Copy, PartialEq, Eq, Structural)]
pub struct OutOfRangeError {
    pub value: u32,
    pub min: u32,
    pub max: u32,
}

/// A flat byte array of a size fixed at construction.
#[derive(Debug)]
pub struct Memory {
    pub data: Vec<u8>,
    pub size: u32,
}

impl Memory {
    /// The backing vector holds exactly `size` bytes, and the size lies in
    /// the window that `new` accepts.
    pub open spec fn wf(self) -> bool {
        &&& self.data@.len() == self.size as int
        &&& MIN_MEMORY_SIZE <= self.size <= MAX_MEMORY_SIZE
    }

    fn address_in_bounds(addr: u16, size: u32) -> (r: bool)
        ensures
            r == ((addr as u32) < size),
    {
        (addr as u32) < size
    }

    /// Allocates `size` zero-initialized bytes; fails unless
    /// `MIN_MEMORY_SIZE <= size <= MAX_MEMORY_SIZE`.
    pub fn new(size: u32) -> (r: Result<Memory, OutOfRangeError>)
        ensures
            r is Ok <==> MIN_MEMORY_SIZE <= size <= MAX_MEMORY_SIZE,
            r matches Ok(m) ==> {
                &&& m.wf()
                &&& m.size == size
                &&& forall|i: int| 0 <= i < size as int ==> m.data@[i] == 0u8
            },
            r matches Err(e) ==> e == (OutOfRangeError {
                value: size,
                min: MIN_MEMORY_SIZE,
                max: MAX_MEMORY_SIZE,
            }),
    {
        if size < MIN_MEMORY_SIZE || size > MAX_MEMORY_SIZE {
            return Err(OutOfRangeError { value: size, min: MIN_MEMORY_SIZE, max: MAX_MEMORY_SIZE });
        }

        let mut data: Vec<u8> = Vec::new();
        while data.len() < size as usize
            invariant
                data@.len() <= size as int,
                forall|i: int| 0 <= i < data@.len() ==> data@[i] == 0u8,
            decreases size as int - data@.len(),
        {
            data.push(0u8);
        }

        Ok(Memory { data, size })
    }

    /// Returns the byte at `addr`; fails if `addr` is not below the size.
    pub fn load(&self, addr: u16) -> (r: Result<u8, OutOfRangeError>)
        requires
            self.wf(),
        ensures
            r is Ok <==> (addr as int) < self.size as int,
            r matches Ok(b) ==> b == self.data@[addr as int],
            r matches Err(e) ==> e == (OutOfRangeError {
                value: addr as u32,
                min: 0,
                max: (self.size - 1) as u32,
            }),
    {
        if Memory::address_in_bounds(addr, self.size) {
            Ok(self.data[addr as usize])
        } else {
            Err(OutOfRangeError { value: addr as u32, min: 0x0, max: self.size - 1 })
        }
    }

    /// Writes `byte` at `addr`; fails if `addr` is not below the size.
    pub fn store(&mut self, addr: u16, byte: u8) -> (r: Result<(), OutOfRangeError>)
        requires
            old(self).wf(),
        ensures
            final(self).wf(),
            final(self).size == old(self).size,
            r is Ok <==> (addr as int) < old(self).size as int,
            r is Ok ==> final(self).data@ == old(self).data@.update(addr as int, byte),
            r matches Err(e) ==> {
                &&& *final(self) == *old(self)
                &&& e == (OutOfRangeError {
                    value: addr as u32,
                    min: 0,
                    max: (old(self).size - 1) as u32,
                })
            },
    {
        if Memory::address_in_bounds(addr, self.size) {
            self.data[addr as usize] = byte;
            return Ok(());
        }

        Err(OutOfRangeError { value: addr as u32, min: 0x0, max: self.size - 1 })
    }

    /// Bulk-writes `rom` starting at `addr`, one byte at a time.
    ///
    /// This is the fail-fast initializer for trusted cartridge and test
    /// images: a write past the end of memory is ruled out up front rather
    /// than reported through a `Result`, so the whole image either lands or
    /// the call is rejected before it starts.
    pub fn load_rom(&mut self, addr: u16, rom: &[u8])
        requires
            old(self).wf(),
            addr as int + rom@.len() <= old(self).size as int,
        ensures
            final(self).wf(),
            final(self).size == old(self).size,
            final(self).data@.len() == old(self).data@.len(),
            forall|i: int|
                0 <= i < old(self).data@.len() ==> final(self).data@[i] == (
                if addr as int <= i < addr as int + rom@.len() {
                    rom@[i - addr as int]
                } else {
                    old(self).data@[i]
                }),
    {
        let mut i: usize = 0;
        while i < rom.len()
            invariant
                self.wf(),
                self.size == old(self).size,
                self.data@.len() == old(self).data@.len(),
                i <= rom@.len(),
                addr as int + rom@.len() <= self.size as int,
                forall|j: int|
                    0 <= j < self.data@.len() ==> self.data@[j] == (
                    if addr as int <= j < addr as int + i as int {
                        rom@[j - addr as int]
                    } else {
                        old(self).data@[j]
                    }),
            decreases rom@.len() - i as int,
        {
            let byte = rom[i];
            match self.store(addr + (i as u16), byte) {
                Ok(()) => {},
                Err(_) => {
                    // Out of range is ruled out by the precondition.
                    vstd::pervasive::unreached::<()>()
                },
            }
            i = i + 1;
        }
    }
}

} // verus!
