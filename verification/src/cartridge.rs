//! The memory image: font table, loaded program, and bounds-checked access.

use vstd::prelude::*;
use vstd::slice::slice_subrange;
use crate::error::Chip8Error;

verus! {

/// Number of addressable cells.
pub const MEMORY_SIZE: usize = 0x1000;

/// Address of the first program byte. The cells below it hold the font table.
pub const CARTRIDGE_START: u16 = 0x0200;

/// The memory as the machine sees it: 4096 cells, of which `[0, end)` may be
/// read and written.
#[verifier::ext_equal]
pub struct MemoryImage {
    pub bytes: Seq<u8>,
    pub end: u16,
}

impl MemoryImage {
    /// All cells exist, and the valid range ends between the program start
    /// and the last cell.
    pub open spec fn wf(self) -> bool {
        &&& self.bytes.len() == MEMORY_SIZE
        &&& CARTRIDGE_START <= self.end <= MEMORY_SIZE
    }

    /// The byte at `address`, or the failure of a read beyond the valid range.
    pub open spec fn read(self, address: u16) -> Result<u8, Chip8Error> {
        if address < self.end {
            Ok(self.bytes[address as int])
        } else {
            Err(Chip8Error::AddressOutOfBounds(address))
        }
    }

    /// The image after a write, or the failure of a write beyond the valid range.
    pub open spec fn write(self, address: u16, val: u8) -> Result<MemoryImage, Chip8Error> {
        if address < self.end {
            Ok(MemoryImage { bytes: self.bytes.update(address as int, val), end: self.end })
        } else {
            Err(Chip8Error::AddressOutOfBounds(address))
        }
    }

    /// The big-endian 16-bit word at `address` and `address + 1`. The fetch
    /// fails unless `address + 1` lies below the end of the valid range.
    pub open spec fn opcode_at(self, address: u16) -> Result<u16, Chip8Error> {
        if address + 1 < self.end {
            Ok((self.bytes[address as int] * 0x100 + self.bytes[address + 1]) as u16)
        } else {
            Err(Chip8Error::AddressOutOfBounds(address))
        }
    }

    /// The failure, if any, of accessing `count` cells from `start` on: the
    /// first address of the run that lies beyond the valid range.
    pub open spec fn range_fault(self, start: u16, count: int) -> Option<Chip8Error> {
        if count > 0 && start + count > self.end {
            Some(
                Chip8Error::AddressOutOfBounds(
                    if start < self.end {
                        self.end
                    } else {
                        start
                    },
                ),
            )
        } else {
            None
        }
    }

    /// The `count` cells from `start` on.
    pub open spec fn block(self, start: u16, count: int) -> Seq<u8> {
        Seq::new(count as nat, |k: int| self.bytes[start + k])
    }

    /// The image with `vals` stored from `start` on.
    pub open spec fn store(self, start: u16, vals: Seq<u8>) -> MemoryImage {
        MemoryImage {
            bytes: Seq::new(
                self.bytes.len(),
                |a: int|
                    if start <= a < start + vals.len() {
                        vals[a - start]
                    } else {
                        self.bytes[a]
                    },
            ),
            end: self.end,
        }
    }
}

/// The cells of a freshly loaded image: the font bytes from address 0 on, as
/// far as they fit below the program start; the program bytes from the program
/// start on, as far as they fit in memory; zero everywhere else.
pub open spec fn loaded_bytes(fonts: Seq<u8>, program: Seq<u8>) -> Seq<u8> {
    Seq::new(
        MEMORY_SIZE as nat,
        |a: int|
            if a < CARTRIDGE_START {
                if a < fonts.len() {
                    fonts[a]
                } else {
                    0u8
                }
            } else if a - CARTRIDGE_START < program.len() {
                program[a - CARTRIDGE_START]
            } else {
                0u8
            },
    )
}

/// The end of the valid range after loading a program of `len` bytes.
pub open spec fn loaded_end(len: nat) -> int {
    if len <= MEMORY_SIZE - CARTRIDGE_START {
        CARTRIDGE_START + len
    } else {
        MEMORY_SIZE as int
    }
}

/// The memory of the machine with a program loaded.
pub struct Cartridge {
    /// The cells. The font table lies below the program start.
    pub memory: [u8; 4096],
    /// End of the valid range: one past the last program byte.
    fin: u16,
}

impl View for Cartridge {
    type V = MemoryImage;

    closed spec fn view(&self) -> MemoryImage {
        MemoryImage { bytes: self.memory@, end: self.fin }
    }
}

impl Cartridge {
    /// The valid range ends between the program start and the last cell.
    pub open spec fn wf(&self) -> bool {
        self@.wf()
    }

    /// Builds the memory image from the font table and the program. Font bytes
    /// beyond the font area and program bytes beyond the last cell are left out.
    pub fn new(fonts: &[u8], program: &[u8]) -> (cartridge: Cartridge)
        ensures
            cartridge.wf(),
            cartridge@.bytes == loaded_bytes(fonts@, program@),
            cartridge@.end == loaded_end(program@.len()),
    {
        let mut memory = [0u8;4096];
        let mut k: usize = 0;
        while k < fonts.len() && k < 0x200
            invariant
                k <= fonts.len(),
                k <= 0x200,
                forall|a: int| 0 <= a < k ==> memory@[a] == fonts@[a],
                forall|a: int| k <= a < 4096 ==> memory@[a] == 0,
            decreases 0x200 - k,
        {
            memory[k] = fonts[k];
            k += 1;
        }
        let mut j: usize = 0;
        while j < program.len() && j < 0xe00
            invariant
                j <= program.len(),
                j <= 0xe00,
                k <= 0x200,
                k == fonts.len() || k == 0x200,
                forall|a: int| 0 <= a < k ==> memory@[a] == fonts@[a],
                forall|a: int| k <= a < 0x200 ==> memory@[a] == 0,
                forall|a: int| 0 <= a < j ==> memory@[0x200 + a] == program@[a],
                forall|a: int| 0x200 + j <= a < 4096 ==> memory@[a] == 0,
            decreases 0xe00 - j,
        {
            memory[0x200 + j] = program[j];
            j += 1;
        }
        let cartridge = Cartridge { memory, fin: (0x200 + j) as u16 };
        assert(cartridge@.bytes =~= loaded_bytes(fonts@, program@));
        cartridge
    }

    /// Address of the first program byte.
    pub fn start(&self) -> (start: u16)
        ensures
            start == CARTRIDGE_START,
    {
        CARTRIDGE_START
    }

    /// End of the valid range: one past the last program byte.
    pub fn len(&self) -> (end: u16)
        ensures
            end == self@.end,
    {
        self.fin
    }

    /// Writes one cell. Fails, and changes nothing, beyond the valid range.
    pub fn set_memory(&mut self, address: u16, val: u8) -> (res: Result<(), Chip8Error>)
        requires
            old(self).wf(),
        ensures
            final(self).wf(),
            match old(self)@.write(address, val) {
                Ok(image) => res is Ok && final(self)@ == image,
                Err(e) => res == Err::<(), Chip8Error>(e) && final(self)@ == old(self)@,
            },
    {
        if address < self.fin {
            self.memory[address as usize] = val;
            assert(self@.bytes =~= old(self)@.bytes.update(address as int, val));
            Ok(())
        } else {
            Err(Chip8Error::AddressOutOfBounds(address))
        }
    }

    /// Reads one cell. Fails beyond the valid range.
    pub fn get_memory(&self, address: u16) -> (res: Result<u8, Chip8Error>)
        requires
            self.wf(),
        ensures
            res == self@.read(address),
    {
        if address < self.fin {
            Ok(self.memory[address as usize])
        } else {
            Err(Chip8Error::AddressOutOfBounds(address))
        }
    }

    /// Tells whether `count` cells from `start` on can be accessed, and if not,
    /// the failure that the access meets.
    pub fn check_range(&self, start: u16, count: u16) -> (fault: Option<Chip8Error>)
        ensures
            fault == self@.range_fault(start, count as int),
    {
        if count > 0 && start as u32 + count as u32 > self.fin as u32 {
            Some(
                Chip8Error::AddressOutOfBounds(
                    if start < self.fin {
                        self.fin
                    } else {
                        start
                    },
                ),
            )
        } else {
            None
        }
    }

    /// Borrows `count` cells from `start` on. Fails if one of them lies beyond
    /// the valid range.
    pub fn block(&self, start: u16, count: u16) -> (res: Result<&[u8], Chip8Error>)
        requires
            self.wf(),
        ensures
            match self@.range_fault(start, count as int) {
                Some(e) => res == Err::<&[u8], Chip8Error>(e),
                None => res matches Ok(cells) && cells@ == self@.block(start, count as int),
            },
    {
        match self.check_range(start, count) {
            Some(e) => Err(e),
            None => {
                let from: usize = if count == 0 {
                    0
                } else {
                    start as usize
                };
                let cells = slice_subrange(self.memory.as_slice(), from, from + count as usize);
                assert(cells@ =~= self@.block(start, count as int));
                Ok(cells)
            },
        }
    }

    /// Fetches the big-endian opcode at `address`. Fails unless `address + 1`
    /// lies below the end of the valid range.
    pub fn get_opcode_from(&self, address: u16) -> (res: Result<u16, Chip8Error>)
        requires
            self.wf(),
        ensures
            res == self@.opcode_at(address),
    {
        if address as u32 + 1 < self.fin as u32 {
            let au = address as usize;
            let hi = self.memory[au] as u16;
            let lo = self.memory[au + 1] as u16;
            Ok(hi * 0x100 + lo)
        } else {
            Err(Chip8Error::AddressOutOfBounds(address))
        }
    }
}

} // verus!
