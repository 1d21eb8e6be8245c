use vstd::prelude::*;

verus! {

/// Number of addressable bytes.
pub const MEMORY_SIZE: usize = 4096;

/// First address of a loaded program; everything below it belongs to
/// the built-in glyph table region.
pub const PROGRAM_START: u16 = 0x200;

/// The built-in glyph table: sixteen 5-byte glyphs for the hexadecimal
/// digits, seeded at address 0.
pub open spec fn fontset() -> Seq<u8> {
    seq![
        0xF0u8, 0x90, 0x90, 0x90, 0xF0, // 0
        0x20, 0x60, 0x20, 0x20, 0x70, // 1
        0xF0, 0x10, 0xF0, 0x80, 0xF0, // 2
        0xF0, 0x10, 0xF0, 0x10, 0xF0, // 3
        0x90, 0x90, 0xF0, 0x10, 0x10, // 4
        0xF0, 0x80, 0xF0, 0x10, 0xF0, // 5
        0xF0, 0x80, 0xF0, 0x90, 0xF0, // 6
        0xF0, 0x10, 0x20, 0x40, 0x40, // 7
        0xF0, 0x90, 0xF0, 0x90, 0xF0, // 8
        0xF0, 0x90, 0xF0, 0x10, 0xF0, // 9
        0xF0, 0x90, 0xF0, 0x90, 0x90, // A
        0xE0, 0x90, 0xE0, 0x90, 0xE0, // B
        0xF0, 0x80, 0x80, 0x80, 0xF0, // C
        0xE0, 0x90, 0x90, 0x90, 0xE0, // D
        0xF0, 0x80, 0xF0, 0x80, 0xF0, // E
        0xF0, 0x80, 0xF0, 0x80, 0x80, // F
    ]
}

/// The memory contents of a freshly created machine: the glyph table
/// followed by zeroes.
pub open spec fn initial_memory() -> Seq<u8> {
    Seq::new(
        MEMORY_SIZE as nat,
        |i: int|
            if i < fontset().len() {
                fontset()[i]
            } else {
                0u8
            },
    )
}

/// Failure of a memory access.
#[derive(Debug, Clone, Copy, PartialEq, Eq, Structural)]
pub enum MemoryError {
    /// The named address lies outside the 4096-byte store, or an access
    /// beginning in bounds would run past its end.
    OutOfBounds(u16),
}

/// Flat 4096-byte store, pre-seeded with the glyph table.
pub struct Memory {
    data: Vec<u8>,
}

impl View for Memory {
    type V = Seq<u8>;

    /// The 4096 bytes of memory, in address order.
    closed spec fn view(&self) -> Seq<u8> {
        self.data@
    }
}

impl Memory {
    /// Memory holds exactly 4096 bytes.
    pub open spec fn wf(&self) -> bool {
        self@.len() == MEMORY_SIZE
    }

    /// A memory with the glyph table at address 0 and every other byte
    /// zero.
    pub fn new() -> (r: Memory)
        ensures
            r.wf(),
            r@ == initial_memory(),
    {
        let data: Vec<u8> = vec![0u8; 4096];
        let mut memory = Memory { data };
        proof {
            assert(memory@ =~= Seq::new(4096, |i: int| 0u8));
        }
        memory.load_fontset();
        memory
    }

    /// Writes the glyph table over the first 80 bytes.
    fn load_fontset(&mut self)
        requires
            old(self).wf(),
        ensures
            final(self).wf(),
            final(self)@ == Seq::new(
                MEMORY_SIZE as nat,
                |i: int|
                    if i < fontset().len() {
                        fontset()[i]
                    } else {
                        old(self)@[i]
                    },
            ),
    {
        let glyphs: Vec<u8> = vec![
            0xF0u8, 0x90, 0x90, 0x90, 0xF0, // 0
            0x20, 0x60, 0x20, 0x20, 0x70, // 1
            0xF0, 0x10, 0xF0, 0x80, 0xF0, // 2
            0xF0, 0x10, 0xF0, 0x10, 0xF0, // 3
            0x90, 0x90, 0xF0, 0x10, 0x10, // 4
            0xF0, 0x80, 0xF0, 0x10, 0xF0, // 5
            0xF0, 0x80, 0xF0, 0x90, 0xF0, // 6
            0xF0, 0x10, 0x20, 0x40, 0x40, // 7
            0xF0, 0x90, 0xF0, 0x90, 0xF0, // 8
            0xF0, 0x90, 0xF0, 0x10, 0xF0, // 9
            0xF0, 0x90, 0xF0, 0x90, 0x90, // A
            0xE0, 0x90, 0xE0, 0x90, 0xE0, // B
            0xF0, 0x80, 0x80, 0x80, 0xF0, // C
            0xE0, 0x90, 0x90, 0x90, 0xE0, // D
            0xF0, 0x80, 0xF0, 0x80, 0xF0, // E
            0xF0, 0x80, 0xF0, 0x80, 0x80, // F
        ];
        proof {
            assert(glyphs@ =~= fontset());
        }
        let mut i: usize = 0;
        while i < 80
            invariant
                self.wf(),
                i <= 80,
                glyphs@ == fontset(),
                forall|j: int|
                    0 <= j < 4096 ==> self@[j] == if j < i {
                        fontset()[j]
                    } else {
                        old(self)@[j]
                    },
            decreases 80 - i,
        {
            self.data[i] = glyphs[i];
            i = i + 1;
        }
        proof {
            assert(self@ =~= Seq::new(
                MEMORY_SIZE as nat,
                |i: int|
                    if i < fontset().len() {
                        fontset()[i]
                    } else {
                        old(self)@[i]
                    },
            ));
        }
    }

    /// The byte at `address`; rejects addresses at or past 4096.
    pub fn get_byte(&self, address: u16) -> (r: Result<u8, MemoryError>)
        requires
            self.wf(),
        ensures
            address < 4096 ==> r == Ok::<u8, MemoryError>(self@[address as int]),
            address >= 4096 ==> r == Err::<u8, MemoryError>(MemoryError::OutOfBounds(address)),
    {
        if (address as usize) < MEMORY_SIZE {
            Ok(self.data[address as usize])
        } else {
            Err(MemoryError::OutOfBounds(address))
        }
    }

    /// The `amount` bytes starting at `address`, in address order;
    /// rejects a range any part of which lies outside memory.
    pub fn get_bytes(&self, address: u16, amount: u16) -> (r: Result<Vec<u8>, MemoryError>)
        requires
            self.wf(),
        ensures
            address + amount > 4096 ==> r == Err::<Vec<u8>, MemoryError>(
                MemoryError::OutOfBounds(address),
            ),
            address + amount <= 4096 ==> (r matches Ok(bytes) && bytes@ == self@.subrange(
                address as int,
                address + amount,
            )),
    {
        if address as usize + amount as usize > MEMORY_SIZE {
            return Err(MemoryError::OutOfBounds(address));
        }
        let mut out: Vec<u8> = Vec::new();
        let mut i: usize = address as usize;
        while i < address as usize + amount as usize
            invariant
                self.wf(),
                address as usize <= i <= address as usize + amount as usize,
                address as usize + amount as usize <= 4096,
                out@ == self@.subrange(address as int, i as int),
            decreases address as usize + amount as usize - i,
        {
            out.push(self.data[i]);
            proof {
                assert(out@ =~= self@.subrange(address as int, i + 1));
            }
            i = i + 1;
        }
        Ok(out)
    }

    /// Sets the byte at `address` to `byte`; rejects addresses at or
    /// past 4096, changing nothing.
    pub fn set_byte(&mut self, address: u16, byte: u8) -> (r: Result<(), MemoryError>)
        requires
            old(self).wf(),
        ensures
            final(self).wf(),
            address < 4096 ==> r == Ok::<(), MemoryError>(()) && final(self)@ == old(self)@.update(
                address as int,
                byte,
            ),
            address >= 4096 ==> r == Err::<(), MemoryError>(MemoryError::OutOfBounds(address))
                && final(self)@ == old(self)@,
    {
        if (address as usize) < MEMORY_SIZE {
            self.data[address as usize] = byte;
            Ok(())
        } else {
            Err(MemoryError::OutOfBounds(address))
        }
    }

    /// Copies `bytes` into memory starting at `address`; rejects a
    /// range any part of which lies outside memory, writing nothing.
    pub fn set_bytes(&mut self, address: u16, bytes: &[u8]) -> (r: Result<(), MemoryError>)
        requires
            old(self).wf(),
        ensures
            final(self).wf(),
            address + bytes@.len() > 4096 ==> r == Err::<(), MemoryError>(
                MemoryError::OutOfBounds(address),
            ) && final(self)@ == old(self)@,
            address + bytes@.len() <= 4096 ==> r == Ok::<(), MemoryError>(()) && final(self)@
                == Seq::new(
                MEMORY_SIZE as nat,
                |i: int|
                    if address <= i < address + bytes@.len() {
                        bytes@[i - address]
                    } else {
                        old(self)@[i]
                    },
            ),
    {
        let len = bytes.len();
        if address as usize > MEMORY_SIZE || len > MEMORY_SIZE - address as usize {
            return Err(MemoryError::OutOfBounds(address));
        }
        let mut i: usize = 0;
        while i < len
            invariant
                self.wf(),
                i <= len,
                address as usize + len <= 4096,
                len == bytes@.len(),
                forall|j: int|
                    0 <= j < 4096 ==> self@[j] == if address <= j < address + i {
                        bytes@[j - address]
                    } else {
                        old(self)@[j]
                    },
            decreases len - i,
        {
            self.data[address as usize + i] = bytes[i];
            i = i + 1;
        }
        proof {
            assert(self@ =~= Seq::new(
                MEMORY_SIZE as nat,
                |i: int|
                    if address <= i < address + bytes@.len() {
                        bytes@[i - address]
                    } else {
                        old(self)@[i]
                    },
            ));
        }
        Ok(())
    }

    /// Writes the three decimal digits of `decimal` - hundreds, tens,
    /// ones - to `address`, `address + 1` and `address + 2`; rejects a
    /// placement whose last byte would fall outside memory, writing
    /// nothing.
    pub fn store_binary_coded_decimal(&mut self, address: u16, decimal: u8) -> (r: Result<
        (),
        MemoryError,
    >)
        requires
            old(self).wf(),
        ensures
            final(self).wf(),
            address + 3 > 4096 ==> r == Err::<(), MemoryError>(MemoryError::OutOfBounds(address))
                && final(self)@ == old(self)@,
            address + 3 <= 4096 ==> r == Ok::<(), MemoryError>(()) && final(self)@ == old(
                self,
            )@.update(address as int, (decimal / 100) as u8).update(
                address + 1,
                ((decimal / 10) % 10) as u8,
            ).update(address + 2, (decimal % 10) as u8),
    {
        if address as usize > MEMORY_SIZE || 3 > MEMORY_SIZE - address as usize {
            return Err(MemoryError::OutOfBounds(address));
        }
        let hundreds = decimal / 100;
        let tens = (decimal % 100) / 10;
        let ones = decimal % 10;
        self.data[address as usize] = hundreds;
        self.data[address as usize + 1] = tens;
        self.data[address as usize + 2] = ones;
        proof {
            assert((decimal % 100) / 10 == (decimal / 10) % 10) by (nonlinear_arith);
        }
        Ok(())
    }

    /// Copies a program image into memory starting at 0x200; rejects an
    /// image longer than the 3584 bytes that lie above that address,
    /// writing nothing.
    pub fn load_rom(&mut self, rom: &[u8]) -> (r: Result<(), MemoryError>)
        requires
            old(self).wf(),
        ensures
            final(self).wf(),
            rom@.len() > 3584 ==> r == Err::<(), MemoryError>(
                MemoryError::OutOfBounds(PROGRAM_START),
            ) && final(self)@ == old(self)@,
            rom@.len() <= 3584 ==> r == Ok::<(), MemoryError>(()) && final(self)@ == Seq::new(
                MEMORY_SIZE as nat,
                |i: int|
                    if 0x200 <= i < 0x200 + rom@.len() {
                        rom@[i - 0x200]
                    } else {
                        old(self)@[i]
                    },
            ),
    {
        if rom.len() > MEMORY_SIZE - PROGRAM_START as usize {
            return Err(MemoryError::OutOfBounds(PROGRAM_START));
        }
        self.set_bytes(PROGRAM_START, rom)
    }
}

} // verus!
