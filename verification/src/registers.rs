use vstd::prelude::*;

verus! {

/// Number of general-purpose registers.
pub const NUM_REGISTERS: usize = 16;

/// Index of the register that arithmetic, shift and draw operations
/// overwrite with their carry / borrow / shift-out / collision status.
pub const FLAG_REGISTER: usize = 15;

/// The result of an 8-bit addition, reduced modulo 256.
pub open spec fn wrap_add(a: u8, b: u8) -> u8 {
    if a + b < 256 {
        (a + b) as u8
    } else {
        (a + b - 256) as u8
    }
}

/// The result of an 8-bit subtraction, reduced modulo 256.
pub open spec fn wrap_sub(a: u8, b: u8) -> u8 {
    if a >= b {
        (a - b) as u8
    } else {
        (a - b + 256) as u8
    }
}

/// File of 16 general-purpose 8-bit registers, addressed 0x0-0xF.
pub struct Registers {
    values: Vec<u8>,
}

/// Failure of a register access.
#[derive(Debug, Clone, Copy, PartialEq, Eq, Structural)]
pub enum RegisterError {
    IndexOutOfBounds(u8),
}

impl View for Registers {
    type V = Seq<u8>;

    /// The 16 register values, in index order.
    closed spec fn view(&self) -> Seq<u8> {
        self.values@
    }
}

impl Registers {
    /// All sixteen registers hold a value.
    pub open spec fn wf(&self) -> bool {
        self@.len() == NUM_REGISTERS
    }

    /// A register file with every register zeroed.
    pub fn new() -> (r: Registers)
        ensures
            r.wf(),
            r@ == Seq::new(16, |i: int| 0u8),
    {
        let values: Vec<u8> = vec![0u8; 16];
        let r = Registers { values };
        proof {
            assert(r@ =~= Seq::new(16, |i: int| 0u8));
        }
        r
    }

    /// The value of register `index`; rejects indices above 0xF.
    pub fn read(&self, index: u8) -> (r: Result<u8, RegisterError>)
        requires
            self.wf(),
        ensures
            index < 16 ==> r == Ok::<u8, RegisterError>(self@[index as int]),
            index >= 16 ==> r == Err::<u8, RegisterError>(RegisterError::IndexOutOfBounds(index)),
    {
        if (index as usize) < NUM_REGISTERS {
            Ok(self.values[index as usize])
        } else {
            Err(RegisterError::IndexOutOfBounds(index))
        }
    }

    /// The registers `start_index` (inclusive) up to `end_index`
    /// (exclusive), in index order.
    pub fn read_multiple(&self, start_index: u8, end_index: u8) -> (r: Result<
        Vec<u8>,
        RegisterError,
    >)
        requires
            self.wf(),
        ensures
            start_index > end_index ==> r == Err::<Vec<u8>, RegisterError>(
                RegisterError::IndexOutOfBounds(start_index),
            ),
            start_index <= end_index && end_index > 16 ==> r == Err::<Vec<u8>, RegisterError>(
                RegisterError::IndexOutOfBounds(end_index),
            ),
            start_index <= end_index <= 16 ==> (r matches Ok(values) && values@ == self@.subrange(
                start_index as int,
                end_index as int,
            )),
    {
        if start_index > end_index {
            return Err(RegisterError::IndexOutOfBounds(start_index));
        }
        if end_index as usize > NUM_REGISTERS {
            return Err(RegisterError::IndexOutOfBounds(end_index));
        }
        let mut out: Vec<u8> = Vec::new();
        let mut i: usize = start_index as usize;
        while i < end_index as usize
            invariant
                self.wf(),
                start_index as usize <= i <= end_index as usize,
                end_index as usize <= 16,
                out@ == self@.subrange(start_index as int, i as int),
            decreases end_index as usize - i,
        {
            out.push(self.values[i]);
            proof {
                assert(out@ =~= self@.subrange(start_index as int, i + 1));
            }
            i = i + 1;
        }
        Ok(out)
    }

    /// Sets register `index` to `value`; rejects indices above 0xF.
    pub fn write(&mut self, index: u8, value: u8) -> (r: Result<(), RegisterError>)
        requires
            old(self).wf(),
        ensures
            final(self).wf(),
            index < 16 ==> r == Ok::<(), RegisterError>(()) && final(self)@ == old(self)@.update(
                index as int,
                value,
            ),
            index >= 16 ==> r == Err::<(), RegisterError>(RegisterError::IndexOutOfBounds(index))
                && final(self)@ == old(self)@,
    {
        if (index as usize) < NUM_REGISTERS {
            self.values[index as usize] = value;
            Ok(())
        } else {
            Err(RegisterError::IndexOutOfBounds(index))
        }
    }

    /// Copies `values` into the registers starting at `start_index`;
    /// rejects a block that would run past register 0xF, writing nothing.
    pub fn write_multiple(&mut self, start_index: u8, values: &[u8]) -> (r: Result<
        (),
        RegisterError,
    >)
        requires
            old(self).wf(),
        ensures
            final(self).wf(),
            start_index + values@.len() > 16 ==> r == Err::<(), RegisterError>(
                RegisterError::IndexOutOfBounds(start_index),
            ) && final(self)@ == old(self)@,
            start_index + values@.len() <= 16 ==> r == Ok::<(), RegisterError>(()) && final(self)@
                == Seq::new(
                16,
                |i: int|
                    if start_index <= i < start_index + values@.len() {
                        values@[i - start_index]
                    } else {
                        old(self)@[i]
                    },
            ),
    {
        let len = values.len();
        if start_index as usize > NUM_REGISTERS || len > NUM_REGISTERS - start_index as usize {
            return Err(RegisterError::IndexOutOfBounds(start_index));
        }
        let mut i: usize = 0;
        while i < len
            invariant
                self.wf(),
                i <= len,
                start_index as usize + len <= 16,
                len == values@.len(),
                forall|j: int|
                    0 <= j < 16 ==> self@[j] == if start_index <= j < start_index + i {
                        values@[j - start_index]
                    } else {
                        old(self)@[j]
                    },
            decreases len - i,
        {
            self.values[start_index as usize + i] = values[i];
            i = i + 1;
        }
        proof {
            assert(self@ =~= Seq::new(
                16,
                |i: int|
                    if start_index <= i < start_index + values@.len() {
                        values@[i - start_index]
                    } else {
                        old(self)@[i]
                    },
            ));
        }
        Ok(())
    }

    /// Sets register `index1` to the value of register `index2`.
    pub fn copy(&mut self, index1: u8, index2: u8) -> (r: Result<(), RegisterError>)
        requires
            old(self).wf(),
        ensures
            final(self).wf(),
            index2 >= 16 ==> r == Err::<(), RegisterError>(RegisterError::IndexOutOfBounds(index2))
                && final(self)@ == old(self)@,
            index2 < 16 && index1 >= 16 ==> r == Err::<(), RegisterError>(
                RegisterError::IndexOutOfBounds(index1),
            ) && final(self)@ == old(self)@,
            index1 < 16 && index2 < 16 ==> r == Ok::<(), RegisterError>(()) && final(self)@ == old(
                self,
            )@.update(index1 as int, old(self)@[index2 as int]),
    {
        if index2 as usize >= NUM_REGISTERS {
            return Err(RegisterError::IndexOutOfBounds(index2));
        }
        if index1 as usize >= NUM_REGISTERS {
            return Err(RegisterError::IndexOutOfBounds(index1));
        }
        let value = self.values[index2 as usize];
        self.values[index1 as usize] = value;
        Ok(())
    }

    /// Adds register `index2` into register `index1` modulo 256 and
    /// sets register 0xF to 1 exactly when the sum overflowed 8 bits.
    pub fn add_with_overflow(&mut self, index1: u8, index2: u8) -> (r: Result<(), RegisterError>)
        requires
            old(self).wf(),
        ensures
            final(self).wf(),
            index1 < 16 && index2 < 16 ==> r == Ok::<(), RegisterError>(()) && final(self)@ == old(
                self,
            )@.update(index1 as int, wrap_add(old(self)@[index1 as int], old(self)@[index2 as int]))
                .update(
                15,
                if old(self)@[index1 as int] + old(self)@[index2 as int] >= 256 {
                    1u8
                } else {
                    0u8
                },
            ),
            !(index1 < 16 && index2 < 16) ==> (r matches Err(_) && final(self)@ == old(self)@),
    {
        if index1 as usize >= NUM_REGISTERS {
            return Err(RegisterError::IndexOutOfBounds(index1));
        }
        if index2 as usize >= NUM_REGISTERS {
            return Err(RegisterError::IndexOutOfBounds(index2));
        }
        let v1 = self.values[index1 as usize];
        let v2 = self.values[index2 as usize];
        let sum: u16 = v1 as u16 + v2 as u16;
        let (result, flag) = if sum > 255 {
            ((sum - 256) as u8, 1u8)
        } else {
            (sum as u8, 0u8)
        };
        self.values[index1 as usize] = result;
        self.values[FLAG_REGISTER] = flag;
        Ok(())
    }

    /// Subtracts register `index2` from register `index1` modulo 256 and
    /// sets register 0xF to 1 exactly when no borrow occurred, that is,
    /// when `index1`'s value was at least `index2`'s.
    pub fn subtract_with_overflow(&mut self, index1: u8, index2: u8) -> (r: Result<
        (),
        RegisterError,
    >)
        requires
            old(self).wf(),
        ensures
            final(self).wf(),
            index1 < 16 && index2 < 16 ==> r == Ok::<(), RegisterError>(()) && final(self)@ == old(
                self,
            )@.update(index1 as int, wrap_sub(old(self)@[index1 as int], old(self)@[index2 as int]))
                .update(
                15,
                if old(self)@[index1 as int] >= old(self)@[index2 as int] {
                    1u8
                } else {
                    0u8
                },
            ),
            !(index1 < 16 && index2 < 16) ==> (r matches Err(_) && final(self)@ == old(self)@),
    {
        if index1 as usize >= NUM_REGISTERS {
            return Err(RegisterError::IndexOutOfBounds(index1));
        }
        if index2 as usize >= NUM_REGISTERS {
            return Err(RegisterError::IndexOutOfBounds(index2));
        }
        let v1 = self.values[index1 as usize];
        let v2 = self.values[index2 as usize];
        let (result, flag) = if v1 >= v2 {
            (v1 - v2, 1u8)
        } else {
            ((v1 as u16 + 256 - v2 as u16) as u8, 0u8)
        };
        self.values[index1 as usize] = result;
        self.values[FLAG_REGISTER] = flag;
        Ok(())
    }

    /// Sets register `index1` to register `index2` minus register
    /// `index1`, modulo 256, and sets register 0xF to 1 exactly when no
    /// borrow occurred in that reversed subtraction.
    pub fn subtract_with_overflow_reversed(&mut self, index1: u8, index2: u8) -> (r: Result<
        (),
        RegisterError,
    >)
        requires
            old(self).wf(),
        ensures
            final(self).wf(),
            index1 < 16 && index2 < 16 ==> r == Ok::<(), RegisterError>(()) && final(self)@ == old(
                self,
            )@.update(index1 as int, wrap_sub(old(self)@[index2 as int], old(self)@[index1 as int]))
                .update(
                15,
                if old(self)@[index2 as int] >= old(self)@[index1 as int] {
                    1u8
                } else {
                    0u8
                },
            ),
            !(index1 < 16 && index2 < 16) ==> (r matches Err(_) && final(self)@ == old(self)@),
    {
        if index1 as usize >= NUM_REGISTERS {
            return Err(RegisterError::IndexOutOfBounds(index1));
        }
        if index2 as usize >= NUM_REGISTERS {
            return Err(RegisterError::IndexOutOfBounds(index2));
        }
        let v1 = self.values[index1 as usize];
        let v2 = self.values[index2 as usize];
        let (result, flag) = if v2 >= v1 {
            (v2 - v1, 1u8)
        } else {
            ((v2 as u16 + 256 - v1 as u16) as u8, 0u8)
        };
        self.values[index1 as usize] = result;
        self.values[FLAG_REGISTER] = flag;
        Ok(())
    }

    /// Adds the literal `value` into register `index` modulo 256,
    /// leaving register 0xF alone.
    pub fn add_byte(&mut self, index: u8, value: u8) -> (r: Result<(), RegisterError>)
        requires
            old(self).wf(),
        ensures
            final(self).wf(),
            index < 16 ==> r == Ok::<(), RegisterError>(()) && final(self)@ == old(self)@.update(
                index as int,
                wrap_add(old(self)@[index as int], value),
            ),
            index >= 16 ==> r == Err::<(), RegisterError>(RegisterError::IndexOutOfBounds(index))
                && final(self)@ == old(self)@,
    {
        if index as usize >= NUM_REGISTERS {
            return Err(RegisterError::IndexOutOfBounds(index));
        }
        let v = self.values[index as usize];
        let sum: u16 = v as u16 + value as u16;
        let result = if sum > 255 {
            (sum - 256) as u8
        } else {
            sum as u8
        };
        self.values[index as usize] = result;
        Ok(())
    }

    /// Sets register `index1` to the bitwise or of registers `index1`
    /// and `index2`.
    pub fn or(&mut self, index1: u8, index2: u8) -> (r: Result<(), RegisterError>)
        requires
            old(self).wf(),
        ensures
            final(self).wf(),
            index1 < 16 && index2 < 16 ==> r == Ok::<(), RegisterError>(()) && final(self)@ == old(
                self,
            )@.update(index1 as int, old(self)@[index1 as int] | old(self)@[index2 as int]),
            !(index1 < 16 && index2 < 16) ==> (r matches Err(_) && final(self)@ == old(self)@),
    {
        if index1 as usize >= NUM_REGISTERS {
            return Err(RegisterError::IndexOutOfBounds(index1));
        }
        if index2 as usize >= NUM_REGISTERS {
            return Err(RegisterError::IndexOutOfBounds(index2));
        }
        let v1 = self.values[index1 as usize];
        let v2 = self.values[index2 as usize];
        self.values[index1 as usize] = v1 | v2;
        Ok(())
    }

    /// Sets register `index1` to the bitwise and of registers `index1`
    /// and `index2`.
    pub fn and(&mut self, index1: u8, index2: u8) -> (r: Result<(), RegisterError>)
        requires
            old(self).wf(),
        ensures
            final(self).wf(),
            index1 < 16 && index2 < 16 ==> r == Ok::<(), RegisterError>(()) && final(self)@ == old(
                self,
            )@.update(index1 as int, old(self)@[index1 as int] & old(self)@[index2 as int]),
            !(index1 < 16 && index2 < 16) ==> (r matches Err(_) && final(self)@ == old(self)@),
    {
        if index1 as usize >= NUM_REGISTERS {
            return Err(RegisterError::IndexOutOfBounds(index1));
        }
        if index2 as usize >= NUM_REGISTERS {
            return Err(RegisterError::IndexOutOfBounds(index2));
        }
        let v1 = self.values[index1 as usize];
        let v2 = self.values[index2 as usize];
        self.values[index1 as usize] = v1 & v2;
        Ok(())
    }

    /// Sets register `index1` to the bitwise exclusive or of registers
    /// `index1` and `index2`.
    pub fn xor(&mut self, index1: u8, index2: u8) -> (r: Result<(), RegisterError>)
        requires
            old(self).wf(),
        ensures
            final(self).wf(),
            index1 < 16 && index2 < 16 ==> r == Ok::<(), RegisterError>(()) && final(self)@ == old(
                self,
            )@.update(index1 as int, old(self)@[index1 as int] ^ old(self)@[index2 as int]),
            !(index1 < 16 && index2 < 16) ==> (r matches Err(_) && final(self)@ == old(self)@),
    {
        if index1 as usize >= NUM_REGISTERS {
            return Err(RegisterError::IndexOutOfBounds(index1));
        }
        if index2 as usize >= NUM_REGISTERS {
            return Err(RegisterError::IndexOutOfBounds(index2));
        }
        let v1 = self.values[index1 as usize];
        let v2 = self.values[index2 as usize];
        self.values[index1 as usize] = v1 ^ v2;
        Ok(())
    }

    /// Halves register `index`, first saving its lowest bit, the bit
    /// shifted out, into register 0xF.
    pub fn shift_right(&mut self, index: u8) -> (r: Result<(), RegisterError>)
        requires
            old(self).wf(),
        ensures
            final(self).wf(),
            index < 16 ==> r == Ok::<(), RegisterError>(()) && final(self)@ == old(self)@.update(
                15,
                (old(self)@[index as int] % 2) as u8,
            ).update(index as int, (old(self)@[index as int] / 2) as u8),
            index >= 16 ==> r == Err::<(), RegisterError>(RegisterError::IndexOutOfBounds(index))
                && final(self)@ == old(self)@,
    {
        if index as usize >= NUM_REGISTERS {
            return Err(RegisterError::IndexOutOfBounds(index));
        }
        let value = self.values[index as usize];
        self.values[FLAG_REGISTER] = value % 2;
        self.values[index as usize] = value / 2;
        Ok(())
    }

    /// Doubles register `index` modulo 256, first saving its highest
    /// bit, the bit shifted out, into register 0xF.
    pub fn shift_left(&mut self, index: u8) -> (r: Result<(), RegisterError>)
        requires
            old(self).wf(),
        ensures
            final(self).wf(),
            index < 16 ==> r == Ok::<(), RegisterError>(()) && final(self)@ == old(self)@.update(
                15,
                (old(self)@[index as int] / 128) as u8,
            ).update(index as int, ((old(self)@[index as int] % 128) * 2) as u8),
            index >= 16 ==> r == Err::<(), RegisterError>(RegisterError::IndexOutOfBounds(index))
                && final(self)@ == old(self)@,
    {
        if index as usize >= NUM_REGISTERS {
            return Err(RegisterError::IndexOutOfBounds(index));
        }
        let value = self.values[index as usize];
        self.values[FLAG_REGISTER] = value / 128;
        self.values[index as usize] = (value % 128) * 2;
        Ok(())
    }
}

} // verus!
