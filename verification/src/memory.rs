//! The flat 64 KiB address space.

use vstd::prelude::*;
use crate::bytes::{high_byte, low_byte, peek_word, split_word};

verus! {

/// The number of addressable bytes.
pub const MAX_MEM: usize = 65536;

/// The address of the low byte of the reset vector.
pub const RESET_VECTOR: u16 = 0xFFFC;

/// 65,536 independently readable and writable bytes.
pub struct Memory {
    pub data: [u8; MAX_MEM],
}

/// A program image does not fit between its start address and the top of
/// the address space.
#[derive(Clone, Copy, Debug, PartialEq, Eq, Structural)]
pub struct ProgramTooLarge {
    pub start: u16,
    pub len: usize,
}

/// The memory image that holds `value` at every address.
pub open spec fn filled(value: u8) -> Seq<u8> {
    Seq::new(MAX_MEM as nat, |i: int| value)
}

/// The image `mem` with `program` copied over it from `start` on.
pub open spec fn with_program(mem: Seq<u8>, start: u16, program: Seq<u8>) -> Seq<u8> {
    Seq::new(
        mem.len(),
        |i: int|
            if start <= i < start + program.len() {
                program[i - start]
            } else {
                mem[i]
            },
    )
}

impl View for Memory {
    type V = Seq<u8>;

    /// The memory as a sequence of 65,536 bytes indexed by address.
    open spec fn view(&self) -> Seq<u8> {
        self.data@
    }
}

impl core::ops::Index<usize> for Memory {
    type Output = u8;

    /// Reads the byte at `addr`.
    fn index(&self, addr: usize) -> (value: &u8)
        ensures
            *value == self@[addr as int],
    {
        &self.data[addr]
    }
}

impl vstd::std_specs::core::IndexSpecImpl<usize> for Memory {
    open spec fn index_req(&self, index: &usize) -> bool {
        *index < MAX_MEM
    }
}

impl core::ops::IndexMut<usize> for Memory {
    /// Hands out the byte at `addr` for writing.
    fn index_mut(&mut self, addr: usize) -> (value: &mut u8)
        requires
            addr < MAX_MEM,
        ensures
            *value == old(self)@[addr as int],
            final(self)@ == old(self)@.update(addr as int, *final(value)),
    {
        &mut self.data[addr]
    }
}

impl Memory {
    /// Creates a memory that holds zero everywhere.
    pub fn new() -> (memory: Memory)
        ensures
            memory@ == filled(0),
    {
        let memory = Memory { data: [0u8; MAX_MEM] };
        assert(memory@ =~= filled(0));
        memory
    }

    /// Clears every byte to zero.
    pub fn initialise(&mut self)
        ensures
            final(self)@ == filled(0),
    {
        self.data = [0u8; MAX_MEM];
        assert(self@ =~= filled(0));
    }

    /// Sets every byte to `value`.
    pub fn set_values(&mut self, value: u8)
        ensures
            final(self)@ == filled(value),
    {
        let mut addr: usize = 0;
        while addr < MAX_MEM
            invariant
                addr <= MAX_MEM,
                forall|i: int| 0 <= i < addr ==> self@[i] == value,
            decreases MAX_MEM - addr,
        {
            let ghost before = self@;
            self.data[addr] = value;
            assert(self@ == before.update(addr as int, value));
            addr += 1;
        }
        assert(self@ =~= filled(value));
    }

    /// Reads the byte at `addr`.
    pub fn get(&self, addr: usize) -> (value: u8)
        requires
            addr < MAX_MEM,
        ensures
            value == self@[addr as int],
    {
        self.data[addr]
    }

    /// Writes `value` at `addr` and leaves every other byte as it was.
    pub fn set(&mut self, addr: usize, value: u8)
        requires
            addr < MAX_MEM,
        ensures
            final(self)@ == old(self)@.update(addr as int, value),
    {
        self.data[addr] = value;
    }

    /// Copies a program image into memory from `start` on. An image that
    /// would run past the top of the address space is refused and memory is
    /// left untouched.
    pub fn load_program(&mut self, start: u16, program: &[u8]) -> (loaded: Result<
        (),
        ProgramTooLarge,
    >)
        ensures
            loaded is Ok <==> start + program@.len() <= MAX_MEM,
            loaded is Ok ==> final(self)@ == with_program(old(self)@, start, program@),
            loaded is Err ==> final(self)@ == old(self)@,
            loaded matches Err(e) ==> e.start == start && e.len == program@.len(),
    {
        let len: usize = program.len();
        let first: usize = start as usize;
        if len > MAX_MEM - first {
            return Err(ProgramTooLarge { start, len });
        }
        let mut i: usize = 0;
        while i < len
            invariant
                i <= len,
                len == program@.len(),
                first == start,
                first + len <= MAX_MEM,
                forall|j: int|
                    0 <= j < MAX_MEM ==> self@[j] == (if first <= j < first + i {
                        program@[j - first]
                    } else {
                        old(self)@[j]
                    }),
            decreases len - i,
        {
            let ghost before = self@;
            self.data[first + i] = program[i];
            assert(self@ == before.update(first + i, program@[i as int]));
            i += 1;
        }
        assert(self@ =~= with_program(old(self)@, start, program@));
        Ok(())
    }

    /// Points the reset vector at `addr`: the low byte goes to 0xFFFC and
    /// the high byte to 0xFFFD.
    pub fn set_reset_vector(&mut self, addr: u16)
        ensures
            final(self)@ == old(self)@.update(0xFFFC, low_byte(addr)).update(
                0xFFFD,
                high_byte(addr),
            ),
            peek_word(final(self)@, RESET_VECTOR) == addr,
    {
        let (lo, hi) = split_word(addr);
        self.data[0xFFFC] = lo;
        self.data[0xFFFD] = hi;
    }
}

} // verus!
