use vstd::prelude::*;
use crate::font::{FONTSET, FONTSET_SIZE};
use crate::error::Chip8Error;

verus! {

/// Size of the address space in bytes.
pub const RAM_SIZE: usize = 4096;

/// Address at which programs are loaded and execution starts.
pub const START_ADDR: u16 = 0x200;

/// Largest program that fits between the load origin and the end of memory.
pub const MAX_PROGRAM_SIZE: usize = 3584;

/// Depth of the return-address stack.
pub const STACK_SIZE: usize = 16;

/// The return-address stack used by subroutine calls.
pub struct Stack {
    pub stack_point: usize,
    pub stack: [u16; 16],
}

impl View for Stack {
    type V = Seq<u16>;

    /// The addresses on the stack, oldest first.
    open spec fn view(&self) -> Seq<u16> {
        self.stack@.subrange(0, self.stack_point as int)
    }
}

impl Stack {
    pub open spec fn wf(&self) -> bool {
        self.stack_point <= STACK_SIZE
    }

    pub fn new() -> (r: Stack)
        ensures
            r.wf(),
            r@ == Seq::<u16>::empty(),
    {
        let r = Stack { stack_point: 0, stack: [0u16; 16] };
        assert(r@ =~= Seq::<u16>::empty());
        r
    }

    pub fn depth(&self) -> (r: usize)
        requires
            self.wf(),
        ensures
            r == self@.len(),
    {
        self.stack_point
    }

    /// Pushes an address; fails without change when the stack is full.
    pub fn push(&mut self, value: u16) -> (r: Result<(), Chip8Error>)
        requires
            old(self).wf(),
        ensures
            final(self).wf(),
            old(self)@.len() < STACK_SIZE ==> r == Ok::<(), Chip8Error>(()) && final(self)@
                == old(self)@.push(value),
            old(self)@.len() >= STACK_SIZE ==> r == Err::<(), Chip8Error>(Chip8Error::StackOverflow)
                && final(self)@ == old(self)@,
    {
        if self.stack_point >= STACK_SIZE {
            return Err(Chip8Error::StackOverflow);
        }
        let ghost before = self@;
        self.stack[self.stack_point] = value;
        self.stack_point = self.stack_point + 1;
        assert(self@ =~= before.push(value));
        Ok(())
    }

    /// Pops the most recent address; fails without change when the stack is empty.
    pub fn pop(&mut self) -> (r: Result<u16, Chip8Error>)
        requires
            old(self).wf(),
        ensures
            final(self).wf(),
            old(self)@.len() > 0 ==> r == Ok::<u16, Chip8Error>(old(self)@.last()) && final(self)@
                == old(self)@.drop_last(),
            old(self)@.len() == 0 ==> r == Err::<u16, Chip8Error>(Chip8Error::StackUnderflow)
                && final(self)@ == old(self)@,
    {
        if self.stack_point == 0 {
            return Err(Chip8Error::StackUnderflow);
        }
        let ghost before = self@;
        self.stack_point = self.stack_point - 1;
        assert(self@ =~= before.drop_last());
        Ok(self.stack[self.stack_point])
    }
}

/// The machine's byte-addressable memory.
pub struct Ram {
    pub data: [u8; 4096],
}

impl View for Ram {
    type V = Seq<u8>;

    open spec fn view(&self) -> Seq<u8> {
        self.data@
    }
}

/// Memory as it is at power-on: the font at the bottom, zeros elsewhere.
pub open spec fn initial_ram() -> Seq<u8> {
    Seq::new(RAM_SIZE as nat, |a: int| if a < FONTSET_SIZE { FONTSET@[a] } else { 0u8 })
}

/// Memory after a program is copied to the load origin.
pub open spec fn loaded_ram(ram: Seq<u8>, program: Seq<u8>) -> Seq<u8> {
    Seq::new(
        ram.len(),
        |a: int|
            if START_ADDR <= a < START_ADDR + program.len() {
                program[a - START_ADDR]
            } else {
                ram[a]
            },
    )
}

/// The big-endian word made of the bytes at `a` and `a + 1`.
pub open spec fn word_at(ram: Seq<u8>, a: int) -> u16 {
    (ram[a] as int * 256 + ram[a + 1] as int) as u16
}

/// Memory after the registers `V0` to `Vlast` are stored from address `start` onwards.
pub open spec fn stored_ram(ram: Seq<u8>, start: int, regs: Seq<u8>, last: int) -> Seq<u8> {
    Seq::new(ram.len(), |a: int| if start <= a <= start + last { regs[a - start] } else { ram[a] })
}

/// The registers after `V0` to `Vlast` are read from address `start` onwards.
pub open spec fn loaded_regs(regs: Seq<u8>, ram: Seq<u8>, start: int, last: int) -> Seq<u8> {
    Seq::new(regs.len(), |r: int| if r <= last { ram[start + r] } else { regs[r] })
}

impl Ram {
    pub fn new() -> (r: Ram)
        ensures
            r@ == initial_ram(),
    {
        let mut data = [0u8; 4096];
        let mut a: usize = 0;
        while a < FONTSET_SIZE
            invariant
                a <= FONTSET_SIZE,
                data@.len() == RAM_SIZE,
                forall|b: int| 0 <= b < a ==> data@[b] == FONTSET@[b],
                forall|b: int| a <= b < RAM_SIZE ==> data@[b] == 0u8,
            decreases FONTSET_SIZE - a,
        {
            data[a] = FONTSET[a];
            a = a + 1;
        }
        let r = Ram { data };
        assert(r@ =~= initial_ram());
        r
    }

    /// Reads the two-byte instruction word at `address`, high byte first.
    pub fn fetch_instruction(&self, address: usize) -> (r: u16)
        requires
            address + 1 < RAM_SIZE,
        ensures
            r == word_at(self@, address as int),
    {
        let higher_byte = self.data[address] as u16;
        let lower_byte = self.data[address + 1] as u16;
        higher_byte * 256 + lower_byte
    }

    pub fn fetch_byte(&self, address: usize) -> (r: u8)
        requires
            address < RAM_SIZE,
        ensures
            r == self@[address as int],
    {
        self.data[address]
    }

    pub fn write_byte(&mut self, address: usize, value: u8)
        requires
            address < RAM_SIZE,
        ensures
            final(self)@ == old(self)@.update(address as int, value),
    {
        self.data[address] = value;
    }

    /// Stores `regs[0..=last]` at `start` onwards.
    pub fn store_registers(&mut self, start: usize, regs: &[u8; 16], last: usize)
        requires
            last < 16,
            start + last < RAM_SIZE,
        ensures
            final(self)@ == stored_ram(old(self)@, start as int, regs@, last as int),
    {
        let ghost before = self@;
        let mut k: usize = 0;
        while k <= last
            invariant
                last < 16,
                k <= last + 1,
                start + last < RAM_SIZE,
                self@.len() == RAM_SIZE,
                before.len() == RAM_SIZE,
                forall|a: int|
                    0 <= a < RAM_SIZE ==> self@[a] == if start <= a < start + k {
                        regs@[a - start]
                    } else {
                        before[a]
                    },
            decreases last + 1 - k,
        {
            self.data[start + k] = regs[k];
            k = k + 1;
        }
        assert(self@ =~= stored_ram(before, start as int, regs@, last as int));
    }

    /// Reads `regs[0..=last]` from `start` onwards.
    pub fn load_registers(&self, start: usize, regs: &mut [u8; 16], last: usize)
        requires
            last < 16,
            start + last < RAM_SIZE,
        ensures
            final(regs)@ == loaded_regs(old(regs)@, self@, start as int, last as int),
    {
        let ghost before = regs@;
        let mut k: usize = 0;
        while k <= last
            invariant
                last < 16,
                k <= last + 1,
                start + last < RAM_SIZE,
                regs@.len() == 16,
                before.len() == 16,
                forall|r: int|
                    0 <= r < 16 ==> regs@[r] == if r < k {
                        self@[start + r]
                    } else {
                        before[r]
                    },
            decreases last + 1 - k,
        {
            regs[k] = self.data[start + k];
            k = k + 1;
        }
        assert(regs@ =~= loaded_regs(before, self@, start as int, last as int));
    }

    /// Copies a program to the load origin; a program larger than the space above
    /// the origin is refused and memory is left as it was.
    pub fn load(&mut self, program: &[u8]) -> (r: Result<(), Chip8Error>)
        ensures
            program@.len() <= MAX_PROGRAM_SIZE ==> r == Ok::<(), Chip8Error>(()) && final(self)@
                == loaded_ram(old(self)@, program@),
            program@.len() > MAX_PROGRAM_SIZE ==> r == Err::<(), Chip8Error>(
                Chip8Error::RomTooLarge,
            ) && final(self)@ == old(self)@,
    {
        if program.len() > MAX_PROGRAM_SIZE {
            return Err(Chip8Error::RomTooLarge);
        }
        let ghost before = self@;
        let start = START_ADDR as usize;
        let mut k: usize = 0;
        while k < program.len()
            invariant
                program@.len() <= MAX_PROGRAM_SIZE,
                k <= program@.len(),
                start == START_ADDR,
                self@.len() == RAM_SIZE,
                before.len() == RAM_SIZE,
                forall|a: int|
                    0 <= a < RAM_SIZE ==> self@[a] == if start <= a < start + k {
                        program@[a - start]
                    } else {
                        before[a]
                    },
            decreases program@.len() - k,
        {
            self.data[start + k] = program[k];
            k = k + 1;
        }
        assert(self@ =~= loaded_ram(before, program@));
        Ok(())
    }
}

} // verus!
