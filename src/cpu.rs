use vstd::prelude::*;
use crate::error::Chip8Error;
use crate::instruction::{decode, decode_spec, Instruction};
use crate::memory::{
    initial_ram, loaded_ram, loaded_regs, stored_ram, word_at, Ram, Stack, MAX_PROGRAM_SIZE,
    RAM_SIZE, START_ADDR, STACK_SIZE,
};
use crate::screen::{blank_display, collides, drawn, Screen};

verus! {

/// Number of general-purpose registers.
pub const NUM_REGS: usize = 16;

/// Number of keys on the keypad.
pub const NUM_KEYS: usize = 16;

/// Index of the flag register `VF`.
pub const FLAG: usize = 15;

/// The whole machine state, as the contracts see it.
pub struct CpuView {
    pub pc: u16,
    pub v: Seq<u8>,
    pub i: u16,
    pub stack: Seq<u16>,
    pub ram: Seq<u8>,
    pub display: Seq<bool>,
    pub keys: Seq<bool>,
    pub delay: u8,
    pub sound: u8,
}

/// The state of a freshly built machine.
pub open spec fn initial_state() -> CpuView {
    CpuView {
        pc: START_ADDR,
        v: Seq::new(NUM_REGS as nat, |r: int| 0u8),
        i: 0,
        stack: Seq::empty(),
        ram: initial_ram(),
        display: blank_display(),
        keys: Seq::new(NUM_KEYS as nat, |k: int| false),
        delay: 0,
        sound: 0,
    }
}

pub open spec fn flag(b: bool) -> u8 {
    if b {
        1
    } else {
        0
    }
}

pub open spec fn with_reg(s: CpuView, x: int, val: u8) -> CpuView {
    CpuView { v: s.v.update(x, val), ..s }
}

/// Skips the next instruction when `c` holds.
pub open spec fn skip_if(s: CpuView, c: bool) -> CpuView {
    if c {
        CpuView { pc: (s.pc + 2) as u16, ..s }
    } else {
        s
    }
}

/// The lowest index at or above `k` of a key that is down, or 16 if there is none.
pub open spec fn first_pressed_from(keys: Seq<bool>, k: int) -> int
    decreases 16 - k,
{
    if k >= 16 {
        16
    } else if keys[k] {
        k
    } else {
        first_pressed_from(keys, k + 1)
    }
}

/// Memory after the decimal digits of `value` are stored at `i`, `i + 1`, `i + 2`.
pub open spec fn bcd_ram(ram: Seq<u8>, i: int, value: u8) -> Seq<u8> {
    ram.update(i, value / 100).update(i + 1, (value / 10) % 10).update(i + 2, value % 10)
}

/// What executing `ins` does to `s`, whose program counter already points past it;
/// `rnd` is the random byte that `Cxnn` uses.
pub open spec fn exec_spec(s: CpuView, ins: Instruction, rnd: u8) -> Result<CpuView, Chip8Error> {
    match ins {
        Instruction::Nop => Ok(s),
        Instruction::ClearScreen => Ok(CpuView { display: blank_display(), ..s }),
        Instruction::Return => if s.stack.len() == 0 {
            Err(Chip8Error::StackUnderflow)
        } else {
            Ok(CpuView { pc: s.stack.last(), stack: s.stack.drop_last(), ..s })
        },
        Instruction::Jump(a) => Ok(CpuView { pc: a, ..s }),
        Instruction::Call(a) => if s.stack.len() >= STACK_SIZE {
            Err(Chip8Error::StackOverflow)
        } else {
            Ok(CpuView { pc: a, stack: s.stack.push(s.pc), ..s })
        },
        Instruction::SkipIfEqualImm(x, nn) => Ok(skip_if(s, s.v[x as int] == nn)),
        Instruction::SkipIfNotEqualImm(x, nn) => Ok(skip_if(s, s.v[x as int] != nn)),
        Instruction::SkipIfEqualReg(x, y) => Ok(skip_if(s, s.v[x as int] == s.v[y as int])),
        Instruction::SkipIfNotEqualReg(x, y) => Ok(skip_if(s, s.v[x as int] != s.v[y as int])),
        Instruction::SetImm(x, nn) => Ok(with_reg(s, x as int, nn)),
        Instruction::AddImm(x, nn) => Ok(
            with_reg(s, x as int, ((s.v[x as int] + nn) % 256) as u8),
        ),
        Instruction::Assign(x, y) => Ok(with_reg(s, x as int, s.v[y as int])),
        Instruction::Or(x, y) => Ok(with_reg(s, x as int, s.v[x as int] | s.v[y as int])),
        Instruction::And(x, y) => Ok(with_reg(s, x as int, s.v[x as int] & s.v[y as int])),
        Instruction::Xor(x, y) => Ok(with_reg(s, x as int, s.v[x as int] ^ s.v[y as int])),
        Instruction::AddReg(x, y) => {
            let sum = s.v[x as int] + s.v[y as int];
            Ok(with_reg(with_reg(s, x as int, (sum % 256) as u8), FLAG as int, flag(sum > 255)))
        },
        Instruction::SubReg(x, y) => {
            let a = s.v[x as int];
            let b = s.v[y as int];
            Ok(with_reg(with_reg(s, x as int, ((a - b) % 256) as u8), FLAG as int, flag(a >= b)))
        },
        Instruction::SubRev(x, y) => {
            let a = s.v[x as int];
            let b = s.v[y as int];
            Ok(with_reg(with_reg(s, x as int, ((b - a) % 256) as u8), FLAG as int, flag(b >= a)))
        },
        Instruction::ShiftRight(x) => {
            let a = s.v[x as int];
            Ok(with_reg(with_reg(s, x as int, a / 2), FLAG as int, a % 2))
        },
        Instruction::ShiftLeft(x) => {
            let a = s.v[x as int];
            Ok(with_reg(with_reg(s, x as int, ((a * 2) % 256) as u8), FLAG as int, a / 128))
        },
        Instruction::SetIndex(a) => Ok(CpuView { i: a, ..s }),
        Instruction::JumpOffset(a) => Ok(CpuView { pc: (a + s.v[0]) as u16, ..s }),
        Instruction::Random(x, nn) => Ok(with_reg(s, x as int, rnd & nn)),
        Instruction::Draw(x, y, n) => if s.i + n > RAM_SIZE {
            Err(Chip8Error::AddressOutOfRange)
        } else {
            let vx = s.v[x as int];
            let vy = s.v[y as int];
            Ok(
                CpuView {
                    display: drawn(s.display, s.ram, s.i as int, vx, vy, n as int),
                    v: s.v.update(
                        FLAG as int,
                        flag(collides(s.display, s.ram, s.i as int, vx, vy, n as int)),
                    ),
                    ..s
                },
            )
        },
        Instruction::SkipIfKey(x) => if s.v[x as int] >= NUM_KEYS {
            Err(Chip8Error::InvalidKey)
        } else {
            Ok(skip_if(s, s.keys[s.v[x as int] as int]))
        },
        Instruction::SkipIfNotKey(x) => if s.v[x as int] >= NUM_KEYS {
            Err(Chip8Error::InvalidKey)
        } else {
            Ok(skip_if(s, !s.keys[s.v[x as int] as int]))
        },
        Instruction::GetDelay(x) => Ok(with_reg(s, x as int, s.delay)),
        Instruction::WaitKey(x) => {
            let k = first_pressed_from(s.keys, 0);
            if k < 16 {
                Ok(with_reg(s, x as int, k as u8))
            } else {
                Ok(CpuView { pc: (s.pc - 2) as u16, ..s })
            }
        },
        Instruction::SetDelay(x) => Ok(CpuView { delay: s.v[x as int], ..s }),
        Instruction::SetSound(x) => Ok(CpuView { sound: s.v[x as int], ..s }),
        Instruction::AddIndex(x) => Ok(CpuView { i: ((s.i + s.v[x as int]) % 65536) as u16, ..s }),
        Instruction::FontChar(x) => Ok(CpuView { i: (s.v[x as int] * 5) as u16, ..s }),
        Instruction::StoreBcd(x) => if s.i + 2 >= RAM_SIZE {
            Err(Chip8Error::AddressOutOfRange)
        } else {
            Ok(CpuView { ram: bcd_ram(s.ram, s.i as int, s.v[x as int]), ..s })
        },
        Instruction::StoreRegs(x) => if s.i + x >= RAM_SIZE {
            Err(Chip8Error::AddressOutOfRange)
        } else {
            Ok(CpuView { ram: stored_ram(s.ram, s.i as int, s.v, x as int), ..s })
        },
        Instruction::LoadRegs(x) => if s.i + x >= RAM_SIZE {
            Err(Chip8Error::AddressOutOfRange)
        } else {
            Ok(CpuView { v: loaded_regs(s.v, s.ram, s.i as int, x as int), ..s })
        },
    }
}

/// The instruction word at the program counter, if both of its bytes are in memory.
pub open spec fn fetch_spec(s: CpuView) -> Option<u16> {
    if s.pc + 1 < RAM_SIZE {
        Some(word_at(s.ram, s.pc as int))
    } else {
        None
    }
}

/// What one fetch-decode-execute cycle does to `s`, given the random byte `rnd`.
pub open spec fn step_spec(s: CpuView, rnd: u8) -> Result<CpuView, Chip8Error> {
    match fetch_spec(s) {
        None => Err(Chip8Error::AddressOutOfRange),
        Some(op) => match decode_spec(op) {
            None => Err(Chip8Error::UnknownOpcode(op)),
            Some(ins) => exec_spec(CpuView { pc: (s.pc + 2) as u16, ..s }, ins, rnd),
        },
    }
}

/// `after` and `r` are what `expected` describes: its state on success, and on failure
/// its error with the state `before` left as it was.
pub open spec fn outcome(
    before: CpuView,
    after: CpuView,
    r: Result<(), Chip8Error>,
    expected: Result<CpuView, Chip8Error>,
) -> bool {
    match expected {
        Ok(t) => r == Ok::<(), Chip8Error>(()) && after == t,
        Err(e) => r == Err::<(), Chip8Error>(e) && after == before,
    }
}

/// A timer after one decrement, held at zero.
pub open spec fn timer_dec(t: u8) -> u8 {
    if t > 0 {
        (t - 1) as u8
    } else {
        0
    }
}

/// Instructions that transfer control, test keys or clear the screen.
spec fn is_control(ins: Instruction) -> bool {
    match ins {
        Instruction::Nop
            | Instruction::ClearScreen
            | Instruction::Return
            | Instruction::Jump(..)
            | Instruction::Call(..)
            | Instruction::JumpOffset(..)
            | Instruction::SkipIfEqualImm(..)
            | Instruction::SkipIfNotEqualImm(..)
            | Instruction::SkipIfEqualReg(..)
            | Instruction::SkipIfNotEqualReg(..)
            | Instruction::SkipIfKey(..)
            | Instruction::SkipIfNotKey(..)
            | Instruction::WaitKey(..) => true,
        _ => false,
    }
}

/// Instructions that compute a register value.
spec fn is_alu(ins: Instruction) -> bool {
    match ins {
        Instruction::SetImm(..)
            | Instruction::AddImm(..)
            | Instruction::Assign(..)
            | Instruction::Or(..)
            | Instruction::And(..)
            | Instruction::Xor(..)
            | Instruction::AddReg(..)
            | Instruction::SubReg(..)
            | Instruction::SubRev(..)
            | Instruction::ShiftRight(..)
            | Instruction::ShiftLeft(..)
            | Instruction::Random(..) => true,
        _ => false,
    }
}

/// Instructions on the index register, memory, the framebuffer or the timers.
spec fn is_memory(ins: Instruction) -> bool {
    match ins {
        Instruction::SetIndex(..)
            | Instruction::Draw(..)
            | Instruction::GetDelay(..)
            | Instruction::SetDelay(..)
            | Instruction::SetSound(..)
            | Instruction::AddIndex(..)
            | Instruction::FontChar(..)
            | Instruction::StoreBcd(..)
            | Instruction::StoreRegs(..)
            | Instruction::LoadRegs(..) => true,
        _ => false,
    }
}

/// Relies on rand::random: a byte from the thread-local generator; nothing is known of it.
#[verifier::external_body]
fn random_byte() -> (r: u8) {
    rand::random::<u8>()
}

/// The interpreter: registers, memory, stack, timers, keypad and framebuffer.
pub struct CPU {
    program_counter: u16,
    v_registers: [u8; 16],
    i_register: u16,
    stack: Stack,
    ram: Ram,
    screen: Screen,
    keys: [bool; 16],
    delay_timer: u8,
    sound_timer: u8,
}

impl View for CPU {
    type V = CpuView;

    closed spec fn view(&self) -> CpuView {
        CpuView {
            pc: self.program_counter,
            v: self.v_registers@,
            i: self.i_register,
            stack: self.stack@,
            ram: self.ram@,
            display: self.screen@,
            keys: self.keys@,
            delay: self.delay_timer,
            sound: self.sound_timer,
        }
    }
}

impl CPU {
    pub closed spec fn wf(&self) -> bool {
        self.stack.wf()
    }

    pub fn new() -> (r: CPU)
        ensures
            r.wf(),
            r@ == initial_state(),
    {
        let r = CPU {
            program_counter: START_ADDR,
            v_registers: [0u8; 16],
            i_register: 0,
            stack: Stack::new(),
            ram: Ram::new(),
            screen: Screen::new(),
            keys: [false; 16],
            delay_timer: 0,
            sound_timer: 0,
        };
        assert(r.v_registers@ =~= initial_state().v);
        assert(r.keys@ =~= initial_state().keys);
        r
    }

    fn set_reg(&mut self, x: u8, val: u8)
        requires
            x < 16,
        ensures
            final(self)@ == with_reg(old(self)@, x as int, val),
            final(self).stack == old(self).stack,
    {
        self.v_registers[x as usize] = val;
    }

    fn skip_when(&mut self, c: bool)
        requires
            old(self).program_counter <= 4096,
        ensures
            final(self)@ == skip_if(old(self)@, c),
            final(self).stack == old(self).stack,
    {
        if c {
            self.program_counter = self.program_counter + 2;
        }
    }

    /// The index of the first key that is down, or 16 if none is.
    fn first_pressed(&self) -> (k: usize)
        ensures
            k == first_pressed_from(self@.keys, 0),
    {
        let mut k: usize = 0;
        while k < NUM_KEYS && !self.keys[k]
            invariant
                k <= NUM_KEYS,
                first_pressed_from(self@.keys, 0) == first_pressed_from(self@.keys, k as int),
            decreases NUM_KEYS - k,
        {
            k = k + 1;
        }
        k
    }

    /// Executes one decoded instruction; the program counter already points past it.
    /// On failure nothing is changed.
    fn execute(&mut self, ins: Instruction, rnd: u8) -> (r: Result<(), Chip8Error>)
        requires
            old(self).wf(),
            ins.wf(),
            2 <= old(self).program_counter <= 4096,
        ensures
            final(self).wf(),
            outcome(old(self)@, final(self)@, r, exec_spec(old(self)@, ins, rnd)),
    {
        match ins {
            Instruction::Nop | Instruction::ClearScreen | Instruction::Return | Instruction::Jump(..) | Instruction::Call(..) | Instruction::JumpOffset(..) | Instruction::SkipIfEqualImm(..) | Instruction::SkipIfNotEqualImm(..) | Instruction::SkipIfEqualReg(..) | Instruction::SkipIfNotEqualReg(..) | Instruction::SkipIfKey(..) | Instruction::SkipIfNotKey(..) | Instruction::WaitKey(..) => self.execute_control(ins, rnd),
            Instruction::SetImm(..) | Instruction::AddImm(..) | Instruction::Assign(..) | Instruction::Or(..) | Instruction::And(..) | Instruction::Xor(..) | Instruction::AddReg(..) | Instruction::SubReg(..) | Instruction::SubRev(..) | Instruction::ShiftRight(..) | Instruction::ShiftLeft(..) | Instruction::Random(..) => self.execute_alu(ins, rnd),
            Instruction::SetIndex(..) | Instruction::Draw(..) | Instruction::GetDelay(..) | Instruction::SetDelay(..) | Instruction::SetSound(..) | Instruction::AddIndex(..) | Instruction::FontChar(..) | Instruction::StoreBcd(..) | Instruction::StoreRegs(..) | Instruction::LoadRegs(..) => self.execute_memory(ins, rnd),
        }
    }

    /// Executes an instruction that changes the flow of control or clears the screen.
    fn execute_control(&mut self, ins: Instruction, rnd: u8) -> (r: Result<(), Chip8Error>)
        requires
            old(self).wf(),
            is_control(ins),
            ins.wf(),
            2 <= old(self).program_counter <= 4096,
        ensures
            final(self).wf(),
            outcome(old(self)@, final(self)@, r, exec_spec(old(self)@, ins, rnd)),
    {
        match ins {
            Instruction::Nop => {},
            Instruction::ClearScreen => {
                self.screen.clear();
            },
            Instruction::Return => {
                let ret_addr = self.stack.pop()?;
                self.program_counter = ret_addr;
            },
            Instruction::Jump(a) => {
                self.program_counter = a;
            },
            Instruction::Call(a) => {
                let pc = self.program_counter;
                self.stack.push(pc)?;
                self.program_counter = a;
            },
            Instruction::SkipIfEqualImm(x, nn) => {
                let c = self.v_registers[x as usize] == nn;
                self.skip_when(c);
            },
            Instruction::SkipIfNotEqualImm(x, nn) => {
                let c = self.v_registers[x as usize] != nn;
                self.skip_when(c);
            },
            Instruction::SkipIfEqualReg(x, y) => {
                let c = self.v_registers[x as usize] == self.v_registers[y as usize];
                self.skip_when(c);
            },
            Instruction::SkipIfNotEqualReg(x, y) => {
                let c = self.v_registers[x as usize] != self.v_registers[y as usize];
                self.skip_when(c);
            },
            Instruction::JumpOffset(a) => {
                self.program_counter = a + self.v_registers[0] as u16;
            },
            Instruction::SkipIfKey(x) => {
                let k = self.v_registers[x as usize] as usize;
                if k >= NUM_KEYS {
                    return Err(Chip8Error::InvalidKey);
                }
                let c = self.keys[k];
                self.skip_when(c);
            },
            Instruction::SkipIfNotKey(x) => {
                let k = self.v_registers[x as usize] as usize;
                if k >= NUM_KEYS {
                    return Err(Chip8Error::InvalidKey);
                }
                let c = !self.keys[k];
                self.skip_when(c);
            },
            Instruction::WaitKey(x) => {
                let k = self.first_pressed();
                if k < NUM_KEYS {
                    self.set_reg(x, k as u8);
                } else {
                    // no key is down: rewind so that this instruction runs again
                    self.program_counter = self.program_counter - 2;
                }
            },
            // the precondition rules out the other instructions
            _ => {},
        }
        Ok(())
    }

    /// Executes an instruction that computes into a register.
    fn execute_alu(&mut self, ins: Instruction, rnd: u8) -> (r: Result<(), Chip8Error>)
        requires
            old(self).wf(),
            is_alu(ins),
            ins.wf(),
            2 <= old(self).program_counter <= 4096,
        ensures
            final(self).wf(),
            outcome(old(self)@, final(self)@, r, exec_spec(old(self)@, ins, rnd)),
    {
        match ins {
            Instruction::SetImm(x, nn) => {
                self.set_reg(x, nn);
            },
            Instruction::AddImm(x, nn) => {
                let sum = self.v_registers[x as usize] as u16 + nn as u16;
                self.set_reg(x, (sum % 256) as u8);
            },
            Instruction::Assign(x, y) => {
                let val = self.v_registers[y as usize];
                self.set_reg(x, val);
            },
            Instruction::Or(x, y) => {
                let val = self.v_registers[x as usize] | self.v_registers[y as usize];
                self.set_reg(x, val);
            },
            Instruction::And(x, y) => {
                let val = self.v_registers[x as usize] & self.v_registers[y as usize];
                self.set_reg(x, val);
            },
            Instruction::Xor(x, y) => {
                let val = self.v_registers[x as usize] ^ self.v_registers[y as usize];
                self.set_reg(x, val);
            },
            Instruction::AddReg(x, y) => {
                let sum = self.v_registers[x as usize] as u16 + self.v_registers[y as usize] as u16;
                self.set_reg(x, (sum % 256) as u8);
                self.set_reg(FLAG as u8, if sum > 255 { 1 } else { 0 });
            },
            Instruction::SubReg(x, y) => {
                let a = self.v_registers[x as usize];
                let b = self.v_registers[y as usize];
                let diff = ((a as u16 + 256 - b as u16) % 256) as u8;
                self.set_reg(x, diff);
                self.set_reg(FLAG as u8, if a >= b { 1 } else { 0 });
            },
            Instruction::SubRev(x, y) => {
                let a = self.v_registers[x as usize];
                let b = self.v_registers[y as usize];
                let diff = ((b as u16 + 256 - a as u16) % 256) as u8;
                self.set_reg(x, diff);
                self.set_reg(FLAG as u8, if b >= a { 1 } else { 0 });
            },
            Instruction::ShiftRight(x) => {
                let a = self.v_registers[x as usize];
                let shifted = a >> 1;
                let lsb = a & 1;
                assert(shifted == a / 2 && lsb == a % 2) by (bit_vector)
                    requires
                        shifted == a >> 1,
                        lsb == a & 1,
                ;
                self.set_reg(x, shifted);
                self.set_reg(FLAG as u8, lsb);
            },
            Instruction::ShiftLeft(x) => {
                let a = self.v_registers[x as usize];
                let shifted = a << 1;
                let msb = (a & 0x80) >> 7;
                assert(shifted == (a * 2) % 256 && msb == a / 128) by (bit_vector)
                    requires
                        shifted == a << 1,
                        msb == (a & 0x80) >> 7,
                ;
                self.set_reg(x, shifted);
                self.set_reg(FLAG as u8, msb);
            },
            Instruction::Random(x, nn) => {
                self.set_reg(x, rnd & nn);
            },
            // the precondition rules out the other instructions
            _ => {},
        }
        Ok(())
    }

    /// Executes an instruction on the index register, memory, the framebuffer or the timers.
    fn execute_memory(&mut self, ins: Instruction, rnd: u8) -> (r: Result<(), Chip8Error>)
        requires
            old(self).wf(),
            is_memory(ins),
            ins.wf(),
            2 <= old(self).program_counter <= 4096,
        ensures
            final(self).wf(),
            outcome(old(self)@, final(self)@, r, exec_spec(old(self)@, ins, rnd)),
    {
        match ins {
            Instruction::SetIndex(a) => {
                self.i_register = a;
            },
            Instruction::Draw(x, y, n) => {
                let i = self.i_register as usize;
                if i + n as usize > RAM_SIZE {
                    return Err(Chip8Error::AddressOutOfRange);
                }
                let vx = self.v_registers[x as usize];
                let vy = self.v_registers[y as usize];
                let collision = self.screen.draw(&self.ram, i, vx, vy, n as usize);
                self.v_registers[FLAG] = if collision { 1 } else { 0 };
            },
            Instruction::GetDelay(x) => {
                let d = self.delay_timer;
                self.set_reg(x, d);
            },
            Instruction::SetDelay(x) => {
                self.delay_timer = self.v_registers[x as usize];
            },
            Instruction::SetSound(x) => {
                self.sound_timer = self.v_registers[x as usize];
            },
            Instruction::AddIndex(x) => {
                let sum = self.i_register as u32 + self.v_registers[x as usize] as u32;
                self.i_register = (sum % 65536) as u16;
            },
            Instruction::FontChar(x) => {
                self.i_register = self.v_registers[x as usize] as u16 * 5;
            },
            Instruction::StoreBcd(x) => {
                let i = self.i_register as usize;
                if i + 2 >= RAM_SIZE {
                    return Err(Chip8Error::AddressOutOfRange);
                }
                let value = self.v_registers[x as usize];
                self.ram.write_byte(i, value / 100);
                self.ram.write_byte(i + 1, (value / 10) % 10);
                self.ram.write_byte(i + 2, value % 10);
            },
            Instruction::StoreRegs(x) => {
                let i = self.i_register as usize;
                if i + x as usize >= RAM_SIZE {
                    return Err(Chip8Error::AddressOutOfRange);
                }
                self.ram.store_registers(i, &self.v_registers, x as usize);
            },
            Instruction::LoadRegs(x) => {
                let i = self.i_register as usize;
                if i + x as usize >= RAM_SIZE {
                    return Err(Chip8Error::AddressOutOfRange);
                }
                self.ram.load_registers(i, &mut self.v_registers, x as usize);
            },
            // the precondition rules out the other instructions
            _ => {},
        }
        Ok(())
    }
}

impl CPU {
    /// The instruction word at the program counter; `None` when its second byte would lie
    /// past the end of memory.
    fn fetch(&self) -> (r: Option<u16>)
        ensures
            r == fetch_spec(self@),
    {
        let pc = self.program_counter as usize;
        if pc + 1 >= RAM_SIZE {
            None
        } else {
            Some(self.ram.fetch_instruction(pc))
        }
    }

    /// Runs one fetch-decode-execute cycle, with `rnd` as the random byte that `Cxnn`
    /// uses. On failure the machine is left as it was.
    pub fn step(&mut self, rnd: u8) -> (r: Result<(), Chip8Error>)
        requires
            old(self).wf(),
        ensures
            final(self).wf(),
            outcome(old(self)@, final(self)@, r, step_spec(old(self)@, rnd)),
    {
        let pc = self.program_counter;
        let op = match self.fetch() {
            Some(op) => op,
            None => {
                return Err(Chip8Error::AddressOutOfRange);
            },
        };
        match decode(op) {
            None => Err(Chip8Error::UnknownOpcode(op)),
            Some(ins) => {
                self.program_counter = pc + 2;
                let r = self.execute(ins, rnd);
                if r.is_err() {
                    self.program_counter = pc;
                }
                r
            },
        }
    }

    /// Runs one fetch-decode-execute cycle, drawing a fresh random byte for `Cxnn`.
    pub fn tick(&mut self) -> (r: Result<(), Chip8Error>)
        requires
            old(self).wf(),
        ensures
            final(self).wf(),
            exists|rnd: u8| outcome(old(self)@, final(self)@, r, step_spec(old(self)@, rnd)),
    {
        let rnd = random_byte();
        let r = self.step(rnd);
        assert(outcome(old(self)@, self@, r, step_spec(old(self)@, rnd)));
        r
    }

    /// Decrements the delay and sound timers by one each, holding them at zero.
    pub fn tick_timers(&mut self)
        requires
            old(self).wf(),
        ensures
            final(self).wf(),
            final(self)@ == (CpuView {
                delay: timer_dec(old(self)@.delay),
                sound: timer_dec(old(self)@.sound),
                ..old(self)@
            }),
    {
        if self.delay_timer > 0 {
            self.delay_timer = self.delay_timer - 1;
        }
        if self.sound_timer > 0 {
            self.sound_timer = self.sound_timer - 1;
        }
    }

    /// The framebuffer, row-major, 64 cells per row.
    pub fn get_display(&self) -> (r: &[bool])
        ensures
            r@ == self@.display,
    {
        &self.screen.display
    }

    /// Sets key `idx` down or up; an index outside 0 to 15 is refused with no change.
    pub fn keypress(&mut self, idx: usize, pressed: bool) -> (r: Result<(), Chip8Error>)
        requires
            old(self).wf(),
        ensures
            final(self).wf(),
            idx < NUM_KEYS ==> r == Ok::<(), Chip8Error>(()) && final(self)@ == (CpuView {
                keys: old(self)@.keys.update(idx as int, pressed),
                ..old(self)@
            }),
            idx >= NUM_KEYS ==> r == Err::<(), Chip8Error>(Chip8Error::InvalidKey)
                && final(self)@ == old(self)@,
    {
        if idx >= NUM_KEYS {
            return Err(Chip8Error::InvalidKey);
        }
        self.keys[idx] = pressed;
        Ok(())
    }

    /// Copies a program to address 0x200; one longer than the 3584 bytes above that
    /// address is refused with no change.
    pub fn load(&mut self, data: &[u8]) -> (r: Result<(), Chip8Error>)
        requires
            old(self).wf(),
        ensures
            final(self).wf(),
            data@.len() <= MAX_PROGRAM_SIZE ==> r == Ok::<(), Chip8Error>(()) && final(self)@ == (
            CpuView { ram: loaded_ram(old(self)@.ram, data@), ..old(self)@ }),
            data@.len() > MAX_PROGRAM_SIZE ==> r == Err::<(), Chip8Error>(Chip8Error::RomTooLarge)
                && final(self)@ == old(self)@,
    {
        self.ram.load(data)
    }

    pub fn program_counter(&self) -> (r: u16)
        ensures
            r == self@.pc,
    {
        self.program_counter
    }

    pub fn index_register(&self) -> (r: u16)
        ensures
            r == self@.i,
    {
        self.i_register
    }

    /// The value of register `Vx`.
    pub fn register(&self, x: usize) -> (r: u8)
        requires
            x < NUM_REGS,
        ensures
            r == self@.v[x as int],
    {
        self.v_registers[x]
    }

    /// The number of return addresses on the stack.
    pub fn stack_depth(&self) -> (r: usize)
        requires
            self.wf(),
        ensures
            r == self@.stack.len(),
    {
        self.stack.depth()
    }

    pub fn delay_timer(&self) -> (r: u8)
        ensures
            r == self@.delay,
    {
        self.delay_timer
    }

    pub fn sound_timer(&self) -> (r: u8)
        ensures
            r == self@.sound,
    {
        self.sound_timer
    }

    /// The byte at `address`.
    pub fn read_byte(&self, address: usize) -> (r: u8)
        requires
            address < RAM_SIZE,
        ensures
            r == self@.ram[address as int],
    {
        self.ram.fetch_byte(address)
    }
}

impl Default for CPU {
    fn default() -> (r: CPU)
        ensures
            r.wf(),
            r@ == initial_state(),
    {
        CPU::new()
    }
}

} // verus!
