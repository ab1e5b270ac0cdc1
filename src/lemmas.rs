use vstd::prelude::*;
use crate::error::Chip8Error;
use crate::cpu::{exec_spec, fetch_spec, first_pressed_from, step_spec, timer_dec, CpuView};
use crate::instruction::{address, decode_spec, low_byte, nibble1, nibble2, Instruction};
use crate::memory::{word_at, RAM_SIZE};
use crate::screen::{collides, drawn, sprite_col, sprite_hit, SCREEN_SIZE};

verus! {

/// `8xy4` with `x` other than `VF`: `Vx` receives the sum modulo 256, and `VF` is 1
/// exactly when the unsigned sum exceeds 255, 0 otherwise.
pub proof fn lemma_add_with_carry(s: CpuView, x: u8, y: u8, rnd: u8)
    requires
        s.v.len() == 16,
        x < 15,
        y < 16,
    ensures
        exec_spec(s, Instruction::AddReg(x, y), rnd) is Ok,
        ({
            let t = exec_spec(s, Instruction::AddReg(x, y), rnd)->Ok_0;
            let sum = s.v[x as int] + s.v[y as int];
            &&& t.v[x as int] == sum % 256
            &&& (t.v[15] == 1) == (sum > 255)
            &&& (t.v[15] == 0) == (sum <= 255)
        }),
{
}

/// `8xy5` with `x` other than `VF`: `Vx` receives `Vx - Vy` modulo 256, and `VF` is 1
/// exactly when `Vx >= Vy`, 0 otherwise.
pub proof fn lemma_sub_not_borrow(s: CpuView, x: u8, y: u8, rnd: u8)
    requires
        s.v.len() == 16,
        x < 15,
        y < 16,
    ensures
        exec_spec(s, Instruction::SubReg(x, y), rnd) is Ok,
        ({
            let t = exec_spec(s, Instruction::SubReg(x, y), rnd)->Ok_0;
            let a = s.v[x as int];
            let b = s.v[y as int];
            &&& t.v[x as int] == (a - b) % 256
            &&& (t.v[15] == 1) == (a >= b)
            &&& (t.v[15] == 0) == (a < b)
        }),
{
}

/// Shifting `Vx` right leaves its former least significant bit in `VF`, and shifting
/// it left its former most significant bit; when `x` is not `VF`, `Vx` holds the
/// shifted value.
pub proof fn lemma_shift_flags(s: CpuView, x: u8, rnd: u8)
    requires
        s.v.len() == 16,
        x < 16,
    ensures
        exec_spec(s, Instruction::ShiftRight(x), rnd) is Ok,
        exec_spec(s, Instruction::ShiftLeft(x), rnd) is Ok,
        ({
            let a = s.v[x as int];
            let r = exec_spec(s, Instruction::ShiftRight(x), rnd)->Ok_0;
            let l = exec_spec(s, Instruction::ShiftLeft(x), rnd)->Ok_0;
            &&& r.v[15] == a % 2
            &&& l.v[15] == a / 128
            &&& x < 15 ==> r.v[x as int] == a / 2 && l.v[x as int] == (a * 2) % 256
        }),
{
}

/// Drawing a sprite twice at the same place gives back the framebuffer that was there
/// before, and the second drawing reports a collision exactly when some pixel of the
/// sprite landed on a cell that was off before the first.
pub proof fn lemma_draw_twice(display: Seq<bool>, ram: Seq<u8>, i: int, vx: u8, vy: u8, n: int)
    requires
        display.len() == SCREEN_SIZE,
        0 <= n < 16,
        0 <= i,
        i + n <= ram.len(),
    ensures
        drawn(drawn(display, ram, i, vx, vy, n), ram, i, vx, vy, n) == display,
        collides(drawn(display, ram, i, vx, vy, n), ram, i, vx, vy, n) == exists|idx: int|
            0 <= idx < SCREEN_SIZE && !display[idx] && #[trigger] sprite_hit(
                ram,
                i,
                vx,
                vy,
                n,
                idx,
            ),
{
    let once = drawn(display, ram, i, vx, vy, n);
    assert(drawn(once, ram, i, vx, vy, n) =~= display);
    if collides(once, ram, i, vx, vy, n) {
        let idx = choose|idx: int|
            0 <= idx < SCREEN_SIZE && #[trigger] once[idx] && sprite_hit(ram, i, vx, vy, n, idx);
        assert(!display[idx]);
    }
    if exists|idx: int|
        0 <= idx < SCREEN_SIZE && !display[idx] && #[trigger] sprite_hit(ram, i, vx, vy, n, idx) {
        let idx = choose|idx: int|
            0 <= idx < SCREEN_SIZE && !display[idx] && #[trigger] sprite_hit(
                ram,
                i,
                vx,
                vy,
                n,
                idx,
            );
        assert(once[idx]);
    }
}

/// A sprite whose left edge is at column 63 covers columns 63 and 0 to 6: its pixel
/// column 0 lands on column 63 and column `c` on column `c - 1` for `c` from 1 to 7.
pub proof fn lemma_draw_wraps_at_right_edge(idx: int)
    requires
        0 <= idx < SCREEN_SIZE,
    ensures
        (sprite_col(63, idx) < 8) == (idx % 64 == 63 || idx % 64 <= 6),
        sprite_col(63, idx) == (idx % 64 + 1) % 64,
{
}

/// A timer after `k` decrements.
pub open spec fn timer_after(t: u8, k: nat) -> u8
    decreases k,
{
    if k == 0 {
        t
    } else {
        timer_dec(timer_after(t, (k - 1) as nat))
    }
}

/// However many times a timer is decremented, it stops at zero: after `k` decrements
/// it is `t - k`, or 0 once `k` reaches `t`.
pub proof fn lemma_timer_floor(t: u8, k: nat)
    ensures
        timer_after(t, k) == if k >= t {
            0
        } else {
            t - k
        },
    decreases k,
{
    if k > 0 {
        lemma_timer_floor(t, (k - 1) as nat);
    }
}

proof fn lemma_no_key_pressed(keys: Seq<bool>, k: int)
    requires
        0 <= k <= 16,
        forall|j: int| k <= j < 16 ==> !keys[j],
    ensures
        first_pressed_from(keys, k) == 16,
    decreases 16 - k,
{
    if k < 16 {
        lemma_no_key_pressed(keys, k + 1);
    }
}

proof fn lemma_some_key_pressed(keys: Seq<bool>, k: int, j: int)
    requires
        0 <= k <= j < 16,
        keys[j],
    ensures
        k <= first_pressed_from(keys, k) <= j,
        keys[first_pressed_from(keys, k)],
        forall|m: int| k <= m < first_pressed_from(keys, k) ==> !keys[m],
    decreases 16 - k,
{
    if !keys[k] {
        lemma_some_key_pressed(keys, k + 1, j);
    }
}

/// `Fx0A`: with no key down, a cycle leaves the machine exactly as it was, so the same
/// instruction runs again; with a key down, one cycle stores the lowest such key in `Vx`
/// and moves on to the next instruction.
pub proof fn lemma_wait_for_key(s: CpuView, rnd: u8)
    requires
        s.v.len() == 16,
        s.keys.len() == 16,
        fetch_spec(s) is Some,
        nibble1(fetch_spec(s)->Some_0) == 0xF,
        low_byte(fetch_spec(s)->Some_0) == 0x0A,
    ensures
        (forall|k: int| 0 <= k < 16 ==> !s.keys[k]) ==> step_spec(s, rnd) == Ok::<
            CpuView,
            Chip8Error,
        >(s),
        (exists|k: int| 0 <= k < 16 && s.keys[k]) ==> {
            &&& step_spec(s, rnd) is Ok
            &&& step_spec(s, rnd)->Ok_0.pc == s.pc + 2
            &&& ({
                let key = first_pressed_from(s.keys, 0);
                let x = nibble2(fetch_spec(s)->Some_0);
                &&& 0 <= key < 16
                &&& s.keys[key]
                &&& forall|m: int| 0 <= m < key ==> !s.keys[m]
                &&& step_spec(s, rnd)->Ok_0.v[x] == key
            })
        },
{
    let op = fetch_spec(s)->Some_0;
    let x = nibble2(op) as u8;
    assert(decode_spec(op) == Some(Instruction::WaitKey(x)));
    if forall|k: int| 0 <= k < 16 ==> !s.keys[k] {
        lemma_no_key_pressed(s.keys, 0);
    }
    if exists|k: int| 0 <= k < 16 && s.keys[k] {
        let j = choose|k: int| 0 <= k < 16 && s.keys[k];
        lemma_some_key_pressed(s.keys, 0, j);
    }
}

/// `00E0` turns every framebuffer cell off, whatever was drawn before.
pub proof fn lemma_clear_screen(s: CpuView, rnd: u8)
    requires
        fetch_spec(s) == Some(0x00E0u16),
    ensures
        step_spec(s, rnd) is Ok,
        forall|idx: int| 0 <= idx < SCREEN_SIZE ==> !(#[trigger] step_spec(s, rnd)->Ok_0.display[idx]),
{
}

/// A `2nnn` call followed by the `00EE` found at `nnn` comes back to the instruction
/// after the call, with the stack as it was and nothing else changed.
pub proof fn lemma_call_then_return(s: CpuView, rnd1: u8, rnd2: u8)
    requires
        s.stack.len() < 16,
        fetch_spec(s) is Some,
        nibble1(fetch_spec(s)->Some_0) == 2,
        address(fetch_spec(s)->Some_0) + 1 < RAM_SIZE,
        word_at(s.ram, address(fetch_spec(s)->Some_0) as int) == 0x00EE,
    ensures
        step_spec(s, rnd1) is Ok,
        step_spec(step_spec(s, rnd1)->Ok_0, rnd2) == Ok::<CpuView, Chip8Error>(
            CpuView { pc: (s.pc + 2) as u16, ..s },
        ),
{
    let op = fetch_spec(s)->Some_0;
    assert(decode_spec(op) == Some(Instruction::Call(address(op))));
    let t = step_spec(s, rnd1)->Ok_0;
    assert(fetch_spec(t) == Some(0x00EEu16));
    assert(decode_spec(0x00EEu16) == Some(Instruction::Return));
    assert(t.stack.drop_last() =~= s.stack);
}

} // verus!
