use vstd::prelude::*;
use crate::memory::{Ram, RAM_SIZE};

verus! {

/// Width of the framebuffer in pixels.
pub const SCREEN_WIDTH: usize = 64;

/// Height of the framebuffer in pixels.
pub const SCREEN_HEIGHT: usize = 32;

/// Number of cells in the framebuffer.
pub const SCREEN_SIZE: usize = 2048;

/// The sprite column that lands on cell `idx` when the sprite's left edge is at `vx`.
pub open spec fn sprite_col(vx: u8, idx: int) -> int {
    (idx % 64 - vx as int) % 64
}

/// The sprite row that lands on cell `idx` when the sprite's top edge is at `vy`.
pub open spec fn sprite_row(vy: u8, idx: int) -> int {
    (idx / 64 - vy as int) % 32
}

/// Bit `col` of a sprite row, counted from the most significant bit.
pub open spec fn pixel_bit(byte: u8, col: int) -> bool {
    (byte >> ((7 - col) as u8)) & 1u8 == 1u8
}

/// Whether drawing the `n`-row sprite stored at `i` at position `(vx, vy)` flips cell `idx`.
pub open spec fn sprite_hit(ram: Seq<u8>, i: int, vx: u8, vy: u8, n: int, idx: int) -> bool {
    sprite_row(vy, idx) < n && sprite_col(vx, idx) < 8 && pixel_bit(
        ram[i + sprite_row(vy, idx)],
        sprite_col(vx, idx),
    )
}

/// The framebuffer after the sprite is XORed onto it.
pub open spec fn drawn(display: Seq<bool>, ram: Seq<u8>, i: int, vx: u8, vy: u8, n: int) -> Seq<
    bool,
> {
    Seq::new(display.len(), |idx: int| display[idx] != sprite_hit(ram, i, vx, vy, n, idx))
}

/// Whether drawing the sprite turns off a cell that was on.
pub open spec fn collides(display: Seq<bool>, ram: Seq<u8>, i: int, vx: u8, vy: u8, n: int) -> bool {
    exists|idx: int|
        0 <= idx < SCREEN_SIZE && #[trigger] display[idx] && sprite_hit(ram, i, vx, vy, n, idx)
}

spec fn done_before(vx: u8, vy: u8, row: int, col: int, idx: int) -> bool {
    sprite_row(vy, idx) < row || (sprite_row(vy, idx) == row && sprite_col(vx, idx) < col)
}

/// The cell written by sprite pixel `(row, col)` is the only cell that pixel lands on.
proof fn lemma_cell_of_pixel(vx: u8, vy: u8, row: int, col: int, idx0: int)
    requires
        0 <= row < 32,
        0 <= col < 8,
        idx0 == (vx + col) % 64 + ((vy + row) % 32) * 64,
    ensures
        0 <= idx0 < SCREEN_SIZE,
        sprite_row(vy, idx0) == row,
        sprite_col(vx, idx0) == col,
        forall|idx: int|
            0 <= idx < SCREEN_SIZE && sprite_row(vy, idx) == row && sprite_col(vx, idx) == col
                ==> idx == idx0,
{
    let cx = (vx + col) % 64;
    let cy = (vy + row) % 32;
    assert(idx0 % 64 == cx && idx0 / 64 == cy) by (nonlinear_arith)
        requires
            idx0 == cx + cy * 64,
            0 <= cx < 64,
            0 <= cy < 32,
    ;
    assert forall|idx: int|
        0 <= idx < SCREEN_SIZE && sprite_row(vy, idx) == row && sprite_col(vx, idx) == col
            implies idx == idx0 by {
        assert(idx % 64 == cx);
        assert(idx / 64 == cy);
        assert(idx == (idx / 64) * 64 + idx % 64) by (nonlinear_arith);
    }
}

/// The machine's monochrome framebuffer, stored row-major.
pub struct Screen {
    pub display: [bool; 2048],
}

impl View for Screen {
    type V = Seq<bool>;

    open spec fn view(&self) -> Seq<bool> {
        self.display@
    }
}

/// A framebuffer with every cell off.
pub open spec fn blank_display() -> Seq<bool> {
    Seq::new(SCREEN_SIZE as nat, |idx: int| false)
}

impl Screen {
    pub fn new() -> (r: Screen)
        ensures
            r@ == blank_display(),
    {
        let r = Screen { display: [false; 2048] };
        assert(r@ =~= blank_display());
        r
    }

    pub fn clear(&mut self)
        ensures
            final(self)@ == blank_display(),
    {
        self.display = [false; 2048];
        assert(self@ =~= blank_display());
    }

    /// XORs the `n`-row sprite stored at address `i` onto the framebuffer at `(vx, vy)`,
    /// wrapping at both edges; returns whether a lit cell was turned off.
    pub fn draw(&mut self, ram: &Ram, i: usize, vx: u8, vy: u8, n: usize) -> (collision: bool)
        requires
            n < 16,
            i + n <= RAM_SIZE,
        ensures
            final(self)@ == drawn(old(self)@, ram@, i as int, vx, vy, n as int),
            collision == collides(old(self)@, ram@, i as int, vx, vy, n as int),
    {
        let ghost d0 = self@;
        let mut collision = false;
        let mut row: usize = 0;
        while row < n
            invariant
                row <= n < 16,
                i + n <= RAM_SIZE,
                d0.len() == SCREEN_SIZE,
                self@.len() == SCREEN_SIZE,
                forall|idx: int|
                    0 <= idx < SCREEN_SIZE ==> self@[idx] == (d0[idx] != (sprite_hit(
                        ram@,
                        i as int,
                        vx,
                        vy,
                        n as int,
                        idx,
                    ) && done_before(vx, vy, row as int, 0, idx))),
                collision == exists|j: int|
                    0 <= j < SCREEN_SIZE && #[trigger] d0[j] && sprite_hit(
                        ram@,
                        i as int,
                        vx,
                        vy,
                        n as int,
                        j,
                    ) && done_before(vx, vy, row as int, 0, j),
            decreases n - row,
        {
            let sprite = ram.data[i + row];
            let mut col: usize = 0;
            while col < 8
                invariant
                    row < n < 16,
                    col <= 8,
                    i + n <= RAM_SIZE,
                    sprite == ram@[i + row],
                    d0.len() == SCREEN_SIZE,
                    self@.len() == SCREEN_SIZE,
                    forall|idx: int|
                        0 <= idx < SCREEN_SIZE ==> self@[idx] == (d0[idx] != (sprite_hit(
                            ram@,
                            i as int,
                            vx,
                            vy,
                            n as int,
                            idx,
                        ) && done_before(vx, vy, row as int, col as int, idx))),
                    collision == exists|j: int|
                        0 <= j < SCREEN_SIZE && #[trigger] d0[j] && sprite_hit(
                            ram@,
                            i as int,
                            vx,
                            vy,
                            n as int,
                            j,
                        ) && done_before(vx, vy, row as int, col as int, j),
                decreases 8 - col,
            {
                let bit = (sprite >> (7 - col as u8)) & 1u8;
                let idx = (vx as usize + col) % SCREEN_WIDTH + ((vy as usize + row) % SCREEN_HEIGHT)
                    * SCREEN_WIDTH;
                proof {
                    lemma_cell_of_pixel(vx, vy, row as int, col as int, idx as int);
                    assert(sprite_hit(ram@, i as int, vx, vy, n as int, idx as int) == (bit == 1u8));
                }
                let ghost before = self@;
                let ghost had = collision;
                let prev = self.display[idx];
                self.display[idx] = prev != (bit == 1u8);
                if prev && bit == 1u8 {
                    collision = true;
                }
                proof {
                    assert forall|idx2: int|
                        0 <= idx2 < SCREEN_SIZE && idx2 != idx implies done_before(
                            vx,
                            vy,
                            row as int,
                            col as int + 1,
                            idx2,
                        ) == done_before(vx, vy, row as int, col as int, idx2) || !sprite_hit(
                            ram@,
                            i as int,
                            vx,
                            vy,
                            n as int,
                            idx2,
                        ) by {}
                    if collision && !had {
                        assert(d0[idx as int]);
                    }
                    if had {
                        let j = choose|j: int|
                            0 <= j < SCREEN_SIZE && #[trigger] d0[j] && sprite_hit(
                                ram@,
                                i as int,
                                vx,
                                vy,
                                n as int,
                                j,
                            ) && done_before(vx, vy, row as int, col as int, j);
                        assert(done_before(vx, vy, row as int, col as int + 1, j));
                    }
                }
                col = col + 1;
            }
            proof {
                assert forall|idx: int| 0 <= idx < SCREEN_SIZE implies (sprite_hit(
                    ram@,
                    i as int,
                    vx,
                    vy,
                    n as int,
                    idx,
                ) && done_before(vx, vy, row as int, 8, idx)) == (sprite_hit(
                    ram@,
                    i as int,
                    vx,
                    vy,
                    n as int,
                    idx,
                ) && done_before(vx, vy, row as int + 1, 0, idx)) by {}
            }
            row = row + 1;
        }
        proof {
            assert forall|idx: int| 0 <= idx < SCREEN_SIZE implies (sprite_hit(
                ram@,
                i as int,
                vx,
                vy,
                n as int,
                idx,
            ) && done_before(vx, vy, n as int, 0, idx)) == sprite_hit(
                ram@,
                i as int,
                vx,
                vy,
                n as int,
                idx,
            ) by {}
        }
        assert(self@ =~= drawn(d0, ram@, i as int, vx, vy, n as int));
        collision
    }
}

} // verus!
