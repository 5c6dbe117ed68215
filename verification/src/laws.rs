//! Laws of the machine model: what holds of every state and every step.

use vstd::prelude::*;
use crate::decoder::{opcode_of, Context, Opcode};
use crate::machine::{
    is_skip, lowest_key, lowest_key_from, sprite_bit, Machine, FLAG_REGISTER,
    GENERAL_PURPOSE_REGISTERS, INSTRUCTION_LENGTH, STACK_SIZE,
};
use crate::{HEIGHT, MEMORY_SIZE, WIDTH};

verus! {

/// A step keeps the dimensions of the state: the memory, the registers, the
/// stack and the framebuffer keep their sizes, and the stack pointer stays
/// within the stack.
pub proof fn lemma_step_preserves_wf(m: Machine, keys: Set<u8>, random: u8)
    requires
        m.wf(),
    ensures
        m.step(keys, random).wf(),
{
    if m.can_fetch() {
        let c = Context::of(m.fetch());
        assert(c.x < GENERAL_PURPOSE_REGISTERS && c.y < GENERAL_PURPOSE_REGISTERS);
        assert(m.advance().wf());
    }
}

/// A step depends on the random byte only where the instruction is `RND`.
pub proof fn lemma_step_ignores_random(m: Machine, keys: Set<u8>, random: u8, other: u8)
    requires
        !m.draws_random(),
    ensures
        m.step(keys, random) == m.step(keys, other),
{
}

/// A skip instruction moves the program counter on by 4 where its condition
/// holds and by 2 where it does not, and changes nothing else.
pub proof fn lemma_skip_moves_program_counter(m: Machine, keys: Set<u8>, random: u8)
    requires
        m.can_fetch(),
        is_skip(opcode_of(m.fetch())),
    ensures
        m.step(keys, random) == (Machine {
            pc: if m.skip_condition(keys) {
                (m.pc + 2 * INSTRUCTION_LENGTH) as u16
            } else {
                (m.pc + INSTRUCTION_LENGTH) as u16
            },
            ..m
        }),
{
}

/// The lowest key is a key of the keypad that is held down, and no key
/// below it is; there is none exactly when no key of the keypad is held
/// down.
pub proof fn lemma_lowest_key(keys: Set<u8>)
    ensures
        match lowest_key(keys) {
            Some(key) => key < 16 && keys.contains(key) && forall|below: u8|
                below < key ==> !keys.contains(below),
            None => forall|key: u8| key < 16 ==> !keys.contains(key),
        },
{
    lemma_lowest_key_from(keys, 0);
}

proof fn lemma_lowest_key_from(keys: Set<u8>, from: u8)
    requires
        from <= 16,
    ensures
        match lowest_key_from(keys, from) {
            Some(key) => from <= key < 16 && keys.contains(key) && forall|below: u8|
                from <= below < key ==> !keys.contains(below),
            None => forall|key: u8| from <= key < 16 ==> !keys.contains(key),
        },
    decreases 16 - from,
{
    if from < 16 && !keys.contains(from) {
        lemma_lowest_key_from(keys, (from + 1) as u8);
    }
}

/// While no key of the keypad is held down, the instruction that waits for
/// a key leaves the machine as it found it, the program counter included:
/// the next step executes it again.
pub proof fn lemma_wait_key_stalls(m: Machine, keys: Set<u8>, random: u8)
    requires
        m.can_fetch(),
        opcode_of(m.fetch()) == Opcode::LD_REG_KEY,
        forall|key: u8| key < 16 ==> !keys.contains(key),
    ensures
        m.step(keys, random) == m,
{
    lemma_lowest_key(keys);
}

/// A sprite has a set bit on a pixel of the screen exactly when one of its
/// bits, in row `row` and column `column` of the sprite, is set and falls on
/// that pixel: the pixel's column is `left + column` modulo the width of the
/// screen, and its row is `top + row` modulo the height.
pub proof fn lemma_sprite_wraps(m: Machine, left: u8, top: u8, n: int, x: int, y: int)
    requires
        0 <= n <= HEIGHT,
        0 <= x < WIDTH,
        0 <= y < HEIGHT,
    ensures
        m.sprite_covers(left, top, n, x, y) <==> exists|row: int, column: int|
            0 <= row < n && 0 <= column < 8 && x == (left + column) % (WIDTH as int) && y == (top
                + row) % (HEIGHT as int) && #[trigger] sprite_bit(m.ram[m.i + row], column),
{
    let column = (x - left) % (WIDTH as int);
    let row = (y - top) % (HEIGHT as int);
    if m.sprite_covers(left, top, n, x, y) {
        assert(0 <= row < n && 0 <= column < 8 && x == (left + column) % (WIDTH as int) && y == (top
            + row) % (HEIGHT as int) && sprite_bit(m.ram[m.i + row], column));
    }
}

/// `ADD Vx, Vy` loses nothing of the sum: the flag is its ninth bit, and
/// `Vx` holds the eight bits below.
pub proof fn lemma_add_keeps_the_sum(m: Machine, x: int, y: int)
    requires
        m.wf(),
        0 <= x < FLAG_REGISTER,
        0 <= y < GENERAL_PURPOSE_REGISTERS,
    ensures
        m.add_registers(x, y).v[FLAG_REGISTER as int] <= 1,
        m.add_registers(x, y).v[x] + 0x100 * m.add_registers(x, y).v[FLAG_REGISTER as int]
            == m.v[x] + m.v[y],
{
}

/// `SUB Vx, Vy` and `SUBN Vx, Vy` lose nothing of the difference: the flag
/// is the borrow, which makes up for what `Vx` holds too much.
pub proof fn lemma_subtract_keeps_the_difference(m: Machine, x: int, minuend: int, subtrahend: int)
    requires
        m.wf(),
        0 <= x < FLAG_REGISTER,
        0 <= minuend < GENERAL_PURPOSE_REGISTERS,
        0 <= subtrahend < GENERAL_PURPOSE_REGISTERS,
    ensures
        m.subtract_registers(x, minuend, subtrahend).v[FLAG_REGISTER as int] <= 1,
        m.subtract_registers(x, minuend, subtrahend).v[x] - 0x100 * m.subtract_registers(
            x,
            minuend,
            subtrahend,
        ).v[FLAG_REGISTER as int] == m.v[minuend] - m.v[subtrahend],
{
}

/// `SHR Vx` and `SHL Vx` lose no bit: the flag holds the one that left `Vx`.
pub proof fn lemma_shift_keeps_the_bits(m: Machine, x: int)
    requires
        m.wf(),
        0 <= x < FLAG_REGISTER,
    ensures
        m.shift_right(x).v[FLAG_REGISTER as int] <= 1,
        2 * m.shift_right(x).v[x] + m.shift_right(x).v[FLAG_REGISTER as int] == m.v[x],
        m.shift_left(x).v[FLAG_REGISTER as int] <= 1,
        m.shift_left(x).v[x] + 0x100 * m.shift_left(x).v[FLAG_REGISTER as int] == 2 * m.v[x],
{
}

/// `LD B, Vx` writes three decimal digits, and they denote `Vx`.
pub proof fn lemma_decimal_digits_denote_the_register(m: Machine, x: int)
    requires
        m.wf(),
        0 <= x < GENERAL_PURPOSE_REGISTERS,
        m.i + 2 < MEMORY_SIZE,
    ensures
        m.store_decimal(x).ram[m.i as int] <= 9,
        m.store_decimal(x).ram[m.i + 1] <= 9,
        m.store_decimal(x).ram[m.i + 2] <= 9,
        100 * m.store_decimal(x).ram[m.i as int] + 10 * m.store_decimal(x).ram[m.i + 1]
            + m.store_decimal(x).ram[m.i + 2] == m.v[x],
{
}

/// A `RET` after a `CALL` brings back the program counter and the stack
/// pointer that the `CALL` found.
pub proof fn lemma_return_undoes_call(m: Machine, address: u16)
    requires
        m.wf(),
        m.sp < STACK_SIZE,
    ensures
        m.subroutine_call(address).subroutine_return().pc == m.pc,
        m.subroutine_call(address).subroutine_return().sp == m.sp,
{
}

/// `LD Vx, [I]` after `LD [I], Vx` finds the registers as they were.
pub proof fn lemma_load_undoes_store(m: Machine, x: int)
    requires
        m.wf(),
        0 <= x < GENERAL_PURPOSE_REGISTERS,
    ensures
        m.store_registers(x).load_registers(x).v == m.v,
{
    assert(m.store_registers(x).load_registers(x).v =~= m.v);
}

/// Drawing a sprite a second time at the same place takes it off the screen
/// again: the pixels are combined by exclusive or.
pub proof fn lemma_draw_twice_restores_screen(m: Machine, x: int, y: int, n: int)
    requires
        m.wf(),
        0 <= x < FLAG_REGISTER,
        0 <= y < FLAG_REGISTER,
        0 <= n < 0x10,
    ensures
        m.draw(x, y, n).draw(x, y, n).vram == m.vram,
{
    let once = m.draw(x, y, n);
    let twice = once.draw(x, y, n);
    if m.i + n <= MEMORY_SIZE {
        assert forall|py: int| 0 <= py < HEIGHT implies #[trigger] twice.vram[py] == m.vram[py] by {
            assert forall|px: int| 0 <= px < WIDTH implies #[trigger] twice.vram[py][px]
                == m.vram[py][px] by {
                assert(once.sprite_covers(once.v[x], once.v[y], n, px, py) == m.sprite_covers(
                    m.v[x],
                    m.v[y],
                    n,
                    px,
                    py,
                ));
            }
            assert(twice.vram[py] =~= m.vram[py]);
        }
        assert(twice.vram =~= m.vram);
    }
}

} // verus!
