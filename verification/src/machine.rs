//! The mathematical model of the virtual machine: its state, and the state
//! transition of every instruction. The executable engine is specified
//! against this model.
//!
//! An instruction that cannot be carried out inside the machine's bounds
//! changes nothing beyond the program counter, which has moved past it by
//! then. That holds for a `CALL` on a full stack and a `RET` on an empty one,
//! so the stack pointer saturates at both ends, and for the instructions
//! that read or write memory at `I` when the bytes they name do not all lie
//! inside memory. A machine whose program counter has left memory has
//! nothing to fetch and stands still.

use vstd::prelude::*;
use crate::decoder::{opcode_of, Context, Opcode};
use crate::font::{FONT, FONT_SIZE, GLYPH_SIZE};
use crate::{HEIGHT, MEMORY_SIZE, ROM_SIZE, WIDTH};

verus! {

/// Number of bytes of one instruction.
pub const INSTRUCTION_LENGTH: u16 = 2;

/// Number of general-purpose registers.
pub const GENERAL_PURPOSE_REGISTERS: usize = 0x10;

/// Number of return addresses that the call stack holds.
pub const STACK_SIZE: usize = 0x10;

/// Index of the register that receives the carry, borrow, shifted-out bit and
/// collision flags.
pub const FLAG_REGISTER: usize = 0xF;

/// Address at which a program is loaded and started.
pub const PROGRAM_START: u16 = 0x200;

/// The state of the machine.
#[verifier::ext_equal]
pub struct Machine {
    /// The index register `I`.
    pub i: u16,
    /// The program counter.
    pub pc: u16,
    /// The number of return addresses on the call stack.
    pub sp: nat,
    /// The general-purpose registers `V0` to `VF`.
    pub v: Seq<u8>,
    /// The delay timer.
    pub dt: u8,
    /// The sound timer.
    pub st: u8,
    /// The call stack; its entries below `sp` are the return addresses.
    pub stack: Seq<u16>,
    /// The memory.
    pub ram: Seq<u8>,
    /// The framebuffer, as rows of pixels: `vram[y][x]` is the pixel in
    /// column `x` of row `y`, and `true` is a lit pixel.
    pub vram: Seq<Seq<bool>>,
}

/// The framebuffer with every pixel off.
pub open spec fn blank_screen() -> Seq<Seq<bool>> {
    Seq::new(HEIGHT as nat, |y: int| Seq::new(WIDTH as nat, |x: int| false))
}

/// Bit `column` of a sprite row, counted from the most significant bit,
/// which is the leftmost pixel.
pub open spec fn sprite_bit(row: u8, column: int) -> bool {
    0 <= column < 8 && (row >> ((7 - column) as u8)) & 1 == 1
}

/// The lowest key of `keys` that is not below `from`, if the keypad has one.
pub open spec fn lowest_key_from(keys: Set<u8>, from: u8) -> Option<u8>
    decreases 16 - from,
{
    if from >= 16 {
        None
    } else if keys.contains(from) {
        Some(from)
    } else {
        lowest_key_from(keys, (from + 1) as u8)
    }
}

/// The lowest-numbered key of the keypad that `keys` holds.
pub open spec fn lowest_key(keys: Set<u8>) -> Option<u8> {
    lowest_key_from(keys, 0)
}

impl Machine {
    /// The dimensions of the state: sixteen registers, a stack of sixteen
    /// entries of which at most sixteen are in use, the full memory and the
    /// full framebuffer.
    pub open spec fn wf(self) -> bool {
        &&& self.sp <= STACK_SIZE
        &&& self.v.len() == GENERAL_PURPOSE_REGISTERS
        &&& self.stack.len() == STACK_SIZE
        &&& self.ram.len() == MEMORY_SIZE
        &&& self.vram.len() == HEIGHT
        &&& forall|y: int| 0 <= y < HEIGHT ==> (#[trigger] self.vram[y]).len() == WIDTH
    }

    /// The machine before anything is loaded: every cell zero, the screen
    /// blank.
    pub open spec fn blank() -> Machine {
        Machine {
            i: 0,
            pc: 0,
            sp: 0,
            v: Seq::new(GENERAL_PURPOSE_REGISTERS as nat, |r: int| 0u8),
            dt: 0,
            st: 0,
            stack: Seq::new(STACK_SIZE as nat, |s: int| 0u16),
            ram: Seq::new(MEMORY_SIZE as nat, |a: int| 0u8),
            vram: blank_screen(),
        }
    }

    /// The machine with the font table written at address 0.
    pub open spec fn with_font(self) -> Machine {
        Machine {
            ram: Seq::new(
                self.ram.len(),
                |a: int|
                    if a < FONT_SIZE {
                        FONT@[a]
                    } else {
                        self.ram[a]
                    },
            ),
            ..self
        }
    }

    /// Whether a program image fits into memory at the program counter.
    pub open spec fn can_load(self) -> bool {
        self.pc + ROM_SIZE <= MEMORY_SIZE
    }

    /// The machine with the program image `rom` written at the program
    /// counter.
    pub open spec fn with_rom(self, rom: Seq<u8>) -> Machine {
        Machine {
            ram: Seq::new(
                self.ram.len(),
                |a: int|
                    if self.pc <= a < self.pc + rom.len() {
                        rom[a - self.pc]
                    } else {
                        self.ram[a]
                    },
            ),
            ..self
        }
    }

    /// The machine at the start of a session: the font at address 0, `rom` at
    /// the program start, the program counter at the program start, and
    /// everything else zero.
    pub open spec fn boot(rom: Seq<u8>) -> Machine {
        Machine { pc: PROGRAM_START, ..Machine::blank() }.with_font().with_rom(rom)
    }

    /// Whether the sound timer asks for a tone.
    pub open spec fn beeping(self) -> bool {
        self.st > 0
    }

    /// The machine after one tick of the delay timer.
    pub open spec fn decrement_delay(self) -> Machine {
        Machine {
            dt: if self.dt > 0 {
                (self.dt - 1) as u8
            } else {
                0
            },
            ..self
        }
    }

    /// The machine after one tick of the sound timer.
    pub open spec fn decrement_sound(self) -> Machine {
        Machine {
            st: if self.st > 0 {
                (self.st - 1) as u8
            } else {
                0
            },
            ..self
        }
    }

    /// The machine after one tick of both timers.
    pub open spec fn decrement_timers(self) -> Machine {
        self.decrement_delay().decrement_sound()
    }

    /// Whether both bytes of the instruction at the program counter lie
    /// inside memory.
    pub open spec fn can_fetch(self) -> bool {
        self.pc + 1 < MEMORY_SIZE
    }

    /// The instruction word at the program counter, big-endian.
    pub open spec fn fetch(self) -> u16 {
        (self.ram[self.pc as int] * 0x100 + self.ram[self.pc + 1]) as u16
    }

    /// The machine with the program counter moved on by one instruction.
    pub open spec fn advance(self) -> Machine {
        Machine { pc: (self.pc + INSTRUCTION_LENGTH) as u16, ..self }
    }

    /// The machine with the program counter moved on by one instruction if
    /// `condition` holds, and unchanged if not.
    pub open spec fn skip_if(self, condition: bool) -> Machine {
        if condition {
            self.advance()
        } else {
            self
        }
    }

    /// The machine with `value` in register `x`.
    pub open spec fn set_register(self, x: int, value: u8) -> Machine {
        Machine { v: self.v.update(x, value), ..self }
    }

    /// The machine with the flag register set to 1 if `raised` and to 0 if
    /// not.
    pub open spec fn set_flag(self, raised: bool) -> Machine {
        self.set_register(
            FLAG_REGISTER as int,
            if raised {
                1
            } else {
                0
            },
        )
    }

    /// `CLS`: every pixel off.
    pub open spec fn clear_screen(self) -> Machine {
        Machine { vram: blank_screen(), ..self }
    }

    /// `RET`: the program counter takes the return address on top of the
    /// stack, which leaves the stack. On an empty stack nothing changes.
    pub open spec fn subroutine_return(self) -> Machine {
        if self.sp > 0 {
            Machine { sp: (self.sp - 1) as nat, pc: self.stack[self.sp - 1], ..self }
        } else {
            self
        }
    }

    /// `CALL addr`: the program counter goes onto the stack and takes
    /// `address`. On a full stack nothing changes.
    pub open spec fn subroutine_call(self, address: u16) -> Machine {
        if self.sp < STACK_SIZE {
            Machine {
                stack: self.stack.update(self.sp as int, self.pc),
                sp: self.sp + 1,
                pc: address,
                ..self
            }
        } else {
            self
        }
    }

    /// `ADD Vx, Vy`: the flag is the carry, then `Vx` takes the sum modulo
    /// 256.
    pub open spec fn add_registers(self, x: int, y: int) -> Machine {
        let sum = self.v[x] + self.v[y];
        self.set_flag(sum > 0xFF).set_register(x, (sum % 0x100) as u8)
    }

    /// `SUB Vx, Vy` with `minuend` `x` and `subtrahend` `y`, `SUBN Vx, Vy`
    /// with the two exchanged: the flag is the borrow, then `Vx` takes the
    /// difference modulo 256.
    pub open spec fn subtract_registers(self, x: int, minuend: int, subtrahend: int) -> Machine {
        let difference = self.v[minuend] - self.v[subtrahend];
        self.set_flag(difference < 0).set_register(x, (difference % 0x100) as u8)
    }

    /// `SHR Vx`: the flag is the lowest bit of `Vx`, then `Vx` is halved.
    pub open spec fn shift_right(self, x: int) -> Machine {
        let flagged = self.set_register(FLAG_REGISTER as int, (self.v[x] % 2) as u8);
        flagged.set_register(x, (flagged.v[x] / 2) as u8)
    }

    /// `SHL Vx`: the flag is the highest bit of `Vx`, then `Vx` is doubled
    /// modulo 256.
    pub open spec fn shift_left(self, x: int) -> Machine {
        let flagged = self.set_register(FLAG_REGISTER as int, (self.v[x] / 0x80) as u8);
        flagged.set_register(x, (flagged.v[x] * 2 % 0x100) as u8)
    }

    /// Whether the sprite of `n` rows at `I`, drawn with its top left corner
    /// at `(left, top)`, has a set bit on the pixel `(x, y)` of the screen.
    /// The sprite wraps around both edges of the screen.
    pub open spec fn sprite_covers(self, left: u8, top: u8, n: int, x: int, y: int) -> bool {
        let column = (x - left) % (WIDTH as int);
        let row = (y - top) % (HEIGHT as int);
        column < 8 && row < n && sprite_bit(self.ram[self.i + row], column)
    }

    /// Whether drawing the sprite of `n` rows at `I` with its top left corner
    /// at `(left, top)` turns a lit pixel off.
    pub open spec fn sprite_collides(self, left: u8, top: u8, n: int) -> bool {
        exists|x: int, y: int|
            0 <= x < WIDTH && 0 <= y < HEIGHT && self.vram[y][x] && #[trigger] self.sprite_covers(
                left,
                top,
                n,
                x,
                y,
            )
    }

    /// `DRW Vx, Vy, n`: the sprite of `n` rows at `I` is combined with the
    /// screen by exclusive or, its top left corner at `(Vx, Vy)`, and the flag
    /// tells whether a lit pixel went off. Nothing changes if the `n` bytes
    /// at `I` do not all lie inside memory.
    pub open spec fn draw(self, x: int, y: int, n: int) -> Machine {
        let left = self.v[x];
        let top = self.v[y];
        if self.i + n <= MEMORY_SIZE {
            Machine {
                vram: Seq::new(
                    HEIGHT as nat,
                    |py: int|
                        Seq::new(
                            WIDTH as nat,
                            |px: int| self.vram[py][px] != self.sprite_covers(left, top, n, px, py),
                        ),
                ),
                ..self
            }.set_flag(self.sprite_collides(left, top, n))
        } else {
            self
        }
    }

    /// `LD Vx, K`: `Vx` takes the lowest-numbered key that is held down. With
    /// no key held down the program counter goes back to this instruction,
    /// which is thereby executed again at the next step.
    pub open spec fn wait_key(self, x: int, keys: Set<u8>) -> Machine {
        match lowest_key(keys) {
            Some(key) => self.set_register(x, key),
            None => Machine { pc: (self.pc - INSTRUCTION_LENGTH) as u16, ..self },
        }
    }

    /// `LD B, Vx`: the hundreds, tens and units digits of `Vx` are written to
    /// the three bytes at `I`. Nothing changes if the three bytes do not all
    /// lie inside memory.
    pub open spec fn store_decimal(self, x: int) -> Machine {
        let value = self.v[x];
        if self.i + 2 < MEMORY_SIZE {
            Machine {
                ram: self.ram.update(self.i as int, value / 100).update(
                    self.i + 1,
                    value % 100 / 10,
                ).update(self.i + 2, value % 10),
                ..self
            }
        } else {
            self
        }
    }

    /// `LD [I], Vx`: the registers `V0` to `Vx`, `Vx` included, are written
    /// to memory from `I` on. Nothing changes if the bytes from `I` to
    /// `I + x` do not all lie inside memory.
    pub open spec fn store_registers(self, x: int) -> Machine {
        if self.i + x < MEMORY_SIZE {
            Machine {
                ram: Seq::new(
                    self.ram.len(),
                    |a: int|
                        if self.i <= a <= self.i + x {
                            self.v[a - self.i]
                        } else {
                            self.ram[a]
                        },
                ),
                ..self
            }
        } else {
            self
        }
    }

    /// `LD Vx, [I]`: the registers `V0` to `Vx`, `Vx` included, are read from
    /// memory from `I` on. Nothing changes if the bytes from `I` to `I + x`
    /// do not all lie inside memory.
    pub open spec fn load_registers(self, x: int) -> Machine {
        if self.i + x < MEMORY_SIZE {
            Machine {
                v: Seq::new(
                    self.v.len(),
                    |r: int|
                        if r <= x {
                            self.ram[self.i + r]
                        } else {
                            self.v[r]
                        },
                ),
                ..self
            }
        } else {
            self
        }
    }

    /// The effect of the instruction with the opcode `opcode` and the operand
    /// fields `c` on a machine whose program counter has already moved past
    /// it. `keys` are the keys held down, and `random` is the byte that the
    /// `RND` instruction draws.
    pub open spec fn execute(self, opcode: Opcode, c: Context, keys: Set<u8>, random: u8) -> Machine {
        let x = c.x as int;
        let y = c.y as int;
        match opcode {
            Opcode::CLS => self.clear_screen(),
            Opcode::RET => self.subroutine_return(),
            Opcode::JP_ADDR => Machine { pc: c.nnn, ..self },
            Opcode::CALL_ADDR => self.subroutine_call(c.nnn),
            Opcode::SE_REG_CONST => self.skip_if(self.v[x] == c.kk),
            Opcode::SNE_REG_CONST => self.skip_if(self.v[x] != c.kk),
            Opcode::SE_REG_REG => self.skip_if(self.v[x] == self.v[y]),
            Opcode::LD_REG_CONST => self.set_register(x, c.kk),
            Opcode::ADD_REG_CONST => self.set_register(x, ((self.v[x] + c.kk) % 0x100) as u8),
            Opcode::LD_REG_REG => self.set_register(x, self.v[y]),
            Opcode::OR_REG_REG => self.set_register(x, self.v[x] | self.v[y]),
            Opcode::AND_REG_REG => self.set_register(x, self.v[x] & self.v[y]),
            Opcode::XOR_REG_REG => self.set_register(x, self.v[x] ^ self.v[y]),
            Opcode::ADD_REG_REG => self.add_registers(x, y),
            Opcode::SUB_REG_REG => self.subtract_registers(x, x, y),
            Opcode::SHR_REG => self.shift_right(x),
            Opcode::SUBN_REG_REG => self.subtract_registers(x, y, x),
            Opcode::SHL_REG => self.shift_left(x),
            Opcode::SNE_REG_REG => self.skip_if(self.v[x] != self.v[y]),
            Opcode::LD_I_ADDR => Machine { i: c.nnn, ..self },
            Opcode::JP_V0_ADDR => Machine { pc: (c.nnn + self.v[0]) as u16, ..self },
            Opcode::RND_REG_CONST => self.set_register(x, random & c.kk),
            Opcode::DRW_REG_REG_CONST => self.draw(x, y, c.n as int),
            Opcode::SKP_REG => self.skip_if(keys.contains(self.v[x])),
            Opcode::SKNP_REG => self.skip_if(!keys.contains(self.v[x])),
            Opcode::LD_REG_DELAY => self.set_register(x, self.dt),
            Opcode::LD_REG_KEY => self.wait_key(x, keys),
            Opcode::LD_DELAY_REG => Machine { dt: self.v[x], ..self },
            Opcode::LD_SOUND_REG => Machine { st: self.v[x], ..self },
            Opcode::ADD_I_REG => Machine { i: ((self.i + self.v[x]) % 0x10000) as u16, ..self },
            Opcode::LD_FONT_CHAR => Machine { i: (self.v[x] * GLYPH_SIZE) as u16, ..self },
            Opcode::LD_BCD => self.store_decimal(x),
            Opcode::LD_IND_REG => self.store_registers(x),
            Opcode::LD_REG_IND => self.load_registers(x),
            Opcode::UNKNOWN => self,
        }
    }

    /// One step of the machine: the instruction at the program counter is
    /// fetched, the program counter moves past it, and the instruction takes
    /// effect. A machine that cannot fetch stays as it is.
    pub open spec fn step(self, keys: Set<u8>, random: u8) -> Machine {
        if self.can_fetch() {
            let instruction = self.fetch();
            self.advance().execute(
                opcode_of(instruction),
                Context::of(instruction),
                keys,
                random,
            )
        } else {
            self
        }
    }

    /// Whether a step draws a random byte: whether the instruction at the
    /// program counter is `RND`.
    pub open spec fn draws_random(self) -> bool {
        self.can_fetch() && opcode_of(self.fetch()) == Opcode::RND_REG_CONST
    }

    /// The instruction word that a step finds to be no instruction, if it
    /// does.
    pub open spec fn unknown_instruction(self) -> Option<u16> {
        if self.can_fetch() && opcode_of(self.fetch()) == Opcode::UNKNOWN {
            Some(self.fetch())
        } else {
            None
        }
    }
}

/// Whether `opcode` is one of the instructions that skip the instruction
/// after them on a condition.
pub open spec fn is_skip(opcode: Opcode) -> bool {
    opcode == Opcode::SE_REG_CONST || opcode == Opcode::SNE_REG_CONST || opcode
        == Opcode::SE_REG_REG || opcode == Opcode::SNE_REG_REG || opcode == Opcode::SKP_REG
        || opcode == Opcode::SKNP_REG
}

impl Machine {
    /// Whether the skip instruction at the program counter finds its
    /// condition to hold: `SE` that its operands are equal, `SNE` that they
    /// differ, `SKP` that the key `Vx` is held down, `SKNP` that it is not.
    pub open spec fn skip_condition(self, keys: Set<u8>) -> bool {
        let c = Context::of(self.fetch());
        let x = c.x as int;
        let y = c.y as int;
        match opcode_of(self.fetch()) {
            Opcode::SE_REG_CONST => self.v[x] == c.kk,
            Opcode::SNE_REG_CONST => self.v[x] != c.kk,
            Opcode::SE_REG_REG => self.v[x] == self.v[y],
            Opcode::SNE_REG_REG => self.v[x] != self.v[y],
            Opcode::SKP_REG => keys.contains(self.v[x]),
            Opcode::SKNP_REG => !keys.contains(self.v[x]),
            _ => false,
        }
    }
}

} // verus!
