//! The execution engine: the machine state, and the instruction cycle that
//! fetches, decodes and executes one instruction per tick.

use vstd::prelude::*;
use crate::decoder::{decode_instruction, opcode_of, Context, Opcode};
use crate::font::{FONT, FONT_SIZE, GLYPH_SIZE};
use crate::keyboard::State;
use crate::machine::{
    lowest_key, lowest_key_from, sprite_bit, Machine, FLAG_REGISTER, GENERAL_PURPOSE_REGISTERS,
    INSTRUCTION_LENGTH, PROGRAM_START, STACK_SIZE,
};
use crate::rom::RomBuffer;
use crate::{HEIGHT, MEMORY_SIZE, ROM_SIZE, WIDTH};

verus! {

/// The framebuffer: `HEIGHT` rows of `WIDTH` pixels, `true` for a lit pixel.
pub type VRAM = [[bool; WIDTH]; HEIGHT];

/// The virtual machine.
pub struct CPU {
    i: u16,
    pc: u16,
    sp: usize,
    v: [u8; GENERAL_PURPOSE_REGISTERS],
    dt: u8,
    st: u8,
    stack: [u16; STACK_SIZE],
    ram: [u8; MEMORY_SIZE],
    vram: VRAM,
}

impl View for CPU {
    type V = Machine;

    closed spec fn view(&self) -> Machine {
        Machine {
            i: self.i,
            pc: self.pc,
            sp: self.sp as nat,
            v: self.v@,
            dt: self.dt,
            st: self.st,
            stack: self.stack@,
            ram: self.ram@,
            vram: Seq::new(HEIGHT as nat, |y: int| self.vram[y]@),
        }
    }
}

/// Draws the byte of the `RND` instruction with `rand::random::<u8>()`. The
/// byte depends on the state of the thread's generator, so nothing is
/// claimed of it.
#[verifier::external_body]
fn random_byte() -> u8 {
    rand::random::<u8>()
}

impl CPU {
    #[verifier::type_invariant]
    spec fn stack_pointer_in_bounds(self) -> bool {
        self.sp <= STACK_SIZE
    }

    /// A machine with every cell zero and a blank screen.
    pub fn new() -> (cpu: Self)
        ensures
            cpu@ == Machine::blank(),
            cpu@.wf(),
    {
        let cpu = Self {
            i: 0,
            pc: 0,
            sp: 0,
            v: [0;GENERAL_PURPOSE_REGISTERS],
            dt: 0,
            st: 0,
            stack: [0;STACK_SIZE],
            ram: [0;MEMORY_SIZE],
            vram: [[false;WIDTH];HEIGHT],
        };
        assert(cpu@ =~~= Machine::blank());
        cpu
    }

    /// A machine ready to run the program `rom`: the font at address 0, the
    /// program at the program start, the program counter at the program
    /// start, and everything else zero.
    pub fn init(rom: &RomBuffer) -> (cpu: CPU)
        ensures
            cpu@ == Machine::boot(rom@),
            cpu@.wf(),
    {
        let mut cpu = CPU::new();
        cpu.set_pc(PROGRAM_START);

        cpu.load_font();
        cpu.load_rom(&rom);

        assert(cpu@ =~~= Machine::boot(rom@));
        cpu
    }

    /// Writes the font table to memory at address 0.
    pub fn load_font(&mut self)
        ensures
            final(self)@ == old(self)@.with_font(),
            final(self)@.wf(),
    {
        proof {
            use_type_invariant(&*self);
        }
        for i in 0..FONT_SIZE
            invariant
                self.sp <= STACK_SIZE,
                self@ == (Machine { ram: self@.ram, ..old(self)@ }),
                forall|a: int|
                    0 <= a < MEMORY_SIZE ==> self@.ram[a] == if a < i {
                        FONT@[a]
                    } else {
                        old(self)@.ram[a]
                    },
        {
            self.ram[i] = FONT[i];
        }
        assert(self@ =~~= old(self)@.with_font());
    }

    /// Writes the program `rom` to memory at the program counter. The
    /// program has to fit between the program counter and the end of memory.
    pub fn load_rom(&mut self, rom: &RomBuffer)
        requires
            old(self)@.can_load(),
        ensures
            final(self)@ == old(self)@.with_rom(rom@),
            final(self)@.wf(),
    {
        proof {
            use_type_invariant(&*self);
        }
        let start = self.pc as usize;
        for i in 0..ROM_SIZE
            invariant
                self.sp <= STACK_SIZE,
                start == self.pc,
                start + ROM_SIZE <= MEMORY_SIZE,
                self@ == (Machine { ram: self@.ram, ..old(self)@ }),
                forall|a: int|
                    0 <= a < MEMORY_SIZE ==> self@.ram[a] == if start <= a < start + i {
                        rom@[a - start]
                    } else {
                        old(self)@.ram[a]
                    },
        {
            self.ram[start + i] = rom[i];
        }
        assert(self@ =~~= old(self)@.with_rom(rom@));
    }

    /// The framebuffer.
    pub fn get_vram(&self) -> (vram: &VRAM)
        ensures
            forall|x: int, y: int|
                0 <= x < WIDTH && 0 <= y < HEIGHT ==> vram[y][x] == #[trigger] self@.vram[y][x],
    {
        &self.vram
    }

    /// Whether the sound timer asks for a tone.
    pub fn beeping(&self) -> (beeping: bool)
        ensures
            beeping == self@.beeping(),
    {
        self.st > 0
    }

    /// One tick of the delay timer: it counts down by one, and stays at zero.
    pub fn decrement_delay(&mut self)
        ensures
            final(self)@ == old(self)@.decrement_delay(),
            final(self)@.wf(),
    {
        proof {
            use_type_invariant(&*self);
        }
        if self.dt > 0 {
            self.dt -= 1
        }
    }

    /// One tick of the sound timer: it counts down by one, and stays at zero.
    pub fn decrement_sound(&mut self)
        ensures
            final(self)@ == old(self)@.decrement_sound(),
            final(self)@.wf(),
    {
        proof {
            use_type_invariant(&*self);
        }
        if self.st > 0 {
            self.st -= 1
        }
    }

    /// One tick of both timers.
    pub fn decrement_timers(&mut self)
        ensures
            final(self)@ == old(self)@.decrement_timers(),
            final(self)@.wf(),
    {
        self.decrement_delay();
        self.decrement_sound();
    }

    /// Executes the instruction at the program counter. Returns the
    /// instruction word if it is no instruction of the machine, for the
    /// caller to report. The byte of a `RND` instruction is drawn at random;
    /// every other instruction has one outcome.
    pub fn tick(&mut self, input: &State) -> (unknown: Option<u16>)
        ensures
            exists|random: u8| final(self)@ == old(self)@.step(input@, random),
            !old(self)@.draws_random() ==> final(self)@ == old(self)@.step(input@, 0),
            unknown == old(self)@.unknown_instruction(),
            final(self)@.wf(),
    {
        if !self.can_fetch() {
            proof {
                use_type_invariant(&*self);
            }
            assert(self@ == old(self)@.step(input@, 0));
            return None;
        }
        let instruction = self.fetch_instruction();
        let (opcode, c) = decode_instruction(instruction);
        let random = match opcode {
            Opcode::RND_REG_CONST => random_byte(),
            _ => 0,
        };
        let unknown = self.run(instruction, opcode, c, input, random);
        assert(self@ == old(self)@.step(input@, random));
        unknown
    }

    /// Executes the instruction at the program counter, with `random` as the
    /// byte that a `RND` instruction draws. Returns the instruction word if
    /// it is no instruction of the machine.
    pub fn tick_with(&mut self, input: &State, random: u8) -> (unknown: Option<u16>)
        ensures
            final(self)@ == old(self)@.step(input@, random),
            unknown == old(self)@.unknown_instruction(),
            final(self)@.wf(),
    {
        if !self.can_fetch() {
            proof {
                use_type_invariant(&*self);
            }
            return None;
        }
        let instruction = self.fetch_instruction();
        let (opcode, c) = decode_instruction(instruction);
        self.run(instruction, opcode, c, input, random)
    }

    /// Whether both bytes of the instruction at the program counter lie
    /// inside memory.
    pub fn can_fetch(&self) -> (ready: bool)
        ensures
            ready == self@.can_fetch(),
    {
        (self.pc as usize) < MEMORY_SIZE - 1
    }

    /// The instruction word at the program counter, big-endian. Both of its
    /// bytes have to lie inside memory.
    pub fn fetch_instruction(&self) -> (instruction: u16)
        requires
            self@.can_fetch(),
        ensures
            instruction == self@.fetch(),
    {
        let high = self.ram[self.pc as usize] as u16;
        let low = self.ram[self.pc as usize + 1] as u16;
        assert((high << 8) | low == high * 0x100 + low) by (bit_vector)
            requires
                high < 0x100,
                low < 0x100,
        ;
        (high << 8) | low
    }

    /// The index register `I`.
    pub fn i(&self) -> (i: u16)
        ensures
            i == self@.i,
    {
        self.i
    }

    /// The program counter.
    pub fn pc(&self) -> (pc: u16)
        ensures
            pc == self@.pc,
    {
        self.pc
    }

    /// The number of return addresses on the call stack.
    pub fn sp(&self) -> (sp: usize)
        ensures
            sp == self@.sp,
            sp <= STACK_SIZE,
    {
        proof {
            use_type_invariant(self);
        }
        self.sp
    }

    /// The general-purpose registers.
    pub fn v(&self) -> (v: &[u8; GENERAL_PURPOSE_REGISTERS])
        ensures
            v@ == self@.v,
    {
        &self.v
    }

    /// The delay timer.
    pub fn dt(&self) -> (dt: u8)
        ensures
            dt == self@.dt,
    {
        self.dt
    }

    /// The sound timer.
    pub fn st(&self) -> (st: u8)
        ensures
            st == self@.st,
    {
        self.st
    }

    /// The call stack.
    pub fn stack(&self) -> (stack: &[u16; STACK_SIZE])
        ensures
            stack@ == self@.stack,
    {
        &self.stack
    }

    /// The memory.
    pub fn ram(&self) -> (ram: &[u8; MEMORY_SIZE])
        ensures
            ram@ == self@.ram,
    {
        &self.ram
    }

    /// Sets the program counter.
    pub fn set_pc(&mut self, address: u16)
        ensures
            final(self)@ == (Machine { pc: address, ..old(self)@ }),
            final(self)@.wf(),
    {
        self.jump(address);
        proof {
            use_type_invariant(&*self);
        }
    }

    fn run(&mut self, instruction: u16, opcode: Opcode, c: Context, input: &State, random: u8) -> (unknown: Option<u16>)
        requires
            old(self)@.can_fetch(),
            instruction == old(self)@.fetch(),
            opcode == opcode_of(instruction),
            c == Context::of(instruction),
        ensures
            final(self)@ == old(self)@.step(input@, random),
            unknown == old(self)@.unknown_instruction(),
            final(self)@.wf(),
    {
        proof {
            use_type_invariant(&*self);
        }
        self.pc += INSTRUCTION_LENGTH;
        assert(self@ == old(self)@.advance());
        self.execute(opcode, c, input, random);
        proof {
            use_type_invariant(&*self);
        }
        match opcode {
            Opcode::UNKNOWN => Some(instruction),
            _ => None,
        }
    }

    fn execute(&mut self, opcode: Opcode, c: Context, input: &State, random: u8)
        requires
            c.x < GENERAL_PURPOSE_REGISTERS,
            c.y < GENERAL_PURPOSE_REGISTERS,
            c.n < 0x10,
            c.nnn < MEMORY_SIZE,
            INSTRUCTION_LENGTH <= old(self)@.pc <= MEMORY_SIZE,
        ensures
            final(self)@ == old(self)@.execute(opcode, c, input@, random),
    {
        let x = c.x;
        let y = c.y;
        match opcode {
            Opcode::CLS => self.clear_screen(),
            Opcode::RET => self.subroutine_return(),
            Opcode::JP_ADDR => self.jump(c.nnn),
            Opcode::CALL_ADDR => self.subroutine_call(c.nnn),
            Opcode::SE_REG_CONST => self.skip_if(self.register(x) == c.kk),
            Opcode::SNE_REG_CONST => self.skip_if(self.register(x) != c.kk),
            Opcode::SE_REG_REG => self.skip_if(self.register(x) == self.register(y)),
            Opcode::LD_REG_CONST => self.set_register(x, c.kk),
            Opcode::ADD_REG_CONST => self.set_register(x, self.register(x).wrapping_add(c.kk)),
            Opcode::LD_REG_REG => self.set_register(x, self.register(y)),
            Opcode::OR_REG_REG => self.set_register(x, self.register(x) | self.register(y)),
            Opcode::AND_REG_REG => self.set_register(x, self.register(x) & self.register(y)),
            Opcode::XOR_REG_REG => self.set_register(x, self.register(x) ^ self.register(y)),
            Opcode::ADD_REG_REG => {
                let vx = self.register(x);
                let vy = self.register(y);
                self.set_flag(vx.checked_add(vy).is_none());
                self.set_register(x, vx.wrapping_add(vy));
            },
            Opcode::SUB_REG_REG => {
                let vx = self.register(x);
                let vy = self.register(y);
                self.set_flag(vx.checked_sub(vy).is_none());
                self.set_register(x, vx.wrapping_sub(vy));
            },
            Opcode::SHR_REG => {
                let vx = self.register(x);
                assert(vx & 0x1 == vx % 2) by (bit_vector);
                self.set_register(FLAG_REGISTER, vx & 0x1);
                let shifted = self.register(x);
                assert(shifted >> 1 == shifted / 2) by (bit_vector);
                self.set_register(x, shifted >> 1);
            },
            Opcode::SUBN_REG_REG => {
                let vx = self.register(x);
                let vy = self.register(y);
                self.set_flag(vy.checked_sub(vx).is_none());
                self.set_register(x, vy.wrapping_sub(vx));
            },
            Opcode::SHL_REG => {
                let vx = self.register(x);
                assert(vx >> 7 == vx / 0x80) by (bit_vector);
                self.set_register(FLAG_REGISTER, vx >> 7);
                let shifted = self.register(x);
                assert(shifted << 1 == shifted * 2 % 0x100) by (bit_vector);
                self.set_register(x, shifted << 1);
            },
            Opcode::SNE_REG_REG => self.skip_if(self.register(x) != self.register(y)),
            Opcode::LD_I_ADDR => self.set_index(c.nnn),
            Opcode::JP_V0_ADDR => self.jump(c.nnn + (self.register(0) as u16)),
            Opcode::RND_REG_CONST => self.set_register(x, random & c.kk),
            Opcode::DRW_REG_REG_CONST => self.draw_sprite(x, y, c.n),
            Opcode::SKP_REG => self.skip_if(input.has_key(self.register(x))),
            Opcode::SKNP_REG => self.skip_if(!input.has_key(self.register(x))),
            Opcode::LD_REG_DELAY => self.set_register(x, self.dt),
            Opcode::LD_REG_KEY => match lowest_pressed(input) {
                Some(key) => self.set_register(x, key),
                None => self.jump(self.pc - INSTRUCTION_LENGTH),
            },
            Opcode::LD_DELAY_REG => self.set_delay_timer(self.register(x)),
            Opcode::LD_SOUND_REG => self.set_sound_timer(self.register(x)),
            Opcode::ADD_I_REG => self.set_index(self.i.wrapping_add(self.register(x) as u16)),
            Opcode::LD_FONT_CHAR => {
                let glyph_size = GLYPH_SIZE as u16;
                assert(glyph_size == 5);
                self.set_index(self.register(x) as u16 * glyph_size);
            },
            Opcode::LD_BCD => self.store_decimal(x),
            Opcode::LD_IND_REG => self.store_registers(x),
            Opcode::LD_REG_IND => self.load_registers(x),
            Opcode::UNKNOWN => {},
        }
    }

    fn register(&self, x: usize) -> (value: u8)
        requires
            x < GENERAL_PURPOSE_REGISTERS,
        ensures
            value == self@.v[x as int],
    {
        self.v[x]
    }

    fn set_register(&mut self, x: usize, value: u8)
        requires
            x < GENERAL_PURPOSE_REGISTERS,
        ensures
            final(self)@ == old(self)@.set_register(x as int, value),
    {
        proof {
            use_type_invariant(&*self);
        }
        self.v[x] = value;
        assert(self@ =~~= old(self)@.set_register(x as int, value));
    }

    fn set_flag(&mut self, raised: bool)
        ensures
            final(self)@ == old(self)@.set_flag(raised),
    {
        self.set_register(
            FLAG_REGISTER,
            if raised {
                1
            } else {
                0
            },
        );
    }

    fn set_index(&mut self, address: u16)
        ensures
            final(self)@ == (Machine { i: address, ..old(self)@ }),
    {
        proof {
            use_type_invariant(&*self);
        }
        self.i = address;
    }

    fn jump(&mut self, address: u16)
        ensures
            final(self)@ == (Machine { pc: address, ..old(self)@ }),
    {
        proof {
            use_type_invariant(&*self);
        }
        self.pc = address;
    }

    fn skip_if(&mut self, condition: bool)
        requires
            old(self)@.pc <= MEMORY_SIZE,
        ensures
            final(self)@ == old(self)@.skip_if(condition),
    {
        proof {
            use_type_invariant(&*self);
        }
        if condition {
            self.pc += INSTRUCTION_LENGTH;
        }
    }

    fn clear_screen(&mut self)
        ensures
            final(self)@ == old(self)@.clear_screen(),
    {
        proof {
            use_type_invariant(&*self);
        }
        self.vram = [[false;WIDTH];HEIGHT];
        assert(self@ =~~= old(self)@.clear_screen());
    }

    fn subroutine_return(&mut self)
        ensures
            final(self)@ == old(self)@.subroutine_return(),
    {
        proof {
            use_type_invariant(&*self);
        }
        if self.sp > 0 {
            self.sp -= 1;
            self.pc = self.stack[self.sp];
        }
    }

    fn subroutine_call(&mut self, address: u16)
        ensures
            final(self)@ == old(self)@.subroutine_call(address),
    {
        proof {
            use_type_invariant(&*self);
        }
        if self.sp < STACK_SIZE {
            self.stack[self.sp] = self.pc;
            self.sp += 1;
            self.pc = address;
        }
        assert(self@ =~~= old(self)@.subroutine_call(address));
    }

    /// Sets the delay timer.
    pub fn set_delay_timer(&mut self, value: u8)
        ensures
            final(self)@ == (Machine { dt: value, ..old(self)@ }),
            final(self)@.wf(),
    {
        proof {
            use_type_invariant(&*self);
        }
        self.dt = value;
    }

    /// Sets the sound timer.
    pub fn set_sound_timer(&mut self, value: u8)
        ensures
            final(self)@ == (Machine { st: value, ..old(self)@ }),
            final(self)@.wf(),
    {
        proof {
            use_type_invariant(&*self);
        }
        self.st = value;
    }

    fn store_decimal(&mut self, x: usize)
        requires
            x < GENERAL_PURPOSE_REGISTERS,
        ensures
            final(self)@ == old(self)@.store_decimal(x as int),
    {
        proof {
            use_type_invariant(&*self);
        }
        let value = self.v[x];
        let at = self.i as usize;
        if at + 2 < MEMORY_SIZE {
            self.ram[at] = value / 100;
            self.ram[at + 1] = (value % 100) / 10;
            self.ram[at + 2] = value % 10;
        }
        assert(self@ =~~= old(self)@.store_decimal(x as int));
    }

    fn store_registers(&mut self, x: usize)
        requires
            x < GENERAL_PURPOSE_REGISTERS,
        ensures
            final(self)@ == old(self)@.store_registers(x as int),
    {
        proof {
            use_type_invariant(&*self);
        }
        let at = self.i as usize;
        if at + x < MEMORY_SIZE {
            for idx in 0..x + 1
                invariant
                    x < GENERAL_PURPOSE_REGISTERS,
                    at == self.i,
                    at + x < MEMORY_SIZE,
                    self.sp <= STACK_SIZE,
                    self@ == (Machine { ram: self@.ram, ..old(self)@ }),
                    forall|a: int|
                        0 <= a < MEMORY_SIZE ==> self@.ram[a] == if at <= a < at + idx {
                            old(self)@.v[a - at]
                        } else {
                            old(self)@.ram[a]
                        },
            {
                self.ram[at + idx] = self.v[idx];
            }
        }
        assert(self@ =~~= old(self)@.store_registers(x as int));
    }

    fn load_registers(&mut self, x: usize)
        requires
            x < GENERAL_PURPOSE_REGISTERS,
        ensures
            final(self)@ == old(self)@.load_registers(x as int),
    {
        proof {
            use_type_invariant(&*self);
        }
        let at = self.i as usize;
        if at + x < MEMORY_SIZE {
            for idx in 0..x + 1
                invariant
                    x < GENERAL_PURPOSE_REGISTERS,
                    at == self.i,
                    at + x < MEMORY_SIZE,
                    self.sp <= STACK_SIZE,
                    self@ == (Machine { v: self@.v, ..old(self)@ }),
                    forall|r: int|
                        0 <= r < GENERAL_PURPOSE_REGISTERS ==> self@.v[r] == if r < idx {
                            old(self)@.ram[at + r]
                        } else {
                            old(self)@.v[r]
                        },
            {
                self.v[idx] = self.ram[at + idx];
            }
        }
        assert(self@ =~~= old(self)@.load_registers(x as int));
    }

    fn draw_sprite(&mut self, x: usize, y: usize, n: usize)
        requires
            x < GENERAL_PURPOSE_REGISTERS,
            y < GENERAL_PURPOSE_REGISTERS,
            n < 0x10,
        ensures
            final(self)@ == old(self)@.draw(x as int, y as int, n as int),
    {
        proof {
            use_type_invariant(&*self);
        }
        let left = self.v[x];
        let top = self.v[y];
        let at = self.i as usize;
        if at + n <= MEMORY_SIZE {
            let ghost before = self@;
            let mut collision = false;
            for row in 0..n
                invariant
                    n < 0x10,
                    at == self.i,
                    at + n <= MEMORY_SIZE,
                    self.sp <= STACK_SIZE,
                    before == old(self)@,
                    before.wf(),
                    self@ == (Machine { vram: self@.vram, ..before }),
                    self@.wf(),
                    forall|px: int, py: int|
                        0 <= px < WIDTH && 0 <= py < HEIGHT ==> #[trigger] self@.vram[py][px] == (
                        before.vram[py][px] != before.sprite_covers(left, top, row as int, px, py)),
                    collision == before.sprite_collides(left, top, row as int),
            {
                let byte = self.ram[at + row];
                let line = (top as usize + row) % HEIGHT;
                let ghost screen = self@.vram;
                let mut pixels = self.vram[line];
                let hit = draw_row(&mut pixels, byte, left);
                self.vram[line] = pixels;
                collision = collision || hit;
                proof {
                    assert forall|px: int, py: int| 0 <= px < WIDTH && 0 <= py < HEIGHT implies (
                    #[trigger] self@.vram[py][px]) == (before.vram[py][px] != before.sprite_covers(
                        left,
                        top,
                        row + 1,
                        px,
                        py,
                    )) by {
                        lemma_next_row(before, left, top, row as int, px, py);
                        assert(self@.vram[py][px] == (screen[py][px] != (py == line && row_covers(
                            byte,
                            left,
                            px,
                        ))));
                    }
                    lemma_next_row_collides(before, left, top, row as int);
                    assert(screen[line as int] =~= before.vram[line as int]) by {
                        assert forall|px: int| 0 <= px < WIDTH implies screen[line as int][px]
                            == before.vram[line as int][px] by {
                            lemma_next_row(before, left, top, row as int, px, line as int);
                        }
                    }
                }
            }
            self.v[FLAG_REGISTER] = if collision {
                1
            } else {
                0
            };
        }
        assert(self@ =~~= old(self)@.draw(x as int, y as int, n as int));
    }
}

/// Whether a sprite row `byte`, drawn from column `left` on, has a set bit in
/// column `x` of the screen.
spec fn row_covers(byte: u8, left: u8, x: int) -> bool {
    sprite_bit(byte, (x - left) % (WIDTH as int))
}

/// Whether the leftmost `columns` bits of that sprite row have a set bit in
/// column `x` of the screen.
spec fn row_covers_upto(byte: u8, left: u8, columns: int, x: int) -> bool {
    (x - left) % (WIDTH as int) < columns && row_covers(byte, left, x)
}

/// Whether the leftmost `columns` bits of that sprite row have a set bit on
/// a lit pixel of `line`.
spec fn row_collides_upto(line: Seq<bool>, byte: u8, left: u8, columns: int) -> bool {
    exists|x: int| 0 <= x < WIDTH && line[x] && #[trigger] row_covers_upto(byte, left, columns, x)
}

/// The sprite with one row more covers what it covered, and what its new
/// row covers of the one screen row that the new row falls on.
proof fn lemma_next_row(before: Machine, left: u8, top: u8, row: int, x: int, y: int)
    requires
        0 <= row < 0x10,
        0 <= x < WIDTH,
        0 <= y < HEIGHT,
    ensures
        before.sprite_covers(left, top, row + 1, x, y) == (before.sprite_covers(
            left,
            top,
            row,
            x,
            y,
        ) || (y == (top + row) % (HEIGHT as int) && row_covers(
            before.ram[before.i + row],
            left,
            x,
        ))),
        y == (top + row) % (HEIGHT as int) ==> !before.sprite_covers(left, top, row, x, y),
{
}

/// The sprite with one row more turns a lit pixel off where it did, and
/// where its new row does.
proof fn lemma_next_row_collides(before: Machine, left: u8, top: u8, row: int)
    requires
        0 <= row < 0x10,
        before.wf(),
    ensures
        before.sprite_collides(left, top, row + 1) == (before.sprite_collides(left, top, row)
            || row_collides_upto(
            before.vram[(top + row) % (HEIGHT as int)],
            before.ram[before.i + row],
            left,
            8,
        )),
{
    let line = (top + row) % (HEIGHT as int);
    let byte = before.ram[before.i + row];
    if before.sprite_collides(left, top, row + 1) {
        let (x, y) = choose|x: int, y: int|
            0 <= x < WIDTH && 0 <= y < HEIGHT && before.vram[y][x]
                && #[trigger] before.sprite_covers(left, top, row + 1, x, y);
        lemma_next_row(before, left, top, row, x, y);
        if !before.sprite_covers(left, top, row, x, y) {
            assert(row_covers_upto(byte, left, 8, x));
        }
    }
    if before.sprite_collides(left, top, row) {
        let (x, y) = choose|x: int, y: int|
            0 <= x < WIDTH && 0 <= y < HEIGHT && before.vram[y][x]
                && #[trigger] before.sprite_covers(left, top, row, x, y);
        lemma_next_row(before, left, top, row, x, y);
        assert(before.sprite_covers(left, top, row + 1, x, y));
    }
    if row_collides_upto(before.vram[line], byte, left, 8) {
        let x = choose|x: int|
            0 <= x < WIDTH && before.vram[line][x] && #[trigger] row_covers_upto(byte, left, 8, x);
        lemma_next_row(before, left, top, row, x, line);
        assert(before.sprite_covers(left, top, row + 1, x, line));
    }
}

/// Combines the sprite row `byte` with the screen row `pixels` by exclusive
/// or, from column `left` on and around the right edge, and tells whether a
/// lit pixel went off.
fn draw_row(pixels: &mut [bool; WIDTH], byte: u8, left: u8) -> (hit: bool)
    ensures
        forall|px: int|
            0 <= px < WIDTH ==> #[trigger] final(pixels)[px] == (old(pixels)[px] != row_covers(
                byte,
                left,
                px,
            )),
        hit == row_collides_upto(old(pixels)@, byte, left, 8),
{
    let mut hit = false;
    for column in 0..8usize
        invariant
            forall|px: int|
                0 <= px < WIDTH ==> #[trigger] pixels[px] == (old(pixels)[px] != row_covers_upto(
                    byte,
                    left,
                    column as int,
                    px,
                )),
            hit == row_collides_upto(old(pixels)@, byte, left, column as int),
    {
        let px = (left as usize + column) % WIDTH;
        let lit = pixels[px];
        if (byte >> ((7 - column) as u8)) & 1 == 1 {
            hit = hit || lit;
            pixels[px] = !lit;
        }
        proof {
            let row = old(pixels)@;
            assert forall|x: int| 0 <= x < WIDTH implies row_covers_upto(byte, left, column + 1, x)
                == (row_covers_upto(byte, left, column as int, x) || (x == px && sprite_bit(
                byte,
                column as int,
            ))) by {}
            assert(!row_covers_upto(byte, left, column as int, px as int));
            if row_collides_upto(row, byte, left, column + 1) {
                let x = choose|x: int|
                    0 <= x < WIDTH && row[x] && #[trigger] row_covers_upto(
                        byte,
                        left,
                        column + 1,
                        x,
                    );
                if x != px {
                    assert(row_covers_upto(byte, left, column as int, x));
                }
            }
            if row_collides_upto(row, byte, left, column as int) {
                let x = choose|x: int|
                    0 <= x < WIDTH && row[x] && #[trigger] row_covers_upto(
                        byte,
                        left,
                        column as int,
                        x,
                    );
                assert(row_covers_upto(byte, left, column + 1, x));
            }
            if sprite_bit(byte, column as int) && lit {
                assert(row_covers_upto(byte, left, column + 1, px as int));
            }
        }
    }
    hit
}

/// The lowest-numbered key that is held down.
fn lowest_pressed(input: &State) -> (key: Option<u8>)
    ensures
        key == lowest_key(input@),
{
    let mut bit: u8 = 0;
    while bit < 0x10
        invariant
            bit <= 0x10,
            lowest_key(input@) == lowest_key_from(input@, bit),
        decreases 0x10 - bit,
    {
        if input.has_key(bit) {
            return Some(bit);
        }
        bit += 1;
    }
    None
}

} // verus!
