//! The executable machine.

use crate::buffers::{
    bank_cells, bank_filled, bank_read, bank_write, memory_cells, memory_filled, memory_read,
    memory_write, screen_cells, screen_filled, screen_read, screen_slice, screen_write,
    stack_cells, stack_filled, stack_read, stack_write, Bank, Memory, Screen, Stack,
};
use crate::display::{
    collides, collides_until, draw, draw_until, lemma_draw_bit, lemma_draw_done,
    lemma_draw_line_end, lemma_draw_start, lemma_target_cell, render_text, target_cell,
    SCREEN_CELLS,
};
use crate::font::FONT_SET;
use crate::instruction::{decode, Instruction};
use crate::model::{
    address, highest_key_down, load_registers, store_registers, wrap8, Report, State,
    MAX_PROGRAM_SIZE, MEMORY_SIZE, PROGRAM_START,
};
use crate::utils::random;
use vstd::prelude::*;

verus! {

/// Why a program image was not loaded.
#[derive(Clone, Copy, Debug, PartialEq, Eq)]
pub enum LoadError {
    /// The image is longer than the memory from the program start to its end.
    ProgramTooLarge,
}

/// A CHIP-8 machine: memory, registers, call stack, timers, keypad and framebuffer.
#[derive(Debug)]
pub struct Chip8 {
    memory: Memory,
    v: Bank,
    i: u16,
    pc: u16,
    gfx: Screen,
    delay_timer: u8,
    sound_timer: u8,
    stack: Stack,
    sp: u8,
    key: Bank,
    draw_flag: bool,
}

impl View for Chip8 {
    type V = State;

    closed spec fn view(&self) -> State {
        State {
            memory: memory_cells(self.memory),
            v: bank_cells(self.v),
            i: self.i,
            pc: self.pc,
            gfx: screen_cells(self.gfx),
            delay_timer: self.delay_timer,
            sound_timer: self.sound_timer,
            stack: stack_cells(self.stack),
            sp: self.sp,
            keys: Seq::new(bank_cells(self.key).len(), |k: int| bank_cells(self.key)[k] != 0),
            redraw: self.draw_flag,
        }
    }
}

impl Chip8 {
    #[verifier::type_invariant]
    spec fn well_formed(self) -> bool {
        self@.valid()
    }

    /// A new machine, with the font in place and nothing else set.
    pub fn init() -> (machine: Chip8)
        ensures
            machine@ == State::initial(),
    {
        let mut memory = memory_filled(0, MEMORY_SIZE);
        let mut at: usize = 0;
        while at < 80
            invariant
                at <= 80,
                memory_cells(memory) == Seq::new(
                    MEMORY_SIZE as nat,
                    |a: int|
                        if a < at {
                            FONT_SET@[a]
                        } else {
                            0u8
                        },
                ),
            decreases 80 - at,
        {
            memory_write(&mut memory, at, FONT_SET[at]);
            at += 1;
        }
        Chip8 {
            memory,
            v: bank_filled(0, 16),
            i: 0,
            pc: PROGRAM_START,
            gfx: screen_filled(0, SCREEN_CELLS),
            delay_timer: 0,
            sound_timer: 0,
            stack: stack_filled(0, 16),
            sp: 0,
            key: bank_filled(0, 16),
            draw_flag: true,
        }
    }

    /// Copies a program image into memory from the program start on.
    ///
    /// An image of more than `MAX_PROGRAM_SIZE` bytes is refused and nothing is written.
    pub fn load_application(&mut self, image: &[u8]) -> (result: Result<(), LoadError>)
        ensures
            image@.len() > MAX_PROGRAM_SIZE ==> result == Err::<(), LoadError>(LoadError::ProgramTooLarge)
                && final(self)@ == old(self)@,
            image@.len() <= MAX_PROGRAM_SIZE ==> result == Ok::<(), LoadError>(()) && final(self)@
                == old(self)@.load(image@),
            final(self)@.valid(),
    {
        proof {
            use_type_invariant(&*self);
        }
        let len = image.len();
        if len > MAX_PROGRAM_SIZE {
            return Err(LoadError::ProgramTooLarge);
        }
        let mut k: usize = 0;
        while k < len
            invariant
                k <= len,
                len == image@.len(),
                len <= MAX_PROGRAM_SIZE,
                memory_cells(self.memory) == Seq::new(
                    MEMORY_SIZE as nat,
                    |a: int|
                        if PROGRAM_START <= a < PROGRAM_START + k {
                            image@[a - PROGRAM_START]
                        } else {
                            memory_cells(old(self).memory)[a]
                        },
                ),
                self.v == old(self).v,
                self.i == old(self).i,
                self.pc == old(self).pc,
                self.gfx == old(self).gfx,
                self.delay_timer == old(self).delay_timer,
                self.sound_timer == old(self).sound_timer,
                self.stack == old(self).stack,
                self.sp == old(self).sp,
                self.key == old(self).key,
                self.draw_flag == old(self).draw_flag,
                old(self)@.valid(),
            decreases len - k,
        {
            memory_write(&mut self.memory, k + 512, image[k]);
            k += 1;
        }
        Ok(())
    }

    /// The framebuffer: 2048 cells, line by line, each 0 or 1.
    pub fn framebuffer(&self) -> (cells: &[u8])
        ensures
            cells@ == self@.gfx,
            self@.valid(),
    {
        proof {
            use_type_invariant(self);
        }
        screen_slice(&self.gfx)
    }

    /// Whether the framebuffer changed since the flag was last cleared.
    pub fn redraw_requested(&self) -> (requested: bool)
        ensures
            requested == self@.redraw,
    {
        self.draw_flag
    }

    /// Clears the redraw flag, once the host has painted the framebuffer.
    pub fn clear_redraw_flag(&mut self)
        ensures
            final(self)@ == (State { redraw: false, ..old(self)@ }),
            final(self)@.valid(),
    {
        proof {
            use_type_invariant(&*self);
        }
        self.draw_flag = false;
    }

    /// Records that key `index` is down or up. Only the low four bits of `index` name a
    /// key.
    pub fn set_key(&mut self, index: u8, down: bool)
        ensures
            final(self)@ == old(self)@.with_key(index % 16, down),
            final(self)@.valid(),
    {
        proof {
            use_type_invariant(&*self);
        }
        let slot: usize = (index % 16) as usize;
        bank_write(
            &mut self.key,
            slot,
            if down {
                1
            } else {
                0
            },
        );
    }
}

impl Chip8 {
    /// The framebuffer as text, for a terminal: see `render_text`.
    pub fn debug_render(&self) -> (text: Vec<u8>)
        ensures
            text@ == render_text(self@.gfx),
    {
        proof {
            use_type_invariant(self);
        }
        let mut text: Vec<u8> = Vec::new();
        let mut line: usize = 0;
        while line < 32
            invariant
                line <= 32,
                self@.valid(),
                text@.len() == line * 65,
                forall|k: int| 0 <= k < text@.len() ==> text@[k] == render_text(self@.gfx)[k],
            decreases 32 - line,
        {
            let mut column: usize = 0;
            while column < 64
                invariant
                    line < 32,
                    column <= 64,
                    self@.valid(),
                    text@.len() == line * 65 + column,
                    forall|k: int| 0 <= k < text@.len() ==> text@[k] == render_text(self@.gfx)[k],
                decreases 64 - column,
            {
                let pixel = screen_read(&self.gfx, line * 64 + column);
                text.push(
                    if pixel == 0 {
                        0x30
                    } else {
                        0x20
                    },
                );
                column += 1;
            }
            text.push(0x0A);
            line += 1;
        }
        text.push(0x0A);
        text
    }

    /// Register `Vx`. Only the low four bits of `x` name a register.
    pub fn register(&self, x: u8) -> (value: u8)
        ensures
            value == self@.v[x as int % 16],
    {
        self.reg(x % 16)
    }

    /// The byte of memory at `addr`, taken modulo 4096.
    pub fn memory_at(&self, addr: u16) -> (byte: u8)
        ensures
            byte == self@.memory[address(addr as int)],
    {
        proof {
            use_type_invariant(self);
        }
        memory_read(&self.memory, addr as usize % 4096)
    }

    /// The index register `I`.
    pub fn index(&self) -> (value: u16)
        ensures
            value == self@.i,
    {
        self.i
    }

    /// The program counter.
    pub fn program_counter(&self) -> (value: u16)
        ensures
            value == self@.pc,
    {
        self.pc
    }

    /// The delay timer.
    pub fn delay_timer(&self) -> (value: u8)
        ensures
            value == self@.delay_timer,
    {
        self.delay_timer
    }

    /// The sound timer.
    pub fn sound_timer(&self) -> (value: u8)
        ensures
            value == self@.sound_timer,
    {
        self.sound_timer
    }

    /// The stack pointer: the slot that the next call fills, below 16.
    pub fn stack_pointer(&self) -> (value: u8)
        ensures
            value == self@.sp,
            value < 16,
    {
        proof {
            use_type_invariant(self);
        }
        self.sp
    }

    /// The return address in slot `slot` of the call stack. Only the low four bits of
    /// `slot` name a slot.
    pub fn stack_at(&self, slot: u8) -> (addr: u16)
        ensures
            addr == self@.stack[slot as int % 16],
    {
        proof {
            use_type_invariant(self);
        }
        stack_read(&self.stack, (slot % 16) as usize)
    }

    /// Whether key `index` is down. Only the low four bits of `index` name a key.
    pub fn key(&self, index: u8) -> (down: bool)
        ensures
            down == self@.key_down(index),
    {
        self.key_down(index)
    }
}

impl Chip8 {
    /// Register `Vx`.
    fn reg(&self, x: u8) -> (value: u8)
        requires
            x < 16,
        ensures
            value == self@.reg(x),
    {
        proof {
            use_type_invariant(self);
        }
        bank_read(&self.v, x as usize)
    }

    /// Sets register `Vx`.
    fn set_reg(&mut self, x: u8, value: u8)
        requires
            x < 16,
        ensures
            final(self)@ == old(self)@.set_reg(x, value),
    {
        proof {
            use_type_invariant(&*self);
        }
        bank_write(&mut self.v, x as usize, value);
    }

    /// Sets `VF` to 1 or 0.
    fn set_flag(&mut self, flag: bool)
        ensures
            final(self)@ == old(self)@.set_flag(flag),
    {
        self.set_reg(
            0xF,
            if flag {
                1
            } else {
                0
            },
        );
    }

    /// Moves the program counter on to the next instruction.
    fn advance(&mut self)
        ensures
            final(self)@ == old(self)@.advance(2),
    {
        proof {
            use_type_invariant(&*self);
        }
        self.pc = self.pc.wrapping_add(2);
    }

    /// Moves the program counter past the next instruction if `skip` holds, else on to it.
    fn skip_if(&mut self, skip: bool)
        ensures
            final(self)@ == old(self)@.skip_if(skip),
    {
        proof {
            use_type_invariant(&*self);
        }
        self.pc = self.pc.wrapping_add(
            if skip {
                4
            } else {
                2
            },
        );
    }

    /// Writes one byte at `offset` past the index register.
    fn poke(&mut self, offset: u8, value: u8)
        ensures
            final(self)@ == old(self)@.poke(offset as int, value),
    {
        proof {
            use_type_invariant(&*self);
        }
        let at: usize = (self.i as usize + offset as usize) % 4096;
        memory_write(&mut self.memory, at, value);
    }

    /// Whether the key that `value` names is down.
    fn key_down(&self, value: u8) -> (down: bool)
        ensures
            down == self@.key_down(value),
    {
        proof {
            use_type_invariant(self);
        }
        bank_read(&self.key, (value % 16) as usize) != 0
    }

    /// The highest-numbered key that is down.
    fn pressed_key(&self) -> (key: Option<u8>)
        ensures
            key == highest_key_down(self@.keys, 16),
    {
        proof {
            use_type_invariant(self);
        }
        let mut found: Option<u8> = None;
        let mut k: u8 = 0;
        while k < 16
            invariant
                k <= 16,
                self@.keys.len() == 16,
                found == highest_key_down(self@.keys, k as int),
            decreases 16 - k,
        {
            if bank_read(&self.key, k as usize) != 0 {
                found = Some(k);
            }
            k += 1;
        }
        found
    }

    /// The word at the program counter.
    fn fetch(&self) -> (opcode: u16)
        ensures
            opcode == self@.opcode(),
    {
        proof {
            use_type_invariant(self);
        }
        let high = memory_read(&self.memory, self.pc as usize % 4096);
        let low = memory_read(&self.memory, (self.pc as usize + 1) % 4096);
        let word: u16 = ((high as u16) << 8) | (low as u16);
        assert(word == high * 256 + low) by (bit_vector)
            requires
                word == ((high as u16) << 8) | (low as u16),
        ;
        word
    }

    /// Draws the sprite of `rows` rows at the index register with its corner at `(x, y)`
    /// and tells whether a set pixel was unset.
    fn blit(&mut self, x: u8, y: u8, rows: u8) -> (hit: bool)
        requires
            rows < 16,
        ensures
            final(self)@ == (State {
                gfx: draw(old(self)@.gfx, old(self)@.sprite(rows), x, y),
                ..old(self)@
            }),
            hit == collides(old(self)@.gfx, old(self)@.sprite(rows), x, y),
    {
        proof {
            use_type_invariant(&*self);
        }
        let ghost before = self@.gfx;
        let ghost sprite = self@.sprite(rows);
        let mut hit = false;
        let mut row: u8 = 0;
        proof {
            lemma_draw_start(before, sprite, x, y);
        }
        while row < rows
            invariant
                row <= rows < 16,
                old(self)@.valid(),
                before == old(self)@.gfx,
                sprite == old(self)@.sprite(rows),
                self@ == (State { gfx: draw_until(before, sprite, x, y, row as int, 0), ..old(self)@ }),
                hit == collides_until(before, sprite, x, y, row as int, 0),
            decreases rows - row,
        {
            let bits = memory_read(&self.memory, (self.i as usize + row as usize) % 4096);
            let mut col: u8 = 0;
            while col < 8
                invariant
                    col <= 8,
                    row < rows < 16,
                    old(self)@.valid(),
                    before == old(self)@.gfx,
                    sprite == old(self)@.sprite(rows),
                    bits == sprite[row as int],
                    self@ == (State {
                        gfx: draw_until(before, sprite, x, y, row as int, col as int),
                        ..old(self)@
                    }),
                    hit == collides_until(before, sprite, x, y, row as int, col as int),
                decreases 8 - col,
            {
                proof {
                    lemma_target_cell(x, y, row as int, col as int);
                    lemma_draw_bit(before, sprite, x, y, row as int, col as int);
                }
                if bits & (0x80u8 >> col) != 0 {
                    let target: usize = ((y as usize + row as usize) % 32) * 64 + (x as usize
                        + col as usize) % 64;
                    assert(target == target_cell(x, y, row as int, col as int));
                    let pixel = screen_read(&self.gfx, target);
                    if pixel == 1 {
                        hit = true;
                    }
                    assert(pixel ^ 1 == if pixel == 0 {
                        1u8
                    } else {
                        0u8
                    }) by (bit_vector)
                        requires
                            pixel <= 1,
                    ;
                    screen_write(&mut self.gfx, target, pixel ^ 1);
                }
                col += 1;
            }
            proof {
                lemma_draw_line_end(before, sprite, x, y, row as int);
            }
            row += 1;
        }
        proof {
            lemma_draw_done(before, sprite, x, y);
        }
        hit
    }

    /// Stores `V0..=Vx` in memory from the index register on.
    fn store_registers(&mut self, x: u8)
        requires
            x < 16,
        ensures
            final(self)@ == (State {
                memory: store_registers(old(self)@.memory, old(self)@.v, old(self)@.i, x),
                ..old(self)@
            }),
    {
        proof {
            use_type_invariant(&*self);
        }
        let mut k: u8 = 0;
        while k <= x
            invariant
                k <= x + 1,
                x < 16,
                old(self)@.valid(),
                self@ == (State {
                    memory: Seq::new(
                        4096,
                        |a: int|
                            if address(a - old(self)@.i) < k {
                                old(self)@.v[address(a - old(self)@.i)]
                            } else {
                                old(self)@.memory[a]
                            },
                    ),
                    ..old(self)@
                }),
            decreases x + 1 - k,
        {
            let value = bank_read(&self.v, k as usize);
            let at: usize = (self.i as usize + k as usize) % 4096;
            assert(address(at - self.i) == k);
            memory_write(&mut self.memory, at, value);
            k += 1;
        }
    }

    /// Loads `V0..=Vx` from memory from the index register on.
    fn load_registers(&mut self, x: u8)
        requires
            x < 16,
        ensures
            final(self)@ == (State {
                v: load_registers(old(self)@.memory, old(self)@.v, old(self)@.i, x),
                ..old(self)@
            }),
    {
        proof {
            use_type_invariant(&*self);
        }
        let mut k: u8 = 0;
        while k <= x
            invariant
                k <= x + 1,
                x < 16,
                old(self)@.valid(),
                self@ == (State {
                    v: Seq::new(
                        16,
                        |r: int|
                            if r < k {
                                old(self)@.memory[address(old(self)@.i + r)]
                            } else {
                                old(self)@.v[r]
                            },
                    ),
                    ..old(self)@
                }),
            decreases x + 1 - k,
        {
            let at: usize = (self.i as usize + k as usize) % 4096;
            let value = memory_read(&self.memory, at);
            bank_write(&mut self.v, k as usize, value);
            k += 1;
        }
    }

    /// Lets both timers decay by one tick.
    fn tick(&mut self)
        ensures
            final(self)@ == old(self)@.tick(),
    {
        proof {
            use_type_invariant(&*self);
        }
        if self.delay_timer > 0 {
            self.delay_timer = self.delay_timer - 1;
        }
        if self.sound_timer > 0 {
            self.sound_timer = self.sound_timer - 1;
        }
    }
}

impl Chip8 {
    /// `00EE`, `1NNN`, `2NNN` and `BNNN`: the instructions that set the program counter.
    fn execute_flow(&mut self, ins: Instruction)
        requires
            ins.well_formed(),
            ins is Return || ins is Jump || ins is Call || ins is JumpOffset,
        ensures
            forall|random_byte: u8| final(self)@ == #[trigger] old(self)@.execute(ins, random_byte),
    {
        proof {
            use_type_invariant(&*self);
        }
        match ins {
            Instruction::Return => {
                let sp = (self.sp + 15) % 16;
                let addr = stack_read(&self.stack, sp as usize);
                self.sp = sp;
                self.pc = addr.wrapping_add(2);
            },
            Instruction::Jump { addr } => {
                self.pc = addr;
            },
            Instruction::Call { addr } => {
                stack_write(&mut self.stack, self.sp as usize, self.pc);
                self.sp = (self.sp + 1) % 16;
                self.pc = addr;
            },
            Instruction::JumpOffset { addr } => {
                self.pc = addr + self.reg(0) as u16;
            },
            _ => {},
        }
    }

    /// `00E0`, `ANNN` and the words that select nothing.
    fn execute_plain(&mut self, ins: Instruction)
        requires
            ins.well_formed(),
            ins is ClearScreen || ins is LoadIndex || ins is Unknown,
        ensures
            forall|random_byte: u8| final(self)@ == #[trigger] old(self)@.execute(ins, random_byte),
    {
        proof {
            use_type_invariant(&*self);
        }
        match ins {
            Instruction::ClearScreen => {
                self.gfx = screen_filled(0, SCREEN_CELLS);
                self.draw_flag = true;
            },
            Instruction::LoadIndex { addr } => {
                self.i = addr;
            },
            _ => {},
        }
        self.advance();
    }

    /// The instructions that skip on a condition.
    fn execute_skip(&mut self, ins: Instruction)
        requires
            ins.well_formed(),
            ins is SkipIfEqual || ins is SkipIfNotEqual || ins is SkipIfRegistersEqual
                || ins is SkipIfRegistersDiffer || ins is SkipIfKeyDown || ins is SkipIfKeyUp,
        ensures
            forall|random_byte: u8| final(self)@ == #[trigger] old(self)@.execute(ins, random_byte),
    {
        let skip = match ins {
            Instruction::SkipIfEqual { x, nn } => self.reg(x) == nn,
            Instruction::SkipIfNotEqual { x, nn } => self.reg(x) != nn,
            Instruction::SkipIfRegistersEqual { x, y } => self.reg(x) == self.reg(y),
            Instruction::SkipIfRegistersDiffer { x, y } => self.reg(x) != self.reg(y),
            Instruction::SkipIfKeyDown { x } => self.key_down(self.reg(x)),
            Instruction::SkipIfKeyUp { x } => !self.key_down(self.reg(x)),
            _ => false,
        };
        self.skip_if(skip);
    }

    /// `6XNN`, `7XNN`, `8XY0`, `CXNN` and `FX07`: one register written, no flag.
    fn execute_load(&mut self, ins: Instruction, random_byte: u8)
        requires
            ins.well_formed(),
            ins is Load || ins is AddByte || ins is Assign || ins is Random || ins is ReadDelay,
        ensures
            final(self)@ == old(self)@.execute(ins, random_byte),
    {
        match ins {
            Instruction::Load { x, nn } => {
                self.set_reg(x, nn);
            },
            Instruction::AddByte { x, nn } => {
                let vx = self.reg(x);
                let sum = vx.wrapping_add(nn);
                assert(sum == wrap8(vx + nn));
                self.set_reg(x, sum);
            },
            Instruction::Assign { x, y } => {
                let value = self.reg(y);
                self.set_reg(x, value);
            },
            Instruction::Random { x, nn } => {
                self.set_reg(x, random_byte & nn);
            },
            Instruction::ReadDelay { x } => {
                proof {
                    use_type_invariant(&*self);
                }
                self.set_reg(x, self.delay_timer);
            },
            _ => {},
        }
        self.advance();
    }

    /// `8XY1`, `8XY2` and `8XY3`: the bitwise operations.
    fn execute_bitwise(&mut self, ins: Instruction)
        requires
            ins.well_formed(),
            ins is Or || ins is And || ins is Xor,
        ensures
            forall|random_byte: u8| final(self)@ == #[trigger] old(self)@.execute(ins, random_byte),
    {
        match ins {
            Instruction::Or { x, y } => {
                let value = self.reg(x) | self.reg(y);
                self.set_reg(x, value);
            },
            Instruction::And { x, y } => {
                let value = self.reg(x) & self.reg(y);
                self.set_reg(x, value);
            },
            Instruction::Xor { x, y } => {
                let value = self.reg(x) ^ self.reg(y);
                self.set_reg(x, value);
            },
            _ => {},
        }
        self.advance();
    }

    /// `8XY4`, `8XY5` and `8XY7`: a sum or a difference, then the carry or borrow flag.
    fn execute_sum(&mut self, ins: Instruction)
        requires
            ins.well_formed(),
            ins is Add || ins is Subtract || ins is SubtractFrom,
        ensures
            forall|random_byte: u8| final(self)@ == #[trigger] old(self)@.execute(ins, random_byte),
    {
        match ins {
            Instruction::Add { x, y } => {
                let vx = self.reg(x);
                let vy = self.reg(y);
                let sum = vx.wrapping_add(vy);
                assert(sum == wrap8(vx + vy));
                self.set_reg(x, sum);
                self.set_flag(vy > 0xFF - vx);
            },
            Instruction::Subtract { x, y } => {
                let vx = self.reg(x);
                let vy = self.reg(y);
                let difference = vx.wrapping_sub(vy);
                assert(difference == wrap8(vx - vy));
                self.set_reg(x, difference);
                self.set_flag(!(vy > vx));
            },
            Instruction::SubtractFrom { x, y } => {
                let vx = self.reg(x);
                let vy = self.reg(y);
                let difference = vy.wrapping_sub(vx);
                assert(difference == wrap8(vy - vx));
                self.set_reg(x, difference);
                self.set_flag(!(vx > vy));
            },
            _ => {},
        }
        self.advance();
    }

    /// `8XY6` and `8XYE`: the flag takes the bit that falls out, then the register shifts.
    fn execute_shift(&mut self, ins: Instruction)
        requires
            ins.well_formed(),
            ins is ShiftRight || ins is ShiftLeft,
        ensures
            forall|random_byte: u8| final(self)@ == #[trigger] old(self)@.execute(ins, random_byte),
    {
        match ins {
            Instruction::ShiftRight { x } => {
                let before = self.reg(x);
                let low = before & 1;
                assert(low == 1 <==> before % 2 == 1) by (bit_vector)
                    requires
                        low == before & 1,
                ;
                self.set_flag(low == 1);
                let value = self.reg(x);
                assert(value >> 1 == value / 2) by (bit_vector);
                self.set_reg(x, value >> 1);
            },
            Instruction::ShiftLeft { x } => {
                let before = self.reg(x);
                let top = before >> 7;
                assert(top == 1 <==> before >= 128) by (bit_vector)
                    requires
                        top == before >> 7,
                ;
                self.set_flag(top == 1);
                let value = self.reg(x);
                assert(value << 1 == (value * 2) % 256) by (bit_vector);
                self.set_reg(x, value << 1);
            },
            _ => {},
        }
        self.advance();
    }

    /// `FX1E` and `FX29`: the index register from a register.
    fn execute_index(&mut self, ins: Instruction)
        requires
            ins.well_formed(),
            ins is AddIndex || ins is Glyph,
        ensures
            forall|random_byte: u8| final(self)@ == #[trigger] old(self)@.execute(ins, random_byte),
    {
        proof {
            use_type_invariant(&*self);
        }
        match ins {
            Instruction::AddIndex { x } => {
                let vx = self.reg(x);
                let leaves = self.i as u32 + vx as u32 > 0xFFF;
                self.i = self.i.wrapping_add(vx as u16);
                self.set_flag(leaves);
            },
            Instruction::Glyph { x } => {
                self.i = self.reg(x) as u16 * 5;
            },
            _ => {},
        }
        self.advance();
    }

    /// `FX0A`, `FX15` and `FX18`: the keypad awaited and the timers set.
    fn execute_device(&mut self, ins: Instruction)
        requires
            ins.well_formed(),
            ins is WaitKey || ins is SetDelay || ins is SetSound,
        ensures
            forall|random_byte: u8| final(self)@ == #[trigger] old(self)@.execute(ins, random_byte),
    {
        proof {
            use_type_invariant(&*self);
        }
        match ins {
            Instruction::WaitKey { x } => {
                match self.pressed_key() {
                    Some(key) => {
                        self.set_reg(x, key);
                        self.advance();
                    },
                    None => {},
                }
            },
            Instruction::SetDelay { x } => {
                self.delay_timer = self.reg(x);
                self.advance();
            },
            Instruction::SetSound { x } => {
                self.sound_timer = self.reg(x);
                self.advance();
            },
            _ => {},
        }
    }

    /// `DXYN`: the sprite drawn, the repaint asked for and the collision flagged.
    fn execute_draw(&mut self, x: u8, y: u8, rows: u8)
        requires
            x < 16,
            y < 16,
            rows < 16,
        ensures
            forall|random_byte: u8|
                final(self)@ == #[trigger] old(self)@.execute(Instruction::Draw { x, y, rows }, random_byte),
    {
        proof {
            use_type_invariant(&*self);
        }
        let vx = self.reg(x);
        let vy = self.reg(y);
        let hit = self.blit(vx, vy, rows);
        self.draw_flag = true;
        self.set_flag(hit);
        self.advance();
    }

    /// `FX33`, `FX55` and `FX65`: registers to memory and back.
    fn execute_memory(&mut self, ins: Instruction)
        requires
            ins.well_formed(),
            ins is StoreDecimal || ins is StoreRegisters || ins is LoadRegisters,
        ensures
            forall|random_byte: u8| final(self)@ == #[trigger] old(self)@.execute(ins, random_byte),
    {
        proof {
            use_type_invariant(&*self);
        }
        match ins {
            Instruction::StoreDecimal { x } => {
                let value = self.reg(x);
                self.poke(0, value / 100);
                self.poke(1, (value / 10) % 10);
                self.poke(2, value % 10);
            },
            Instruction::StoreRegisters { x } => {
                self.store_registers(x);
                self.i = self.i.wrapping_add(x as u16 + 1);
            },
            Instruction::LoadRegisters { x } => {
                self.load_registers(x);
                self.i = self.i.wrapping_add(x as u16 + 1);
            },
            _ => {},
        }
        self.advance();
    }

    /// Carries out one instruction on everything but the timers' decay.
    fn execute(&mut self, ins: Instruction, random_byte: u8)
        requires
            ins.well_formed(),
        ensures
            final(self)@ == old(self)@.execute(ins, random_byte),
    {
        match ins {
            Instruction::Return
            | Instruction::Jump { .. }
            | Instruction::Call { .. }
            | Instruction::JumpOffset { .. } => self.execute_flow(ins),
            Instruction::ClearScreen
            | Instruction::LoadIndex { .. }
            | Instruction::Unknown { .. } => self.execute_plain(ins),
            Instruction::SkipIfEqual { .. }
            | Instruction::SkipIfNotEqual { .. }
            | Instruction::SkipIfRegistersEqual { .. }
            | Instruction::SkipIfRegistersDiffer { .. }
            | Instruction::SkipIfKeyDown { .. }
            | Instruction::SkipIfKeyUp { .. } => self.execute_skip(ins),
            Instruction::Load { .. }
            | Instruction::AddByte { .. }
            | Instruction::Assign { .. }
            | Instruction::Random { .. }
            | Instruction::ReadDelay { .. } => self.execute_load(ins, random_byte),
            Instruction::Or { .. } | Instruction::And { .. } | Instruction::Xor { .. } => {
                self.execute_bitwise(ins)
            },
            Instruction::Add { .. }
            | Instruction::Subtract { .. }
            | Instruction::SubtractFrom { .. } => self.execute_sum(ins),
            Instruction::ShiftRight { .. } | Instruction::ShiftLeft { .. } => self.execute_shift(ins),
            Instruction::AddIndex { .. } | Instruction::Glyph { .. } => self.execute_index(ins),
            Instruction::WaitKey { .. }
            | Instruction::SetDelay { .. }
            | Instruction::SetSound { .. } => self.execute_device(ins),
            Instruction::Draw { x, y, rows } => self.execute_draw(x, y, rows),
            Instruction::StoreDecimal { .. }
            | Instruction::StoreRegisters { .. }
            | Instruction::LoadRegisters { .. } => self.execute_memory(ins),
        }
    }

    /// Carries out the instruction that was fetched, lets the timers decay and reports.
    fn run(&mut self, ins: Instruction, random_byte: u8) -> (report: Report)
        requires
            ins == old(self)@.instruction(),
            ins.well_formed(),
        ensures
            final(self)@ == old(self)@.step(random_byte),
            report == old(self)@.report(),
            final(self)@.valid(),
    {
        self.execute(ins, random_byte);
        proof {
            use_type_invariant(&*self);
        }
        let beep = self.sound_timer == 1;
        self.tick();
        proof {
            use_type_invariant(&*self);
        }
        Report {
            beep,
            unknown_opcode: match ins {
                Instruction::Unknown { opcode } => Some(opcode),
                _ => None,
            },
        }
    }

    /// One cycle with the random byte given: the instruction at the program counter,
    /// then one tick of both timers. Only `CXNN` looks at `random_byte`.
    pub fn emulate_cycle_with(&mut self, random_byte: u8) -> (report: Report)
        ensures
            final(self)@ == old(self)@.step(random_byte),
            report == old(self)@.report(),
            final(self)@.valid(),
    {
        let ins = decode(self.fetch());
        self.run(ins, random_byte)
    }

    /// One cycle: the instruction at the program counter, then one tick of both timers.
    ///
    /// `CXNN` draws its byte from `random`, so its result is one of the 256 that
    /// `emulate_cycle_with` can give. Every other instruction is carried out as
    /// `emulate_cycle_with` does for any byte.
    pub fn emulate_cycle(&mut self) -> (report: Report)
        ensures
            exists|random_byte: u8| final(self)@ == #[trigger] old(self)@.step(random_byte),
            !(old(self)@.instruction() is Random) ==> final(self)@ == old(self)@.step(0),
            report == old(self)@.report(),
            final(self)@.valid(),
    {
        let ins = decode(self.fetch());
        let random_byte: u8 = match ins {
            Instruction::Random { x, nn } => random(256) as u8,
            _ => 0,
        };
        self.run(ins, random_byte)
    }
}

} // verus!
