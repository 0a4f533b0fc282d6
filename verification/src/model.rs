//! The machine as a mathematical state and one step of it as a function on states.
//!
//! Nothing in the architecture can fault, so every index wraps: a memory address is taken
//! modulo 4096, the stack pointer and a key number modulo 16, a screen coordinate modulo
//! the screen's width or height. The program counter and the index register are 16-bit
//! and their arithmetic wraps at 65536.
//!
//! Where an instruction writes several things, the writes happen in the order in which
//! the instruction's description lists them, each on the result of the one before.

use crate::display::{blank_screen, collides, draw, is_framebuffer};
use crate::font::FONT_SET;
use crate::instruction::{decode_spec, Instruction};
use vstd::prelude::*;

verus! {

/// Bytes of addressable memory.
pub const MEMORY_SIZE: usize = 4096;

/// Address at which a program image starts, and the program counter of a new machine.
pub const PROGRAM_START: u16 = 0x200;

/// The longest program image that fits: the memory from `PROGRAM_START` to its end.
pub const MAX_PROGRAM_SIZE: usize = 3584;

/// What one cycle asks of the host, besides repainting.
#[derive(Clone, Copy, Debug, PartialEq, Eq)]
pub struct Report {
    /// The sound timer stood at exactly 1 when it was ticked: sound one tone.
    pub beep: bool,
    /// The fetched word, if it selects no operation. The cycle went on past it.
    pub unknown_opcode: Option<u16>,
}

/// The whole state of a machine.
#[verifier::ext_equal]
pub struct State {
    /// Memory, 4096 bytes.
    pub memory: Seq<u8>,
    /// Registers `V0` to `VF`.
    pub v: Seq<u8>,
    /// Index register `I`.
    pub i: u16,
    /// Program counter.
    pub pc: u16,
    /// Framebuffer, 2048 cells of 0 or 1.
    pub gfx: Seq<u8>,
    /// Delay timer.
    pub delay_timer: u8,
    /// Sound timer.
    pub sound_timer: u8,
    /// The sixteen slots of the call stack.
    pub stack: Seq<u16>,
    /// Stack pointer: the slot that the next call fills.
    pub sp: u8,
    /// Keypad: whether each of the sixteen keys is down.
    pub keys: Seq<bool>,
    /// Whether the framebuffer changed since the host last painted it.
    pub redraw: bool,
}

/// `n` reduced to a byte.
pub open spec fn wrap8(n: int) -> u8 {
    (n % 256) as u8
}

/// `n` reduced to a 16-bit word.
pub open spec fn wrap16(n: int) -> u16 {
    (n % 65536) as u16
}

/// `n` reduced to a memory address.
pub open spec fn address(n: int) -> int {
    n % 4096
}

/// The highest-numbered key below `limit` that is down, if there is one.
pub open spec fn highest_key_down(keys: Seq<bool>, limit: int) -> Option<u8>
    decreases limit,
{
    if limit <= 0 {
        None
    } else if keys[limit - 1] {
        Some((limit - 1) as u8)
    } else {
        highest_key_down(keys, limit - 1)
    }
}

/// Memory after registers `V0..=Vx` are stored from address `i` on.
pub open spec fn store_registers(memory: Seq<u8>, v: Seq<u8>, i: u16, x: u8) -> Seq<u8> {
    Seq::new(
        memory.len(),
        |a: int|
            {
                let k = address(a - i);
                if k <= x {
                    v[k]
                } else {
                    memory[a]
                }
            },
    )
}

/// Registers after `V0..=Vx` are loaded from address `i` on.
pub open spec fn load_registers(memory: Seq<u8>, v: Seq<u8>, i: u16, x: u8) -> Seq<u8> {
    Seq::new(
        v.len(),
        |k: int|
            if k <= x {
                memory[address(i + k)]
            } else {
                v[k]
            },
    )
}

/// Memory with a program image placed at `PROGRAM_START`.
pub open spec fn with_image(memory: Seq<u8>, image: Seq<u8>) -> Seq<u8> {
    Seq::new(
        memory.len(),
        |a: int|
            if PROGRAM_START <= a < PROGRAM_START + image.len() {
                image[a - PROGRAM_START]
            } else {
                memory[a]
            },
    )
}

impl State {
    /// The sizes are right, the stack pointer names a slot and every pixel is 0 or 1.
    pub open spec fn valid(self) -> bool {
        &&& self.memory.len() == MEMORY_SIZE
        &&& self.v.len() == 16
        &&& is_framebuffer(self.gfx)
        &&& self.stack.len() == 16
        &&& self.sp < 16
        &&& self.keys.len() == 16
    }

    /// A new machine: the font at address 0, everything else zero, the program counter at
    /// `PROGRAM_START` and a repaint asked for.
    pub open spec fn initial() -> State {
        State {
            memory: Seq::new(
                MEMORY_SIZE as nat,
                |a: int|
                    if a < 80 {
                        FONT_SET@[a]
                    } else {
                        0u8
                    },
            ),
            v: Seq::new(16, |k: int| 0u8),
            i: 0,
            pc: PROGRAM_START,
            gfx: blank_screen(),
            delay_timer: 0,
            sound_timer: 0,
            stack: Seq::new(16, |k: int| 0u16),
            sp: 0,
            keys: Seq::new(16, |k: int| false),
            redraw: true,
        }
    }

    /// The same machine with a program image placed in memory.
    pub open spec fn load(self, image: Seq<u8>) -> State {
        State { memory: with_image(self.memory, image), ..self }
    }

    /// The same machine with key `index` set down or up.
    pub open spec fn with_key(self, index: u8, down: bool) -> State {
        State { keys: self.keys.update(index as int, down), ..self }
    }

    /// The word at the program counter: high byte first.
    pub open spec fn opcode(self) -> u16 {
        (self.memory[address(self.pc as int)] * 256 + self.memory[address(self.pc + 1)]) as u16
    }

    /// The instruction at the program counter.
    pub open spec fn instruction(self) -> Instruction {
        decode_spec(self.opcode())
    }

    /// Register `Vx`.
    pub open spec fn reg(self, x: u8) -> u8 {
        self.v[x as int]
    }

    /// Whether the key that `value` names is down. Only the low four bits name a key.
    pub open spec fn key_down(self, value: u8) -> bool {
        self.keys[value as int % 16]
    }

    /// The program counter moved on by `bytes`.
    pub open spec fn advance(self, bytes: int) -> State {
        State { pc: wrap16(self.pc + bytes), ..self }
    }

    /// The program counter moved past the next instruction if `skip` holds, else on to it.
    pub open spec fn skip_if(self, skip: bool) -> State {
        self.advance(
            if skip {
                4
            } else {
                2
            },
        )
    }

    /// Register `Vx` set to `value`.
    pub open spec fn set_reg(self, x: u8, value: u8) -> State {
        State { v: self.v.update(x as int, value), ..self }
    }

    /// Register `VF` set to 1 if `flag` holds, else to 0.
    pub open spec fn set_flag(self, flag: bool) -> State {
        self.set_reg(
            0xF,
            if flag {
                1
            } else {
                0
            },
        )
    }

    /// The index register set to `value`.
    pub open spec fn set_index(self, value: u16) -> State {
        State { i: value, ..self }
    }

    /// The byte at `offset` past the index register set to `value`.
    pub open spec fn poke(self, offset: int, value: u8) -> State {
        State { memory: self.memory.update(address(self.i + offset), value), ..self }
    }

    /// The `rows` bytes of the sprite that the index register points at.
    pub open spec fn sprite(self, rows: u8) -> Seq<u8> {
        Seq::new(rows as nat, |row: int| self.memory[address(self.i + row)])
    }

    /// The effect of `ins` on everything but the timers' decay. `random_byte` is used by
    /// `Random` alone.
    pub open spec fn execute(self, ins: Instruction, random_byte: u8) -> State {
        match ins {
            Instruction::ClearScreen => State { gfx: blank_screen(), redraw: true, ..self }.advance(2),
            Instruction::Return => {
                let sp = ((self.sp + 15) % 16) as u8;
                State { sp, pc: wrap16(self.stack[sp as int] + 2), ..self }
            },
            Instruction::Jump { addr } => State { pc: addr, ..self },
            Instruction::Call { addr } => State {
                stack: self.stack.update(self.sp as int, self.pc),
                sp: ((self.sp + 1) % 16) as u8,
                pc: addr,
                ..self
            },
            Instruction::SkipIfEqual { x, nn } => self.skip_if(self.reg(x) == nn),
            Instruction::SkipIfNotEqual { x, nn } => self.skip_if(self.reg(x) != nn),
            Instruction::SkipIfRegistersEqual { x, y } => self.skip_if(self.reg(x) == self.reg(y)),
            Instruction::Load { x, nn } => self.set_reg(x, nn).advance(2),
            Instruction::AddByte { x, nn } => self.set_reg(x, wrap8(self.reg(x) + nn)).advance(2),
            Instruction::Assign { x, y } => self.set_reg(x, self.reg(y)).advance(2),
            Instruction::Or { x, y } => self.set_reg(x, self.reg(x) | self.reg(y)).advance(2),
            Instruction::And { x, y } => self.set_reg(x, self.reg(x) & self.reg(y)).advance(2),
            Instruction::Xor { x, y } => self.set_reg(x, self.reg(x) ^ self.reg(y)).advance(2),
            Instruction::Add { x, y } => {
                let sum = self.reg(x) + self.reg(y);
                self.set_reg(x, wrap8(sum)).set_flag(sum > 255).advance(2)
            },
            Instruction::Subtract { x, y } => {
                let borrow = self.reg(y) > self.reg(x);
                self.set_reg(x, wrap8(self.reg(x) - self.reg(y))).set_flag(!borrow).advance(2)
            },
            Instruction::ShiftRight { x } => {
                let flagged = self.set_flag(self.reg(x) % 2 == 1);
                flagged.set_reg(x, flagged.reg(x) / 2).advance(2)
            },
            Instruction::SubtractFrom { x, y } => {
                let borrow = self.reg(x) > self.reg(y);
                self.set_reg(x, wrap8(self.reg(y) - self.reg(x))).set_flag(!borrow).advance(2)
            },
            Instruction::ShiftLeft { x } => {
                let flagged = self.set_flag(self.reg(x) >= 128);
                flagged.set_reg(x, wrap8(flagged.reg(x) * 2)).advance(2)
            },
            Instruction::SkipIfRegistersDiffer { x, y } => self.skip_if(self.reg(x) != self.reg(y)),
            Instruction::LoadIndex { addr } => self.set_index(addr).advance(2),
            Instruction::JumpOffset { addr } => State { pc: wrap16(addr + self.reg(0)), ..self },
            Instruction::Random { x, nn } => self.set_reg(x, random_byte & nn).advance(2),
            Instruction::Draw { x, y, rows } => {
                let sprite = self.sprite(rows);
                let hit = collides(self.gfx, sprite, self.reg(x), self.reg(y));
                State {
                    gfx: draw(self.gfx, sprite, self.reg(x), self.reg(y)),
                    redraw: true,
                    ..self
                }.set_flag(hit).advance(2)
            },
            Instruction::SkipIfKeyDown { x } => self.skip_if(self.key_down(self.reg(x))),
            Instruction::SkipIfKeyUp { x } => self.skip_if(!self.key_down(self.reg(x))),
            Instruction::ReadDelay { x } => self.set_reg(x, self.delay_timer).advance(2),
            Instruction::WaitKey { x } => match highest_key_down(self.keys, 16) {
                Some(key) => self.set_reg(x, key).advance(2),
                None => self,
            },
            Instruction::SetDelay { x } => State { delay_timer: self.reg(x), ..self }.advance(2),
            Instruction::SetSound { x } => State { sound_timer: self.reg(x), ..self }.advance(2),
            Instruction::AddIndex { x } => {
                let sum = self.i + self.reg(x);
                self.set_index(wrap16(sum)).set_flag(sum > 0xFFF).advance(2)
            },
            Instruction::Glyph { x } => self.set_index((self.reg(x) * 5) as u16).advance(2),
            Instruction::StoreDecimal { x } => {
                let value = self.reg(x);
                self.poke(0, value / 100).poke(1, (value / 10) % 10).poke(2, value % 10).advance(2)
            },
            Instruction::StoreRegisters { x } => State {
                memory: store_registers(self.memory, self.v, self.i, x),
                i: wrap16(self.i + x + 1),
                ..self
            }.advance(2),
            Instruction::LoadRegisters { x } => State {
                v: load_registers(self.memory, self.v, self.i, x),
                i: wrap16(self.i + x + 1),
                ..self
            }.advance(2),
            Instruction::Unknown { opcode } => self.advance(2),
        }
    }

    /// The sound timer as the instruction at the program counter leaves it, before it
    /// decays.
    pub open spec fn sound_before_tick(self) -> u8 {
        match self.instruction() {
            Instruction::SetSound { x } => self.reg(x),
            _ => self.sound_timer,
        }
    }

    /// Both timers one tick on: each goes down by one unless it is zero.
    pub open spec fn tick(self) -> State {
        State {
            delay_timer: if self.delay_timer > 0 {
                (self.delay_timer - 1) as u8
            } else {
                0
            },
            sound_timer: if self.sound_timer > 0 {
                (self.sound_timer - 1) as u8
            } else {
                0
            },
            ..self
        }
    }

    /// One cycle: the instruction at the program counter, then one tick of both timers.
    pub open spec fn step(self, random_byte: u8) -> State {
        self.execute(self.instruction(), random_byte).tick()
    }

    /// What the cycle that starts in this state reports to the host.
    pub open spec fn report(self) -> Report {
        Report {
            beep: self.sound_before_tick() == 1,
            unknown_opcode: match self.instruction() {
                Instruction::Unknown { opcode } => Some(opcode),
                _ => None,
            },
        }
    }
}

} // verus!
