//! What holds of every machine: statements about the step function that go beyond one
//! instruction, each proved from the model.

use crate::display::{
    blank_screen, collides, draw, is_framebuffer, lemma_target_cell, sprite_bit, sprite_col_at,
    sprite_hits, sprite_row_at, SCREEN_CELLS,
};
use crate::instruction::Instruction;
use crate::model::{address, wrap16, State, MAX_PROGRAM_SIZE, PROGRAM_START};
use vstd::prelude::*;

verus! {

/// Whether a skip instruction finds its condition met in state `s`.
pub open spec fn skip_taken(s: State, ins: Instruction) -> bool {
    match ins {
        Instruction::SkipIfEqual { x, nn } => s.reg(x) == nn,
        Instruction::SkipIfNotEqual { x, nn } => s.reg(x) != nn,
        Instruction::SkipIfRegistersEqual { x, y } => s.reg(x) == s.reg(y),
        Instruction::SkipIfRegistersDiffer { x, y } => s.reg(x) != s.reg(y),
        Instruction::SkipIfKeyDown { x } => s.key_down(s.reg(x)),
        Instruction::SkipIfKeyUp { x } => !s.key_down(s.reg(x)),
        _ => false,
    }
}

/// Whether `ins` is one of the six instructions that skip on a condition.
pub open spec fn is_skip(ins: Instruction) -> bool {
    ins is SkipIfEqual || ins is SkipIfNotEqual || ins is SkipIfRegistersEqual
        || ins is SkipIfRegistersDiffer || ins is SkipIfKeyDown || ins is SkipIfKeyUp
}

/// A step keeps a valid machine valid, whatever instruction it finds and whatever byte
/// the random source gives.
pub proof fn law_step_keeps_valid(s: State, random_byte: u8)
    requires
        s.valid(),
    ensures
        s.step(random_byte).valid(),
{
    let ins = s.instruction();
    let after = s.execute(ins, random_byte);
    assert(is_framebuffer(after.gfx)) by {
        if ins is ClearScreen {
            assert(after.gfx == blank_screen());
        } else if ins is Draw {
            assert(after.gfx.len() == SCREEN_CELLS);
        } else {
            assert(after.gfx == s.gfx);
        }
    }
    assert(after.valid());
}

/// Only `CXNN` depends on the random byte.
pub proof fn law_random_byte_matters_to_random_only(s: State, a: u8, b: u8)
    requires
        !(s.instruction() is Random),
    ensures
        s.step(a) == s.step(b),
{
}

/// A skip instruction changes the program counter and nothing else: by four when its
/// condition is met, by two when it is not, counted modulo 65536.
pub proof fn law_skip_advances_by_four_or_two(s: State, ins: Instruction, random_byte: u8)
    requires
        is_skip(ins),
    ensures
        skip_taken(s, ins) ==> s.execute(ins, random_byte) == (State { pc: wrap16(s.pc + 4), ..s }),
        !skip_taken(s, ins) ==> s.execute(ins, random_byte) == (State { pc: wrap16(s.pc + 2), ..s }),
        skip_taken(s, ins) && s.pc <= 0xFFFF - 4 ==> s.execute(ins, random_byte).pc == s.pc + 4,
        !skip_taken(s, ins) && s.pc <= 0xFFFF - 2 ==> s.execute(ins, random_byte).pc == s.pc + 2,
{
}

/// `00E0` unsets every pixel and asks for a repaint.
pub proof fn law_clear_screen_blanks(s: State, random_byte: u8)
    ensures
        s.execute(Instruction::ClearScreen, random_byte).gfx.len() == SCREEN_CELLS,
        forall|cell: int|
            0 <= cell < SCREEN_CELLS ==> #[trigger] s.execute(Instruction::ClearScreen, random_byte).gfx[cell]
                == 0,
        s.execute(Instruction::ClearScreen, random_byte).redraw,
{
}

/// A sprite whose rows are all zero changes no pixel and reports no collision.
pub proof fn law_blank_sprite_draws_nothing(gfx: Seq<u8>, sprite: Seq<u8>, x: u8, y: u8)
    requires
        forall|row: int| 0 <= row < sprite.len() ==> #[trigger] sprite[row] == 0,
    ensures
        draw(gfx, sprite, x, y) == gfx,
        !collides(gfx, sprite, x, y),
{
    assert forall|cell: int| !#[trigger] sprite_hits(sprite, x, y, cell) by {
        let row = sprite_row_at(y, cell);
        let col = sprite_col_at(x, cell);
        if row < sprite.len() && 0 <= col < 8 {
            assert(sprite[row] == 0);
            let shift = col as u8;
            assert(0u8 & (0x80u8 >> shift) == 0) by (bit_vector);
        }
    }
    assert(draw(gfx, sprite, x, y) =~= gfx);
}

/// `DXYN` on a sprite of zero rows leaves the framebuffer as it was and sets `VF` to 0.
pub proof fn law_draw_blank_sprite(s: State, x: u8, y: u8, rows: u8, random_byte: u8)
    requires
        s.valid(),
        forall|row: int| 0 <= row < rows ==> #[trigger] s.memory[address(s.i + row)] == 0,
    ensures
        s.execute(Instruction::Draw { x, y, rows }, random_byte).gfx == s.gfx,
        s.execute(Instruction::Draw { x, y, rows }, random_byte).reg(0xF) == 0,
        s.execute(Instruction::Draw { x, y, rows }, random_byte).redraw,
{
    let sprite = s.sprite(rows);
    assert forall|row: int| 0 <= row < sprite.len() implies #[trigger] sprite[row] == 0 by {
        assert(s.memory[address(s.i + row)] == 0);
    }
    law_blank_sprite_draws_nothing(s.gfx, sprite, s.reg(x), s.reg(y));
}

/// Drawing is its own inverse: the same sprite drawn twice at the same place gives back
/// the framebuffer, and the second drawing collides exactly when the sprite covers a pixel
/// that was unset before the first.
pub proof fn law_draw_twice_restores(gfx: Seq<u8>, sprite: Seq<u8>, x: u8, y: u8)
    requires
        is_framebuffer(gfx),
    ensures
        draw(draw(gfx, sprite, x, y), sprite, x, y) == gfx,
        collides(draw(gfx, sprite, x, y), sprite, x, y) <==> exists|cell: int|
            0 <= cell < SCREEN_CELLS && #[trigger] sprite_hits(sprite, x, y, cell) && gfx[cell] == 0,
{
    let once = draw(gfx, sprite, x, y);
    assert(draw(once, sprite, x, y) =~= gfx);
    if collides(once, sprite, x, y) {
        let cell = choose|cell: int|
            0 <= cell < once.len() && #[trigger] sprite_hits(sprite, x, y, cell) && once[cell] == 1;
        assert(sprite_hits(sprite, x, y, cell) && gfx[cell] == 0);
    }
    if exists|cell: int|
        0 <= cell < SCREEN_CELLS && #[trigger] sprite_hits(sprite, x, y, cell) && gfx[cell] == 0 {
        let cell = choose|cell: int|
            0 <= cell < SCREEN_CELLS && #[trigger] sprite_hits(sprite, x, y, cell) && gfx[cell] == 0;
        assert(sprite_hits(sprite, x, y, cell) && once[cell] == 1);
    }
}

/// On a blank screen, a sprite with a set bit is drawn without a collision, and drawing
/// it again collides.
pub proof fn law_redraw_on_blank_screen_collides(sprite: Seq<u8>, x: u8, y: u8, row: int, col: int)
    requires
        0 <= row < sprite.len() <= 32,
        sprite_bit(sprite[row], col),
    ensures
        !collides(blank_screen(), sprite, x, y),
        collides(draw(blank_screen(), sprite, x, y), sprite, x, y),
{
    let gfx = blank_screen();
    law_draw_twice_restores(gfx, sprite, x, y);
    lemma_target_cell(x, y, row, col);
    let cell = crate::display::target_cell(x, y, row, col);
    assert(sprite_hits(sprite, x, y, cell) && gfx[cell] == 0);
}

/// Two `DXYN` in a row with the same operands undo each other on the framebuffer, as long
/// as neither coordinate is held in `VF`, which the first of them overwrites.
pub proof fn law_draw_instruction_twice(s: State, x: u8, y: u8, rows: u8, a: u8, b: u8)
    requires
        s.valid(),
        x < 0xF,
        y < 0xF,
    ensures
        s.execute(Instruction::Draw { x, y, rows }, a).execute(Instruction::Draw { x, y, rows }, b).gfx
            == s.gfx,
        s.execute(Instruction::Draw { x, y, rows }, a).execute(Instruction::Draw { x, y, rows }, b).reg(0xF)
            == 1 <==> exists|cell: int|
            0 <= cell < SCREEN_CELLS && #[trigger] sprite_hits(s.sprite(rows), s.reg(x), s.reg(y), cell)
                && s.gfx[cell] == 0,
{
    let ins = Instruction::Draw { x, y, rows };
    let once = s.execute(ins, a);
    assert(once.sprite(rows) =~= s.sprite(rows));
    assert(once.reg(x) == s.reg(x) && once.reg(y) == s.reg(y));
    law_draw_twice_restores(s.gfx, s.sprite(rows), s.reg(x), s.reg(y));
}

/// `FX55` moves the index register on by `x + 1`, once, and what it stored is what `FX65`
/// reads back from the same address, whatever the registers hold by then.
pub proof fn law_store_then_load_round_trip(s: State, later_registers: Seq<u8>, x: u8, a: u8, b: u8)
    requires
        s.valid(),
        x < 16,
        later_registers.len() == 16,
    ensures
        s.execute(Instruction::StoreRegisters { x }, a).i == wrap16(s.i + x + 1),
        s.execute(Instruction::StoreRegisters { x }, a).v == s.v,
        ({
            let stored = s.execute(Instruction::StoreRegisters { x }, a);
            let rewound = State { i: s.i, v: later_registers, ..stored };
            let loaded = rewound.execute(Instruction::LoadRegisters { x }, b);
            &&& loaded.i == wrap16(s.i + x + 1)
            &&& forall|k: int| 0 <= k <= x ==> #[trigger] loaded.v[k] == s.v[k]
            &&& forall|k: int| x < k < 16 ==> #[trigger] loaded.v[k] == later_registers[k]
        }),
{
    let stored = s.execute(Instruction::StoreRegisters { x }, a);
    let rewound = State { i: s.i, v: later_registers, ..stored };
    let loaded = rewound.execute(Instruction::LoadRegisters { x }, b);
    assert forall|k: int| 0 <= k <= x implies #[trigger] loaded.v[k] == s.v[k] by {
        let at = address(s.i + k);
        assert(address(at - s.i) == k);
        assert(stored.memory[at] == s.v[k]);
    }
}

/// `FX33` writes three decimal digits that spell the register's value.
pub proof fn law_decimal_digits_spell_value(s: State, x: u8, random_byte: u8)
    requires
        s.valid(),
        x < 16,
    ensures
        ({
            let after = s.execute(Instruction::StoreDecimal { x }, random_byte);
            let hundreds = after.memory[address(s.i + 0)];
            let tens = after.memory[address(s.i + 1)];
            let ones = after.memory[address(s.i + 2)];
            &&& hundreds < 10 && tens < 10 && ones < 10
            &&& hundreds * 100 + tens * 10 + ones == s.reg(x)
        }),
{
}

/// A loaded image is found byte for byte from the program start on, and no other byte of
/// memory changes.
pub proof fn law_loaded_image_is_found(s: State, image: Seq<u8>)
    requires
        s.valid(),
        image.len() <= MAX_PROGRAM_SIZE,
    ensures
        s.load(image).valid(),
        s.load(image).memory.subrange(PROGRAM_START as int, PROGRAM_START + image.len()) == image,
        forall|a: int|
            0 <= a < PROGRAM_START || PROGRAM_START + image.len() <= a < 4096 ==> #[trigger] s.load(
                image,
            ).memory[a] == s.memory[a],
{
    assert(s.load(image).memory.subrange(PROGRAM_START as int, PROGRAM_START + image.len()) =~= image);
}

/// The tone sounds exactly when the sound timer stands at 1 as it is ticked. With an
/// instruction that does not set the timer: from 1 the step beeps and leaves 0, from 0 it
/// stays silent and leaves 0, and from anything else it stays silent and counts down.
pub proof fn law_sound_timer_beeps_at_one(s: State, random_byte: u8)
    requires
        !(s.instruction() is SetSound),
    ensures
        s.report().beep <==> s.sound_timer == 1,
        s.sound_timer <= 1 ==> s.step(random_byte).sound_timer == 0,
        s.sound_timer > 1 ==> s.step(random_byte).sound_timer == s.sound_timer - 1,
{
}

/// Both timers go down by one per step and stop at zero, unless the instruction sets
/// them.
pub proof fn law_delay_timer_decays(s: State, random_byte: u8)
    requires
        !(s.instruction() is SetDelay),
    ensures
        s.delay_timer == 0 ==> s.step(random_byte).delay_timer == 0,
        s.delay_timer > 0 ==> s.step(random_byte).delay_timer == s.delay_timer - 1,
{
}

/// `FX0A` with no key down changes nothing but the timers.
pub proof fn law_wait_key_holds_still(s: State, x: u8, random_byte: u8)
    requires
        s.keys.len() == 16,
        forall|k: int| 0 <= k < 16 ==> !#[trigger] s.keys[k],
    ensures
        s.execute(Instruction::WaitKey { x }, random_byte) == s,
{
    reveal_with_fuel(crate::model::highest_key_down, 17);
}

} // verus!
