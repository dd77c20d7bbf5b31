//! Laws of the machine: properties that relate several operations, or hold
//! of every state, each proved from the model.

use vstd::prelude::*;
use crate::constants::{DISPLAY_HEIGHT, DISPLAY_WIDTH, PROGRAM_START, RAM_SIZE};
use crate::display::{blank, blit, collides, collides_at, sprite_covers};
use crate::error::{DecodeError, ExecError, FetchError};
use crate::instruction::{decode_spec, Instruction};
use crate::keypad::Keys;
use crate::machine::{flag_byte, word_of, Machine};
use crate::memory::lemma_font_install_is_idempotent;

verus! {

/// Fetch does not depend on what it reads: whatever bytes `hi` and `lo`
/// stand at the program counter, the word fetched is `(hi << 8) | lo` and
/// the program counter has advanced by exactly 2.
pub proof fn law_fetch_is_big_endian(m: Machine, hi: u8, lo: u8)
    requires
        m.wf(),
        m.pc + 1 < RAM_SIZE,
        m.memory[m.pc as int] == hi,
        m.memory[m.pc + 1] == lo,
    ensures
        m.fetch() == Ok::<(u16, Machine), FetchError>(
            (((hi as u16) << 8) | (lo as u16), Machine { pc: (m.pc + 2) as u16, ..m }),
        ),
{
    assert(((hi as u16) << 8 | lo as u16) == hi * 256 + lo) by (bit_vector);
}

/// The two bytes of the instruction `jump to addr`.
pub open spec fn jump_program(addr: u16) -> Seq<u8> {
    seq![(0x10 + addr / 0x100) as u8, (addr % 0x100) as u8]
}

/// Loading a program that consists of `jump to addr` alone, for any `addr`
/// of twelve bits, then fetching and executing one instruction, leaves the
/// program counter at `addr`.
pub proof fn law_load_then_jump(m: Machine, addr: u16, keys: Keys, entropy: u16)
    requires
        m.wf(),
        addr < 0x1000,
    ensures
        m.load_program(jump_program(addr)) matches Ok(loaded) && loaded.fetch() matches Ok(
            (word, fetched),
        ) && fetched.decode_execute(word, keys, entropy) matches Ok(done) && done.pc == addr,
{
    let loaded = m.load_program(jump_program(addr)).unwrap();
    assert(loaded.memory[PROGRAM_START as int] == jump_program(addr)[0]);
    assert(loaded.memory[PROGRAM_START + 1] == jump_program(addr)[1]);
    let word = word_of(loaded.memory[PROGRAM_START as int], loaded.memory[PROGRAM_START + 1]);
    assert(word == 0x1000 + addr);
    assert(decode_spec(word) == Ok::<Instruction, DecodeError>(
        Instruction::Jump { addr },
    ));
}

/// A call followed by a return restores the state in which the call was
/// made: the program counter is back at the instruction after the call, and
/// the stack is as it was.
pub proof fn law_call_then_return(m: Machine, addr: u16, keys: Keys, entropy: u16)
    requires
        !m.stack_full(),
    ensures
        m.step(Instruction::Call { addr }, keys, entropy) matches Ok(called) && called.pc == addr
            && called.step(Instruction::Return, keys, entropy) == Ok::<
            Machine,
            ExecError,
        >(m),
{
    let called = m.subroutine_call(addr).unwrap();
    assert(called.stack.drop_last() =~= m.stack);
    assert(called.subroutine_return().unwrap() =~= m);
}

/// Add-with-carry sets VF to 1 if and only if the sum of the two registers
/// exceeds 255, and stores the sum modulo 256 in VX. Where VX is VF itself
/// the flag is what remains in it.
pub proof fn law_add_sets_carry(m: Machine, x: u8, y: u8)
    requires
        m.wf(),
        x < 16,
        y < 16,
    ensures
        m.add_with_carry(x, y).reg(0xF) == flag_byte(m.reg(x) + m.reg(y) > 255),
        x != 0xF ==> m.add_with_carry(x, y).reg(x) == (m.reg(x) + m.reg(y)) % 256,
{
}

/// Subtract-with-borrow sets VF to 1 if and only if VX is at least VY, and
/// stores the difference modulo 256 in VX. Where VX is VF itself the flag
/// is what remains in it.
pub proof fn law_subtract_sets_no_borrow(m: Machine, x: u8, y: u8)
    requires
        m.wf(),
        x < 16,
        y < 16,
    ensures
        m.subtract_with_borrow(x, y).reg(0xF) == flag_byte(m.reg(x) >= m.reg(y)),
        x != 0xF ==> m.subtract_with_borrow(x, y).reg(x) == (m.reg(x) - m.reg(y)) % 256,
{
}

/// XOR-ing a sprite onto the display twice at the same place restores the
/// display.
pub proof fn law_blit_twice_restores(pixels: Seq<bool>, sprite: Seq<u8>, x0: int, y0: int)
    ensures
        blit(blit(pixels, sprite, x0, y0), sprite, x0, y0) == pixels,
{
    assert(blit(blit(pixels, sprite, x0, y0), sprite, x0, y0) =~= pixels);
}

/// The second of two identical draws collides if and only if the sprite
/// covers a pixel that was off before the first.
pub proof fn law_second_draw_collides(pixels: Seq<bool>, sprite: Seq<u8>, x0: int, y0: int)
    ensures
        collides(blit(pixels, sprite, x0, y0), sprite, x0, y0) <==> exists|p: int|
            0 <= p < pixels.len() && !pixels[p] && #[trigger] sprite_covers(sprite, x0, y0, p),
{
    let once = blit(pixels, sprite, x0, y0);
    if collides(once, sprite, x0, y0) {
        let p = choose|p: int| collides_at(once, sprite, x0, y0, p);
        assert(0 <= p < pixels.len() && !pixels[p] && sprite_covers(sprite, x0, y0, p));
    }
    if exists|p: int|
        0 <= p < pixels.len() && !pixels[p] && #[trigger] sprite_covers(sprite, x0, y0, p) {
        let p = choose|p: int|
            0 <= p < pixels.len() && !pixels[p] && #[trigger] sprite_covers(sprite, x0, y0, p);
        assert(collides_at(once, sprite, x0, y0, p));
    }
}

/// Two identical draw instructions in a row, with operands other than VF,
/// restore the display; after the second VF is 1 if and only if the sprite
/// covers a pixel that was off before the first.
pub proof fn law_double_draw(m: Machine, x: u8, y: u8, rows: u8)
    requires
        m.wf(),
        x < 0xF,
        y < 0xF,
        m.index_in_bounds(rows as int),
    ensures
        m.draw(x, y, rows) matches Ok(once) && once.draw(x, y, rows) matches Ok(twice)
            && twice.pixels == m.pixels && twice.dirty && (twice.reg(0xF) == 1 <==> exists|p: int|
            0 <= p < m.pixels.len() && !m.pixels[p] && #[trigger] sprite_covers(
                m.at_index(rows as int),
                m.reg(x) as int % (DISPLAY_WIDTH as int),
                m.reg(y) as int % (DISPLAY_HEIGHT as int),
                p,
            )),
{
    let sprite = m.at_index(rows as int);
    let x0 = m.reg(x) as int % (DISPLAY_WIDTH as int);
    let y0 = m.reg(y) as int % (DISPLAY_HEIGHT as int);
    let once = m.draw(x, y, rows).unwrap();
    assert(once.reg(x) == m.reg(x) && once.reg(y) == m.reg(y));
    assert(once.at_index(rows as int) == sprite);
    law_blit_twice_restores(m.pixels, sprite, x0, y0);
    law_second_draw_collides(m.pixels, sprite, x0, y0);
}

/// A draw sets VF to 1 if the sprite covers a pixel that is on, and to 0 if
/// every pixel it covers is off, as on a blank display.
pub proof fn law_draw_sets_collision_flag(m: Machine, x: u8, y: u8, rows: u8)
    requires
        m.wf(),
        x < 16,
        y < 16,
        m.index_in_bounds(rows as int),
    ensures
        m.draw(x, y, rows) matches Ok(drawn) && drawn.reg(0xF) == flag_byte(
            exists|p: int|
                0 <= p < m.pixels.len() && m.pixels[p] && #[trigger] sprite_covers(
                    m.at_index(rows as int),
                    m.reg(x) as int % (DISPLAY_WIDTH as int),
                    m.reg(y) as int % (DISPLAY_HEIGHT as int),
                    p,
                ),
        ),
        m.pixels == blank() ==> m.draw(x, y, rows).unwrap().reg(0xF) == 0,
{
    let sprite = m.at_index(rows as int);
    let x0 = m.reg(x) as int % (DISPLAY_WIDTH as int);
    let y0 = m.reg(y) as int % (DISPLAY_HEIGHT as int);
    if collides(m.pixels, sprite, x0, y0) {
        let p = choose|p: int| collides_at(m.pixels, sprite, x0, y0, p);
        assert(0 <= p < m.pixels.len() && m.pixels[p] && sprite_covers(sprite, x0, y0, p));
    }
    if exists|p: int|
        0 <= p < m.pixels.len() && m.pixels[p] && #[trigger] sprite_covers(sprite, x0, y0, p) {
        let p = choose|p: int|
            0 <= p < m.pixels.len() && m.pixels[p] && #[trigger] sprite_covers(sprite, x0, y0, p);
        assert(collides_at(m.pixels, sprite, x0, y0, p));
    }
}

/// Whether `instruction` is one that defines the flag: the arithmetic and
/// shift instructions that carry or borrow, and the draw.
pub open spec fn defines_flag(instruction: Instruction) -> bool {
    match instruction {
        Instruction::AddWithCarry { .. }
        | Instruction::SubtractWithBorrow { .. }
        | Instruction::ReverseSubtract { .. }
        | Instruction::ShiftRight { .. }
        | Instruction::ShiftLeft { .. }
        | Instruction::Draw { .. } => true,
        _ => false,
    }
}

/// Every instruction that defines the flag leaves 0 or 1 in VF, whatever VF
/// held before; so does add-to-index where its overflow flag is chosen.
pub proof fn law_flag_is_always_written(
    m: Machine,
    instruction: Instruction,
    keys: Keys,
    entropy: u16,
)
    requires
        m.wf(),
        instruction.wf(),
        defines_flag(instruction) || (instruction is AddToIndex
            && m.quirks.index_add_flags_overflow),
    ensures
        m.step(instruction, keys, entropy) matches Ok(next) ==> next.reg(0xF) <= 1,
{
}

/// Executing an instruction keeps the sizes of memory, register file and
/// display.
pub proof fn law_step_preserves_wf(m: Machine, instruction: Instruction, keys: Keys, entropy: u16)
    requires
        m.wf(),
        instruction.wf(),
    ensures
        m.step(instruction, keys, entropy) matches Ok(next) ==> next.wf(),
{
}

/// Whenever an instruction changes a pixel, the display is dirty afterwards.
pub proof fn law_pixel_change_marks_dirty(
    m: Machine,
    instruction: Instruction,
    keys: Keys,
    entropy: u16,
)
    ensures
        m.step(instruction, keys, entropy) matches Ok(next) ==> next.pixels == m.pixels
            || next.dirty,
{
}

/// Only clearing and drawing touch the display: every other instruction
/// leaves the bitmap and the dirty flag as they were.
pub proof fn law_only_clear_and_draw_touch_display(
    m: Machine,
    instruction: Instruction,
    keys: Keys,
    entropy: u16,
)
    requires
        !(instruction is ClearScreen),
        !(instruction is Draw),
    ensures
        m.step(instruction, keys, entropy) matches Ok(next) ==> next.pixels == m.pixels
            && next.dirty == m.dirty,
{
}

/// The call stack grows by a subroutine call alone, and then by one entry.
pub proof fn law_only_call_pushes(m: Machine, instruction: Instruction, keys: Keys, entropy: u16)
    ensures
        m.step(instruction, keys, entropy) matches Ok(next) ==> (if instruction is Call {
            next.stack.len() == m.stack.len() + 1
        } else {
            next.stack.len() <= m.stack.len()
        }),
{
}

/// The random number matters to the `Random` instruction alone.
pub proof fn law_only_random_reads_entropy(
    m: Machine,
    instruction: Instruction,
    keys: Keys,
    e1: u16,
    e2: u16,
)
    requires
        !(instruction is Random),
    ensures
        m.step(instruction, keys, e1) == m.step(instruction, keys, e2),
{
}

/// Loading a program leaves the reserved region below the program origin,
/// and with it the font, as it was.
pub proof fn law_load_keeps_reserved_region(m: Machine, program: Seq<u8>)
    requires
        m.wf(),
    ensures
        m.load_program(program) matches Ok(loaded) ==> loaded.memory.take(PROGRAM_START as int)
            == m.memory.take(PROGRAM_START as int) && loaded.memory.subrange(
            PROGRAM_START as int,
            PROGRAM_START + program.len(),
        ) == program && loaded.pc == PROGRAM_START,
{
    if m.load_program(program) is Ok {
        let loaded = m.load_program(program).unwrap();
        assert(loaded.memory.take(PROGRAM_START as int) =~= m.memory.take(PROGRAM_START as int));
        assert(loaded.memory.subrange(PROGRAM_START as int, PROGRAM_START + program.len())
            =~= program);
    }
}

/// Setting the machine up twice is the same as setting it up once.
pub proof fn law_initialize_is_idempotent(m: Machine)
    requires
        m.wf(),
    ensures
        m.initialize().initialize() == m.initialize(),
{
    lemma_font_install_is_idempotent(m.memory);
}

} // verus!
