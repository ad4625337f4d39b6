//! Laws of the machine, proved of its model.

use vstd::prelude::*;
use crate::graphics::{
    blank_frame, blit_frame, collides, sprite_covers, sprite_rows, GFX_HEIGHT, GFX_WIDTH,
};
use crate::machine::{address_of, Machine};
use crate::operation::{decode_spec, is_opcode, lemma_decode_spec, Opcode, Operation};
use crate::registers::FLAG_REGISTER;

verus! {

/// A step executes the one operation whose pattern the instruction word at
/// the program counter has, and then ticks the timers.
pub proof fn lemma_step_executes(m: Machine, op: Operation, random: u8)
    requires
        op.accepts(m.opcode()),
    ensures
        m.step(random) == m.apply(op, m.opcode(), random).tick(),
{
    lemma_decode_spec(m.opcode(), op);
}

/// A step keeps the shape of the state: the bound on the depth of the stack
/// holds after it, and the return addresses are still the first slots.
pub proof fn lemma_step_preserves_wf(m: Machine, random: u8)
    requires
        m.wf(),
        m.fault() is None,
    ensures
        m.step(random).wf(),
{
    m.lemma_opcode_is_opcode();
    let next = m.step(random);
    assert(next.stack =~= next.slots.take(next.stack.len() as int));
}

/// Only a call writes a slot of the stack, and it writes the one slot at the
/// pointer. A return, like every other operation, leaves all slots as they
/// are, so the address it took stays in its slot.
pub proof fn lemma_stack_slots(m: Machine, op: Operation, opcode: Opcode, random: u8)
    ensures
        !(op is Call) ==> m.apply(op, opcode, random).slots == m.slots,
        op is Call ==> m.apply(op, opcode, random).slots == m.slots.update(
            m.stack.len() as int,
            (m.pc + 2) as u16,
        ),
        m.tick().slots == m.slots,
{
}

/// The frame is changed by the clear and the draw operation only, and memory
/// by the decimal store and the register store only.
pub proof fn lemma_frame_and_memory_kept(m: Machine, op: Operation, opcode: Opcode, random: u8)
    ensures
        !(op is ClearScreen || op is Draw) ==> m.apply(op, opcode, random).gfx == m.gfx,
        !(op is StoreBcd || op is StoreRegs) ==> m.apply(op, opcode, random).mem == m.mem,
        m.tick().gfx == m.gfx,
        m.tick().mem == m.mem,
{
}

/// The register-register operations set the flag register as follows: the add
/// to 1 exactly when the sum exceeds 255; the two subtractions to 0 exactly
/// when they borrow, and to 1 otherwise; the shifts to the bit that is shifted
/// out, the lowest for the right shift and the highest for the left shift.
pub proof fn lemma_alu_flags(m: Machine, opcode: Opcode, random: u8)
    requires
        m.wf(),
        is_opcode(opcode),
    ensures
        ({
            let vx = m.v[opcode.1 as int];
            let vy = m.v[opcode.2 as int];
            let flag = |op: Operation| m.apply(op, opcode, random).v[FLAG_REGISTER as int];
            &&& flag(Operation::AddCarry) == (if vx + vy > 255 { 1u8 } else { 0u8 })
            &&& flag(Operation::SubBorrow) == (if vx < vy { 0u8 } else { 1u8 })
            &&& flag(Operation::SubReverse) == (if vy < vx { 0u8 } else { 1u8 })
            &&& flag(Operation::ShiftRight) == vx % 2
            &&& flag(Operation::ShiftRight) == vx & 1
            &&& flag(Operation::ShiftLeft) == vx / 128
            &&& flag(Operation::ShiftLeft) == vx >> 7
        }),
{
    let vx = m.v[opcode.1 as int];
    assert(vx & 1 == vx % 2) by (bit_vector);
    assert(vx >> 7 == vx / 128) by (bit_vector);
}

/// The register-register operations leave in `Vx`, where it is not the flag
/// register, the sum or difference modulo 256, or the register shifted by one
/// place.
pub proof fn lemma_alu_results(m: Machine, opcode: Opcode, random: u8)
    requires
        m.wf(),
        is_opcode(opcode),
        opcode.1 != FLAG_REGISTER,
    ensures
        ({
            let vx = m.v[opcode.1 as int];
            let vy = m.v[opcode.2 as int];
            let result = |op: Operation| m.apply(op, opcode, random).v[opcode.1 as int];
            &&& result(Operation::AddCarry) == (vx + vy) % 256
            &&& result(Operation::SubBorrow) == (vx - vy) % 256
            &&& result(Operation::SubReverse) == (vy - vx) % 256
            &&& result(Operation::ShiftRight) == vx >> 1
            &&& result(Operation::ShiftLeft) == vx << 1
        }),
{
    let vx = m.v[opcode.1 as int];
    assert(vx >> 1 == vx / 2) by (bit_vector);
    assert(vx << 1 == (2 * vx) % 256) by (bit_vector);
}

/// The program counter after a step. A skip moves it on by 4 where its
/// condition holds and by 2 where it does not; a jump, a call and a return set
/// it; every other operation moves it on by 2.
pub proof fn lemma_step_pc(m: Machine, random: u8)
    requires
        m.wf(),
        m.fault() is None,
    ensures
        ({
            let opcode = m.opcode();
            let op = decode_spec(opcode).unwrap();
            let next = m.step(random);
            &&& op.is_skip() && m.skip_condition(op, opcode) ==> next.pc == m.pc + 4
            &&& op.is_skip() && !m.skip_condition(op, opcode) ==> next.pc == m.pc + 2
            &&& !op.is_skip() && !op.is_jump() ==> next.pc == m.pc + 2
            &&& op is Jump || op is Call ==> next.pc == address_of(opcode)
            &&& op is JumpOffset ==> next.pc == address_of(opcode) + m.v[0]
            &&& op is Return ==> next.pc == m.stack.last()
        }),
{
    m.lemma_opcode_is_opcode();
}

/// A call followed by a return comes back to the instruction after the call,
/// with the stack as it was.
pub proof fn lemma_call_then_return(m: Machine, opcode: Opcode, other: Opcode, random: u8)
    requires
        m.wf(),
        m.can_fetch(),
        m.fault_of(Operation::Call, opcode) is None,
    ensures
        ({
            let called = m.apply(Operation::Call, opcode, random);
            let back = called.apply(Operation::Return, other, random);
            &&& called.fault_of(Operation::Return, other) is None
            &&& back.pc == m.pc + 2
            &&& back.stack == m.stack
        }),
{
    let called = m.apply(Operation::Call, opcode, random);
    assert(called.stack.drop_last() =~= m.stack);
}

/// A tick lowers a timer by one, or leaves it at zero.
pub proof fn lemma_tick_timers(m: Machine)
    ensures
        m.tick().delay_timer <= m.delay_timer,
        m.delay_timer - m.tick().delay_timer <= 1,
        m.tick().delay_timer == 0 <==> m.delay_timer <= 1,
        m.tick().sound_timer <= m.sound_timer,
        m.sound_timer - m.tick().sound_timer <= 1,
        m.tick().sound_timer == 0 <==> m.sound_timer <= 1,
{
}

/// Over a step a timer falls by one, or stays at zero, unless the instruction
/// is the one that sets this very timer.
pub proof fn lemma_step_timers(m: Machine, random: u8)
    requires
        m.wf(),
        m.fault() is None,
    ensures
        ({
            let op = decode_spec(m.opcode()).unwrap();
            let next = m.step(random);
            &&& !(op is SetDelay) ==> next.delay_timer <= m.delay_timer && m.delay_timer
                - next.delay_timer <= 1 && (m.delay_timer > 0 ==> next.delay_timer
                == m.delay_timer - 1)
            &&& !(op is SetSound) ==> next.sound_timer <= m.sound_timer && m.sound_timer
                - next.sound_timer <= 1 && (m.sound_timer > 0 ==> next.sound_timer
                == m.sound_timer - 1)
        }),
{
    m.lemma_opcode_is_opcode();
}

/// Whether the sprite of the draw operation with operands `opcode` has a set
/// bit on a pixel of `m`'s frame that is not lit.
pub open spec fn sprite_lights_pixel(m: Machine, opcode: Opcode) -> bool {
    let rows = sprite_rows(m.mem, m.i as int, opcode.3 as int);
    exists|x: int, y: int|
        0 <= x < GFX_WIDTH && 0 <= y < GFX_HEIGHT && !#[trigger] m.gfx[x][y] && sprite_covers(
            rows,
            m.v[opcode.1 as int],
            m.v[opcode.2 as int],
            x,
            y,
        )
}

/// Drawing a sprite twice at the same place gives the frame back as it was,
/// so every pixel that the first draw lit is cleared again. The second draw
/// raises the flag exactly when the first one lit a pixel. The first draw
/// must leave the two position registers as they were, which it does where
/// neither of them is the flag register.
pub proof fn lemma_draw_twice(m: Machine, opcode: Opcode, random: u8)
    requires
        m.wf(),
        is_opcode(opcode),
        m.apply(Operation::Draw, opcode, random).v[opcode.1 as int] == m.v[opcode.1 as int],
        m.apply(Operation::Draw, opcode, random).v[opcode.2 as int] == m.v[opcode.2 as int],
    ensures
        ({
            let once = m.apply(Operation::Draw, opcode, random);
            let twice = once.apply(Operation::Draw, opcode, random);
            &&& twice.gfx == m.gfx
            &&& twice.v[FLAG_REGISTER as int] == (if sprite_lights_pixel(m, opcode) {
                1u8
            } else {
                0u8
            })
        }),
{
    let once = m.apply(Operation::Draw, opcode, random);
    let twice = once.apply(Operation::Draw, opcode, random);
    let rows = sprite_rows(m.mem, m.i as int, opcode.3 as int);
    let vx = m.v[opcode.1 as int];
    let vy = m.v[opcode.2 as int];
    assert(sprite_rows(once.mem, once.i as int, opcode.3 as int) == rows);
    assert(once.gfx == blit_frame(m.gfx, rows, vx, vy));
    assert(twice.gfx == blit_frame(once.gfx, rows, vx, vy));
    assert(twice.gfx =~~= m.gfx);
    if sprite_lights_pixel(m, opcode) {
        let (x, y) = choose|x: int, y: int|
            0 <= x < GFX_WIDTH && 0 <= y < GFX_HEIGHT && !#[trigger] m.gfx[x][y] && sprite_covers(
                rows,
                vx,
                vy,
                x,
                y,
            );
        assert(once.gfx[x][y] && sprite_covers(rows, vx, vy, x, y));
        assert(collides(once.gfx, rows, vx, vy));
    }
    if collides(once.gfx, rows, vx, vy) {
        let (x, y) = choose|x: int, y: int|
            0 <= x < GFX_WIDTH && 0 <= y < GFX_HEIGHT && #[trigger] once.gfx[x][y]
                && sprite_covers(rows, vx, vy, x, y);
        assert(!m.gfx[x][y] && sprite_covers(rows, vx, vy, x, y));
        assert(sprite_lights_pixel(m, opcode));
    }
}

/// On a blank screen, drawing a sprite that has a set bit twice at the same
/// place leaves the screen blank and the flag raised.
pub proof fn lemma_draw_twice_on_blank(m: Machine, opcode: Opcode, random: u8, x: int, y: int)
    requires
        m.wf(),
        is_opcode(opcode),
        opcode.1 != FLAG_REGISTER,
        opcode.2 != FLAG_REGISTER,
        m.gfx == blank_frame(),
        0 <= x < GFX_WIDTH,
        0 <= y < GFX_HEIGHT,
        sprite_covers(
            sprite_rows(m.mem, m.i as int, opcode.3 as int),
            m.v[opcode.1 as int],
            m.v[opcode.2 as int],
            x,
            y,
        ),
    ensures
        ({
            let once = m.apply(Operation::Draw, opcode, random);
            let twice = once.apply(Operation::Draw, opcode, random);
            &&& once.v[FLAG_REGISTER as int] == 0
            &&& once.gfx[x][y]
            &&& twice.gfx == blank_frame()
            &&& twice.v[FLAG_REGISTER as int] == 1
        }),
{
    lemma_draw_twice(m, opcode, random);
    assert(!m.gfx[x][y]);
    assert(sprite_lights_pixel(m, opcode));
}

/// The three bytes that the decimal store writes are the digits of `Vx`: each
/// is below 10, and read as hundreds, tens and units they give `Vx`.
pub proof fn lemma_store_bcd_digits(m: Machine, opcode: Opcode, random: u8)
    requires
        m.wf(),
        is_opcode(opcode),
        m.fault_of(Operation::StoreBcd, opcode) is None,
    ensures
        ({
            let mem = m.apply(Operation::StoreBcd, opcode, random).mem;
            let i = m.i as int;
            &&& mem[i] < 10 && mem[i + 1] < 10 && mem[i + 2] < 10
            &&& 100 * mem[i] + 10 * mem[i + 1] + mem[i + 2] == m.v[opcode.1 as int]
            &&& forall|a: int| 0 <= a < mem.len() && !(i <= a <= i + 2) ==> mem[a] == m.mem[a]
        }),
{
}

} // verus!
