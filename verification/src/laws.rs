//! Laws of the machine model: what holds of every state, proved from the
//! definitions the contracts are stated over.

use crate::display::blank;
use crate::display::blit;
use crate::display::collides;
use crate::display::hits;
use crate::display::lemma_blit_twice;
use crate::instruction::Instruction;
use crate::machine::Machine;
use vstd::prelude::*;

verus! {

/// Resetting a machine and loading a program gives the state that loading
/// the same program into a fresh machine gives.
pub proof fn lemma_reset_then_load(machine: Machine, program: Seq<u8>)
    ensures
        machine.reset().load(program) == Machine::initial().load(program),
{
}

/// Loading leaves the program counter, the registers, the stack, the
/// display, the keys and the timers alone, puts the program at
/// `PROGRAM_START` and keeps every other byte of memory.
pub proof fn lemma_load_touches_program_area_only(machine: Machine, program: Seq<u8>)
    requires
        machine.wf(),
        program.len() <= 3584,
    ensures
        machine.load(program).wf(),
        machine.load(program) == (Machine { memory: machine.load(program).memory, ..machine }),
        machine.load(program).memory.subrange(0x200, 0x200 + program.len() as int) == program,
        forall|a: int|
            0 <= a < 0x200 || 0x200 + program.len() <= a < 4096 ==> machine.load(program).memory[a]
                == machine.memory[a],
{
    assert(machine.load(program).memory.subrange(0x200, 0x200 + program.len() as int) =~= program);
}

/// Clearing the screen turns every cell off whatever the display held,
/// changes nothing else, and clearing again changes nothing.
pub proof fn lemma_clear_screen(machine: Machine, random: u8)
    requires
        machine.wf(),
    ensures
        ({
            let cleared = machine.apply(Instruction::ClearScreen, random);
            &&& cleared.wf()
            &&& cleared == (Machine { screen: cleared.screen, ..machine })
            &&& forall|cell: int| 0 <= cell < 2048 ==> !cleared.screen[cell]
            &&& cleared.apply(Instruction::ClearScreen, random) == cleared
        }),
{
}

/// Drawing the same sprite twice from registers other than `VF` restores
/// the display. If the first draw had no collision and the sprite has a
/// set pixel, the second draw sets `VF` to 1.
pub proof fn lemma_draw_twice(machine: Machine, x: u8, y: u8, rows: u8, random: u8)
    requires
        machine.wf(),
        x < 0xF,
        y < 0xF,
        rows < 16,
    ensures
        ({
            let draw = Instruction::Draw { x, y, rows };
            let sprite = machine.sprite(x as int, y as int, rows as int);
            let once = machine.apply(draw, random);
            let twice = once.apply(draw, random);
            &&& twice.screen == machine.screen
            &&& once.v[0xF] == (if collides(machine.screen, sprite) { 1u8 } else { 0u8 })
            &&& !collides(machine.screen, sprite) && (exists|cell: int|
                0 <= cell < 2048 && sprite.covers(cell)) ==> twice.v[0xF] == 1
        }),
{
    let draw = Instruction::Draw { x, y, rows };
    let sprite = machine.sprite(x as int, y as int, rows as int);
    let once = machine.apply(draw, random);
    assert(once.sprite(x as int, y as int, rows as int) == sprite);
    lemma_blit_twice(machine.screen, sprite);
    if !collides(machine.screen, sprite) && exists|cell: int|
        0 <= cell < 2048 && sprite.covers(cell) {
        let cell = choose|cell: int| 0 <= cell < 2048 && sprite.covers(cell);
        assert(!hits(machine.screen, sprite, cell));
        assert(hits(blit(machine.screen, sprite), sprite, cell));
    }
}

/// Drawing on a blank display never reports a collision.
pub proof fn lemma_draw_on_blank(machine: Machine, x: u8, y: u8, rows: u8, random: u8)
    requires
        machine.wf(),
        machine.screen == blank(),
        x < 16,
        y < 16,
    ensures
        machine.apply(Instruction::Draw { x, y, rows }, random).v[0xF] == 0,
{
    let sprite = machine.sprite(x as int, y as int, rows as int);
    assert forall|cell: int| !hits(machine.screen, sprite, cell) by {}
}

/// Storing registers 0 to `x` and loading them back, with nothing in
/// between, leaves every register as it was; the stored bytes are the
/// registers, in order.
pub proof fn lemma_store_load_roundtrip(machine: Machine, x: u8, random: u8)
    requires
        machine.wf(),
        x < 16,
        machine.i + x < 4096,
    ensures
        ({
            let stored = machine.apply(Instruction::Store { x }, random);
            let loaded = stored.apply(Instruction::Load { x }, random);
            &&& stored.apply_fault(Instruction::Load { x }) is None
            &&& forall|r: int| 0 <= r <= x ==> stored.memory[machine.i + r] == machine.v[r]
            &&& loaded.v == machine.v
            &&& loaded == stored
        }),
{
    let stored = machine.apply(Instruction::Store { x }, random);
    let loaded = stored.apply(Instruction::Load { x }, random);
    assert(loaded.v =~= machine.v);
}

/// After `count` ticks a timer has gone down by `count`, but never below
/// zero: a timer at zero stays at zero however often the clock ticks.
pub proof fn lemma_timers_floor_at_zero(machine: Machine, count: nat)
    ensures
        machine.ticks(count).delay == if machine.delay >= count {
            machine.delay - count
        } else {
            0
        },
        machine.ticks(count).sound == if machine.sound >= count {
            machine.sound - count
        } else {
            0
        },
        machine.delay == 0 ==> machine.ticks(count).delay == 0,
        machine.sound == 0 ==> machine.ticks(count).sound == 0,
        machine.ticks(count) == (Machine {
            delay: machine.ticks(count).delay,
            sound: machine.ticks(count).sound,
            ..machine
        }),
    decreases count,
{
    if count > 0 {
        lemma_timers_floor_at_zero(machine.tick(), (count - 1) as nat);
    }
}

/// The random byte matters to a step only if the step executes a `Random`
/// instruction.
pub proof fn lemma_random_matters_to_random_only(machine: Machine, first: u8, second: u8)
    requires
        !machine.next_is_random(),
    ensures
        machine.step(first) == machine.step(second),
{
}

/// A step that raises no fault keeps the machine well formed.
pub proof fn lemma_step_preserves_wf(machine: Machine, random: u8)
    requires
        machine.wf(),
        machine.fault() is None,
    ensures
        machine.step(random).wf(),
{
    let word = machine.opcode();
    crate::instruction::lemma_split_roundtrip(word);
}

} // verus!
