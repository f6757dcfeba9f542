//! The mathematical model of the machine: its state as plain values and
//! the effect of every operation as a function from state to state.

use crate::display::blank;
use crate::display::blit;
use crate::display::collides;
use crate::display::Sprite;
use crate::instruction::Instruction;
use vstd::prelude::*;

verus! {

/// Number of bytes of memory.
pub const MEMORY_SIZE: usize = 4096;

/// Address at which a program is loaded and execution begins.
pub const PROGRAM_START: u16 = 0x200;

/// Largest program that fits between `PROGRAM_START` and the end of memory.
pub const MAX_PROGRAM_SIZE: usize = 3584;

/// The built-in font: glyphs for the digits 0 to F, five bytes each, one
/// byte per row of a glyph four pixels wide.
pub const FONT: [u8; 80] = [
    0xF0, 0x90, 0x90, 0x90, 0xF0,
    0x20, 0x60, 0x20, 0x20, 0x70,
    0xF0, 0x10, 0xF0, 0x80, 0xF0,
    0xF0, 0x10, 0xF0, 0x10, 0xF0,
    0x90, 0x90, 0xF0, 0x10, 0x10,
    0xF0, 0x80, 0xF0, 0x10, 0xF0,
    0xF0, 0x80, 0xF0, 0x90, 0xF0,
    0xF0, 0x10, 0x20, 0x40, 0x40,
    0xF0, 0x90, 0xF0, 0x90, 0xF0,
    0xF0, 0x90, 0xF0, 0x10, 0xF0,
    0xF0, 0x90, 0xF0, 0x90, 0x90,
    0xE0, 0x90, 0xE0, 0x90, 0xE0,
    0xF0, 0x80, 0x80, 0x80, 0xF0,
    0xE0, 0x90, 0x90, 0x90, 0xE0,
    0xF0, 0x80, 0xF0, 0x80, 0xF0,
    0xF0, 0x80, 0xF0, 0x80, 0x80,
];

/// Why the machine cannot go on. Every fault is fatal: the state of a
/// machine that faulted is left as it was and must not be stepped again.
#[derive(Clone, Copy, Debug, PartialEq, Eq, Structural)]
pub enum Fault {
    /// The fetched word encodes no operation.
    UnimplementedOpcode { word: u16 },
    /// A call with sixteen return addresses already on the stack.
    StackOverflow,
    /// A return with no return address on the stack.
    StackUnderflow,
    /// A program longer than `MAX_PROGRAM_SIZE` bytes.
    LoadTooLarge,
    /// An instruction fetch, a sprite read, a digit write or a register
    /// transfer that reaches past the end of memory.
    OutOfBounds,
    /// A key test on a register that holds no key number (16 or more).
    InvalidKey,
}

/// The low eight bits of `n`.
pub open spec fn wrap8(n: int) -> u8 {
    (n % 0x100) as u8
}

/// The low sixteen bits of `n`.
pub open spec fn wrap16(n: int) -> u16 {
    (n % 0x1_0000) as u16
}

/// The state of the machine.
///
/// `stack` holds the return addresses of the calls in progress, the most
/// recent last.
#[verifier::ext_equal]
pub struct Machine {
    pub pc: u16,
    pub memory: Seq<u8>,
    pub screen: Seq<bool>,
    pub v: Seq<u8>,
    pub i: u16,
    pub stack: Seq<u16>,
    pub keys: Seq<bool>,
    pub delay: u8,
    pub sound: u8,
}

impl Machine {
    /// Every part has its fixed size and the stack is within its capacity.
    pub open spec fn wf(self) -> bool {
        &&& self.memory.len() == 4096
        &&& self.screen.len() == 2048
        &&& self.v.len() == 16
        &&& self.stack.len() <= 16
        &&& self.keys.len() == 16
    }

    /// The machine as constructed: the font at addresses 0 to 79, the
    /// program counter at `PROGRAM_START`, everything else zero.
    pub open spec fn initial() -> Machine {
        Machine {
            pc: PROGRAM_START,
            memory: Seq::new(4096, |a: int| if a < 80 { FONT[a] } else { 0u8 }),
            screen: blank(),
            v: Seq::new(16, |r: int| 0u8),
            i: 0,
            stack: Seq::empty(),
            keys: Seq::new(16, |k: int| false),
            delay: 0,
            sound: 0,
        }
    }

    /// The machine after a reset: whatever it held, it is in its initial
    /// state again.
    pub open spec fn reset(self) -> Machine {
        Machine::initial()
    }

    /// The machine with `program` copied to memory from `PROGRAM_START` on.
    pub open spec fn load(self, program: Seq<u8>) -> Machine {
        Machine {
            memory: Seq::new(
                self.memory.len(),
                |a: int|
                    if PROGRAM_START <= a < PROGRAM_START + program.len() {
                        program[a - PROGRAM_START]
                    } else {
                        self.memory[a]
                    },
            ),
            ..self
        }
    }

    /// The machine with key `key` down (`pressed`) or up.
    pub open spec fn set_key(self, key: int, pressed: bool) -> Machine {
        Machine { keys: self.keys.update(key, pressed), ..self }
    }

    /// The machine after one timer tick: each timer that is above zero
    /// goes down by one.
    pub open spec fn tick(self) -> Machine {
        Machine {
            delay: if self.delay > 0 { (self.delay - 1) as u8 } else { 0 },
            sound: if self.sound > 0 { (self.sound - 1) as u8 } else { 0 },
            ..self
        }
    }

    /// The machine after `count` timer ticks.
    pub open spec fn ticks(self, count: nat) -> Machine
        decreases count,
    {
        if count == 0 {
            self
        } else {
            self.tick().ticks((count - 1) as nat)
        }
    }

    /// The big-endian word at the program counter.
    pub open spec fn opcode(self) -> u16 {
        (self.memory[self.pc as int] * 0x100 + self.memory[self.pc + 1]) as u16
    }

    /// The machine with the program counter moved past one instruction.
    pub open spec fn advance(self) -> Machine {
        Machine { pc: wrap16(self.pc + 2), ..self }
    }

    /// The machine with the next instruction skipped if `condition` holds.
    pub open spec fn skip_if(self, condition: bool) -> Machine {
        if condition {
            self.advance()
        } else {
            self
        }
    }

    /// The machine with register `x` set to `value`.
    pub open spec fn set_v(self, x: int, value: u8) -> Machine {
        Machine { v: self.v.update(x, value), ..self }
    }

    /// The machine with the flag register `VF` set to 1 if `flag` holds and
    /// to 0 if not.
    pub open spec fn set_flag(self, flag: bool) -> Machine {
        self.set_v(0xF, if flag { 1u8 } else { 0u8 })
    }

    /// Whether `key` is down and no key with a lower number is.
    pub open spec fn is_lowest_pressed(self, key: int) -> bool {
        &&& 0 <= key < self.keys.len()
        &&& self.keys[key]
        &&& forall|lower: int| 0 <= lower < key ==> !self.keys[lower]
    }

    /// Whether any key is down.
    pub open spec fn any_pressed(self) -> bool {
        exists|key: int| 0 <= key < self.keys.len() && self.keys[key]
    }

    /// The lowest key that is down; meaningful where `any_pressed` holds.
    pub open spec fn lowest_pressed(self) -> int {
        choose|key: int| self.is_lowest_pressed(key)
    }

    /// The sprite of `rows` rows that starts at the index register, placed
    /// at the coordinates held in registers `x` and `y`.
    pub open spec fn sprite(self, x: int, y: int, rows: int) -> Sprite {
        Sprite {
            rows: Seq::new(rows as nat, |row: int| self.memory[self.i + row]),
            left: self.v[x] as int,
            top: self.v[y] as int,
        }
    }

    /// The fault that `instruction` raises in this state, if any.
    pub open spec fn apply_fault(self, instruction: Instruction) -> Option<Fault> {
        match instruction {
            Instruction::Return => if self.stack.len() == 0 {
                Some(Fault::StackUnderflow)
            } else {
                None
            },
            Instruction::Call { .. } => if self.stack.len() >= 16 {
                Some(Fault::StackOverflow)
            } else {
                None
            },
            Instruction::Draw { rows, .. } => if self.i + rows > self.memory.len() && rows > 0 {
                Some(Fault::OutOfBounds)
            } else {
                None
            },
            Instruction::SkipKeyDown { x } | Instruction::SkipKeyUp { x } => if self.v[x as int]
                >= self.keys.len() {
                Some(Fault::InvalidKey)
            } else {
                None
            },
            Instruction::Bcd { .. } => if self.i + 2 >= self.memory.len() {
                Some(Fault::OutOfBounds)
            } else {
                None
            },
            Instruction::Store { x } | Instruction::Load { x } => if self.i + x
                >= self.memory.len() {
                Some(Fault::OutOfBounds)
            } else {
                None
            },
            _ => None,
        }
    }

    /// The machine after `instruction`, where the instruction raises no
    /// fault. `random` is the byte that `Random` draws; no other
    /// instruction looks at it.
    pub open spec fn apply(self, instruction: Instruction, random: u8) -> Machine {
        match instruction {
            Instruction::Nop => self,
            Instruction::ClearScreen => Machine { screen: blank(), ..self },
            Instruction::Return => Machine {
                pc: self.stack.last(),
                stack: self.stack.drop_last(),
                ..self
            },
            Instruction::Jump { addr } => Machine { pc: addr, ..self },
            Instruction::Call { addr } => Machine {
                pc: addr,
                stack: self.stack.push(self.pc),
                ..self
            },
            Instruction::SkipEqByte { x, nn } => self.skip_if(self.v[x as int] == nn),
            Instruction::SkipNeByte { x, nn } => self.skip_if(self.v[x as int] != nn),
            Instruction::SkipEq { x, y } => self.skip_if(self.v[x as int] == self.v[y as int]),
            Instruction::SetByte { x, nn } => self.set_v(x as int, nn),
            Instruction::AddByte { x, nn } => self.set_v(x as int, wrap8(self.v[x as int] + nn)),
            Instruction::Copy { x, y } => self.set_v(x as int, self.v[y as int]),
            Instruction::Or { x, y } => self.set_v(x as int, self.v[x as int] | self.v[y as int]),
            Instruction::And { x, y } => self.set_v(x as int, self.v[x as int] & self.v[y as int]),
            Instruction::Xor { x, y } => self.set_v(x as int, self.v[x as int] ^ self.v[y as int]),
            Instruction::Add { x, y } => self.set_v(
                x as int,
                wrap8(self.v[x as int] + self.v[y as int]),
            ).set_flag(self.v[x as int] + self.v[y as int] > 0xFF),
            Instruction::Sub { x, y } => self.set_v(
                x as int,
                wrap8(self.v[x as int] - self.v[y as int]),
            ).set_flag(self.v[x as int] >= self.v[y as int]),
            Instruction::ShiftRight { x } => self.set_v(
                x as int,
                (self.v[x as int] / 2) as u8,
            ).set_flag(self.v[x as int] % 2 == 1),
            Instruction::SubInto { x, y } => self.set_v(
                y as int,
                wrap8(self.v[y as int] - self.v[x as int]),
            ).set_flag(self.v[y as int] >= self.v[x as int]),
            Instruction::ShiftLeft { x } => self.set_v(
                x as int,
                wrap8(self.v[x as int] * 2),
            ).set_flag(self.v[x as int] >= 0x80),
            Instruction::SkipNe { x, y } => self.skip_if(self.v[x as int] != self.v[y as int]),
            Instruction::SetIndex { addr } => Machine { i: addr, ..self },
            Instruction::JumpOffset { addr } => Machine { pc: wrap16(addr + self.v[0]), ..self },
            Instruction::Random { x, nn } => self.set_v(x as int, random & nn),
            Instruction::Draw { x, y, rows } => {
                let sprite = self.sprite(x as int, y as int, rows as int);
                Machine { screen: blit(self.screen, sprite), ..self }.set_flag(
                    collides(self.screen, sprite),
                )
            },
            Instruction::SkipKeyDown { x } => self.skip_if(self.keys[self.v[x as int] as int]),
            Instruction::SkipKeyUp { x } => self.skip_if(!self.keys[self.v[x as int] as int]),
            Instruction::GetDelay { x } => self.set_v(x as int, self.delay),
            Instruction::WaitKey { x } => if self.any_pressed() {
                self.set_v(x as int, self.lowest_pressed() as u8)
            } else {
                self.advance()
            },
            Instruction::SetDelay { x } => Machine { delay: self.v[x as int], ..self },
            Instruction::SetSound { x } => Machine { sound: self.v[x as int], ..self },
            Instruction::AddIndex { x } => Machine {
                i: wrap16(self.i + self.v[x as int]),
                ..self
            },
            Instruction::Glyph { x } => Machine { i: (5 * self.v[x as int]) as u16, ..self },
            Instruction::Bcd { x } => Machine {
                memory: self.memory.update(self.i as int, (self.v[x as int] / 100) as u8).update(
                    self.i + 1,
                    ((self.v[x as int] / 10) % 10) as u8,
                ).update(self.i + 2, (self.v[x as int] % 10) as u8),
                ..self
            },
            Instruction::Store { x } => Machine {
                memory: Seq::new(
                    self.memory.len(),
                    |a: int|
                        if self.i <= a <= self.i + x {
                            self.v[a - self.i]
                        } else {
                            self.memory[a]
                        },
                ),
                ..self
            },
            Instruction::Load { x } => Machine {
                v: Seq::new(
                    self.v.len(),
                    |r: int|
                        if r <= x {
                            self.memory[self.i + r]
                        } else {
                            self.v[r]
                        },
                ),
                ..self
            },
        }
    }

    /// The fault that executing `word` raises in this state, if any.
    pub open spec fn execute_fault(self, word: u16) -> Option<Fault> {
        match Instruction::of(word) {
            Some(instruction) => self.apply_fault(instruction),
            None => Some(Fault::UnimplementedOpcode { word }),
        }
    }

    /// The machine after executing `word`, where that raises no fault.
    pub open spec fn execute(self, word: u16, random: u8) -> Machine {
        match Instruction::of(word) {
            Some(instruction) => self.apply(instruction, random),
            None => self,
        }
    }

    /// The fault that the next step raises, if any: the fetch reaches past
    /// the end of memory, or the fetched word cannot be executed.
    pub open spec fn fault(self) -> Option<Fault> {
        if self.pc + 1 >= self.memory.len() {
            Some(Fault::OutOfBounds)
        } else {
            self.advance().execute_fault(self.opcode())
        }
    }

    /// The machine after one step, where the step raises no fault: the
    /// word at the program counter is fetched, the program counter moves
    /// past it, and the word is executed.
    pub open spec fn step(self, random: u8) -> Machine {
        self.advance().execute(self.opcode(), random)
    }

    /// Whether the next step draws a random byte.
    pub open spec fn next_is_random(self) -> bool {
        Instruction::of(self.opcode()) matches Some(Instruction::Random { .. })
    }
}

} // verus!
