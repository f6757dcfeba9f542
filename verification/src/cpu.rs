//! The executable machine.

use crate::display::blank;
use crate::display::blit;
use crate::display::collides;
use crate::display::hits;
use crate::display::lemma_cell_of_pixel;
use crate::display::Sprite;
use crate::display::SCREEN_HEIGHT;
use crate::display::SCREEN_SIZE;
use crate::display::SCREEN_WIDTH;
use crate::instruction::Instruction;
use crate::machine::Fault;
use crate::machine::Machine;
use crate::machine::FONT;
use crate::machine::MAX_PROGRAM_SIZE;
use crate::machine::MEMORY_SIZE;
use crate::machine::PROGRAM_START;
use crate::random::random_byte;
use vstd::prelude::*;

verus! {

/// The virtual CPU. It owns all of the machine's state; its view is that
/// state as a `Machine`, with the call stack cut to the return addresses
/// in use.
pub struct CPU {
    pc: u16,
    ram: [u8; MEMORY_SIZE],
    screen: [bool; SCREEN_SIZE],
    v: [u8; 16],
    i: u16,
    stack: [u16; 16],
    sp: u16,
    keyboard: [bool; 16],
    delay_timer: u8,
    sound_timer: u8,
}

impl View for CPU {
    type V = Machine;

    closed spec fn view(&self) -> Machine {
        Machine {
            pc: self.pc,
            memory: self.ram@,
            screen: self.screen@,
            v: self.v@,
            i: self.i,
            stack: self.stack@.subrange(0, self.sp as int),
            keys: self.keyboard@,
            delay: self.delay_timer,
            sound: self.sound_timer,
        }
    }
}

impl CPU {
    #[verifier::type_invariant]
    spec fn stack_in_bounds(&self) -> bool {
        self.sp <= 16
    }

    /// A machine in its initial state.
    pub fn new() -> (cpu: Self)
        ensures
            cpu@ == Machine::initial(),
            cpu@.wf(),
    {
        let mut cpu = Self {
            pc: PROGRAM_START,
            ram: [0;MEMORY_SIZE],
            screen: [false;SCREEN_SIZE],
            v: [0;16],
            i: 0,
            stack: [0;16],
            sp: 0,
            keyboard: [false;16],
            delay_timer: 0,
            sound_timer: 0,
        };
        cpu.load_font();
        assert(cpu@ =~= Machine::initial());
        cpu
    }

    /// Puts the machine back in its initial state.
    pub fn reset(&mut self)
        ensures
            final(self)@ == old(self)@.reset(),
            final(self)@.wf(),
    {
        proof {
            use_type_invariant(&*self);
        }
        self.pc = PROGRAM_START;
        self.ram = [0;MEMORY_SIZE];
        self.screen = [false;SCREEN_SIZE];
        self.v = [0;16];
        self.i = 0;
        self.stack = [0;16];
        self.sp = 0;
        self.keyboard = [false;16];
        self.delay_timer = 0;
        self.sound_timer = 0;
        self.load_font();
        assert(self@ =~= Machine::initial());
    }

    /// Copies `data` to memory from `PROGRAM_START` on. Nothing else
    /// changes.
    pub fn load(&mut self, data: &[u8])
        requires
            data@.len() <= MAX_PROGRAM_SIZE,
        ensures
            final(self)@ == old(self)@.load(data@),
            final(self)@.wf(),
    {
        let start: usize = PROGRAM_START as usize;
        let mut k: usize = 0;
        while k < data.len()
            invariant
                k <= data@.len() <= MAX_PROGRAM_SIZE,
                start == PROGRAM_START,
                forall|a: int| start <= a < start + k ==> self.ram@[a] == data@[a - start],
                forall|a: int|
                    0 <= a < 4096 && !(start <= a < start + k) ==> self.ram@[a] == old(self).ram@[a],
                self.pc == old(self).pc,
                self.screen == old(self).screen,
                self.v == old(self).v,
                self.i == old(self).i,
                self.stack == old(self).stack,
                self.sp == old(self).sp,
                self.keyboard == old(self).keyboard,
                self.delay_timer == old(self).delay_timer,
                self.sound_timer == old(self).sound_timer,
            decreases data@.len() - k,
        {
            proof {
                use_type_invariant(&*self);
            }
            self.ram[start + k] = data[k];
            k += 1;
        }
        proof {
            use_type_invariant(&*self);
            assert(self@ =~= old(self)@.load(data@));
        }
    }

    /// Copies `data` to memory as `load` does, or refuses it, before
    /// anything is written, if it is longer than `MAX_PROGRAM_SIZE`.
    pub fn try_load(&mut self, data: &[u8]) -> (r: Result<(), Fault>)
        ensures
            final(self)@.wf(),
            match r {
                Ok(_) => data@.len() <= MAX_PROGRAM_SIZE && final(self)@ == old(self)@.load(data@),
                Err(fault) => data@.len() > MAX_PROGRAM_SIZE && fault == Fault::LoadTooLarge
                    && final(self)@ == old(self)@,
            },
    {
        if data.len() > MAX_PROGRAM_SIZE {
            proof {
                use_type_invariant(&*self);
            }
            Err(Fault::LoadTooLarge)
        } else {
            self.load(data);
            Ok(())
        }
    }

    /// Records that key `idx` went down (`pressed`) or up.
    pub fn get_keys(&mut self, idx: usize, pressed: bool)
        requires
            idx < 16,
        ensures
            final(self)@ == old(self)@.set_key(idx as int, pressed),
            final(self)@.wf(),
    {
        proof {
            use_type_invariant(&*self);
        }
        self.keyboard[idx] = pressed;
        assert(self@ =~= old(self)@.set_key(idx as int, pressed));
    }

    /// The display: 2048 cells, row by row, 64 cells to a row.
    pub fn get_display(&self) -> (cells: &[bool])
        ensures
            cells@ == self@.screen,
            cells@.len() == 2048,
    {
        &self.screen
    }

    /// One tick of the timer clock: each timer that is above zero goes down
    /// by one, and a timer at zero stays there.
    pub fn timers(&mut self)
        ensures
            final(self)@ == old(self)@.tick(),
            final(self)@.wf(),
    {
        proof {
            use_type_invariant(&*self);
        }
        if self.delay_timer > 0 {
            self.delay_timer -= 1;
        }
        if self.sound_timer > 0 {
            self.sound_timer -= 1;
        }
    }

    /// The fault that the next step would raise, or `None` if the machine
    /// can take the step.
    pub fn fault(&self) -> (r: Option<Fault>)
        ensures
            r == self@.fault(),
    {
        proof {
            use_type_invariant(self);
        }
        if self.pc >= 4095 {
            return Some(Fault::OutOfBounds);
        }
        let word: u16 = self.peek();
        match Instruction::decode(word) {
            None => Some(Fault::UnimplementedOpcode { word }),
            Some(Instruction::Return) => if self.sp == 0 {
                Some(Fault::StackUnderflow)
            } else {
                None
            },
            Some(Instruction::Call { .. }) => if self.sp >= 16 {
                Some(Fault::StackOverflow)
            } else {
                None
            },
            Some(Instruction::Draw { rows, .. }) => if rows > 0 && self.i as usize + rows as usize
                > MEMORY_SIZE {
                Some(Fault::OutOfBounds)
            } else {
                None
            },
            Some(Instruction::SkipKeyDown { x }) | Some(Instruction::SkipKeyUp { x }) => if self.v[x as usize]
                >= 16 {
                Some(Fault::InvalidKey)
            } else {
                None
            },
            Some(Instruction::Bcd { .. }) => if self.i as usize + 2 >= MEMORY_SIZE {
                Some(Fault::OutOfBounds)
            } else {
                None
            },
            Some(Instruction::Store { x }) | Some(Instruction::Load { x }) => if self.i as usize
                + x as usize >= MEMORY_SIZE {
                Some(Fault::OutOfBounds)
            } else {
                None
            },
            Some(_) => None,
        }
    }

    /// One step: fetches the word at the program counter, moves the
    /// program counter past it and executes the word. A `Random`
    /// instruction draws its byte from the thread's random generator, so
    /// the outcome is that of `step_with` for some byte; for every other
    /// instruction the byte does not matter.
    pub fn step(&mut self)
        requires
            old(self)@.fault() is None,
        ensures
            exists|random: u8| final(self)@ == #[trigger] old(self)@.step(random),
            !old(self)@.next_is_random() ==> final(self)@ == old(self)@.step(0),
            final(self)@.wf(),
    {
        let opcode: u16 = self.fetch();
        match Instruction::decode(opcode) {
            Some(instruction) => {
                let random: u8 = match instruction {
                    Instruction::Random { .. } => random_byte(),
                    _ => 0,
                };
                self.execute(instruction, random);
                assert(self@ == old(self)@.step(random));
            },
            None => {},
        }
        proof {
            use_type_invariant(&*self);
        }
    }

    /// One step with `random` standing for the byte that a `Random`
    /// instruction draws: fetches the word at the program counter, moves
    /// the program counter past it and executes the word.
    pub fn step_with(&mut self, random: u8)
        requires
            old(self)@.fault() is None,
        ensures
            final(self)@ == old(self)@.step(random),
            final(self)@.wf(),
    {
        let opcode: u16 = self.fetch();
        match Instruction::decode(opcode) {
            Some(instruction) => {
                self.execute(instruction, random);
            },
            None => {},
        }
        proof {
            use_type_invariant(&*self);
        }
    }

    /// One step, or the fault that prevents it. On a fault the machine is
    /// left as it was.
    pub fn try_step(&mut self) -> (r: Result<(), Fault>)
        ensures
            final(self)@.wf(),
            match r {
                Ok(_) => old(self)@.fault() is None && exists|random: u8|
                    final(self)@ == #[trigger] old(self)@.step(random),
                Err(fault) => old(self)@.fault() == Some(fault) && final(self)@ == old(self)@,
            },
    {
        match self.fault() {
            Some(fault) => {
                proof {
                    use_type_invariant(&*self);
                }
                Err(fault)
            },
            None => {
                self.step();
                Ok(())
            },
        }
    }

    /// The program counter.
    pub fn program_counter(&self) -> (pc: u16)
        ensures
            pc == self@.pc,
    {
        self.pc
    }

    /// The index register.
    pub fn index(&self) -> (i: u16)
        ensures
            i == self@.i,
    {
        self.i
    }

    /// Register `x`.
    pub fn register(&self, x: usize) -> (value: u8)
        requires
            x < 16,
        ensures
            value == self@.v[x as int],
    {
        self.v[x]
    }

    /// The byte of memory at `address`.
    pub fn read_memory(&self, address: usize) -> (value: u8)
        requires
            address < 4096,
        ensures
            value == self@.memory[address as int],
    {
        self.ram[address]
    }

    /// The delay timer.
    pub fn delay_timer(&self) -> (value: u8)
        ensures
            value == self@.delay,
    {
        self.delay_timer
    }

    /// The sound timer. A tone is due while it is above zero.
    pub fn sound_timer(&self) -> (value: u8)
        ensures
            value == self@.sound,
    {
        self.sound_timer
    }

    /// The number of calls in progress.
    pub fn stack_depth(&self) -> (depth: usize)
        ensures
            depth == self@.stack.len(),
    {
        proof {
            use_type_invariant(self);
        }
        self.sp as usize
    }
}

impl CPU {
    /// Copies the font to the start of memory.
    fn load_font(&mut self)
        ensures
            forall|a: int| 0 <= a < 80 ==> final(self).ram@[a] == FONT[a],
            forall|a: int| 80 <= a < 4096 ==> final(self).ram@[a] == old(self).ram@[a],
            final(self).pc == old(self).pc,
            final(self).screen == old(self).screen,
            final(self).v == old(self).v,
            final(self).i == old(self).i,
            final(self).stack == old(self).stack,
            final(self).sp == old(self).sp,
            final(self).keyboard == old(self).keyboard,
            final(self).delay_timer == old(self).delay_timer,
            final(self).sound_timer == old(self).sound_timer,
    {
        let mut a: usize = 0;
        while a < 80
            invariant
                a <= 80,
                forall|b: int| 0 <= b < a ==> self.ram@[b] == FONT[b],
                forall|b: int| 80 <= b < 4096 ==> self.ram@[b] == old(self).ram@[b],
                self.pc == old(self).pc,
                self.screen == old(self).screen,
                self.v == old(self).v,
                self.i == old(self).i,
                self.stack == old(self).stack,
                self.sp == old(self).sp,
                self.keyboard == old(self).keyboard,
                self.delay_timer == old(self).delay_timer,
                self.sound_timer == old(self).sound_timer,
            decreases 80 - a,
        {
            proof {
                use_type_invariant(&*self);
            }
            self.ram[a] = FONT[a];
            a += 1;
        }
    }

    /// The big-endian word at the program counter.
    fn peek(&self) -> (opcode: u16)
        requires
            self.pc + 1 < 4096,
        ensures
            opcode == self@.opcode(),
    {
        let high: u16 = self.ram[self.pc as usize] as u16;
        let low: u16 = self.ram[(self.pc + 1) as usize] as u16;
        assert((high << 8) | low == high * 0x100 + low) by (bit_vector)
            requires
                high < 0x100,
                low < 0x100,
        ;
        (high << 8) | low
    }

    /// Reads the word at the program counter and moves the program counter
    /// past it.
    fn fetch(&mut self) -> (opcode: u16)
        requires
            old(self).pc + 1 < 4096,
        ensures
            opcode == old(self)@.opcode(),
            final(self)@ == old(self)@.advance(),
            final(self).pc == old(self).pc + 2,
    {
        proof {
            use_type_invariant(&*self);
        }
        let opcode: u16 = self.peek();
        self.pc += 2;
        opcode
    }

    /// Carries out one decoded instruction. `random` is the byte that
    /// `Random` uses; no other instruction looks at it.
    fn execute(&mut self, instruction: Instruction, random: u8)
        requires
            instruction.wf(),
            old(self)@.apply_fault(instruction) is None,
            old(self).pc <= 0xFFFD,
        ensures
            final(self)@ == old(self)@.apply(instruction, random),
    {
        proof {
            use_type_invariant(&*self);
        }
        match instruction {
            Instruction::Nop => {},
            Instruction::ClearScreen => {
                self.clear_screen();
            },
            Instruction::Return => {
                let address: u16 = self.pop();
                self.jump(address);
            },
            Instruction::Jump { addr } => {
                self.jump(addr);
            },
            Instruction::Call { addr } => {
                self.push(self.pc);
                self.jump(addr);
            },
            Instruction::SkipEqByte { x, nn } => {
                if self.v[x as usize] == nn {
                    self.skip();
                }
            },
            Instruction::SkipNeByte { x, nn } => {
                if self.v[x as usize] != nn {
                    self.skip();
                }
            },
            Instruction::SkipEq { x, y } => {
                if self.v[x as usize] == self.v[y as usize] {
                    self.skip();
                }
            },
            Instruction::SetByte { x, nn } => {
                self.set_register(x, nn);
            },
            Instruction::AddByte { x, nn } => {
                let vx: u8 = self.v[x as usize];
                self.set_register(x, vx.wrapping_add(nn));
            },
            Instruction::Copy { x, y } => {
                let vy: u8 = self.v[y as usize];
                self.set_register(x, vy);
            },
            Instruction::Or { x, y } => {
                let vx: u8 = self.v[x as usize];
                let vy: u8 = self.v[y as usize];
                self.set_register(x, vx | vy);
            },
            Instruction::And { x, y } => {
                let vx: u8 = self.v[x as usize];
                let vy: u8 = self.v[y as usize];
                self.set_register(x, vx & vy);
            },
            Instruction::Xor { x, y } => {
                let vx: u8 = self.v[x as usize];
                let vy: u8 = self.v[y as usize];
                self.set_register(x, vx ^ vy);
            },
            Instruction::Add { x, y } => {
                let vx: u8 = self.v[x as usize];
                let vy: u8 = self.v[y as usize];
                let carry: bool = vx as u16 + vy as u16 > 0xFF;
                self.set_register(x, vx.wrapping_add(vy));
                self.set_register(0xF, if carry { 1 } else { 0 });
            },
            Instruction::Sub { x, y } => {
                let vx: u8 = self.v[x as usize];
                let vy: u8 = self.v[y as usize];
                let borrow: bool = vx < vy;
                self.set_register(x, vx.wrapping_sub(vy));
                self.set_register(0xF, if borrow { 0 } else { 1 });
            },
            Instruction::ShiftRight { x } => {
                let vx: u8 = self.v[x as usize];
                let least_sig_bit: u8 = vx & 1;
                assert(vx >> 1 == vx / 2 && vx & 1 == vx % 2) by (bit_vector);
                self.set_register(x, vx >> 1);
                self.set_register(0xF, least_sig_bit);
            },
            Instruction::SubInto { x, y } => {
                let vx: u8 = self.v[x as usize];
                let vy: u8 = self.v[y as usize];
                let borrow: bool = vy < vx;
                self.set_register(y, vy.wrapping_sub(vx));
                self.set_register(0xF, if borrow { 0 } else { 1 });
            },
            Instruction::ShiftLeft { x } => {
                let vx: u8 = self.v[x as usize];
                let most_sig_bit: u8 = (vx >> 7) & 1;
                assert(vx << 1 == (vx * 2) % 0x100 && (vx >> 7) & 1 == vx / 0x80) by (bit_vector);
                self.set_register(x, vx << 1);
                self.set_register(0xF, most_sig_bit);
            },
            Instruction::SkipNe { x, y } => {
                if self.v[x as usize] != self.v[y as usize] {
                    self.skip();
                }
            },
            Instruction::SetIndex { addr } => {
                self.set_index(addr);
            },
            Instruction::JumpOffset { addr } => {
                let offset: u16 = self.v[0] as u16;
                self.jump(addr + offset);
            },
            Instruction::Random { x, nn } => {
                self.set_register(x, random & nn);
            },
            Instruction::Draw { x, y, rows } => {
                self.draw(x, y, rows);
            },
            Instruction::SkipKeyDown { x } => {
                if self.keyboard[self.v[x as usize] as usize] {
                    self.skip();
                }
            },
            Instruction::SkipKeyUp { x } => {
                if !self.keyboard[self.v[x as usize] as usize] {
                    self.skip();
                }
            },
            Instruction::GetDelay { x } => {
                let delay: u8 = self.delay_timer;
                self.set_register(x, delay);
            },
            Instruction::WaitKey { x } => {
                self.wait_key(x);
            },
            Instruction::SetDelay { x } => {
                self.delay_timer = self.v[x as usize];
            },
            Instruction::SetSound { x } => {
                self.sound_timer = self.v[x as usize];
            },
            Instruction::AddIndex { x } => {
                let vx: u16 = self.v[x as usize] as u16;
                self.set_index(self.i.wrapping_add(vx));
            },
            Instruction::Glyph { x } => {
                let vx: u16 = self.v[x as usize] as u16;
                self.set_index(vx * 5);
            },
            Instruction::Bcd { x } => {
                let vx: u8 = self.v[x as usize];
                let base: usize = self.i as usize;
                self.write(base, vx / 100);
                self.write(base + 1, (vx / 10) % 10);
                self.write(base + 2, vx % 10);
            },
            Instruction::Store { x } => {
                self.store_registers(x);
            },
            Instruction::Load { x } => {
                self.load_registers(x);
            },
        }
    }

    /// Puts a return address on the call stack.
    fn push(&mut self, val: u16)
        requires
            old(self).sp < 16,
        ensures
            final(self)@ == (Machine { stack: old(self)@.stack.push(val), ..old(self)@ }),
    {
        self.stack[self.sp as usize] = val;
        self.sp += 1;
        assert(self@.stack =~= old(self)@.stack.push(val));
    }

    /// Takes the most recent return address off the call stack.
    fn pop(&mut self) -> (val: u16)
        requires
            old(self).sp > 0,
        ensures
            val == old(self)@.stack.last(),
            final(self)@ == (Machine { stack: old(self)@.stack.drop_last(), ..old(self)@ }),
    {
        proof {
            use_type_invariant(&*self);
        }
        self.sp -= 1;
        assert(self@.stack =~= old(self)@.stack.drop_last());
        self.stack[self.sp as usize]
    }

    /// Sets the program counter to `address`.
    fn jump(&mut self, address: u16)
        ensures
            final(self)@ == (Machine { pc: address, ..old(self)@ }),
    {
        proof {
            use_type_invariant(&*self);
        }
        self.pc = address;
    }

    /// Skips the next instruction.
    fn skip(&mut self)
        requires
            old(self).pc <= 0xFFFD,
        ensures
            final(self)@ == old(self)@.advance(),
    {
        proof {
            use_type_invariant(&*self);
        }
        self.pc += 2;
    }

    /// Sets register `x` to `value`.
    fn set_register(&mut self, x: u8, value: u8)
        requires
            x < 16,
        ensures
            final(self)@ == old(self)@.set_v(x as int, value),
    {
        proof {
            use_type_invariant(&*self);
        }
        self.v[x as usize] = value;
        assert(self@ =~= old(self)@.set_v(x as int, value));
    }

    /// Sets the index register to `address`.
    fn set_index(&mut self, address: u16)
        ensures
            final(self)@ == (Machine { i: address, ..old(self)@ }),
    {
        proof {
            use_type_invariant(&*self);
        }
        self.i = address;
    }

    /// Writes `value` to memory at `address`.
    fn write(&mut self, address: usize, value: u8)
        requires
            address < 4096,
        ensures
            final(self)@ == (Machine {
                memory: old(self)@.memory.update(address as int, value),
                ..old(self)@
            }),
    {
        proof {
            use_type_invariant(&*self);
        }
        self.ram[address] = value;
        assert(self@.memory =~= old(self)@.memory.update(address as int, value));
    }

    /// Turns every display cell off.
    fn clear_screen(&mut self)
        ensures
            final(self)@ == (Machine { screen: blank(), ..old(self)@ }),
    {
        proof {
            use_type_invariant(&*self);
        }
        self.screen = [false;SCREEN_SIZE];
        assert(self@.screen =~= blank());
    }

    /// Draws the sprite of `rows` rows at the index register at the
    /// coordinates in registers `x` and `y`, and sets `VF` to 1 if that
    /// turned a lit cell off, to 0 if not.
    fn draw(&mut self, x: u8, y: u8, rows: u8)
        requires
            x < 16,
            y < 16,
            rows < 16,
            rows > 0 ==> old(self).i + rows <= 4096,
        ensures
            final(self)@ == old(self)@.apply(Instruction::Draw { x, y, rows }, 0),
    {
        proof {
            use_type_invariant(&*self);
        }
        let ghost sprite = old(self)@.sprite(x as int, y as int, rows as int);
        let ghost before = old(self)@.screen;
        let x_coord: u16 = self.v[x as usize] as u16;
        let y_coord: u16 = self.v[y as usize] as u16;
        self.v[0xF] = 0;
        let mut flipped_pixels: bool = false;
        let mut j: u8 = 0;
        while j < rows
            invariant
                j <= rows < 16,
                rows > 0 ==> self.i + rows <= 4096,
                sprite == old(self)@.sprite(x as int, y as int, rows as int),
                before == old(self)@.screen,
                x_coord == sprite.left,
                y_coord == sprite.top,
                x_coord < 0x100,
                y_coord < 0x100,
                self.sp <= 16,
                self.pc == old(self).pc,
                self.ram == old(self).ram,
                self.v@ == old(self).v@.update(0xF, 0u8),
                self.i == old(self).i,
                self.stack == old(self).stack,
                self.sp == old(self).sp,
                self.keyboard == old(self).keyboard,
                self.delay_timer == old(self).delay_timer,
                self.sound_timer == old(self).sound_timer,
                forall|c: int|
                    0 <= c < 2048 ==> self.screen@[c] == (before[c] != #[trigger] drawn(
                        sprite,
                        c,
                        j as int,
                        0,
                    )),
                flipped_pixels <==> exists|c: int| #[trigger] struck(before, sprite, c, j as int, 0),
            decreases rows - j,
        {
            let pixels: u8 = self.ram[(self.i + j as u16) as usize];
            assert(pixels == sprite.rows[j as int]);
            let mut k: u8 = 0;
            while k < 8
                invariant
                    j < rows < 16,
                    k <= 8,
                    pixels == sprite.rows[j as int],
                    sprite.rows.len() == rows,
                    before.len() == 2048,
                    x_coord == sprite.left,
                    y_coord == sprite.top,
                    x_coord < 0x100,
                    y_coord < 0x100,
                    self.sp <= 16,
                    self.pc == old(self).pc,
                    self.ram == old(self).ram,
                    self.v@ == old(self).v@.update(0xF, 0u8),
                    self.i == old(self).i,
                    self.stack == old(self).stack,
                    self.sp == old(self).sp,
                    self.keyboard == old(self).keyboard,
                    self.delay_timer == old(self).delay_timer,
                    self.sound_timer == old(self).sound_timer,
                    forall|c: int|
                        0 <= c < 2048 ==> self.screen@[c] == (before[c] != #[trigger] drawn(
                            sprite,
                            c,
                            j as int,
                            k as int,
                        )),
                    flipped_pixels <==> exists|c: int| #[trigger]
                        struck(before, sprite, c, j as int, k as int),
                decreases 8 - k,
            {
                let ghost screen_before = self.screen@;
                let ghost flipped_before = flipped_pixels;
                let a: usize = (x_coord + k as u16) as usize % SCREEN_WIDTH;
                let b: usize = (y_coord + j as u16) as usize % SCREEN_HEIGHT;
                let idx: usize = a + SCREEN_WIDTH * b;
                proof {
                    lemma_cell_of_pixel(sprite, j as int, k as int);
                    assert(idx == sprite.cell_of(j as int, k as int));
                    assert(!drawn(sprite, idx as int, j as int, k as int));
                }
                if (pixels & (0x80u8 >> k)) != 0 {
                    flipped_pixels = flipped_pixels || self.screen[idx];
                    self.screen[idx] = !self.screen[idx];
                }
                proof {
                    assert forall|c: int| 0 <= c < 2048 implies self.screen@[c] == (before[c]
                        != #[trigger] drawn(sprite, c, j as int, k + 1)) by {
                        lemma_pixel_of_cell(sprite, c);
                        assert(screen_before[c] == (before[c] != drawn(
                            sprite,
                            c,
                            j as int,
                            k as int,
                        )));
                    }
                    if flipped_pixels {
                        if flipped_before {
                            let c = choose|c: int| #[trigger] struck(before, sprite, c, j as int, k as int);
                            assert(struck(before, sprite, c, j as int, k + 1));
                        } else {
                            assert(struck(before, sprite, idx as int, j as int, k + 1));
                        }
                    }
                    if exists|c: int| #[trigger] struck(before, sprite, c, j as int, k + 1) {
                        let c = choose|c: int| #[trigger] struck(before, sprite, c, j as int, k + 1);
                        lemma_pixel_of_cell(sprite, c);
                        if c != idx {
                            assert(struck(before, sprite, c, j as int, k as int));
                        }
                    }
                }
                k += 1;
            }
            proof {
                assert forall|c: int| 0 <= c < 2048 implies self.screen@[c] == (before[c]
                    != #[trigger] drawn(sprite, c, j + 1, 0)) by {
                    assert(drawn(sprite, c, j + 1, 0) == drawn(sprite, c, j as int, 8));
                }
                if flipped_pixels {
                    let c = choose|c: int| #[trigger] struck(before, sprite, c, j as int, 8);
                    assert(struck(before, sprite, c, j + 1, 0));
                }
                if exists|c: int| #[trigger] struck(before, sprite, c, j + 1, 0) {
                    let c = choose|c: int| #[trigger] struck(before, sprite, c, j + 1, 0);
                    assert(struck(before, sprite, c, j as int, 8));
                }
            }
            j += 1;
        }
        self.v[0xF] = if flipped_pixels { 1 } else { 0 };
        proof {
            assert forall|c: int| 0 <= c < 2048 implies self.screen@[c] == blit(before, sprite)[c] by {
                assert(drawn(sprite, c, rows as int, 0) == sprite.covers(c));
            }
            assert(self.screen@ =~= blit(before, sprite));
            if flipped_pixels {
                let c = choose|c: int| #[trigger] struck(before, sprite, c, rows as int, 0);
                assert(hits(before, sprite, c));
            }
            if collides(before, sprite) {
                let c = choose|c: int| #[trigger] hits(before, sprite, c);
                assert(struck(before, sprite, c, rows as int, 0));
            }
            assert(self@ =~= old(self)@.apply(Instruction::Draw { x, y, rows }, 0));
        }
    }

    /// Stores the number of the lowest key that is down in register `x`,
    /// or, if no key is down, skips the next instruction.
    fn wait_key(&mut self, x: u8)
        requires
            x < 16,
            old(self).pc <= 0xFFFD,
        ensures
            final(self)@ == old(self)@.apply(Instruction::WaitKey { x }, 0),
    {
        proof {
            use_type_invariant(&*self);
        }
        let mut pressed: bool = false;
        let mut k: usize = 0;
        while k < 16
            invariant_except_break
                k <= 16,
                !pressed,
                self.v == old(self).v,
            invariant
                x < 16,
                self.sp <= 16,
                self.pc == old(self).pc,
                self.ram == old(self).ram,
                self.screen == old(self).screen,
                self.i == old(self).i,
                self.stack == old(self).stack,
                self.sp == old(self).sp,
                self.keyboard == old(self).keyboard,
                self.delay_timer == old(self).delay_timer,
                self.sound_timer == old(self).sound_timer,
                forall|lower: int| 0 <= lower < k ==> !self.keyboard@[lower],
            ensures
                pressed ==> k < 16 && self.keyboard@[k as int] && self.v@ == old(self).v@.update(
                    x as int,
                    k as u8,
                ),
                !pressed ==> k == 16 && self.v == old(self).v,
            decreases 16 - k,
        {
            if self.keyboard[k] {
                self.v[x as usize] = k as u8;
                pressed = true;
                break ;
            }
            k += 1;
        }
        if !pressed {
            self.pc += 2;
        }
        proof {
            if pressed {
                assert(old(self)@.is_lowest_pressed(k as int));
                assert(old(self)@.any_pressed());
                assert(old(self)@.is_lowest_pressed(old(self)@.lowest_pressed()));
                assert(old(self)@.lowest_pressed() == k);
            }
            assert(self@ =~= old(self)@.apply(Instruction::WaitKey { x }, 0));
        }
    }

    /// Copies registers 0 to `x` to memory at the index register.
    fn store_registers(&mut self, x: u8)
        requires
            x < 16,
            old(self).i + x < 4096,
        ensures
            final(self)@ == old(self)@.apply(Instruction::Store { x }, 0),
    {
        proof {
            use_type_invariant(&*self);
        }
        let mut idx: usize = 0;
        while idx <= x as usize
            invariant
                x < 16,
                idx <= x + 1,
                self.i + x < 4096,
                self.sp <= 16,
                self.pc == old(self).pc,
                self.screen == old(self).screen,
                self.v == old(self).v,
                self.i == old(self).i,
                self.stack == old(self).stack,
                self.sp == old(self).sp,
                self.keyboard == old(self).keyboard,
                self.delay_timer == old(self).delay_timer,
                self.sound_timer == old(self).sound_timer,
                forall|a: int|
                    0 <= a < 4096 ==> self.ram@[a] == if self.i <= a < self.i + idx {
                        self.v@[a - self.i]
                    } else {
                        old(self).ram@[a]
                    },
            decreases x + 1 - idx,
        {
            self.ram[(self.i as usize) + idx] = self.v[idx];
            idx += 1;
        }
        assert(self@ =~= old(self)@.apply(Instruction::Store { x }, 0));
    }

    /// Copies memory at the index register to registers 0 to `x`.
    fn load_registers(&mut self, x: u8)
        requires
            x < 16,
            old(self).i + x < 4096,
        ensures
            final(self)@ == old(self)@.apply(Instruction::Load { x }, 0),
    {
        proof {
            use_type_invariant(&*self);
        }
        let mut idx: usize = 0;
        while idx <= x as usize
            invariant
                x < 16,
                idx <= x + 1,
                self.i + x < 4096,
                self.sp <= 16,
                self.pc == old(self).pc,
                self.ram == old(self).ram,
                self.screen == old(self).screen,
                self.i == old(self).i,
                self.stack == old(self).stack,
                self.sp == old(self).sp,
                self.keyboard == old(self).keyboard,
                self.delay_timer == old(self).delay_timer,
                self.sound_timer == old(self).sound_timer,
                forall|r: int|
                    0 <= r < 16 ==> self.v@[r] == if r < idx {
                        self.ram@[self.i + r]
                    } else {
                        old(self).v@[r]
                    },
            decreases x + 1 - idx,
        {
            self.v[idx] = self.ram[(self.i as usize) + idx];
            idx += 1;
        }
        assert(self@ =~= old(self)@.apply(Instruction::Load { x }, 0));
    }
}

/// Whether the draw loop, about to handle pixel (`row`, `column`) of
/// `sprite`, has already inverted display cell `cell`.
spec fn drawn(sprite: Sprite, cell: int, row: int, column: int) -> bool {
    sprite.covers(cell) && (sprite.row_at(cell) < row || (sprite.row_at(cell) == row
        && sprite.column_at(cell) < column))
}

/// Whether the draw loop, about to handle pixel (`row`, `column`), has
/// already turned off cell `cell`, which was lit in `before`.
spec fn struck(before: Seq<bool>, sprite: Sprite, cell: int, row: int, column: int) -> bool {
    hits(before, sprite, cell) && drawn(sprite, cell, row, column)
}

/// A cell of the display is the cell of exactly one sprite pixel.
proof fn lemma_pixel_of_cell(sprite: Sprite, cell: int)
    requires
        0 <= cell < 2048,
    ensures
        0 <= sprite.row_at(cell) < 32,
        0 <= sprite.column_at(cell) < 64,
        sprite.cell_of(sprite.row_at(cell), sprite.column_at(cell)) == cell,
{
}

} // verus!
