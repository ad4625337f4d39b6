//! The interpreter: the machine's state and the fetch, decode and execute cycle.

use vstd::prelude::*;
use crate::fault::Fault;
use crate::graphics::Graphics;
use crate::keyboard::{latest_press, Keyboard, KEY_COUNT};
use crate::machine::{address_of, alu_flag, alu_result, byte_of, Machine, WORD};
use crate::memory::{with_font, with_program, Memory, MAX_PROGRAM_SIZE, MEM_SIZE};
use crate::nibble::{merge, merge_u16, split};
use crate::operation::{decode, decode_spec, is_opcode, Opcode, Operation};
use crate::random::random_byte;
use crate::registers::{Registers, FLAG_REGISTER, REGISTER_COUNT};
use crate::stack::{Stack, STACK_SIZE};

verus! {

/// The virtual machine. Its view is the [`Machine`] that its parts stand for.
pub struct Chip8 {
    pub mem: Memory,
    pub regs: Registers,
    pub gfx: Graphics,
    pub stack: Stack,
    pub keyboard: Keyboard,
    /// Set by the wait-for-key operation; the driver clears it when it
    /// delivers a key.
    pub waiting_for_keyboard: bool,
    /// The register that the awaited key goes to.
    pub keyboard_register: u8,
}

impl View for Chip8 {
    type V = Machine;

    open spec fn view(&self) -> Machine {
        Machine {
            mem: self.mem@,
            v: self.regs.v@,
            i: self.regs.i,
            pc: self.regs.pc,
            delay_timer: self.regs.delay_timer,
            sound_timer: self.regs.sound_timer,
            stack: self.stack@,
            slots: self.stack.slots(),
            gfx: self.gfx@,
            keys: self.keyboard@,
            waiting_for_keyboard: self.waiting_for_keyboard,
            keyboard_register: self.keyboard_register,
        }
    }
}

impl Chip8 {
    /// A machine with memory, registers and screen cleared, an empty stack,
    /// and the program counter at the start of the program. The font is not
    /// loaded yet.
    pub fn new() -> (r: Chip8)
        ensures
            r@ == Machine::initial(),
            r@.wf(),
    {
        let r = Chip8 {
            mem: Memory::new(),
            regs: Registers::new(),
            gfx: Graphics::new(),
            stack: Stack::new(),
            keyboard: Keyboard::new(),
            waiting_for_keyboard: false,
            keyboard_register: 0,
        };
        assert(r@ =~= Machine::initial());
        r.shape();
        r
    }

    /// Does nothing when run. It tells the verifier that the view of a machine
    /// is well formed, which rests on the invariant of its stack.
    #[inline]
    fn shape(&self)
        ensures
            self@.wf(),
    {
        proof {
            use_type_invariant(&self.stack);
            self.stack.lemma_shape();
        }
    }

    /// Loads the glyph font into the start of memory.
    pub fn initialize(&mut self)
        ensures
            final(self)@ == (Machine { mem: with_font(old(self)@.mem), ..old(self)@ }),
            final(self)@.wf(),
    {
        self.mem.load_fontset();
        self.shape();
    }

    /// Copies a program image into memory at the start of the program. An
    /// image of more than `MAX_PROGRAM_SIZE` bytes is refused, and the machine
    /// stays as it was.
    pub fn load_program(&mut self, data: &[u8]) -> (r: Result<(), Fault>)
        ensures
            data@.len() <= MAX_PROGRAM_SIZE ==> r == Ok::<(), Fault>(()) && final(self)@ == (Machine {
                mem: with_program(old(self)@.mem, data@),
                ..old(self)@
            }),
            data@.len() > MAX_PROGRAM_SIZE ==> r == Err::<(), Fault>(
                Fault::ImageTooLarge(data@.len() as usize),
            ) && final(self)@ == old(self)@,
            final(self)@.wf(),
    {
        self.shape();
        self.mem.load_program(data)
    }

    /// Reads the instruction word at the program counter, which must lie in
    /// memory with the byte after it.
    pub fn fetch(&self) -> (opcode: Opcode)
        requires
            self@.can_fetch(),
        ensures
            opcode == self@.opcode(),
            is_opcode(opcode),
    {
        let first = split(self.mem.read(self.regs.pc));
        let second = split(self.mem.read(self.regs.pc + 1));
        (first.0, first.1, second.0, second.1)
    }

    /// Takes over the state of the keys as the driver reports it, once per
    /// frame. If a key press is awaited and a key has gone down since the last
    /// report, the highest such key is stored in the awaiting register and the
    /// wait is over. Where a key is delivered, `keyboard_register` must name a
    /// register, as it does when the machine itself has set it.
    pub fn set_keys(&mut self, keys: &[bool; KEY_COUNT])
        requires
            old(self).waiting_for_keyboard && latest_press(
                old(self)@.keys,
                keys@,
                KEY_COUNT as int,
            ) is Some ==> old(self).keyboard_register < REGISTER_COUNT,
        ensures
            final(self)@ == old(self)@.with_keys(keys@),
            final(self)@.wf(),
    {
        let pressed = self.keyboard.newly_pressed(keys);
        self.keyboard.0 = *keys;
        if self.waiting_for_keyboard {
            if let Some(key) = pressed {
                self.waiting_for_keyboard = false;
                self.regs.set(self.keyboard_register, key);
            }
        }
        self.shape();
    }

    /// Moves the program counter to the next instruction.
    fn advance(&mut self)
        requires
            old(self)@.can_fetch(),
        ensures
            final(self)@ == old(self)@.advance(1),
    {
        self.regs.pc += WORD;
    }

    /// Moves the program counter past the next instruction if `condition`
    /// holds, and to the next instruction otherwise.
    fn skip_if(&mut self, condition: bool)
        requires
            old(self)@.can_fetch(),
        ensures
            final(self)@ == old(self)@.skip_if(condition),
    {
        self.regs.pc += if condition {
            2 * WORD
        } else {
            WORD
        };
    }

    /// Sets register `Vx` to `value`.
    fn set_v(&mut self, x: u8, value: u8)
        requires
            x < REGISTER_COUNT,
        ensures
            final(self)@ == old(self)@.set_v(x as int, value),
    {
        self.regs.set(x, value);
    }

    /// Sets the flag register to 1 if `flag` holds and to 0 otherwise.
    fn set_flag(&mut self, flag: bool)
        ensures
            final(self)@ == old(self)@.set_flag(flag),
    {
        self.regs.v[FLAG_REGISTER] = if flag {
            1
        } else {
            0
        };
    }

    /// Tells which fault, if any, keeps `op` with operands `opcode` from being
    /// executed now.
    fn fault_of(&self, op: Operation, opcode: Opcode) -> (r: Option<Fault>)
        requires
            is_opcode(opcode),
        ensures
            r == self@.fault_of(op, opcode),
    {
        let x: u8 = opcode.1;
        let n: u8 = opcode.3;
        let vx: u8 = self.regs.get(x);
        let i: usize = self.regs.i as usize;
        match op {
            Operation::Return => if self.stack.depth() == 0 {
                Some(Fault::StackUnderflow)
            } else {
                None
            },
            Operation::Call => if self.stack.depth() >= STACK_SIZE {
                Some(Fault::StackOverflow)
            } else {
                None
            },
            Operation::Draw => if n > 0 && i + n as usize > MEM_SIZE {
                Some(Fault::AddressOutOfRange)
            } else {
                None
            },
            Operation::SkipKeyDown | Operation::SkipKeyUp => if vx as usize >= KEY_COUNT {
                Some(Fault::KeyOutOfRange(vx))
            } else {
                None
            },
            Operation::StoreBcd => if i + 2 >= MEM_SIZE {
                Some(Fault::AddressOutOfRange)
            } else {
                None
            },
            Operation::StoreRegs | Operation::LoadRegs => if i + x as usize >= MEM_SIZE {
                Some(Fault::AddressOutOfRange)
            } else {
                None
            },
            _ => None,
        }
    }

    /// `Dxyn`: draws the `n`-row sprite at `I` at position `(Vx, Vy)` and sets the
    /// flag register to tell whether a lit pixel was turned off.
    fn op_draw(&mut self, opcode: Opcode)
        requires
            old(self)@.can_fetch(),
            is_opcode(opcode),
            old(self)@.fault_of(Operation::Draw, opcode) is None,
        ensures
            final(self)@ == old(self)@.apply(Operation::Draw, opcode, 0),
    {
        let vx: u8 = self.regs.get(opcode.1);
        let vy: u8 = self.regs.get(opcode.2);
        let collision = self.gfx.draw_sprite(&self.mem, self.regs.i, opcode.3, vx, vy);
        self.set_flag(collision);
        self.advance();
    }

    /// `Fx33`: stores the hundreds, tens and units digit of `Vx` at `I`, `I + 1` and `I + 2`.
    fn op_store_bcd(&mut self, opcode: Opcode)
        requires
            old(self)@.can_fetch(),
            is_opcode(opcode),
            old(self)@.fault_of(Operation::StoreBcd, opcode) is None,
        ensures
            final(self)@ == old(self)@.apply(Operation::StoreBcd, opcode, 0),
    {
        let vx: u8 = self.regs.get(opcode.1);
        let i: u16 = self.regs.i;
        self.mem.write(i, vx / 100);
        self.mem.write(i + 1, (vx % 100) / 10);
        self.mem.write(i + 2, vx % 10);
        self.advance();
    }

    /// `Fx55`: copies the registers `V0..=Vx` to memory from `I` on.
    fn op_store_regs(&mut self, opcode: Opcode)
        requires
            old(self)@.can_fetch(),
            is_opcode(opcode),
            old(self)@.fault_of(Operation::StoreRegs, opcode) is None,
        ensures
            final(self)@ == old(self)@.apply(Operation::StoreRegs, opcode, 0),
    {
        let x: u8 = opcode.1;
        let i: u16 = self.regs.i;
        let mut k: u8 = 0;
        while k <= x
            invariant
                k <= x + 1,
                x < 16,
                i + x < MEM_SIZE,
                i == old(self)@.i,
                self@ == (Machine { mem: self@.mem, ..old(self)@ }),
                forall|a: int|
                    0 <= a < MEM_SIZE ==> self@.mem[a] == if i <= a < i + k {
                        old(self)@.v[a - i]
                    } else {
                        old(self)@.mem[a]
                    },
            decreases x + 1 - k,
        {
            let value: u8 = self.regs.get(k);
            self.mem.write(i + k as u16, value);
            k += 1;
        }
        assert(self@.mem =~= old(self)@.apply(Operation::StoreRegs, opcode, 0).mem);
        self.advance();
    }

    /// `Fx65`: copies memory from `I` on to the registers `V0..=Vx`.
    fn op_load_regs(&mut self, opcode: Opcode)
        requires
            old(self)@.can_fetch(),
            is_opcode(opcode),
            old(self)@.fault_of(Operation::LoadRegs, opcode) is None,
        ensures
            final(self)@ == old(self)@.apply(Operation::LoadRegs, opcode, 0),
    {
        let x: u8 = opcode.1;
        let i: u16 = self.regs.i;
        let mut k: u8 = 0;
        while k <= x
            invariant
                k <= x + 1,
                x < 16,
                i + x < MEM_SIZE,
                i == old(self)@.i,
                self@ == (Machine { v: self@.v, ..old(self)@ }),
                forall|j: int|
                    0 <= j < 16 ==> self@.v[j] == if j < k {
                        old(self)@.mem[i + j]
                    } else {
                        old(self)@.v[j]
                    },
            decreases x + 1 - k,
        {
            let value: u8 = self.mem.read(i + k as u16);
            self.set_v(k, value);
            k += 1;
        }
        assert(self@.v =~= old(self)@.apply(Operation::LoadRegs, opcode, 0).v);
        self.advance();
    }

    /// `00EE`: returns to the address on top of the stack.
    fn op_return(&mut self, opcode: Opcode)
        requires
            old(self)@.can_fetch(),
            is_opcode(opcode),
            old(self)@.fault_of(Operation::Return, opcode) is None,
        ensures
            final(self)@ == old(self)@.apply(Operation::Return, opcode, 0),
    {
        self.regs.pc = self.stack.pop();
    }

    /// `1nnn`: jumps to `nnn`.
    fn op_jump(&mut self, opcode: Opcode)
        requires
            old(self)@.can_fetch(),
            is_opcode(opcode),
        ensures
            final(self)@ == old(self)@.apply(Operation::Jump, opcode, 0),
    {
        let nnn: u16 = merge_u16(0x0, opcode.1, opcode.2, opcode.3);
        assert(nnn == address_of(opcode));
        self.regs.pc = nnn;
    }

    /// `2nnn`: puts the address of the next instruction on the stack and jumps to
    /// `nnn`.
    fn op_call(&mut self, opcode: Opcode)
        requires
            old(self)@.can_fetch(),
            is_opcode(opcode),
            old(self)@.fault_of(Operation::Call, opcode) is None,
        ensures
            final(self)@ == old(self)@.apply(Operation::Call, opcode, 0),
    {
        let nnn: u16 = merge_u16(0x0, opcode.1, opcode.2, opcode.3);
        assert(nnn == address_of(opcode));
        self.stack.push(self.regs.pc + WORD);
        self.regs.pc = nnn;
    }

    /// `Bnnn`: jumps to `nnn + V0`.
    fn op_jump_offset(&mut self, opcode: Opcode)
        requires
            old(self)@.can_fetch(),
            is_opcode(opcode),
        ensures
            final(self)@ == old(self)@.apply(Operation::JumpOffset, opcode, 0),
    {
        let nnn: u16 = merge_u16(0x0, opcode.1, opcode.2, opcode.3);
        assert(nnn == address_of(opcode));
        self.regs.pc = nnn + self.regs.get(0) as u16;
    }

    /// Executes a conditional skip.
    fn execute_skip(&mut self, op: Operation, opcode: Opcode)
        requires
            op.is_skip(),
            old(self)@.can_fetch(),
            is_opcode(opcode),
            old(self)@.fault_of(op, opcode) is None,
        ensures
            final(self)@ == old(self)@.apply(op, opcode, 0),
    {
        let vx: u8 = self.regs.get(opcode.1);
        let vy: u8 = self.regs.get(opcode.2);
        let kk: u8 = merge(opcode.2, opcode.3);
        assert(kk == byte_of(opcode));
        let condition: bool = match op {
            Operation::SkipEqByte => vx == kk,
            Operation::SkipNeByte => vx != kk,
            Operation::SkipEqReg => vx == vy,
            Operation::SkipNeReg => vx != vy,
            Operation::SkipKeyDown => self.keyboard.0[vx as usize],
            Operation::SkipKeyUp => !self.keyboard.0[vx as usize],
            _ => false,
        };
        self.skip_if(condition);
    }

    /// Executes an operation that combines `Vx` and `Vy`. Both are read
    /// first; the result goes to `Vx`, and then the flag, where the operation
    /// has one, to `VF`.
    fn execute_alu(&mut self, op: Operation, opcode: Opcode)
        requires
            op.is_alu(),
            old(self)@.can_fetch(),
            is_opcode(opcode),
        ensures
            final(self)@ == old(self)@.apply(op, opcode, 0),
    {
        let vx: u8 = self.regs.get(opcode.1);
        let vy: u8 = self.regs.get(opcode.2);
        let (result, flag) = alu(op, vx, vy);
        self.set_v(opcode.1, result);
        if let Some(flag) = flag {
            self.set_flag(flag);
        }
        self.advance();
    }

    /// `00E0`: clears the screen.
    fn op_clear_screen(&mut self, opcode: Opcode)
        requires
            old(self)@.can_fetch(),
            is_opcode(opcode),
        ensures
            final(self)@ == old(self)@.apply(Operation::ClearScreen, opcode, 0),
    {
        self.gfx.clear();
        self.advance();
    }

    /// `6xkk`: sets `Vx` to `kk`.
    fn op_load_byte(&mut self, opcode: Opcode)
        requires
            old(self)@.can_fetch(),
            is_opcode(opcode),
        ensures
            final(self)@ == old(self)@.apply(Operation::LoadByte, opcode, 0),
    {
        let kk: u8 = merge(opcode.2, opcode.3);
        assert(kk == byte_of(opcode));
        self.set_v(opcode.1, kk);
        self.advance();
    }

    /// `7xkk`: adds `kk` to `Vx`, wrapping, and leaves the flag alone.
    fn op_add_byte(&mut self, opcode: Opcode)
        requires
            old(self)@.can_fetch(),
            is_opcode(opcode),
        ensures
            final(self)@ == old(self)@.apply(Operation::AddByte, opcode, 0),
    {
        let kk: u8 = merge(opcode.2, opcode.3);
        assert(kk == byte_of(opcode));
        let vx: u8 = self.regs.get(opcode.1);
        let sum: u8 = vx.wrapping_add(kk);
        proof {
            lemma_wrapped_sum(vx, kk, sum);
        }
        self.set_v(opcode.1, sum);
        self.advance();
    }

    /// `Annn`: sets `I` to `nnn`.
    fn op_load_index(&mut self, opcode: Opcode)
        requires
            old(self)@.can_fetch(),
            is_opcode(opcode),
        ensures
            final(self)@ == old(self)@.apply(Operation::LoadIndex, opcode, 0),
    {
        let nnn: u16 = merge_u16(0x0, opcode.1, opcode.2, opcode.3);
        assert(nnn == address_of(opcode));
        self.regs.i = nnn;
        self.advance();
    }

    /// `Cxkk`: sets `Vx` to `random` masked with `kk`.
    fn op_random(&mut self, opcode: Opcode, random: u8)
        requires
            old(self)@.can_fetch(),
            is_opcode(opcode),
        ensures
            final(self)@ == old(self)@.apply(Operation::Random, opcode, random),
    {
        let kk: u8 = merge(opcode.2, opcode.3);
        assert(kk == byte_of(opcode));
        self.set_v(opcode.1, random & kk);
        self.advance();
    }

    /// `Fx07`: sets `Vx` to the delay timer.
    fn op_read_delay(&mut self, opcode: Opcode)
        requires
            old(self)@.can_fetch(),
            is_opcode(opcode),
        ensures
            final(self)@ == old(self)@.apply(Operation::ReadDelay, opcode, 0),
    {
        self.set_v(opcode.1, self.regs.delay_timer);
        self.advance();
    }

    /// `Fx0A`: records that a key press is awaited for `Vx`. The machine goes
    /// on; it is the driver that holds it until a key comes.
    fn op_wait_key(&mut self, opcode: Opcode)
        requires
            old(self)@.can_fetch(),
            is_opcode(opcode),
        ensures
            final(self)@ == old(self)@.apply(Operation::WaitKey, opcode, 0),
    {
        self.waiting_for_keyboard = true;
        self.keyboard_register = opcode.1;
        self.advance();
    }

    /// `Fx15`: sets the delay timer to `Vx`.
    fn op_set_delay(&mut self, opcode: Opcode)
        requires
            old(self)@.can_fetch(),
            is_opcode(opcode),
        ensures
            final(self)@ == old(self)@.apply(Operation::SetDelay, opcode, 0),
    {
        let vx: u8 = self.regs.get(opcode.1);
        self.regs.delay_timer = vx;
        self.advance();
    }

    /// `Fx18`: sets the sound timer to `Vx`.
    fn op_set_sound(&mut self, opcode: Opcode)
        requires
            old(self)@.can_fetch(),
            is_opcode(opcode),
        ensures
            final(self)@ == old(self)@.apply(Operation::SetSound, opcode, 0),
    {
        let vx: u8 = self.regs.get(opcode.1);
        self.regs.sound_timer = vx;
        self.advance();
    }

    /// `Fx1E`: adds `Vx` to `I`, wrapping, without a flag.
    fn op_add_index(&mut self, opcode: Opcode)
        requires
            old(self)@.can_fetch(),
            is_opcode(opcode),
        ensures
            final(self)@ == old(self)@.apply(Operation::AddIndex, opcode, 0),
    {
        let vx: u8 = self.regs.get(opcode.1);
        self.regs.i = self.regs.i.wrapping_add(vx as u16);
        self.advance();
    }

    /// `Fx29`: sets `I` to the address of the glyph for the digit in `Vx`.
    fn op_font_glyph(&mut self, opcode: Opcode)
        requires
            old(self)@.can_fetch(),
            is_opcode(opcode),
        ensures
            final(self)@ == old(self)@.apply(Operation::FontGlyph, opcode, 0),
    {
        let vx: u8 = self.regs.get(opcode.1);
        self.regs.i = (vx as u16) * 5;
        self.advance();
    }

    /// Executes `op` with operands `opcode`. `random` is the byte that the
    /// random operation uses; the others ignore it.
    fn execute(&mut self, op: Operation, opcode: Opcode, random: u8)
        requires
            old(self)@.can_fetch(),
            is_opcode(opcode),
            old(self)@.fault_of(op, opcode) is None,
        ensures
            final(self)@ == old(self)@.apply(op, opcode, random),
    {
        match op {
            Operation::ClearScreen => self.op_clear_screen(opcode),
            Operation::Return => self.op_return(opcode),
            Operation::Jump => self.op_jump(opcode),
            Operation::Call => self.op_call(opcode),
            Operation::SkipEqByte
            | Operation::SkipNeByte
            | Operation::SkipEqReg
            | Operation::SkipNeReg
            | Operation::SkipKeyDown
            | Operation::SkipKeyUp => self.execute_skip(op, opcode),
            Operation::LoadByte => self.op_load_byte(opcode),
            Operation::AddByte => self.op_add_byte(opcode),
            Operation::Move
            | Operation::Or
            | Operation::And
            | Operation::Xor
            | Operation::AddCarry
            | Operation::SubBorrow
            | Operation::ShiftRight
            | Operation::SubReverse
            | Operation::ShiftLeft => self.execute_alu(op, opcode),
            Operation::LoadIndex => self.op_load_index(opcode),
            Operation::JumpOffset => self.op_jump_offset(opcode),
            Operation::Random => self.op_random(opcode, random),
            Operation::Draw => self.op_draw(opcode),
            Operation::ReadDelay => self.op_read_delay(opcode),
            Operation::WaitKey => self.op_wait_key(opcode),
            Operation::SetDelay => self.op_set_delay(opcode),
            Operation::SetSound => self.op_set_sound(opcode),
            Operation::AddIndex => self.op_add_index(opcode),
            Operation::FontGlyph => self.op_font_glyph(opcode),
            Operation::StoreBcd => self.op_store_bcd(opcode),
            Operation::StoreRegs => self.op_store_regs(opcode),
            Operation::LoadRegs => self.op_load_regs(opcode),
        }
    }

    /// Lowers each timer that is not zero by one.
    fn tick(&mut self)
        ensures
            final(self)@ == old(self)@.tick(),
    {
        if self.regs.delay_timer > 0 {
            self.regs.delay_timer -= 1;
        }
        if self.regs.sound_timer > 0 {
            self.regs.sound_timer -= 1;
        }
    }

    /// Fetches and decodes the instruction at the program counter and checks
    /// that it can be executed, without changing anything.
    pub fn next_operation(&self) -> (r: Result<(Operation, Opcode), Fault>)
        ensures
            match r {
                Ok((op, opcode)) => self@.fault() is None && opcode == self@.opcode()
                    && decode_spec(opcode) == Some(op),
                Err(fault) => self@.fault() == Some(fault),
            },
    {
        if self.regs.pc as usize + 1 >= MEM_SIZE {
            return Err(Fault::FetchOutOfRange);
        }
        let opcode = self.fetch();
        match decode(opcode) {
            None => Err(Fault::UnknownOpcode(opcode)),
            Some(op) => match self.fault_of(op, opcode) {
                Some(fault) => Err(fault),
                None => Ok((op, opcode)),
            },
        }
    }

    /// Runs one cycle with `random` as the byte that the random operation
    /// would draw: the instruction at the program counter is executed, then
    /// both timers tick. Where the instruction cannot be executed the fault is
    /// returned and the machine stays as it was.
    pub fn cycle_with(&mut self, random: u8) -> (r: Result<(), Fault>)
        ensures
            match r {
                Ok(_) => old(self)@.fault() is None && final(self)@ == old(self)@.step(random),
                Err(fault) => old(self)@.fault() == Some(fault) && final(self)@ == old(self)@,
            },
            final(self)@.wf(),
    {
        match self.next_operation() {
            Err(fault) => {
                self.shape();
                Err(fault)
            },
            Ok((op, opcode)) => {
                self.execute(op, opcode, random);
                self.tick();
                self.shape();
                Ok(())
            },
        }
    }

    /// Runs one cycle: the instruction at the program counter is executed,
    /// then both timers tick. The random operation draws its byte from the
    /// generator, so the new state is the step for some byte. Where the
    /// instruction cannot be executed the fault is returned and the machine
    /// stays as it was.
    pub fn cycle(&mut self) -> (r: Result<(), Fault>)
        ensures
            match r {
                Ok(_) => old(self)@.fault() is None && exists|random: u8|
                    final(self)@ == old(self)@.step(random),
                Err(fault) => old(self)@.fault() == Some(fault) && final(self)@ == old(self)@,
            },
            final(self)@.wf(),
    {
        match self.next_operation() {
            Err(fault) => {
                self.shape();
                Err(fault)
            },
            Ok((op, opcode)) => {
                let random: u8 = match op {
                    Operation::Random => random_byte(),
                    _ => 0,
                };
                self.execute(op, opcode, random);
                self.tick();
                self.shape();
                assert(self@ == old(self)@.step(random));
                Ok(())
            },
        }
    }
}

/// A sum of two bytes that wraps round is their sum modulo 256.
proof fn lemma_wrapped_sum(a: u8, b: u8, sum: u8)
    requires
        sum == (if a + b > 255 {
            a + b - 256
        } else {
            a + b
        }),
    ensures
        sum == ((a + b) % 256) as u8,
{
}

/// A difference of two bytes that wraps round is their difference modulo 256.
proof fn lemma_wrapped_difference(a: u8, b: u8, difference: u8)
    requires
        difference == (if a - b < 0 {
            a - b + 256
        } else {
            a - b
        }),
    ensures
        difference == ((a - b) % 256) as u8,
{
}

/// Computes what the register-register operation `op` makes of `vx` and
/// `vy`: the value for `Vx`, and the flag for `VF` where `op` has one.
fn alu(op: Operation, vx: u8, vy: u8) -> (r: (u8, Option<bool>))
    ensures
        r.0 == alu_result(op, vx, vy),
        r.1 == alu_flag(op, vx, vy),
{
    match op {
        Operation::Move => (vy, None),
        Operation::Or => (vx | vy, None),
        Operation::And => (vx & vy, None),
        Operation::Xor => (vx ^ vy, None),
        Operation::AddCarry => {
            let sum: u8 = vx.wrapping_add(vy);
            proof {
                lemma_wrapped_sum(vx, vy, sum);
            }
            (sum, Some(vx as u16 + vy as u16 > 255))
        },
        Operation::SubBorrow => {
            let difference: u8 = vx.wrapping_sub(vy);
            proof {
                lemma_wrapped_difference(vx, vy, difference);
            }
            (difference, Some(vx >= vy))
        },
        Operation::ShiftRight => {
            assert(vx >> 1 == vx / 2) by (bit_vector);
            assert((vx & 1 == 1) == (vx % 2 == 1)) by (bit_vector);
            (vx >> 1, Some(vx & 1 == 1))
        },
        Operation::SubReverse => {
            let difference: u8 = vy.wrapping_sub(vx);
            proof {
                lemma_wrapped_difference(vy, vx, difference);
            }
            (difference, Some(vy >= vx))
        },
        Operation::ShiftLeft => {
            assert(vx << 1 == (2 * vx) % 256) by (bit_vector);
            assert(((vx & 0x80) >> 7 == 1) == (vx >= 128)) by (bit_vector);
            (vx << 1, Some((vx & 0x80) >> 7 == 1))
        },
        _ => (vx, None),
    }
}

} // verus!
