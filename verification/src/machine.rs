//! The mathematical model of the machine: its state as plain sequences, the
//! meaning of each operation, and the step that one cycle takes.

use vstd::prelude::*;
use crate::fault::Fault;
use crate::graphics::{blank_frame, blit_frame, collides, is_frame, sprite_rows};
use crate::keyboard::{latest_press, KEY_COUNT};
use crate::memory::MEM_SIZE;
use crate::nibble::split_spec;
use crate::operation::{decode_spec, is_opcode, Opcode, Operation};
use crate::registers::{FLAG_REGISTER, REGISTER_COUNT};
use crate::stack::STACK_SIZE;

verus! {

/// The size of an instruction in bytes.
pub const WORD: u16 = 2;

/// The byte `kk` that an instruction word carries in its last two nibbles.
pub open spec fn byte_of(opcode: Opcode) -> u8 {
    (16 * opcode.2 + opcode.3) as u8
}

/// The address `nnn` that an instruction word carries in its last three nibbles.
pub open spec fn address_of(opcode: Opcode) -> u16 {
    (256 * opcode.1 + 16 * opcode.2 + opcode.3) as u16
}

/// The value that the register-register operation `op` computes from `Vx` and
/// `Vy`. Sums, differences and the left shift are taken modulo 256. For any
/// other operation it is `Vx` itself.
pub open spec fn alu_result(op: Operation, vx: u8, vy: u8) -> u8 {
    match op {
        Operation::Move => vy,
        Operation::Or => vx | vy,
        Operation::And => vx & vy,
        Operation::Xor => vx ^ vy,
        Operation::AddCarry => ((vx + vy) % 256) as u8,
        Operation::SubBorrow => ((vx - vy) % 256) as u8,
        Operation::ShiftRight => vx / 2,
        Operation::SubReverse => ((vy - vx) % 256) as u8,
        Operation::ShiftLeft => ((2 * vx) % 256) as u8,
        _ => vx,
    }
}

/// The flag that the register-register operation `op` raises, for those that
/// have one: the carry of the add, the absence of a borrow of the two
/// subtractions, and the bit that a shift pushes out.
pub open spec fn alu_flag(op: Operation, vx: u8, vy: u8) -> Option<bool> {
    match op {
        Operation::AddCarry => Some(vx + vy > 255),
        Operation::SubBorrow => Some(vx >= vy),
        Operation::ShiftRight => Some(vx % 2 == 1),
        Operation::SubReverse => Some(vy >= vx),
        Operation::ShiftLeft => Some(vx >= 128),
        _ => None,
    }
}

/// The state of the machine.
#[verifier::ext_equal]
pub struct Machine {
    /// The bytes of memory.
    pub mem: Seq<u8>,
    /// The general-purpose registers `V0..VF`.
    pub v: Seq<u8>,
    /// The index register `I`.
    pub i: u16,
    /// The program counter.
    pub pc: u16,
    pub delay_timer: u8,
    pub sound_timer: u8,
    /// The return addresses, the oldest first.
    pub stack: Seq<u16>,
    /// The content of the sixteen slots of the stack. The first of them hold
    /// the return addresses; the others hold what was last written there.
    pub slots: Seq<u16>,
    /// The frame, addressed as `gfx[x][y]`.
    pub gfx: Seq<Seq<bool>>,
    /// The keys that are held down.
    pub keys: Seq<bool>,
    /// Whether a key press has been asked for and not yet delivered.
    pub waiting_for_keyboard: bool,
    /// The register that the awaited key goes to.
    pub keyboard_register: u8,
}

impl Machine {
    /// The shape that every machine state has.
    pub open spec fn wf(self) -> bool {
        &&& self.mem.len() == MEM_SIZE
        &&& self.v.len() == REGISTER_COUNT
        &&& self.slots.len() == STACK_SIZE
        &&& self.stack.len() <= STACK_SIZE
        &&& self.stack == self.slots.take(self.stack.len() as int)
        &&& is_frame(self.gfx)
        &&& self.keys.len() == KEY_COUNT
    }

    /// The state of a machine that has just been made: everything zero, blank
    /// or empty, and the program counter at the start of the program.
    pub open spec fn initial() -> Machine {
        Machine {
            mem: Seq::new(MEM_SIZE as nat, |a: int| 0u8),
            v: Seq::new(REGISTER_COUNT as nat, |x: int| 0u8),
            i: 0,
            pc: 0x200,
            delay_timer: 0,
            sound_timer: 0,
            stack: Seq::empty(),
            slots: Seq::new(STACK_SIZE as nat, |k: int| 0u16),
            gfx: blank_frame(),
            keys: Seq::new(KEY_COUNT as nat, |k: int| false),
            waiting_for_keyboard: false,
            keyboard_register: 0,
        }
    }

    /// Whether the two bytes at the program counter lie in memory.
    pub open spec fn can_fetch(self) -> bool {
        self.pc + 1 < MEM_SIZE
    }

    /// The instruction word at the program counter.
    pub open spec fn opcode(self) -> Opcode {
        let first = split_spec(self.mem[self.pc as int]);
        let second = split_spec(self.mem[self.pc + 1]);
        (first.0, first.1, second.0, second.1)
    }

    /// This state with the program counter moved on by `words` instructions.
    pub open spec fn advance(self, words: int) -> Machine {
        Machine { pc: (self.pc + words * WORD) as u16, ..self }
    }

    /// This state with the program counter moved past the next instruction if
    /// `condition` holds, and to the next instruction otherwise.
    pub open spec fn skip_if(self, condition: bool) -> Machine {
        self.advance(if condition { 2 } else { 1 })
    }

    /// This state with register `Vx` set to `value`.
    pub open spec fn set_v(self, x: int, value: u8) -> Machine {
        Machine { v: self.v.update(x, value), ..self }
    }

    /// This state with the flag register set to 1 if `flag` holds and to 0 otherwise.
    pub open spec fn set_flag(self, flag: bool) -> Machine {
        self.set_v(FLAG_REGISTER as int, if flag { 1u8 } else { 0u8 })
    }

    /// The fault, if any, that keeps `op` with operands `opcode` from being
    /// executed in this state.
    pub open spec fn fault_of(self, op: Operation, opcode: Opcode) -> Option<Fault> {
        let x = opcode.1 as int;
        let n = opcode.3 as int;
        let vx = self.v[x];
        match op {
            Operation::Return => if self.stack.len() == 0 {
                Some(Fault::StackUnderflow)
            } else {
                None
            },
            Operation::Call => if self.stack.len() >= STACK_SIZE {
                Some(Fault::StackOverflow)
            } else {
                None
            },
            Operation::Draw => if n > 0 && self.i + n > MEM_SIZE {
                Some(Fault::AddressOutOfRange)
            } else {
                None
            },
            Operation::SkipKeyDown | Operation::SkipKeyUp => if vx >= KEY_COUNT {
                Some(Fault::KeyOutOfRange(vx))
            } else {
                None
            },
            Operation::StoreBcd => if self.i + 2 >= MEM_SIZE {
                Some(Fault::AddressOutOfRange)
            } else {
                None
            },
            Operation::StoreRegs | Operation::LoadRegs => if self.i + x >= MEM_SIZE {
                Some(Fault::AddressOutOfRange)
            } else {
                None
            },
            _ => None,
        }
    }

    /// The condition on which the skip operation `op` with operands `opcode`
    /// skips the next instruction. No other operation skips.
    pub open spec fn skip_condition(self, op: Operation, opcode: Opcode) -> bool {
        let vx = self.v[opcode.1 as int];
        let vy = self.v[opcode.2 as int];
        match op {
            Operation::SkipEqByte => vx == byte_of(opcode),
            Operation::SkipNeByte => vx != byte_of(opcode),
            Operation::SkipEqReg => vx == vy,
            Operation::SkipNeReg => vx != vy,
            Operation::SkipKeyDown => self.keys[vx as int],
            Operation::SkipKeyUp => !self.keys[vx as int],
            _ => false,
        }
    }

    /// The state after `op` with operands `opcode` has been executed. Register
    /// values are read before anything is written, and a flag is written last.
    /// A call writes the return address to the first free slot of the stack; a
    /// return leaves every slot as it is. `random` is the byte that the random
    /// operation draws.
    pub open spec fn apply(self, op: Operation, opcode: Opcode, random: u8) -> Machine {
        let x = opcode.1 as int;
        let y = opcode.2 as int;
        let n = opcode.3 as int;
        let vx = self.v[x];
        let vy = self.v[y];
        let kk = byte_of(opcode);
        let nnn = address_of(opcode);
        match op {
            Operation::ClearScreen => Machine { gfx: blank_frame(), ..self }.advance(1),
            Operation::Return => Machine {
                pc: self.stack.last(),
                stack: self.stack.drop_last(),
                ..self
            },
            Operation::Jump => Machine { pc: nnn, ..self },
            Operation::Call => Machine {
                pc: nnn,
                stack: self.stack.push((self.pc + WORD) as u16),
                slots: self.slots.update(self.stack.len() as int, (self.pc + WORD) as u16),
                ..self
            },
            Operation::SkipEqByte
            | Operation::SkipNeByte
            | Operation::SkipEqReg
            | Operation::SkipNeReg
            | Operation::SkipKeyDown
            | Operation::SkipKeyUp => self.skip_if(self.skip_condition(op, opcode)),
            Operation::LoadByte => self.set_v(x, kk).advance(1),
            Operation::AddByte => self.set_v(x, ((vx + kk) % 256) as u8).advance(1),
            Operation::Move
            | Operation::Or
            | Operation::And
            | Operation::Xor
            | Operation::AddCarry
            | Operation::SubBorrow
            | Operation::ShiftRight
            | Operation::SubReverse
            | Operation::ShiftLeft => {
                let result = self.set_v(x, alu_result(op, vx, vy));
                match alu_flag(op, vx, vy) {
                    Some(flag) => result.set_flag(flag),
                    None => result,
                }.advance(1)
            },
            Operation::LoadIndex => Machine { i: nnn, ..self }.advance(1),
            Operation::JumpOffset => Machine { pc: (nnn + self.v[0]) as u16, ..self },
            Operation::Random => self.set_v(x, random & kk).advance(1),
            Operation::Draw => {
                let rows = sprite_rows(self.mem, self.i as int, n);
                Machine { gfx: blit_frame(self.gfx, rows, vx, vy), ..self }.set_flag(
                    collides(self.gfx, rows, vx, vy),
                ).advance(1)
            },
            Operation::ReadDelay => self.set_v(x, self.delay_timer).advance(1),
            Operation::WaitKey => Machine {
                waiting_for_keyboard: true,
                keyboard_register: opcode.1,
                ..self
            }.advance(1),
            Operation::SetDelay => Machine { delay_timer: vx, ..self }.advance(1),
            Operation::SetSound => Machine { sound_timer: vx, ..self }.advance(1),
            Operation::AddIndex => Machine {
                i: ((self.i + vx) % 0x1_0000) as u16,
                ..self
            }.advance(1),
            Operation::FontGlyph => Machine { i: (5 * vx) as u16, ..self }.advance(1),
            Operation::StoreBcd => Machine {
                mem: self.mem.update(self.i as int, vx / 100).update(
                    self.i + 1,
                    (vx / 10) % 10,
                ).update(self.i + 2, vx % 10),
                ..self
            }.advance(1),
            Operation::StoreRegs => Machine {
                mem: Seq::new(
                    self.mem.len(),
                    |a: int|
                        if self.i <= a <= self.i + x {
                            self.v[a - self.i]
                        } else {
                            self.mem[a]
                        },
                ),
                ..self
            }.advance(1),
            Operation::LoadRegs => Machine {
                v: Seq::new(
                    self.v.len(),
                    |k: int|
                        if k <= x {
                            self.mem[self.i + k]
                        } else {
                            self.v[k]
                        },
                ),
                ..self
            }.advance(1),
        }
    }

    /// This state with each timer that is not zero lowered by one.
    pub open spec fn tick(self) -> Machine {
        Machine {
            delay_timer: if self.delay_timer > 0 {
                (self.delay_timer - 1) as u8
            } else {
                0
            },
            sound_timer: if self.sound_timer > 0 {
                (self.sound_timer - 1) as u8
            } else {
                0
            },
            ..self
        }
    }

    /// The fault, if any, that keeps this state from taking a step.
    pub open spec fn fault(self) -> Option<Fault> {
        if !self.can_fetch() {
            Some(Fault::FetchOutOfRange)
        } else {
            match decode_spec(self.opcode()) {
                None => Some(Fault::UnknownOpcode(self.opcode())),
                Some(op) => self.fault_of(op, self.opcode()),
            }
        }
    }

    /// The state after one cycle: the instruction at the program counter is
    /// executed, then the timers tick. Meaningful where `fault` is `None`.
    pub open spec fn step(self, random: u8) -> Machine {
        self.apply(decode_spec(self.opcode()).unwrap(), self.opcode(), random).tick()
    }

    /// The state after the driver has reported which keys are down: the
    /// latch holds `keys`, and if a key press was awaited and a key went down,
    /// the highest such key is stored in the awaiting register and the wait
    /// is over.
    pub open spec fn with_keys(self, keys: Seq<bool>) -> Machine {
        match latest_press(self.keys, keys, KEY_COUNT as int) {
            Some(key) if self.waiting_for_keyboard => Machine {
                keys: keys,
                waiting_for_keyboard: false,
                v: self.v.update(self.keyboard_register as int, key),
                ..self
            },
            _ => Machine { keys: keys, ..self },
        }
    }

    /// The instruction word at the program counter is made of nibbles.
    pub proof fn lemma_opcode_is_opcode(self)
        ensures
            is_opcode(self.opcode()),
    {
    }
}

} // verus!
