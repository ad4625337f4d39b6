//! The machine's byte-addressable memory, the glyph font and the program image.

use vstd::prelude::*;
use crate::fault::Fault;

verus! {

/// The number of bytes of memory.
pub const MEM_SIZE: usize = 4096;

/// The address at which a program image starts.
pub const PROGRAM_START: usize = 0x200;

/// The largest program image that fits between `PROGRAM_START` and the end of memory.
pub const MAX_PROGRAM_SIZE: usize = 3584;

/// The number of bytes of the glyph font: sixteen glyphs of five rows each.
pub const FONT_SIZE: usize = 80;

/// The rows of the glyphs for the hexadecimal digits `0` to `F`, five bytes each.
pub const FONT_SET: [u8; 80] = [
    0xF0, 0x90, 0x90, 0x90, 0xF0,
    0x20, 0x60, 0x20, 0x20, 0x70,
    0xF0, 0x10, 0xF0, 0x80, 0xF0,
    0xF0, 0x10, 0xF0, 0x10, 0xF0,
    0x90, 0x90, 0xF0, 0x10, 0x10,
    0xF0, 0x80, 0xF0, 0x10, 0xF0,
    0xF0, 0x80, 0xF0, 0x90, 0xF0,
    0xF0, 0x10, 0x20, 0x40, 0x40,
    0xF0, 0x90, 0xF0, 0x90, 0xF0,
    0xF0, 0x90, 0xF0, 0x10, 0xF0,
    0xF0, 0x90, 0xF0, 0x90, 0x90,
    0xE0, 0x90, 0xE0, 0x90, 0xE0,
    0xF0, 0x80, 0x80, 0x80, 0xF0,
    0xE0, 0x90, 0x90, 0x90, 0xE0,
    0xF0, 0x80, 0xF0, 0x80, 0xF0,
    0xF0, 0x80, 0xF0, 0x80, 0x80,
];

/// Memory holding the font: its first `FONT_SIZE` bytes are the glyph rows,
/// the others are those of `mem`.
pub open spec fn with_font(mem: Seq<u8>) -> Seq<u8> {
    Seq::new(mem.len(), |a: int| if a < FONT_SIZE { FONT_SET@[a] } else { mem[a] })
}

/// Memory holding a program image: `data` lies from `PROGRAM_START` on, the
/// other bytes are those of `mem`.
pub open spec fn with_program(mem: Seq<u8>, data: Seq<u8>) -> Seq<u8> {
    Seq::new(
        mem.len(),
        |a: int|
            if PROGRAM_START <= a < PROGRAM_START + data.len() {
                data[a - PROGRAM_START]
            } else {
                mem[a]
            },
    )
}

/// The flat memory of the machine. Its view is the sequence of its bytes.
pub struct Memory(pub [u8; MEM_SIZE]);

impl View for Memory {
    type V = Seq<u8>;

    open spec fn view(&self) -> Seq<u8> {
        self.0@
    }
}

impl Memory {
    /// Memory with every byte zero.
    pub fn new() -> (r: Self)
        ensures
            r@ == Seq::new(MEM_SIZE as nat, |a: int| 0u8),
    {
        let r = Self([0; MEM_SIZE]);
        assert(r@ =~= Seq::new(MEM_SIZE as nat, |a: int| 0u8));
        r
    }

    /// Copies the glyph font to the start of memory.
    pub fn load_fontset(&mut self)
        ensures
            final(self)@ == with_font(old(self)@),
    {
        let mut i: usize = 0;
        while i < FONT_SIZE
            invariant
                i <= FONT_SIZE,
                forall|a: int| 0 <= a < i ==> self@[a] == FONT_SET@[a],
                forall|a: int| i <= a < MEM_SIZE ==> self@[a] == old(self)@[a],
            decreases FONT_SIZE - i,
        {
            self.0[i] = FONT_SET[i];
            i += 1;
        }
        assert(self@ =~= with_font(old(self)@));
    }

    /// Copies a program image to memory, from `PROGRAM_START` on. An image
    /// that does not fit is refused and memory stays as it was.
    pub fn load_program(&mut self, data: &[u8]) -> (r: Result<(), Fault>)
        ensures
            data@.len() <= MAX_PROGRAM_SIZE ==> r == Ok::<(), Fault>(()) && final(self)@
                == with_program(old(self)@, data@),
            data@.len() > MAX_PROGRAM_SIZE ==> r == Err::<(), Fault>(
                Fault::ImageTooLarge(data@.len() as usize),
            ) && final(self)@ == old(self)@,
    {
        if data.len() > MEM_SIZE - PROGRAM_START {
            return Err(Fault::ImageTooLarge(data.len()));
        }
        let mut i: usize = 0;
        while i < data.len()
            invariant
                i <= data@.len() <= MAX_PROGRAM_SIZE,
                forall|k: int| 0 <= k < i ==> self@[PROGRAM_START + k] == #[trigger] data@[k],
                forall|a: int|
                    0 <= a < MEM_SIZE && !(PROGRAM_START <= a < PROGRAM_START + i) ==> self@[a]
                        == old(self)@[a],
            decreases data@.len() - i,
        {
            self.0[i + PROGRAM_START] = data[i];
            i += 1;
        }
        assert forall|a: int| 0 <= a < MEM_SIZE implies #[trigger] self@[a] == with_program(
            old(self)@,
            data@,
        )[a] by {
            if PROGRAM_START <= a < PROGRAM_START + data@.len() {
                assert(self@[PROGRAM_START + (a - PROGRAM_START)] == data@[a - PROGRAM_START]);
            }
        }
        assert(self@ =~= with_program(old(self)@, data@));
        Ok(())
    }

    /// The byte at `address`.
    pub fn read(&self, address: u16) -> (value: u8)
        requires
            address < MEM_SIZE,
        ensures
            value == self@[address as int],
    {
        self.0[address as usize]
    }

    /// Sets the byte at `address` to `value`.
    pub fn write(&mut self, address: u16, value: u8)
        requires
            address < MEM_SIZE,
        ensures
            final(self)@ == old(self)@.update(address as int, value),
    {
        self.0[address as usize] = value;
    }
}

} // verus!
