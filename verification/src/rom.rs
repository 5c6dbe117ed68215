//! Program images: the buffer that holds one, and a reader that hands out
//! its bytes in order.

use vstd::prelude::*;
use crate::ROM_SIZE;

verus! {

/// A program image: the bytes of the program region of memory.
pub type RomBuffer = [u8; ROM_SIZE];

/// The program image of a program file with the contents `bytes`: the bytes
/// of the file as far as the program region has room for them, and zero in
/// the rest of the region.
pub open spec fn image_of(bytes: Seq<u8>) -> Seq<u8> {
    Seq::new(
        ROM_SIZE as nat,
        |i: int|
            if i < bytes.len() {
                bytes[i]
            } else {
                0u8
            },
    )
}

/// Builds the program image of a program file from the file's contents.
pub fn load_rom(bytes: &[u8]) -> (buffer: RomBuffer)
    ensures
        buffer@ == image_of(bytes@),
{
    let mut buffer: RomBuffer = [0;ROM_SIZE];
    let length = if bytes.len() < ROM_SIZE {
        bytes.len()
    } else {
        ROM_SIZE
    };
    for i in 0..length
        invariant
            length <= ROM_SIZE,
            length <= bytes@.len(),
            forall|k: int|
                0 <= k < ROM_SIZE ==> buffer@[k] == if k < i {
                    bytes@[k]
                } else {
                    0u8
                },
    {
        buffer[i] = bytes[i];
    }
    assert(buffer@ =~= image_of(bytes@));
    buffer
}

/// A reader over a program image. Its view is the sequence of the bytes that
/// it has yet to hand out.
pub struct Reader<'a> {
    cur: usize,
    rom: &'a RomBuffer,
}

impl<'a> View for Reader<'a> {
    type V = Seq<u8>;

    closed spec fn view(&self) -> Seq<u8> {
        self.rom@.skip(self.cur as int)
    }
}

impl<'a> Reader<'a> {
    #[verifier::type_invariant]
    spec fn cursor_in_bounds(self) -> bool {
        self.cur <= ROM_SIZE
    }

    /// A reader at the first byte of `rom`.
    pub fn new(rom: &'a RomBuffer) -> (reader: Self)
        ensures
            reader@ == rom@,
    {
        assert(rom@.skip(0) =~= rom@);
        Self { cur: 0, rom: rom }
    }

    /// The number of bytes handed out so far.
    pub fn cur(&self) -> (cur: usize)
        ensures
            cur == ROM_SIZE - self@.len(),
    {
        proof {
            use_type_invariant(self);
        }
        self.cur
    }

    /// Hands out the next byte of the image, or `None` when every byte has
    /// been handed out.
    pub fn next(&mut self) -> (byte: Option<u8>)
        ensures
            old(self)@.len() > 0 ==> byte == Some(old(self)@[0]) && final(self)@ == old(self)@.skip(1),
            old(self)@.len() == 0 ==> byte is None && final(self)@ == old(self)@,
    {
        proof {
            use_type_invariant(&*self);
        }
        if self.cur < ROM_SIZE {
            let value = self.rom[self.cur];
            self.cur += 1;
            assert(self@ =~= old(self)@.skip(1));
            Some(value)
        } else {
            None
        }
    }
}

} // verus!
