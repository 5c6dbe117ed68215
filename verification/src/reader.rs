//! The reader of the disassembler, which walks a program image byte by byte.

use vstd::prelude::*;
use crate::rom::RomBuffer;
use crate::ROM_SIZE;

verus! {

/// A reader over a program image. Its view is the sequence of the bytes that
/// it has yet to hand out.
pub struct RomReader<'a> {
    cur: usize,
    rom: &'a RomBuffer,
}

impl<'a> View for RomReader<'a> {
    type V = Seq<u8>;

    closed spec fn view(&self) -> Seq<u8> {
        self.rom@.skip(self.cur as int)
    }
}

impl<'a> RomReader<'a> {
    #[verifier::type_invariant]
    spec fn cursor_in_bounds(self) -> bool {
        self.cur <= ROM_SIZE
    }

    /// A reader at the first byte of `rom`.
    pub fn new(rom: &'a RomBuffer) -> (reader: Self)
        ensures
            reader@ == rom@,
    {
        assert(rom@.skip(0) =~= rom@);
        Self { cur: 0, rom: rom }
    }

    /// The number of bytes handed out so far.
    pub fn cur(&self) -> (cur: usize)
        ensures
            cur == ROM_SIZE - self@.len(),
    {
        proof {
            use_type_invariant(self);
        }
        self.cur
    }

    /// Hands out the next byte of the image, or `None` when every byte has
    /// been handed out.
    pub fn next(&mut self) -> (byte: Option<u8>)
        ensures
            old(self)@.len() > 0 ==> byte == Some(old(self)@[0]) && final(self)@ == old(self)@.skip(1),
            old(self)@.len() == 0 ==> byte is None && final(self)@ == old(self)@,
    {
        proof {
            use_type_invariant(&*self);
        }
        if self.cur < ROM_SIZE {
            let value = self.rom[self.cur];
            self.cur += 1;
            assert(self@ =~= old(self)@.skip(1));
            Some(value)
        } else {
            None
        }
    }
}

} // verus!
