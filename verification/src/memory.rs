//! A flat memory of bytes, with a loader and a hexadecimal dump.

use crate::text::{hex2, hex4, push_hex2, push_hex4};
use vstd::prelude::*;

verus! {

/// A memory of a fixed number of bytes, all zero when created.
pub struct Memory {
    memory: Vec<u8>,
}

impl View for Memory {
    type V = Seq<u8>;

    closed spec fn view(&self) -> Seq<u8> {
        self.memory@
    }
}

/// What the dump shows of the byte at index `i`: two hexadecimal digits and
/// a space. Every sixteenth byte opens a line with its index as `0x` and
/// four digits (the low sixteen bits of the index), a colon and a space; the
/// sixteenth byte of a line ends it.
pub open spec fn dumped_byte(i: int, byte: u8) -> Seq<char> {
    (if i % 16 == 0 {
        seq!['0', 'x'] + hex4(i) + seq![':', ' ']
    } else {
        Seq::<char>::empty()
    }) + hex2(byte as int) + seq![' '] + (if i % 16 == 15 {
        seq!['\n']
    } else {
        Seq::<char>::empty()
    })
}

/// The dump of `bytes`: a line break, then each byte in order.
pub open spec fn dumped(bytes: Seq<u8>) -> Seq<char>
    decreases bytes.len(),
{
    if bytes.len() == 0 {
        seq!['\n']
    } else {
        dumped(bytes.drop_last()) + dumped_byte(bytes.len() - 1, bytes.last())
    }
}

/// Four hexadecimal digits show of an index its low sixteen bits.
proof fn low_bits_show_alike(i: usize)
    ensures
        hex4((i % 0x1_0000) as int) == hex4(i as int),
{
    let low: usize = i % 0x1_0000;
    assert(low / 256 / 16 % 16 == i / 256 / 16 % 16 && low / 256 % 16 == i / 256 % 16 && low % 256
        / 16 % 16 == i % 256 / 16 % 16 && low % 256 % 16 == i % 256 % 16) by (bit_vector)
        requires
            low == i % 0x1_0000,
    ;
}

/// Appends to the dump the byte at index `i`.
fn push_byte(text: &mut String, i: usize, byte: u8)
    ensures
        final(text)@ == old(text)@ + dumped_byte(i as int, byte),
{
    if i % 16 == 0 {
        text.push('0');
        text.push('x');
        let low: u16 = (i % 0x1_0000) as u16;
        proof {
            low_bits_show_alike(i);
        }
        push_hex4(text, low);
        text.push(':');
        text.push(' ');
    }
    push_hex2(text, byte);
    text.push(' ');
    if i % 16 == 15 {
        text.push('\n');
    }
    assert(text@ =~= old(text)@ + dumped_byte(i as int, byte));
}

impl Memory {
    /// A memory of `size` bytes, all zero.
    pub fn new(size: u16) -> (memory: Memory)
        ensures
            memory@ == Seq::new(size as nat, |i: int| 0u8),
    {
        let memory = Memory { memory: vec![0u8; size as usize] };
        assert(memory.memory@ =~= Seq::new(size as nat, |i: int| 0u8));
        memory
    }

    /// The byte at `address`, which lies within the memory.
    pub fn read(&self, address: u16) -> (byte: u8)
        requires
            address < self@.len(),
        ensures
            byte == self@[address as int],
    {
        self.memory[address as usize]
    }

    /// Puts `data` at `address`, which lies within the memory.
    pub fn write(&mut self, address: u16, data: u8)
        requires
            address < old(self)@.len(),
        ensures
            final(self)@ == old(self)@.update(address as int, data),
    {
        self.memory.set(address as usize, data);
    }

    /// Copies `program` into the memory from `start_address` on. The program
    /// has to fit between there and the end of the memory.
    pub fn load(&mut self, program: Vec<u8>, start_address: u16)
        requires
            start_address + program@.len() <= old(self)@.len(),
        ensures
            final(self)@ == old(self)@.subrange(0, start_address as int) + program@ + old(
                self,
            )@.subrange(start_address + program@.len(), old(self)@.len() as int),
    {
        let start = start_address as usize;
        let mut i: usize = 0;
        while i < program.len()
            invariant
                0 <= i <= program.len(),
                start == start_address,
                start + program@.len() <= old(self)@.len(),
                self@.len() == old(self)@.len(),
                start + program@.len() <= self.memory.len(),
                self@ == old(self)@.subrange(0, start as int) + program@.take(i as int) + old(
                    self,
                )@.subrange(start + i, old(self)@.len() as int),
            decreases program.len() - i,
        {
            self.memory.set(start + i, program[i]);
            i += 1;
            assert(self@ =~= old(self)@.subrange(0, start as int) + program@.take(i as int) + old(
                self,
            )@.subrange(start + i, old(self)@.len() as int));
        }
        assert(program@.take(i as int) == program@);
    }

    /// Whether `program` fits into the memory from `start_address` on.
    pub fn fits(&self, program: &Vec<u8>, start_address: u16) -> (fits: bool)
        ensures
            fits == (start_address + program@.len() <= self@.len()),
    {
        let start = start_address as usize;
        start <= self.memory.len() && program.len() <= self.memory.len() - start
    }

    /// The memory as text: sixteen bytes to a line, in hexadecimal, each
    /// line headed by the index of its first byte.
    pub fn dump(&self) -> (text: String)
        ensures
            text@ == dumped(self@),
    {
        let mut text = String::new();
        text.push('\n');
        let mut i: usize = 0;
        while i < self.memory.len()
            invariant
                0 <= i <= self.memory.len(),
                text@ == dumped(self@.take(i as int)),
            decreases self.memory.len() - i,
        {
            push_byte(&mut text, i, self.memory[i]);
            proof {
                assert(self@.take(i + 1).drop_last() == self@.take(i as int));
            }
            i += 1;
        }
        assert(self@.take(i as int) == self@);
        text
    }
}

} // verus!
