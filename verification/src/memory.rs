//! The storage of the machine: the linear word memory and the two stacks,
//! and the loading of a binary image into the memory.

use vstd::prelude::*;
use vstd::slice::slice_subrange;
use byteorder::{ByteOrder, LittleEndian};
use crate::word::wrap;

verus! {

/// The least number of words that a memory holds: 4 MiB of words.
pub const MIN_MEMORY_WORDS: usize = 1024 * 1024;

/// The word that four bytes encode, least significant byte first.
pub open spec fn word_of_bytes(b0: u8, b1: u8, b2: u8, b3: u8) -> i32 {
    wrap(b0 + 0x100 * b1 + 0x1_0000 * b2 + 0x100_0000 * b3)
}

/// The number of complete words in `image`. Up to three bytes that follow the
/// last complete word are not part of any word.
pub open spec fn image_words(image: Seq<u8>) -> int {
    image.len() as int / 4
}

/// The `index`-th word of `image`.
pub open spec fn image_word(image: Seq<u8>, index: int) -> i32
    recommends
        0 <= index < image_words(image),
{
    word_of_bytes(
        image[4 * index],
        image[4 * index + 1],
        image[4 * index + 2],
        image[4 * index + 3],
    )
}

/// The number of words of the memory that `image` is loaded into.
pub open spec fn loaded_size(image: Seq<u8>) -> int {
    if image_words(image) > MIN_MEMORY_WORDS {
        image_words(image)
    } else {
        MIN_MEMORY_WORDS as int
    }
}

/// The memory that loading `image` gives: the words of the image from address
/// 0 on, and zero in every word after them.
pub open spec fn loaded(image: Seq<u8>) -> Seq<i32> {
    Seq::new(
        loaded_size(image) as nat,
        |addr: int|
            if addr < image_words(image) {
                image_word(image, addr)
            } else {
                0i32
            },
    )
}

/// Calls `byteorder::LittleEndian::read_i32`, which reads a signed 32-bit
/// integer in little-endian order from the first four bytes of the buffer and
/// panics on a shorter buffer. Trusted: that the result is the word those
/// four bytes encode.
#[verifier::external_body]
fn read_word(bytes: &[u8]) -> (word: i32)
    requires
        bytes@.len() >= 4,
    ensures
        word == word_of_bytes(bytes@[0], bytes@[1], bytes@[2], bytes@[3]),
{
    LittleEndian::read_i32(bytes)
}

/// The word memory and the two stacks of a machine. The top of a stack is
/// the end of its sequence. The memory never changes its length.
pub struct Memory {
    data_stack: Vec<i32>,
    address_stack: Vec<i32>,
    memory_space: Vec<i32>,
}

impl Memory {
    /// The words of the memory, by address.
    pub closed spec fn words(&self) -> Seq<i32> {
        self.memory_space@
    }

    /// The data stack, bottom first.
    pub closed spec fn data(&self) -> Seq<i32> {
        self.data_stack@
    }

    /// The address stack, bottom first.
    pub closed spec fn address(&self) -> Seq<i32> {
        self.address_stack@
    }

    /// Loads `image` into a new memory with empty stacks.
    pub fn new(image: &[u8]) -> (memory: Memory)
        ensures
            memory.words() == loaded(image@),
            memory.data() == Seq::<i32>::empty(),
            memory.address() == Seq::<i32>::empty(),
    {
        let count: usize = image.len() / 4;
        let size: usize = if count > MIN_MEMORY_WORDS {
            count
        } else {
            MIN_MEMORY_WORDS
        };
        let mut space: Vec<i32> = Vec::with_capacity(size);
        let mut index: usize = 0;
        while index < count
            invariant
                index <= count,
                count == image_words(image@),
                image@.len() <= usize::MAX,
                space@.len() == index,
                forall|addr: int| 0 <= addr < index ==> space@[addr] == image_word(image@, addr),
            decreases count - index,
        {
            let chunk = slice_subrange(image, 4 * index, 4 * index + 4);
            space.push(read_word(chunk));
            index += 1;
        }
        while space.len() < size
            invariant
                count <= space@.len() <= size,
                count == image_words(image@),
                forall|addr: int| 0 <= addr < count ==> space@[addr] == image_word(image@, addr),
                forall|addr: int| count <= addr < space@.len() ==> space@[addr] == 0,
            decreases size - space@.len(),
        {
            space.push(0);
        }
        Memory { data_stack: Vec::new(), address_stack: Vec::new(), memory_space: space }
    }

    /// The number of words of the memory.
    pub fn size(&self) -> (size: usize)
        ensures
            size == self.words().len(),
    {
        self.memory_space.len()
    }

    /// The word at `addr`, if `addr` is an address of the memory.
    pub fn word_at(&self, addr: i32) -> (word: Option<i32>)
        ensures
            word == if 0 <= addr < self.words().len() {
                Some(self.words()[addr as int])
            } else {
                None
            },
    {
        if addr >= 0 && (addr as usize) < self.memory_space.len() {
            Some(self.memory_space[addr as usize])
        } else {
            None
        }
    }

    /// Writes `word` to `addr` and returns `true`, if `addr` is an address of
    /// the memory; otherwise changes nothing and returns `false`.
    pub fn store(&mut self, addr: i32, word: i32) -> (stored: bool)
        ensures
            stored == (0 <= addr < old(self).words().len()),
            final(self).words() == if stored {
                old(self).words().update(addr as int, word)
            } else {
                old(self).words()
            },
            final(self).data() == old(self).data(),
            final(self).address() == old(self).address(),
    {
        if addr >= 0 && (addr as usize) < self.memory_space.len() {
            self.memory_space[addr as usize] = word;
            true
        } else {
            false
        }
    }

    /// The number of words on the data stack.
    pub fn data_depth(&self) -> (depth: usize)
        ensures
            depth == self.data().len(),
    {
        self.data_stack.len()
    }

    /// The number of words on the address stack.
    pub fn address_depth(&self) -> (depth: usize)
        ensures
            depth == self.address().len(),
    {
        self.address_stack.len()
    }

    /// The word `below` places under the top of the data stack, if the stack
    /// is that deep. The stack is left as it is.
    pub fn peek_data(&self, below: usize) -> (word: Option<i32>)
        ensures
            word == if below < self.data().len() {
                Some(self.data()[self.data().len() - 1 - below])
            } else {
                None
            },
    {
        let depth: usize = self.data_stack.len();
        if below < depth {
            Some(self.data_stack[depth - 1 - below])
        } else {
            None
        }
    }

    /// The top of the address stack, if there is one. The stack is left as
    /// it is.
    pub fn peek_address(&self) -> (word: Option<i32>)
        ensures
            word == if self.address().len() > 0 {
                Some(self.address().last())
            } else {
                None
            },
    {
        let depth: usize = self.address_stack.len();
        if depth > 0 {
            Some(self.address_stack[depth - 1])
        } else {
            None
        }
    }

    /// Puts `word` on top of the data stack.
    pub fn push_data(&mut self, word: i32)
        ensures
            final(self).data() == old(self).data().push(word),
            final(self).address() == old(self).address(),
            final(self).words() == old(self).words(),
    {
        self.data_stack.push(word);
    }

    /// Takes the top word off the data stack. On an empty stack nothing
    /// changes and the result is `None`.
    pub fn pop_data(&mut self) -> (word: Option<i32>)
        ensures
            word == if old(self).data().len() > 0 {
                Some(old(self).data().last())
            } else {
                None
            },
            final(self).data() == if old(self).data().len() > 0 {
                old(self).data().drop_last()
            } else {
                old(self).data()
            },
            final(self).address() == old(self).address(),
            final(self).words() == old(self).words(),
    {
        if self.data_stack.len() > 0 {
            self.data_stack.pop()
        } else {
            None
        }
    }

    /// Takes the `count` topmost words off the data stack, or all of them if
    /// it holds fewer.
    pub fn drop_data(&mut self, count: usize)
        ensures
            final(self).data() == if count <= old(self).data().len() {
                old(self).data().take(old(self).data().len() - count)
            } else {
                Seq::<i32>::empty()
            },
            final(self).address() == old(self).address(),
            final(self).words() == old(self).words(),
    {
        let depth: usize = self.data_stack.len();
        if count <= depth {
            self.data_stack.truncate(depth - count);
        } else {
            self.data_stack.truncate(0);
        }
    }

    /// Puts `word` on top of the address stack.
    pub fn push_address(&mut self, word: i32)
        ensures
            final(self).address() == old(self).address().push(word),
            final(self).data() == old(self).data(),
            final(self).words() == old(self).words(),
    {
        self.address_stack.push(word);
    }

    /// Takes the top word off the address stack. On an empty stack nothing
    /// changes and the result is `None`.
    pub fn pop_address(&mut self) -> (word: Option<i32>)
        ensures
            word == if old(self).address().len() > 0 {
                Some(old(self).address().last())
            } else {
                None
            },
            final(self).address() == if old(self).address().len() > 0 {
                old(self).address().drop_last()
            } else {
                old(self).address()
            },
            final(self).data() == old(self).data(),
            final(self).words() == old(self).words(),
    {
        if self.address_stack.len() > 0 {
            self.address_stack.pop()
        } else {
            None
        }
    }

    /// Lends the data stack out for the host to work on.
    pub fn data_stack(&mut self) -> (stack: &mut Vec<i32>)
        ensures
            stack@ == old(self).data(),
            final(self).data() == final(stack)@,
            final(self).address() == old(self).address(),
            final(self).words() == old(self).words(),
    {
        &mut self.data_stack
    }
}

} // verus!
