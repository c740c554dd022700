//! The memory of the guest.
use std::collections::HashMap;
use vstd::prelude::*;

verus! {

/// Guest memory: one byte at each of the 2^32 addresses. Memory that was never
/// written holds zero, and addresses wrap around at the end.
pub struct Mem {
    pub bytes: HashMap<u32, u8>,
}

impl View for Mem {
    type V = Map<u32, u8>;

    open spec fn view(&self) -> Map<u32, u8> {
        self.bytes@
    }
}

/// The address `offset` bytes after `base`.
#[verifier::opaque]
pub open spec fn address(base: u32, offset: int) -> u32 {
    ((base + offset) % 0x1_0000_0000) as u32
}

/// The byte at an address.
pub open spec fn byte_at(mem: Map<u32, u8>, at: u32) -> u8 {
    if mem.contains_key(at) {
        mem[at]
    } else {
        0
    }
}

/// The little-endian word that starts at an address.
#[verifier::opaque]
pub open spec fn word_at(mem: Map<u32, u8>, at: u32) -> u32 {
    (byte_at(mem, at) + byte_at(mem, address(at, 1)) * 0x100 + byte_at(mem, address(at, 2))
        * 0x1_0000 + byte_at(mem, address(at, 3)) * 0x100_0000) as u32
}

/// Memory after a word was written at an address.
#[verifier::opaque]
pub open spec fn with_word(mem: Map<u32, u8>, at: u32, word: u32) -> Map<u32, u8> {
    mem.insert(at, (word % 0x100) as u8).insert(
        address(at, 1),
        (word / 0x100 % 0x100) as u8,
    ).insert(address(at, 2), (word / 0x1_0000 % 0x100) as u8).insert(
        address(at, 3),
        (word / 0x100_0000) as u8,
    )
}

/// The bytes from an address up to the first that is zero, and at most so many.
pub open spec fn cstr_from(mem: Map<u32, u8>, at: u32, most: nat) -> Seq<u8>
    decreases most,
{
    if most == 0 || byte_at(mem, at) == 0 {
        Seq::empty()
    } else {
        seq![byte_at(mem, at)] + cstr_from(mem, address(at, 1), (most - 1) as nat)
    }
}

/// The string at an address: the bytes up to the first that is zero.
pub open spec fn cstr_at(mem: Map<u32, u8>, at: u32) -> Seq<u8> {
    cstr_from(mem, at, 0x1_0000_0000)
}

/// Memory after bytes were written from an address on.
pub open spec fn with_bytes(mem: Map<u32, u8>, at: u32, bytes: Seq<u8>) -> Map<u32, u8>
    decreases bytes.len(),
{
    if bytes.len() == 0 {
        mem
    } else {
        with_bytes(mem, at, bytes.drop_last()).insert(address(at, bytes.len() - 1), bytes.last())
    }
}

/// Memory after a string was written at an address, with the zero that ends it.
pub open spec fn with_cstr(mem: Map<u32, u8>, at: u32, text: Seq<u8>) -> Map<u32, u8> {
    with_bytes(mem, at, text.push(0))
}

/// Each byte that was written is read back from its place.
proof fn lemma_bytes_read_back(mem: Map<u32, u8>, at: u32, bytes: Seq<u8>, number: int)
    requires
        0 <= number < bytes.len() <= 0x1_0000_0000,
    ensures
        byte_at(with_bytes(mem, at, bytes), address(at, number)) == bytes[number],
    decreases bytes.len(),
{
    if number < bytes.len() - 1 {
        lemma_bytes_read_back(mem, at, bytes.drop_last(), number);
        reveal(address);
    }
}

/// The bytes up to a zero are what is read.
proof fn lemma_cstr_from(mem: Map<u32, u8>, at: u32, text: Seq<u8>, done: nat, most: nat)
    requires
        done <= text.len(),
        text.len() - done < most,
        forall|i: int| 0 <= i < text.len() ==> byte_at(mem, #[trigger] address(at, i)) == text[i],
        byte_at(mem, address(at, text.len() as int)) == 0,
        !text.contains(0),
    ensures
        cstr_from(mem, address(at, done as int), most) == text.skip(done as int),
    decreases most,
{
    if done < text.len() {
        assert(text[done as int] != 0);
        offsets_add_up(at, done as int, 1);
        lemma_cstr_from(mem, at, text, done + 1, (most - 1) as nat);
        assert(text.skip(done as int) =~= seq![text[done as int]] + text.skip(done as int + 1));
    } else {
        assert(text.skip(done as int) =~= Seq::empty());
    }
}

/// A string that was written is read back, if there is no zero in it.
pub proof fn cstr_is_read_back(mem: Map<u32, u8>, at: u32, text: Seq<u8>)
    requires
        text.len() < 0x1_0000_0000,
        !text.contains(0),
    ensures
        cstr_at(with_cstr(mem, at, text), at) == text,
{
    let after = with_cstr(mem, at, text);
    let bytes = text.push(0);
    assert forall|i: int| 0 <= i < bytes.len() implies byte_at(after, #[trigger] address(at, i))
        == bytes[i] by {
        lemma_bytes_read_back(mem, at, bytes, i);
    }
    assert(address(at, 0) == at) by {
        reveal(address);
    }
    lemma_cstr_from(after, at, text, 0, 0x1_0000_0000);
    assert(text.skip(0) =~= text);
}

/// A word that was written is read back.
pub proof fn word_is_read_back(mem: Map<u32, u8>, at: u32, word: u32)
    ensures
        word_at(with_word(mem, at, word), at) == word,
{
    reveal(address);
    reveal(word_at);
    reveal(with_word);
    let after = with_word(mem, at, word);
    assert(byte_at(after, at) == word % 0x100);
    assert(byte_at(after, address(at, 1)) == word / 0x100 % 0x100);
    assert(byte_at(after, address(at, 2)) == word / 0x1_0000 % 0x100);
    assert(byte_at(after, address(at, 3)) == word / 0x100_0000);
    lemma_word_from_bytes(word);
}

/// A word is the sum of its four bytes, each in its place.
proof fn lemma_word_from_bytes(word: u32)
    ensures
        word == word % 0x100 + word / 0x100 % 0x100 * 0x100 + word / 0x1_0000 % 0x100 * 0x1_0000
            + word / 0x100_0000 * 0x100_0000,
{
    assert(word == word % 0x100 + word / 0x100 % 0x100 * 0x100 + word / 0x1_0000 % 0x100 * 0x1_0000
        + word / 0x100_0000 * 0x100_0000) by (bit_vector);
}

/// Writing one word leaves every word alone that shares no byte with it.
pub proof fn other_words_stay(mem: Map<u32, u8>, at: u32, word: u32, other: u32)
    requires
        4 <= (other - at) % 0x1_0000_0000 <= 0x1_0000_0000 - 4,
    ensures
        word_at(with_word(mem, at, word), other) == word_at(mem, other),
{
    reveal(address);
    reveal(word_at);
    reveal(with_word);
}

/// Offsets from an address add up.
pub proof fn offsets_add_up(base: u32, first: int, second: int)
    ensures
        address(address(base, first), second) == address(base, first + second),
{
    reveal(address);
}

/// The distance between two addresses is that between their offsets.
pub proof fn offsets_differ(base: u32, one: int, other: int)
    ensures
        (address(base, other) - address(base, one)) % 0x1_0000_0000 == (other - one)
            % 0x1_0000_0000,
{
    reveal(address);
}

/// The address `offset` bytes above another.
pub fn above(base: u32, offset: u32) -> (result: u32)
    ensures
        result == address(base, offset as int),
{
    reveal(address);
    base.wrapping_add(offset)
}

/// The address `offset` bytes below another.
pub fn below(base: u32, offset: u32) -> (result: u32)
    ensures
        result == address(base, -offset),
{
    reveal(address);
    base.wrapping_sub(offset)
}

impl Mem {
    /// Memory that holds zero everywhere.
    pub fn new() -> (mem: Mem)
        ensures
            mem@ == Map::<u32, u8>::empty(),
    {
        Mem { bytes: HashMap::new() }
    }

    /// Reads a byte.
    pub fn read_byte(&self, at: u32) -> (byte: u8)
        ensures
            byte == byte_at(self@, at),
    {
        match self.bytes.get(&at) {
            Some(byte) => *byte,
            None => 0,
        }
    }

    /// Reads a word.
    pub fn read_word(&self, at: u32) -> (word: u32)
        ensures
            word == word_at(self@, at),
    {
        reveal(word_at);
        let b0 = self.read_byte(at);
        let b1 = self.read_byte(above(at, 1));
        let b2 = self.read_byte(above(at, 2));
        let b3 = self.read_byte(above(at, 3));
        b0 as u32 + b1 as u32 * 0x100 + b2 as u32 * 0x1_0000 + b3 as u32 * 0x100_0000
    }

    /// Reads the string at an address.
    pub fn read_cstr(&self, at: u32) -> (text: Vec<u8>)
        ensures
            text@ == cstr_at(self@, at),
    {
        let mut text: Vec<u8> = Vec::new();
        let mut current: u32 = at;
        let mut most: u64 = 0x1_0000_0000;
        while most > 0
            invariant
                text@ + cstr_from(self@, current, most as nat) == cstr_at(self@, at),
            decreases most,
        {
            let byte = self.read_byte(current);
            if byte == 0 {
                assert(text@ + Seq::empty() =~= text@);
                return text;
            }
            let ghost before = text@;
            text.push(byte);
            current = above(current, 1);
            most -= 1;
            assert(text@ + cstr_from(self@, current, most as nat) =~= before + (seq![byte]
                + cstr_from(self@, current, most as nat)));
        }
        assert(text@ + Seq::empty() =~= text@);
        text
    }

    /// Writes a string, and the zero that ends it.
    pub fn write_cstr(&mut self, at: u32, text: &[u8])
        requires
            text@.len() < 0x1_0000_0000,
        ensures
            final(self)@ == with_cstr(old(self)@, at, text@),
    {
        let mut i: usize = 0;
        assert(text@.take(0) =~= Seq::empty());
        while i < text.len()
            invariant
                i <= text@.len() < 0x1_0000_0000,
                self@ == with_bytes(old(self)@, at, text@.take(i as int)),
            decreases text@.len() - i,
        {
            self.bytes.insert(above(at, i as u32), text[i]);
            assert(text@.take(i + 1).drop_last() =~= text@.take(i as int));
            i += 1;
        }
        assert(text@.take(i as int) =~= text@);
        self.bytes.insert(above(at, i as u32), 0);
        assert(text@.push(0).drop_last() =~= text@);
    }

    /// Writes a word.
    pub fn write_word(&mut self, at: u32, word: u32)
        ensures
            final(self)@ == with_word(old(self)@, at, word),
    {
        reveal(with_word);
        self.bytes.insert(at, (word % 0x100) as u8);
        self.bytes.insert(above(at, 1), (word / 0x100 % 0x100) as u8);
        self.bytes.insert(above(at, 2), (word / 0x1_0000 % 0x100) as u8);
        self.bytes.insert(above(at, 3), (word / 0x100_0000) as u8);
    }
}

} // verus!
