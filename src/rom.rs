use vstd::prelude::*;
use crate::ram::mem_read;

verus! {

/// Number of words held by the instruction store.
pub const ROM_SIZE: usize = 192;

/// The store's contents after loading `words`: the first `ROM_SIZE` of them,
/// followed by zeros where `words` runs short.
pub open spec fn loaded(words: Seq<u16>) -> Seq<u16> {
    Seq::new(ROM_SIZE as nat, |i: int| mem_read(words, i))
}

/// The little-endian word made of a low byte and a high byte.
pub open spec fn word_of(lo: u8, hi: u8) -> u16 {
    (lo as int + 256 * hi as int) as u16
}

/// The words that `bytes` spells, two bytes each, low byte first; a last odd
/// byte is dropped.
pub open spec fn words_of_bytes(bytes: Seq<u8>) -> Seq<u16> {
    Seq::new(bytes.len() / 2, |i: int| word_of(bytes[2 * i], bytes[2 * i + 1]))
}

/// The instruction store: a fixed number of words, filled once before a run.
/// Reads outside its range yield zero.
pub struct Rom {
    data: [u16; ROM_SIZE],
}

impl View for Rom {
    type V = Seq<u16>;

    closed spec fn view(&self) -> Seq<u16> {
        self.data@
    }
}

impl Rom {
    /// The store always holds exactly `ROM_SIZE` words.
    pub proof fn lemma_size(&self)
        ensures
            self@.len() == ROM_SIZE,
    {
    }

    /// A store whose words are all zero.
    pub fn new() -> (r: Rom)
        ensures
            r@ == Seq::new(ROM_SIZE as nat, |i: int| 0u16),
    {
        let r = Rom { data: [0u16; ROM_SIZE] };
        assert(r@ =~= Seq::new(ROM_SIZE as nat, |i: int| 0u16));
        r
    }

    /// The word at `index`, or zero when `index` is out of range.
    pub fn get(&self, index: u16) -> (r: u16)
        ensures
            r == mem_read(self@, index as int),
    {
        if (index as usize) < ROM_SIZE {
            self.data[index as usize]
        } else {
            0u16
        }
    }

    /// Overwrites one word, for building fixtures; loading a program never
    /// goes through it. Does nothing when `index` is out of range.
    pub fn _set(&mut self, value: u16, index: u16)
        ensures
            final(self)@ == crate::ram::mem_write(old(self)@, index as int, value),
    {
        if index as usize >= ROM_SIZE {
            return;
        }
        self.data[index as usize] = value;
    }

    /// Replaces the whole contents with `words`, padded with zeros or cut to
    /// the store's size.
    pub fn load(&mut self, words: Vec<u16>)
        ensures
            final(self)@ == loaded(words@),
    {
        let mut index: usize = 0;
        while index < ROM_SIZE
            invariant
                index <= ROM_SIZE,
                self@.len() == ROM_SIZE,
                forall|i: int| 0 <= i < index ==> self@[i] == mem_read(words@, i),
            decreases ROM_SIZE - index,
        {
            let word: u16 = if index < words.len() {
                words[index]
            } else {
                0u16
            };
            self.data[index] = word;
            index = index + 1;
        }
        assert(self@ =~= loaded(words@));
    }

    /// Replaces the whole contents with the words that `bytes` spells, two
    /// bytes per word with the low byte first.
    pub fn load_from_bytes(&mut self, bytes: &Vec<u8>)
        ensures
            final(self)@ == loaded(words_of_bytes(bytes@)),
    {
        let len: usize = bytes.len();
        let n: usize = len / 2;
        let mut words: Vec<u16> = Vec::with_capacity(n);
        let mut i: usize = 0;
        while i < n
            invariant
                len == bytes@.len(),
                n == len / 2,
                i <= n,
                words@ == words_of_bytes(bytes@).subrange(0, i as int),
            decreases n - i,
        {
            assert(2 * i + 1 < bytes@.len()) by (nonlinear_arith)
                requires
                    i < n,
                    n == len / 2,
                    len == bytes@.len(),
            ;
            let lo: u8 = bytes[2 * i];
            let hi: u8 = bytes[2 * i + 1];
            let word: u16 = (lo as u16) + 256 * (hi as u16);
            words.push(word);
            i = i + 1;
            assert(words@ =~= words_of_bytes(bytes@).subrange(0, i as int));
        }
        assert(words@ =~= words_of_bytes(bytes@));
        self.load(words);
    }
}

} // verus!
