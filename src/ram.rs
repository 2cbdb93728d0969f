use vstd::prelude::*;

verus! {

/// Number of words held by the data store.
pub const RAM_SIZE: usize = 192;

/// The word at `index` in `mem`, or zero when `index` lies outside it.
pub open spec fn mem_read(mem: Seq<u16>, index: int) -> u16 {
    if 0 <= index < mem.len() {
        mem[index]
    } else {
        0
    }
}

/// `mem` with `value` stored at `index`, or `mem` itself when `index` lies outside it.
pub open spec fn mem_write(mem: Seq<u16>, index: int, value: u16) -> Seq<u16> {
    if 0 <= index < mem.len() {
        mem.update(index, value)
    } else {
        mem
    }
}

/// The read-write data store: a fixed number of words, all zero at creation.
/// Accesses outside its range read as zero and write nothing.
pub struct Ram {
    data: [u16; RAM_SIZE],
}

impl View for Ram {
    type V = Seq<u16>;

    closed spec fn view(&self) -> Seq<u16> {
        self.data@
    }
}

impl Ram {
    /// The store always holds exactly `RAM_SIZE` words.
    pub proof fn lemma_size(&self)
        ensures
            self@.len() == RAM_SIZE,
    {
    }

    /// A store whose words are all zero.
    pub fn new() -> (r: Ram)
        ensures
            r@ == Seq::new(RAM_SIZE as nat, |i: int| 0u16),
    {
        let r = Ram { data: [0u16; RAM_SIZE] };
        assert(r@ =~= Seq::new(RAM_SIZE as nat, |i: int| 0u16));
        r
    }

    /// Stores `value` at `index`; does nothing when `index` is out of range.
    pub fn set(&mut self, value: u16, index: u16)
        ensures
            final(self)@ == mem_write(old(self)@, index as int, value),
    {
        if index as usize >= RAM_SIZE {
            return;
        }
        self.data[index as usize] = value;
    }

    /// The word at `index`, or zero when `index` is out of range.
    pub fn get(&self, index: u16) -> (r: u16)
        ensures
            r == mem_read(self@, index as int),
    {
        if (index as usize) < RAM_SIZE {
            self.data[index as usize]
        } else {
            0u16
        }
    }
}

} // verus!
