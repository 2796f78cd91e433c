//! A memory bank: a fixed-size byte buffer identified by a display name.
//! Out-of-range reads return 0; out-of-range writes and loads are dropped.

use vstd::prelude::*;

verus! {

/// The value a bank yields at `addr`: the stored byte, or 0 past the end.
pub open spec fn bank_read(m: Seq<u8>, addr: u16) -> u8 {
    if addr < m.len() {
        m[addr as int]
    } else {
        0u8
    }
}

/// The bank after writing `value` at `addr`; a write past the end is dropped.
pub open spec fn bank_write(m: Seq<u8>, addr: u16, value: u8) -> Seq<u8> {
    if addr < m.len() {
        m.update(addr as int, value)
    } else {
        m
    }
}

/// The bank after copying `bytes` in at `offset`; a copy that would run past
/// the end is dropped whole.
pub open spec fn bank_load(m: Seq<u8>, offset: u16, bytes: Seq<u8>) -> Seq<u8> {
    if offset + bytes.len() <= m.len() {
        Seq::new(m.len(), |i: int| if offset <= i < offset + bytes.len() {
            bytes[i - offset]
        } else {
            m[i]
        })
    } else {
        m
    }
}

pub struct Memory {
    data: Vec<u8>,
    id: String,
}

impl View for Memory {
    type V = Seq<u8>;

    closed spec fn view(&self) -> Seq<u8> {
        self.data@
    }
}

impl Memory {
    pub fn new(size: usize, id: String) -> (r: Memory)
        ensures
            r@ == Seq::new(size as nat, |i: int| 0u8),
    {
        let mut data: Vec<u8> = Vec::new();
        let mut i: usize = 0;
        while i < size
            invariant
                i <= size,
                data@ =~= Seq::new(i as nat, |j: int| 0u8),
            decreases size - i,
        {
            data.push(0u8);
            i = i + 1;
        }
        proof {
            assert(data@ =~= Seq::new(size as nat, |i: int| 0u8));
        }
        Memory { data, id }
    }

    pub fn read_byte(&self, addr: u16) -> (r: u8)
        ensures
            r == bank_read(self@, addr),
    {
        if (addr as usize) < self.data.len() {
            self.data[addr as usize]
        } else {
            0x00
        }
    }

    pub fn write_byte(&mut self, addr: u16, value: u8) -> (r: u8)
        ensures
            final(self)@ == bank_write(old(self)@, addr, value),
            r == 0u8,
    {
        if (addr as usize) < self.data.len() {
            self.data.set(addr as usize, value);
        }
        0x00
    }

    /// Copies `len` bytes of `src`, starting at `src_start`, in at `offset`;
    /// as with `load_bytes`, a copy that would run past the end is dropped.
    pub(crate) fn load_range(&mut self, offset: u16, src: &Vec<u8>, src_start: usize, len: usize)
        requires
            src_start + len <= src@.len(),
        ensures
            final(self)@ == bank_load(
                old(self)@,
                offset,
                src@.subrange(src_start as int, src_start + len),
            ),
    {
        let ghost bytes: Seq<u8> = src@.subrange(src_start as int, src_start + len);
        let src_len: usize = src.len();
        let start = offset as usize;
        if len <= self.data.len() && start <= self.data.len() - len {
            proof {
                assert(self.data@.len() <= usize::MAX);
                assert(src@.len() <= usize::MAX);
            }
            let mut i: usize = 0;
            while i < len
                invariant
                    i <= len,
                    src_start + len <= src@.len(),
                    src@.len() <= usize::MAX,
                    bytes == src@.subrange(src_start as int, src_start + len),
                    start + len <= self.data@.len(),
                    self.data@.len() <= usize::MAX,
                    self.data@.len() == old(self)@.len(),
                    forall|j: int| 0 <= j < i ==> self.data@[start + j] == bytes[j],
                    forall|j: int| 0 <= j < self.data@.len()
                        && !(start <= j < start + i) ==> self.data@[j] == old(self)@[j],
                decreases len - i,
            {
                self.data.set(start + i, src[src_start + i]);
                i = i + 1;
            }
            proof {
                assert(self.data@ =~= bank_load(old(self)@, offset, bytes));
            }
        }
    }

    pub fn load_bytes(&mut self, offset: u16, bytes: &[u8])
        ensures
            final(self)@ == bank_load(old(self)@, offset, bytes@),
    {
        let start = offset as usize;
        if bytes.len() <= self.data.len() && start <= self.data.len() - bytes.len() {
            proof {
                assert(self.data@.len() <= usize::MAX);
            }
            let mut i: usize = 0;
            while i < bytes.len()
                invariant
                    i <= bytes@.len(),
                    start + bytes@.len() <= self.data@.len(),
                    self.data@.len() <= usize::MAX,
                    self.data@.len() == old(self)@.len(),
                    forall|j: int| 0 <= j < i ==> self.data@[start + j] == bytes@[j],
                    forall|j: int| 0 <= j < self.data@.len()
                        && !(start <= j < start + i) ==> self.data@[j] == old(self)@[j],
                decreases bytes@.len() - i,
            {
                self.data.set(start + i, bytes[i]);
                i = i + 1;
            }
            proof {
                assert(self.data@ =~= bank_load(old(self)@, offset, bytes@));
            }
        }
    }
}

} // verus!
