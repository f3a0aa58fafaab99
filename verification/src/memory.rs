//! The window of executable memory that probes may patch.

use vstd::prelude::*;
use crate::backend::Backend;

verus! {

/// Whether `[addr, addr + len)` lies inside a window of `size` bytes that
/// starts at address `base`.
pub open spec fn window_covers(base: usize, size: nat, addr: usize, len: nat) -> bool {
    base <= addr && (addr - base) + len <= size
}

/// `code` with the bytes from offset `at` on replaced by `data`.
pub open spec fn splice(code: Seq<u8>, at: int, data: Seq<u8>) -> Seq<u8> {
    Seq::new(
        code.len(),
        |i: int|
            if at <= i < at + data.len() {
                data[i - at]
            } else {
                code[i]
            },
    )
}

/// The offsets `[at, at + len)`.
pub open spec fn span(at: int, len: nat) -> Set<int> {
    Set::new(|i: int| at <= i < at + len)
}

/// A borrowed window of executable memory: the byte at index `i` is the byte
/// at address `base + i`.
///
/// Besides the bytes the window keeps track, as ghost state, of the offsets
/// that were written since the backend was last asked to synchronize them.
pub struct CodeMemory<'a> {
    base: usize,
    bytes: &'a mut [u8],
    pending: Ghost<Set<int>>,
}

impl<'a> CodeMemory<'a> {
    /// The bytes of the window.
    pub closed spec fn view(&self) -> Seq<u8> {
        self.bytes@
    }

    /// The address of the first byte.
    pub closed spec fn base(&self) -> usize {
        self.base
    }

    /// The offsets written since they were last synchronized.
    pub closed spec fn pending(&self) -> Set<int> {
        self.pending@
    }

    /// No written byte is still waiting for synchronization.
    pub open spec fn coherent(&self) -> bool {
        self.pending() =~= Set::<int>::empty()
    }

    /// Whether `[addr, addr + len)` lies inside the window.
    pub open spec fn covers(&self, addr: usize, len: nat) -> bool {
        window_covers(self.base(), self@.len(), addr, len)
    }

    /// Wraps `bytes` as the memory found at address `base`.
    pub fn new(base: usize, bytes: &'a mut [u8]) -> (mem: Self)
        ensures
            mem@ == old(bytes)@,
            mem.base() == base,
            mem.coherent(),
    {
        CodeMemory { base, bytes, pending: Ghost(Set::empty()) }
    }

    /// The address of the first byte.
    pub fn start(&self) -> (base: usize)
        ensures
            base == self.base(),
    {
        self.base
    }

    /// The number of bytes in the window.
    pub fn len(&self) -> (len: usize)
        ensures
            len == self@.len(),
    {
        self.bytes.len()
    }

    /// Whether `[addr, addr + len)` lies inside the window.
    pub fn contains(&self, addr: usize, len: usize) -> (inside: bool)
        ensures
            inside == self.covers(addr, len as nat),
    {
        let size = self.bytes.len();
        addr >= self.base && len <= size && addr - self.base <= size - len
    }

    /// Copies out the `len` bytes at `addr`.
    pub fn read(&self, addr: usize, len: usize) -> (data: Vec<u8>)
        requires
            self.covers(addr, len as nat),
        ensures
            data@ == self@.subrange(addr - self.base(), addr - self.base() + len),
    {
        let at = addr - self.base;
        let size = self.bytes.len();
        let mut data: Vec<u8> = Vec::new();
        let mut i: usize = 0;
        while i < len
            invariant
                i <= len,
                at + len <= size == self.bytes@.len(),
                data@ == self.bytes@.subrange(at as int, at + i),
            decreases len - i,
        {
            data.push(self.bytes[at + i]);
            i = i + 1;
        }
        data
    }

    /// Overwrites the bytes at `addr` with `data` and records them as written.
    pub(crate) fn write(&mut self, addr: usize, data: &Vec<u8>)
        requires
            old(self).covers(addr, data@.len()),
        ensures
            final(self).base() == old(self).base(),
            final(self)@ == splice(old(self)@, addr - old(self).base(), data@),
            final(self).pending() == old(self).pending().union(
                span(addr - old(self).base(), data@.len()),
            ),
    {
        let at = addr - self.base;
        let len = data.len();
        let size = self.bytes.len();
        let mut i: usize = 0;
        while i < len
            invariant
                i <= len,
                len == data@.len(),
                at + len <= size == self.bytes@.len(),
                self.base == old(self).base,
                self.pending == old(self).pending,
                self.bytes@ == splice(old(self).bytes@, at as int, data@.take(i as int)),
            decreases len - i,
        {
            self.bytes[at + i] = data[i];
            i = i + 1;
        }
        proof {
            assert(data@.take(len as int) =~= data@);
            self.pending = Ghost(self.pending@.union(span(at as int, len as nat)));
        }
    }

    /// Asks the backend to synchronize `[addr, addr + len)` and records the
    /// range as no longer pending.
    pub(crate) fn sync<B: Backend>(&mut self, backend: &B, addr: usize, len: usize)
        requires
            old(self).covers(addr, len as nat),
        ensures
            final(self).base() == old(self).base(),
            final(self)@ == old(self)@,
            final(self).pending() == old(self).pending().difference(
                span(addr - old(self).base(), len as nat),
            ),
            backend.synchronized(addr, len),
    {
        backend.sync_icache(addr, len);
        proof {
            self.pending = Ghost(self.pending@.difference(span(addr - self.base, len as nat)));
        }
    }
}

} // verus!
