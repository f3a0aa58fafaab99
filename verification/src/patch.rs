//! The instruction patch engine: puts the trap instruction in place of an
//! original instruction and puts the original back.

use vstd::prelude::*;
use crate::backend::Backend;
use crate::memory::{splice, window_covers, CodeMemory};

verus! {

/// The width in bytes of the trap instruction, and of every instruction
/// that may be probed.
pub const TRAP_WIDTH: usize = 4;

/// The alignment that an instruction address must have.
pub const INSN_ALIGN: usize = 4;

/// The bytes of the trap instruction (`ebreak`, little endian).
pub open spec fn trap_insn() -> Seq<u8> {
    seq![0x73u8, 0x00u8, 0x10u8, 0x00u8]
}

/// Whether `addr` is aligned as an instruction address must be.
pub open spec fn aligned(addr: usize) -> bool {
    addr % INSN_ALIGN == 0
}

/// The instruction at address `addr` in the window `code` that starts at
/// `base`: the bytes at the offsets `[addr - base, addr - base + TRAP_WIDTH)`.
pub open spec fn insn_at(base: usize, code: Seq<u8>, addr: usize) -> Seq<u8> {
    code.subrange(addr - base, addr - base + TRAP_WIDTH)
}

/// `code` with the instruction at `addr` replaced by `insn`.
pub open spec fn with_insn(base: usize, code: Seq<u8>, addr: usize, insn: Seq<u8>) -> Seq<u8> {
    splice(code, addr - base, insn)
}

/// Why the patch engine refused to install a trap instruction.
#[derive(Clone, Copy, Debug, PartialEq, Eq, Structural)]
pub enum PatchError {
    /// The address is already occupied by a registry.
    AlreadyPatched,
    /// The address is not aligned as an instruction address must be.
    Unaligned,
    /// The instruction at the address does not lie inside the code memory.
    OutOfRange,
}

/// The reason, if any, for which a trap instruction cannot be installed at
/// `addr` in a window of `size` bytes at `base`; `occupied` says whether a
/// registry already tracks the address.
pub open spec fn install_refusal(base: usize, size: nat, addr: usize, occupied: bool) -> Option<
    PatchError,
> {
    if occupied {
        Some(PatchError::AlreadyPatched)
    } else if !aligned(addr) {
        Some(PatchError::Unaligned)
    } else if !window_covers(base, size, addr, TRAP_WIDTH as nat) {
        Some(PatchError::OutOfRange)
    } else {
        None
    }
}

/// The bytes of the trap instruction.
pub fn trap_instruction() -> (insn: Vec<u8>)
    ensures
        insn@ == trap_insn(),
{
    let mut insn: Vec<u8> = Vec::new();
    insn.push(0x73u8);
    insn.push(0x00u8);
    insn.push(0x10u8);
    insn.push(0x00u8);
    assert(insn@ =~= trap_insn());
    insn
}

/// Whether `addr` is aligned as an instruction address must be.
pub fn is_aligned(addr: usize) -> (ok: bool)
    ensures
        ok == aligned(addr),
{
    addr % INSN_ALIGN == 0
}

/// Installs the trap instruction at `addr`.
///
/// On success the original instruction is returned, the trap instruction
/// stands in its place and the backend has synchronized the patched bytes.
/// On refusal the memory is untouched.
pub fn install<B: Backend>(
    mem: &mut CodeMemory,
    backend: &B,
    addr: usize,
    occupied: bool,
) -> (result: Result<Vec<u8>, PatchError>)
    requires
        old(mem).coherent(),
    ensures
        final(mem).base() == old(mem).base(),
        final(mem).coherent(),
        match result {
            Ok(saved) => {
                &&& install_refusal(old(mem).base(), old(mem)@.len(), addr, occupied) is None
                &&& saved@ == insn_at(old(mem).base(), old(mem)@, addr)
                &&& final(mem)@ == with_insn(old(mem).base(), old(mem)@, addr, trap_insn())
                &&& backend.synchronized(addr, TRAP_WIDTH)
            },
            Err(e) => {
                &&& install_refusal(old(mem).base(), old(mem)@.len(), addr, occupied) == Some(e)
                &&& final(mem)@ == old(mem)@
            },
        },
{
    if occupied {
        return Err(PatchError::AlreadyPatched);
    }
    if !is_aligned(addr) {
        return Err(PatchError::Unaligned);
    }
    if !mem.contains(addr, TRAP_WIDTH) {
        return Err(PatchError::OutOfRange);
    }
    let saved = mem.read(addr, TRAP_WIDTH);
    arm(mem, backend, addr);
    Ok(saved)
}

/// Writes the trap instruction at `addr` and has the backend synchronize
/// it, without looking at what stood there.
pub fn arm<B: Backend>(mem: &mut CodeMemory, backend: &B, addr: usize)
    requires
        old(mem).coherent(),
        old(mem).covers(addr, TRAP_WIDTH as nat),
    ensures
        final(mem).base() == old(mem).base(),
        final(mem).coherent(),
        final(mem)@ == with_insn(old(mem).base(), old(mem)@, addr, trap_insn()),
        backend.synchronized(addr, TRAP_WIDTH),
{
    let insn = trap_instruction();
    mem.write(addr, &insn);
    mem.sync(backend, addr, TRAP_WIDTH);
}

/// Puts the instruction `saved` back at `addr` and has the backend
/// synchronize it.
///
/// The caller vouches that `addr` was patched by `install` and that `saved`
/// is what `install` returned for it.
pub fn restore<B: Backend>(mem: &mut CodeMemory, backend: &B, addr: usize, saved: &Vec<u8>)
    requires
        old(mem).coherent(),
        old(mem).covers(addr, TRAP_WIDTH as nat),
        saved@.len() == TRAP_WIDTH,
    ensures
        final(mem).base() == old(mem).base(),
        final(mem).coherent(),
        final(mem)@ == with_insn(old(mem).base(), old(mem)@, addr, saved@),
        backend.synchronized(addr, TRAP_WIDTH),
{
    mem.write(addr, saved);
    mem.sync(backend, addr, TRAP_WIDTH);
}

/// Writing an instruction and then writing back what was there before
/// leaves the code as it was.
pub proof fn lemma_patch_round_trip(base: usize, code: Seq<u8>, addr: usize, insn: Seq<u8>)
    requires
        window_covers(base, code.len(), addr, TRAP_WIDTH as nat),
        insn.len() == TRAP_WIDTH,
    ensures
        with_insn(base, with_insn(base, code, addr, insn), addr, insn_at(base, code, addr))
            == code,
        insn_at(base, with_insn(base, code, addr, insn), addr) == insn,
        with_insn(base, code, addr, insn).len() == code.len(),
{
    let patched = with_insn(base, code, addr, insn);
    assert(with_insn(base, patched, addr, insn_at(base, code, addr)) =~= code);
    assert(insn_at(base, patched, addr) =~= insn);
}

} // verus!
