//! Bounded reads and writes of a guest's linear memory.
use vstd::prelude::*;
use vstd::slice::{slice_subrange, slice_to_vec};

verus! {

/// Why an import handler stops the guest with a trap.
#[derive(Debug, Clone, Copy, PartialEq, Eq, Structural)]
pub enum GuestTrap {
    /// A pointer and length name bytes outside the linear memory, or the length is negative.
    OutOfBounds,
    /// A string argument of `__host_call` or `__console_log` is not UTF-8.
    InvalidUtf8,
    /// The bytes that a guest handed over as an error do not decode.
    Codec,
    /// A length does not fit in the 32-bit signed integer of the ABI.
    LengthOverflow,
}

/// The byte offset that a 32-bit guest pointer denotes: pointers are unsigned offsets.
pub open spec fn addr(ptr: i32) -> int {
    if ptr >= 0 {
        ptr as int
    } else {
        ptr as int + 0x1_0000_0000
    }
}

/// Whether `len` bytes at offset `at` lie inside a memory of `mem_len` bytes.
pub open spec fn region_ok(mem_len: int, at: int, len: int) -> bool {
    0 <= at && 0 <= len && at + len <= mem_len
}

/// The memory `mem` with `bytes` written at offset `at`.
pub open spec fn write_at(mem: Seq<u8>, at: int, bytes: Seq<u8>) -> Seq<u8> {
    mem.subrange(0, at) + bytes + mem.subrange(at + bytes.len(), mem.len() as int)
}

/// Computes the offset of a guest pointer.
fn offset(ptr: i32) -> (r: u64)
    ensures
        r as int == addr(ptr),
{
    if ptr >= 0 {
        ptr as u64
    } else {
        (ptr as i64 + 0x1_0000_0000i64) as u64
    }
}

/// Whether `len` bytes at guest pointer `ptr` lie inside a memory of `mem_len` bytes.
pub fn fits(mem_len: usize, ptr: i32, len: usize) -> (r: bool)
    ensures
        r == region_ok(mem_len as int, addr(ptr), len as int),
{
    let at = offset(ptr);
    let n = mem_len as u64;
    at <= n && len as u64 <= n - at
}

/// Traps unless `len` bytes at guest pointer `ptr` lie inside `mem`.
pub fn check_region(mem: &[u8], ptr: i32, len: i32) -> (r: Result<(), GuestTrap>)
    ensures
        region_ok(mem@.len() as int, addr(ptr), len as int) <==> r is Ok,
        r matches Err(t) ==> t == GuestTrap::OutOfBounds,
{
    if len < 0 || !fits(mem.len(), ptr, len as usize) {
        Err(GuestTrap::OutOfBounds)
    } else {
        Ok(())
    }
}

/// Copies `len` bytes at guest pointer `ptr` out of `mem`.
pub fn read_region(mem: &[u8], ptr: i32, len: i32) -> (r: Result<Vec<u8>, GuestTrap>)
    ensures
        region_ok(mem@.len() as int, addr(ptr), len as int) <==> r is Ok,
        r matches Ok(v) ==> v@ == mem@.subrange(addr(ptr), addr(ptr) + len),
        r matches Err(t) ==> t == GuestTrap::OutOfBounds,
{
    if len < 0 {
        return Err(GuestTrap::OutOfBounds);
    }
    if !fits(mem.len(), ptr, len as usize) {
        return Err(GuestTrap::OutOfBounds);
    }
    let start = offset(ptr) as usize;
    let end = start + len as usize;
    Ok(slice_to_vec(slice_subrange(mem, start, end)))
}

/// Writes `bytes` into `mem` at guest pointer `ptr`; on a trap the memory is left as it was.
pub fn write_region(mem: &mut [u8], ptr: i32, bytes: &[u8]) -> (r: Result<(), GuestTrap>)
    ensures
        region_ok(old(mem)@.len() as int, addr(ptr), bytes@.len() as int) <==> r is Ok,
        r is Ok ==> final(mem)@ == write_at(old(mem)@, addr(ptr), bytes@),
        r matches Err(t) ==> t == GuestTrap::OutOfBounds && final(mem)@ == old(mem)@,
{
    if !fits(mem.len(), ptr, bytes.len()) {
        return Err(GuestTrap::OutOfBounds);
    }
    let start = offset(ptr) as usize;
    let mut i: usize = 0;
    while i < bytes.len()
        invariant
            start + bytes@.len() <= mem@.len(),
            mem@.len() == mem.len(),
            mem@.len() == old(mem)@.len(),
            0 <= i <= bytes@.len(),
            start == addr(ptr),
            forall|j: int| start <= j < start + i ==> mem@[j] == bytes@[j - start],
            forall|j: int|
                0 <= j < mem@.len() && !(start <= j < start + i) ==> mem@[j] == old(mem)@[j],
        decreases bytes@.len() - i,
    {
        mem[start + i] = bytes[i];
        i = i + 1;
    }
    assert(mem@ =~= write_at(old(mem)@, addr(ptr), bytes@));
    Ok(())
}

} // verus!
