//! Little-endian reads and writes on the byte image of a section.
use vstd::prelude::*;

verus! {

/// The little-endian 16-bit word at `off`.
pub open spec fn le_u16(s: Seq<u8>, off: int) -> u16 {
    ((s[off] as u16) | ((s[off + 1] as u16) << 8u16)) as u16
}

/// The little-endian 32-bit word at `off`.
pub open spec fn le_u32(s: Seq<u8>, off: int) -> u32 {
    ((s[off] as u32) | ((s[off + 1] as u32) << 8u32) | ((s[off + 2] as u32) << 16u32) | ((s[off
        + 3] as u32) << 24u32)) as u32
}

/// The little-endian 64-bit word at `off`.
pub open spec fn le_u64(s: Seq<u8>, off: int) -> u64 {
    ((le_u32(s, off) as u64) | ((le_u32(s, off + 4) as u64) << 32u64)) as u64
}

/// `s` with the 16-bit word `v` stored little-endian at `off`.
pub open spec fn put_u16(s: Seq<u8>, off: int, v: u16) -> Seq<u8> {
    s.update(off, (v & 0xff) as u8).update(off + 1, ((v >> 8u16) & 0xff) as u8)
}

/// `s` with the 32-bit word `v` stored little-endian at `off`.
pub open spec fn put_u32(s: Seq<u8>, off: int, v: u32) -> Seq<u8> {
    s.update(off, (v & 0xff) as u8).update(off + 1, ((v >> 8u32) & 0xff) as u8).update(
        off + 2,
        ((v >> 16u32) & 0xff) as u8,
    ).update(off + 3, ((v >> 24u32) & 0xff) as u8)
}

/// `s` with the 64-bit word `v` stored little-endian at `off`.
pub open spec fn put_u64(s: Seq<u8>, off: int, v: u64) -> Seq<u8> {
    put_u32(put_u32(s, off, (v & 0xffff_ffff) as u32), off + 4, (v >> 32u64) as u32)
}

/// Whether the `n` bytes from `off` are all zero.
pub open spec fn zero_range(s: Seq<u8>, off: int, n: int) -> bool {
    forall|i: int| off <= i < off + n ==> s[i] == 0
}

pub fn read_u16(mem: &Vec<u8>, off: usize) -> (r: u16)
    requires
        off + 2 <= mem@.len(),
    ensures
        r == le_u16(mem@, off as int),
{
    let _len = mem.len();
    (mem[off] as u16) | ((mem[off + 1] as u16) << 8u16)
}

pub fn read_u32(mem: &Vec<u8>, off: usize) -> (r: u32)
    requires
        off + 4 <= mem@.len(),
    ensures
        r == le_u32(mem@, off as int),
{
    let _len = mem.len();
    (mem[off] as u32) | ((mem[off + 1] as u32) << 8u32) | ((mem[off + 2] as u32) << 16u32) | ((
    mem[off + 3] as u32) << 24u32)
}

pub fn read_u64(mem: &Vec<u8>, off: usize) -> (r: u64)
    requires
        off + 8 <= mem@.len(),
    ensures
        r == le_u64(mem@, off as int),
{
    let _len = mem.len();
    let lo = read_u32(mem, off);
    let hi = read_u32(mem, off + 4);
    (lo as u64) | ((hi as u64) << 32u64)
}

pub fn write_u16(mem: &mut Vec<u8>, off: usize, v: u16)
    requires
        off + 2 <= old(mem)@.len(),
    ensures
        final(mem)@ == put_u16(old(mem)@, off as int, v),
{
    let _len = mem.len();
    mem.set(off, #[verifier::truncate] ((v & 0xff) as u8));
    mem.set(off + 1, #[verifier::truncate] (((v >> 8u16) & 0xff) as u8));
}

pub fn write_u32(mem: &mut Vec<u8>, off: usize, v: u32)
    requires
        off + 4 <= old(mem)@.len(),
    ensures
        final(mem)@ == put_u32(old(mem)@, off as int, v),
{
    let _len = mem.len();
    mem.set(off, #[verifier::truncate] ((v & 0xff) as u8));
    mem.set(off + 1, #[verifier::truncate] (((v >> 8u32) & 0xff) as u8));
    mem.set(off + 2, #[verifier::truncate] (((v >> 16u32) & 0xff) as u8));
    mem.set(off + 3, #[verifier::truncate] (((v >> 24u32) & 0xff) as u8));
}

pub fn write_u64(mem: &mut Vec<u8>, off: usize, v: u64)
    requires
        off + 8 <= old(mem)@.len(),
    ensures
        final(mem)@ == put_u64(old(mem)@, off as int, v),
{
    let _len = mem.len();
    write_u32(mem, off, #[verifier::truncate] ((v & 0xffff_ffff) as u32));
    write_u32(mem, off + 4, #[verifier::truncate] ((v >> 32u64) as u32));
}

/// Whether the `n` bytes from `off` are all zero.
pub fn is_zero_range(mem: &Vec<u8>, off: usize, n: usize) -> (r: bool)
    requires
        off + n <= mem@.len(),
    ensures
        r == zero_range(mem@, off as int, n as int),
{
    let mut i: usize = 0;
    let len = mem.len();
    while i < n
        invariant
            len == mem@.len(),
            off + n <= mem@.len(),
            i <= n,
            zero_range(mem@, off as int, i as int),
        decreases n - i,
    {
        if mem[off + i] != 0 {
            return false;
        }
        i += 1;
    }
    true
}

/// Reading back a stored 32-bit word gives the word.
pub proof fn lemma_u32_round_trip(s: Seq<u8>, off: int, v: u32)
    requires
        0 <= off,
        off + 4 <= s.len(),
    ensures
        le_u32(put_u32(s, off, v), off) == v,
        put_u32(s, off, v).len() == s.len(),
{
    let t = put_u32(s, off, v);
    let b0 = (v & 0xff) as u8;
    let b1 = ((v >> 8u32) & 0xff) as u8;
    let b2 = ((v >> 16u32) & 0xff) as u8;
    let b3 = ((v >> 24u32) & 0xff) as u8;
    assert(t[off] == b0 && t[off + 1] == b1 && t[off + 2] == b2 && t[off + 3] == b3);
    assert(((b0 as u32) | ((b1 as u32) << 8u32) | ((b2 as u32) << 16u32) | ((b3 as u32)
        << 24u32)) == v) by (bit_vector)
        requires
            b0 == (v & 0xff) as u8,
            b1 == ((v >> 8u32) & 0xff) as u8,
            b2 == ((v >> 16u32) & 0xff) as u8,
            b3 == ((v >> 24u32) & 0xff) as u8,
    ;
}

} // verus!

verus! {

/// `x + y` modulo 2^64.
pub open spec fn wadd(x: u64, y: u64) -> u64 {
    vstd::wrapping::u64_specs::wrapping_add(x, y)
}

/// `x - y` modulo 2^64.
pub open spec fn wsub(x: u64, y: u64) -> u64 {
    vstd::wrapping::u64_specs::wrapping_sub(x, y)
}

} // verus!
