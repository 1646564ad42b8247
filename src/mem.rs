use vstd::prelude::*;

verus! {

/// Bytes of memory: the whole 16-bit address space.
pub const MEM_SIZE: usize = 65536;

/// Registers in the register file.
pub const NUM_REGS: usize = 16;

/// The machine as a mathematical value: sixteen registers and the memory
/// bytes. Register 0 is the program counter, 1 the stack pointer, 2 the
/// status register and 3 the constant generator.
pub struct MachineState {
    pub regs: Seq<u16>,
    pub mem: Seq<u8>,
}

pub open spec fn state_wf(s: MachineState) -> bool {
    s.regs.len() == NUM_REGS && s.mem.len() == MEM_SIZE
}

/// Addition modulo 2^16.
pub open spec fn wrap_add(a: u16, b: u16) -> u16 {
    ((a as int + b as int) % 0x10000) as u16
}

/// Subtraction modulo 2^16.
pub open spec fn wrap_sub(a: u16, b: u16) -> u16 {
    ((a as int - b as int + 0x10000) % 0x10000) as u16
}

/// The address after `a`, wrapping at the top of memory.
pub open spec fn next_addr(a: u16) -> int {
    (a as int + 1) % 0x10000
}

/// The word at `a`: low byte at `a`, high byte at the next address.
pub open spec fn word_at(m: Seq<u8>, a: u16) -> u16 {
    (m[a as int] as int + 256 * m[next_addr(a)] as int) as u16
}

/// The byte at `a`, zero-extended.
pub open spec fn byte_at(m: Seq<u8>, a: u16) -> u16 {
    m[a as int] as u16
}

/// `m` with the word `v` stored at `a`, low byte first.
pub open spec fn put_word(m: Seq<u8>, a: u16, v: u16) -> Seq<u8> {
    m.update(a as int, (v % 256) as u8).update(next_addr(a), (v / 256) as u8)
}

/// `m` with the low byte of `v` stored at `a`; no other byte changes.
pub open spec fn put_byte(m: Seq<u8>, a: u16, v: u16) -> Seq<u8> {
    m.update(a as int, (v % 256) as u8)
}

/// Addition modulo 2^16.
pub fn add16(a: u16, b: u16) -> (r: u16)
    ensures
        r == wrap_add(a, b),
{
    ((a as u32 + b as u32) % 0x10000) as u16
}

/// Subtraction modulo 2^16.
pub fn sub16(a: u16, b: u16) -> (r: u16)
    ensures
        r == wrap_sub(a, b),
{
    ((a as u32 + 0x10000 - b as u32) % 0x10000) as u16
}

/// Reads the word at `a`.
pub fn load_word(m: &Vec<u8>, a: u16) -> (r: u16)
    requires
        m.len() == MEM_SIZE,
    ensures
        r == word_at(m@, a),
{
    let lo = m[a as usize];
    let hi = m[((a as usize) + 1) % MEM_SIZE];
    lo as u16 + 256 * (hi as u16)
}

/// Reads the byte at `a`.
pub fn load_byte(m: &Vec<u8>, a: u16) -> (r: u16)
    requires
        m.len() == MEM_SIZE,
    ensures
        r == byte_at(m@, a),
{
    m[a as usize] as u16
}

/// Writes the word `v` at `a`, low byte first.
pub fn store_word(m: &mut Vec<u8>, a: u16, v: u16)
    requires
        old(m).len() == MEM_SIZE,
    ensures
        final(m)@ == put_word(old(m)@, a, v),
{
    m.set(a as usize, (v % 256) as u8);
    m.set(((a as usize) + 1) % MEM_SIZE, (v / 256) as u8);
}

/// Writes the low byte of `v` at `a`.
pub fn store_byte(m: &mut Vec<u8>, a: u16, v: u16)
    requires
        old(m).len() == MEM_SIZE,
    ensures
        final(m)@ == put_byte(old(m)@, a, v),
{
    m.set(a as usize, (v % 256) as u8);
}

} // verus!
