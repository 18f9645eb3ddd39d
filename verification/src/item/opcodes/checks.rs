//! Arithmetic of the static checks of instructions: where a branch lands.
use vstd::prelude::*;

verus! {

/// Whether the branch from the instruction at `position` by `off`
/// instructions lands outside a list of `len` instructions: the target must
/// be one of them (JVMS 4.9.1).
pub open spec fn branch_bad(position: usize, off: int, len: nat) -> bool {
    let t = position + off;
    t < 0 || t >= len
}

/// [`branch_bad`], computed.
pub fn branch_out(position: usize, off: i32, len: usize) -> (r: bool)
    ensures
        r == branch_bad(position, off as int, len as nat),
{
    let t: i128 = position as i128 + off as i128;
    t < 0 || t >= len as i128
}

/// Whether a 16-bit branch at `position` lands outside `len` instructions.
pub open spec fn branch16_bad(position: usize, v: i16, len: nat) -> bool {
    branch_bad(position, v as int, len)
}

/// [`branch16_bad`], computed.
pub fn branch16_out(position: usize, v: i16, len: usize) -> (r: bool)
    ensures
        r == branch16_bad(position, v, len as nat),
{
    branch_out(position, v as i32, len)
}

/// Whether a 32-bit branch at `position` (its offset is signed) lands
/// outside `len` instructions.
pub open spec fn branch32_bad(position: usize, v: u32, len: nat) -> bool {
    branch_bad(position, (v as i32) as int, len)
}

/// [`branch32_bad`], computed.
pub fn branch32_out(position: usize, v: u32, len: usize) -> (r: bool)
    ensures
        r == branch32_bad(position, v, len as nat),
{
    branch_out(position, v as i32, len)
}

/// An 8-bit constant pool index, widened.
pub open spec fn widen(v: u8) -> u16 {
    v as u16
}

/// [`widen`], computed.
pub fn widen_index(v: u8) -> (r: u16)
    ensures
        r == widen(v),
{
    v as u16
}

/// Whether a constant pool index lies past the last of `len` entries.
pub open spec fn index_past(v: u16, len: nat) -> bool {
    (v as usize) > len
}

/// [`index_past`], computed.
pub fn index_out(v: u16, len: usize) -> (r: bool)
    ensures
        r == index_past(v, len as nat),
{
    (v as usize) > len
}

} // verus!
