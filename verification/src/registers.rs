//! The names of the general-purpose and the special-purpose registers.
//!
//! Both tables have sixteen entries, one for each value of a 4-bit register
//! field, so a decoded register index always names an entry.

use vstd::prelude::*;

verus! {

/// The names of the general-purpose registers, by index.
pub const GPR_NAME: [&'static str; 16] = [
    "$0", "$1", "$2", "$3", "$4", "$5", "$6", "$7", "$8", "$9", "$10", "$11", "$12", "$13", "$sp",
    "$ra",
];

/// The names of the special-purpose registers, by index.
pub const SPR_NAME: [&'static str; 16] = [
    "$spr0", "$spr1", "$spr2", "$spr3", "$cctrl", "$estat", "$icount", "$ccount", "$evec", "$ear",
    "$esp", "$ers", "$ptable", "$rbase", "$spr14", "$spr15",
];

/// The name of general-purpose register `index` as a character sequence.
pub open spec fn gpr_text(index: u32) -> Seq<char>
    recommends
        index < 16,
{
    GPR_NAME@[index as int]@
}

/// The name of special-purpose register `index` as a character sequence.
pub open spec fn spr_text(index: u32) -> Seq<char>
    recommends
        index < 16,
{
    SPR_NAME@[index as int]@
}

/// The name of general-purpose register `index`.
pub fn gpr_name(index: u32) -> (name: &'static str)
    requires
        index < 16,
    ensures
        name@ == gpr_text(index),
{
    GPR_NAME[index as usize]
}

/// The name of special-purpose register `index`.
pub fn spr_name(index: u32) -> (name: &'static str)
    requires
        index < 16,
    ensures
        name@ == spr_text(index),
{
    SPR_NAME[index as usize]
}

} // verus!
