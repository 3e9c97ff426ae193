//! The instruction catalogue and the lookup of an entry by opcode and
//! function code.
//!
//! The catalogue is an ordered list. An entry can be found when it has a
//! mnemonic and is no directive; register-type and immediate-type entries
//! are found by opcode and function code, jump-type entries by opcode alone.
//! Where several entries qualify, the first in catalogue order is the result.

use crate::decode::{decode_spec, encode_spec, lemma_decode_encode};
use vstd::prelude::*;

verus! {

/// The encoding family of a catalogue entry.
#[derive(Clone, Copy, Debug, PartialEq, Eq, Structural)]
pub enum InsnDescriptor {
    IType,
    RType,
    JType,
    Directive,
    Other,
}

/// One catalogue entry. Directives carry no operand template, and their
/// opcode and function code are the sentinel `DIRECTIVE_CODE`.
#[derive(Clone, Copy, Debug, PartialEq, Eq)]
pub struct InsnType<'a> {
    pub mnemonic: Option<&'a str>,
    pub operands: Option<&'a str>,
    pub opcode: u32,
    pub func: u32,
    pub type_descriptor: InsnDescriptor,
}

/// What a catalogue entry says, with its texts as character sequences.
pub ghost struct InsnSpec {
    pub mnemonic: Option<Seq<char>>,
    pub operands: Option<Seq<char>>,
    pub opcode: u32,
    pub func: u32,
    pub kind: InsnDescriptor,
}

/// The opcode and function code of a directive: a value that no 4-bit field
/// can hold.
pub const DIRECTIVE_CODE: u32 = 0xfff;

/// The number of catalogue entries, the closing empty entry included.
pub const CATALOGUE_LEN: usize = 84;

impl<'a> View for InsnType<'a> {
    type V = InsnSpec;

    open spec fn view(&self) -> InsnSpec {
        InsnSpec {
            mnemonic: match self.mnemonic {
                Some(text) => Some(text@),
                None => None,
            },
            operands: match self.operands {
                Some(text) => Some(text@),
                None => None,
            },
            opcode: self.opcode,
            func: self.func,
            kind: self.type_descriptor,
        }
    }
}

/// An instruction entry with a mnemonic and an operand template.
pub open spec fn insn(
    mnemonic: Seq<char>,
    operands: Seq<char>,
    opcode: u32,
    func: u32,
    kind: InsnDescriptor,
) -> InsnSpec {
    InsnSpec { mnemonic: Some(mnemonic), operands: Some(operands), opcode, func, kind }
}

/// A directive entry: a mnemonic, no operand template, sentinel codes.
pub open spec fn directive(mnemonic: Seq<char>) -> InsnSpec {
    InsnSpec {
        mnemonic: Some(mnemonic),
        operands: None,
        opcode: DIRECTIVE_CODE,
        func: DIRECTIVE_CODE,
        kind: InsnDescriptor::Directive,
    }
}

/// The empty entry that closes the catalogue.
pub open spec fn terminator() -> InsnSpec {
    InsnSpec {
        mnemonic: None,
        operands: None,
        opcode: 0,
        func: 0,
        kind: InsnDescriptor::Directive,
    }
}

/// The catalogue entry at position `index`; past the end of the catalogue,
/// the empty entry that closes it.
pub open spec fn catalogue_at(index: usize) -> InsnSpec {
    match index {
        0 => insn("add"@, "d,s,t"@, 0x0, 0x0, InsnDescriptor::RType),
        1 => insn("addi"@, "d,s,i"@, 0x1, 0x0, InsnDescriptor::IType),
        2 => insn("addu"@, "d,s,t"@, 0x0, 0x1, InsnDescriptor::RType),
        3 => insn("addui"@, "d,s,i"@, 0x1, 0x1, InsnDescriptor::IType),
        4 => insn("sub"@, "S,s,t"@, 0x0, 0x2, InsnDescriptor::RType),
        5 => insn("subi"@, "d,s,i"@, 0x1, 0x2, InsnDescriptor::IType),
        6 => insn("subu"@, "d,s,t"@, 0x0, 0x3, InsnDescriptor::RType),
        7 => insn("subui"@, "d,s,i"@, 0x1, 0x3, InsnDescriptor::IType),
        8 => insn("mult"@, "d,s,t"@, 0x0, 0x4, InsnDescriptor::RType),
        9 => insn("multi"@, "d,s,i"@, 0x1, 0x4, InsnDescriptor::IType),
        10 => insn("multu"@, "d,s,t"@, 0x0, 0x5, InsnDescriptor::RType),
        11 => insn("multui"@, "d,s,i"@, 0x1, 0x5, InsnDescriptor::IType),
        12 => insn("div"@, "d,s,t"@, 0x0, 0x6, InsnDescriptor::RType),
        13 => insn("divi"@, "d,s,i"@, 0x1, 0x6, InsnDescriptor::IType),
        14 => insn("divu"@, "d,s,t"@, 0x0, 0x7, InsnDescriptor::RType),
        15 => insn("divui"@, "d,s,i"@, 0x1, 0x7, InsnDescriptor::IType),
        16 => insn("rem"@, "d,s,t"@, 0x0, 0x8, InsnDescriptor::RType),
        17 => insn("remi"@, "d,s,i"@, 0x1, 0x8, InsnDescriptor::IType),
        18 => insn("remu"@, "d,s,t"@, 0x0, 0x9, InsnDescriptor::RType),
        19 => insn("remui"@, "d,s,i"@, 0x1, 0x9, InsnDescriptor::IType),
        20 => insn("lhi"@, "d,i"@, 0x3, 0xe, InsnDescriptor::IType),
        21 => insn("la"@, "d,j"@, 0xc, 0x0, InsnDescriptor::JType),
        22 => insn("and"@, "d,s,t"@, 0x0, 0xb, InsnDescriptor::RType),
        23 => insn("andi"@, "d,s,i"@, 0x1, 0xb, InsnDescriptor::IType),
        24 => insn("or"@, "d,s,t"@, 0x0, 0xd, InsnDescriptor::RType),
        25 => insn("ori"@, "d,s,i"@, 0x1, 0xd, InsnDescriptor::IType),
        26 => insn("xor"@, "d,s,t"@, 0x0, 0xf, InsnDescriptor::RType),
        27 => insn("xori"@, "d,s,i"@, 0x1, 0xf, InsnDescriptor::IType),
        28 => insn("sll"@, "d,s,t"@, 0x0, 0xa, InsnDescriptor::RType),
        29 => insn("slli"@, "d,s,i"@, 0x1, 0xa, InsnDescriptor::IType),
        30 => insn("srl"@, "d,s,t"@, 0x0, 0xc, InsnDescriptor::RType),
        31 => insn("srli"@, "d,s,i"@, 0x1, 0xc, InsnDescriptor::IType),
        32 => insn("sra"@, "d,s,t"@, 0x0, 0xe, InsnDescriptor::RType),
        33 => insn("srai"@, "d,s,i"@, 0x1, 0xe, InsnDescriptor::IType),
        34 => insn("slt"@, "d,s,t"@, 0x2, 0x0, InsnDescriptor::RType),
        35 => insn("slti"@, "d,s,i"@, 0x3, 0x0, InsnDescriptor::IType),
        36 => insn("sltu"@, "d,s,t"@, 0x2, 0x1, InsnDescriptor::RType),
        37 => insn("sltui"@, "d,s,i"@, 0x3, 0x1, InsnDescriptor::IType),
        38 => insn("sgt"@, "d,s,t"@, 0x2, 0x2, InsnDescriptor::RType),
        39 => insn("sgti"@, "d,s,i"@, 0x3, 0x2, InsnDescriptor::IType),
        40 => insn("sgtu"@, "d,s,t"@, 0x2, 0x3, InsnDescriptor::RType),
        41 => insn("sgtui"@, "d,s,i"@, 0x3, 0x3, InsnDescriptor::IType),
        42 => insn("sle"@, "d,s,t"@, 0x2, 0x4, InsnDescriptor::RType),
        43 => insn("slei"@, "d,s,i"@, 0x3, 0x4, InsnDescriptor::IType),
        44 => insn("sleu"@, "d,s,t"@, 0x2, 0x5, InsnDescriptor::RType),
        45 => insn("sleui"@, "d,s,i"@, 0x3, 0x5, InsnDescriptor::IType),
        46 => insn("sge"@, "d,s,t"@, 0x2, 0x6, InsnDescriptor::RType),
        47 => insn("sgei"@, "d,s,i"@, 0x3, 0x6, InsnDescriptor::IType),
        48 => insn("sgeu"@, "d,s,t"@, 0x2, 0x7, InsnDescriptor::RType),
        49 => insn("sgeui"@, "d,s,i"@, 0x3, 0x7, InsnDescriptor::IType),
        50 => insn("seq"@, "d,s,t"@, 0x2, 0x8, InsnDescriptor::RType),
        51 => insn("seqi"@, "d,s,i"@, 0x3, 0x8, InsnDescriptor::IType),
        52 => insn("sequ"@, "d,s,t"@, 0x2, 0x9, InsnDescriptor::RType),
        53 => insn("sequi"@, "d,s,i"@, 0x3, 0x9, InsnDescriptor::IType),
        54 => insn("sne"@, "d,s,t"@, 0x2, 0xa, InsnDescriptor::RType),
        55 => insn("snei"@, "d,s,i"@, 0x3, 0xa, InsnDescriptor::IType),
        56 => insn("sneu"@, "d,s,t"@, 0x2, 0xb, InsnDescriptor::RType),
        57 => insn("sneui"@, "d,s,i"@, 0x3, 0xb, InsnDescriptor::IType),
        58 => insn("j"@, "j"@, 0x4, 0x0, InsnDescriptor::JType),
        59 => insn("jr"@, "s"@, 0x5, 0x0, InsnDescriptor::JType),
        60 => insn("jal"@, "j"@, 0x6, 0x0, InsnDescriptor::JType),
        61 => insn("jalr"@, "s"@, 0x7, 0x0, InsnDescriptor::JType),
        62 => insn("beqz"@, "s,b"@, 0xa, 0x0, InsnDescriptor::JType),
        63 => insn("bnez"@, "s,b"@, 0xb, 0x0, InsnDescriptor::JType),
        64 => insn("lw"@, "d,o(s)"@, 0x8, 0x0, InsnDescriptor::JType),
        65 => insn("sw"@, "d,o(s)"@, 0x9, 0x0, InsnDescriptor::JType),
        66 => insn("movgs"@, "D,s"@, 0x3, 0xc, InsnDescriptor::IType),
        67 => insn("movsg"@, "d,S"@, 0x3, 0xd, InsnDescriptor::IType),
        68 => insn("break"@, ""@, 0x2, 0xc, InsnDescriptor::IType),
        69 => insn("syscall"@, ""@, 0x2, 0xd, InsnDescriptor::IType),
        70 => insn("rfe"@, ""@, 0x2, 0xe, InsnDescriptor::IType),
        71 => directive(".word"@),
        72 => directive(".ascii"@),
        73 => directive(".asciiz"@),
        74 => directive(".space"@),
        75 => directive(".equ"@),
        76 => directive(".global"@),
        77 => directive(".extern"@),
        78 => directive(".data"@),
        79 => directive(".text"@),
        80 => directive(".bss"@),
        81 => directive(".frame"@),
        82 => directive(".mask"@),
        _ => terminator(),
    }
}

/// The whole catalogue, in declaration order.
pub open spec fn catalogue() -> Seq<InsnSpec> {
    Seq::new(CATALOGUE_LEN as nat, |i: int| catalogue_at(i as usize))
}

/// Whether `entry` answers a query for `opcode` and `func`.
pub open spec fn entry_matches(entry: InsnSpec, opcode: u32, func: u32) -> bool {
    &&& entry.mnemonic is Some
    &&& entry.kind != InsnDescriptor::Directive
    &&& entry.opcode == opcode
    &&& (entry.kind == InsnDescriptor::JType || entry.func == func)
}

/// Whether position `i` of `table` answers the query and no earlier
/// position does.
pub open spec fn is_first_match(table: Seq<InsnSpec>, i: int, opcode: u32, func: u32) -> bool {
    &&& 0 <= i < table.len()
    &&& entry_matches(table[i], opcode, func)
    &&& forall|j: int| 0 <= j < i ==> !entry_matches(#[trigger] table[j], opcode, func)
}

/// The position of the first entry of `table` that answers the query, if
/// any entry does.
pub open spec fn lookup_spec(table: Seq<InsnSpec>, opcode: u32, func: u32) -> Option<int> {
    if exists|i: int| is_first_match(table, i, opcode, func) {
        Some(choose|i: int| is_first_match(table, i, opcode, func))
    } else {
        None
    }
}

/// The entries of `table` as the models that contracts speak of.
pub open spec fn table_model(table: Seq<InsnType<'_>>) -> Seq<InsnSpec> {
    table.map_values(|entry: InsnType<'_>| entry@)
}

impl<'a> InsnType<'a> {
    /// An instruction entry.
    pub fn new(
        mnemonic: &'a str,
        operands: &'a str,
        opcode: u32,
        func: u32,
        type_descriptor: InsnDescriptor,
    ) -> (entry: Self)
        ensures
            entry@ == insn(mnemonic@, operands@, opcode, func, type_descriptor),
    {
        InsnType {
            mnemonic: Some(mnemonic),
            operands: Some(operands),
            opcode,
            func,
            type_descriptor,
        }
    }

    /// A directive entry.
    pub fn directive(mnemonic: &'a str) -> (entry: Self)
        ensures
            entry@ == directive(mnemonic@),
    {
        InsnType {
            mnemonic: Some(mnemonic),
            operands: None,
            opcode: DIRECTIVE_CODE,
            func: DIRECTIVE_CODE,
            type_descriptor: InsnDescriptor::Directive,
        }
    }

    /// The empty entry that closes the catalogue.
    pub fn terminator() -> (entry: Self)
        ensures
            entry@ == terminator(),
    {
        InsnType {
            mnemonic: None,
            operands: None,
            opcode: 0,
            func: 0,
            type_descriptor: InsnDescriptor::Directive,
        }
    }

    /// Whether this entry answers a query for `opcode` and `func`.
    pub fn matches(&self, opcode: u32, func: u32) -> (hit: bool)
        ensures
            hit == entry_matches(self@, opcode, func),
    {
        self.mnemonic.is_some() && self.type_descriptor != InsnDescriptor::Directive
            && self.opcode == opcode && (self.type_descriptor == InsnDescriptor::JType
            || self.func == func)
    }
}

/// The catalogue entry at position `index`; past the end of the catalogue,
/// the empty entry that closes it.
pub fn insn_at(index: usize) -> (entry: InsnType<'static>)
    ensures
        entry@ == catalogue_at(index),
{
    match index {
        0 => InsnType::new("add", "d,s,t", 0x0, 0x0, InsnDescriptor::RType),
        1 => InsnType::new("addi", "d,s,i", 0x1, 0x0, InsnDescriptor::IType),
        2 => InsnType::new("addu", "d,s,t", 0x0, 0x1, InsnDescriptor::RType),
        3 => InsnType::new("addui", "d,s,i", 0x1, 0x1, InsnDescriptor::IType),
        4 => InsnType::new("sub", "S,s,t", 0x0, 0x2, InsnDescriptor::RType),
        5 => InsnType::new("subi", "d,s,i", 0x1, 0x2, InsnDescriptor::IType),
        6 => InsnType::new("subu", "d,s,t", 0x0, 0x3, InsnDescriptor::RType),
        7 => InsnType::new("subui", "d,s,i", 0x1, 0x3, InsnDescriptor::IType),
        8 => InsnType::new("mult", "d,s,t", 0x0, 0x4, InsnDescriptor::RType),
        9 => InsnType::new("multi", "d,s,i", 0x1, 0x4, InsnDescriptor::IType),
        10 => InsnType::new("multu", "d,s,t", 0x0, 0x5, InsnDescriptor::RType),
        11 => InsnType::new("multui", "d,s,i", 0x1, 0x5, InsnDescriptor::IType),
        12 => InsnType::new("div", "d,s,t", 0x0, 0x6, InsnDescriptor::RType),
        13 => InsnType::new("divi", "d,s,i", 0x1, 0x6, InsnDescriptor::IType),
        14 => InsnType::new("divu", "d,s,t", 0x0, 0x7, InsnDescriptor::RType),
        15 => InsnType::new("divui", "d,s,i", 0x1, 0x7, InsnDescriptor::IType),
        16 => InsnType::new("rem", "d,s,t", 0x0, 0x8, InsnDescriptor::RType),
        17 => InsnType::new("remi", "d,s,i", 0x1, 0x8, InsnDescriptor::IType),
        18 => InsnType::new("remu", "d,s,t", 0x0, 0x9, InsnDescriptor::RType),
        19 => InsnType::new("remui", "d,s,i", 0x1, 0x9, InsnDescriptor::IType),
        20 => InsnType::new("lhi", "d,i", 0x3, 0xe, InsnDescriptor::IType),
        21 => InsnType::new("la", "d,j", 0xc, 0x0, InsnDescriptor::JType),
        22 => InsnType::new("and", "d,s,t", 0x0, 0xb, InsnDescriptor::RType),
        23 => InsnType::new("andi", "d,s,i", 0x1, 0xb, InsnDescriptor::IType),
        24 => InsnType::new("or", "d,s,t", 0x0, 0xd, InsnDescriptor::RType),
        25 => InsnType::new("ori", "d,s,i", 0x1, 0xd, InsnDescriptor::IType),
        26 => InsnType::new("xor", "d,s,t", 0x0, 0xf, InsnDescriptor::RType),
        27 => InsnType::new("xori", "d,s,i", 0x1, 0xf, InsnDescriptor::IType),
        28 => InsnType::new("sll", "d,s,t", 0x0, 0xa, InsnDescriptor::RType),
        29 => InsnType::new("slli", "d,s,i", 0x1, 0xa, InsnDescriptor::IType),
        30 => InsnType::new("srl", "d,s,t", 0x0, 0xc, InsnDescriptor::RType),
        31 => InsnType::new("srli", "d,s,i", 0x1, 0xc, InsnDescriptor::IType),
        32 => InsnType::new("sra", "d,s,t", 0x0, 0xe, InsnDescriptor::RType),
        33 => InsnType::new("srai", "d,s,i", 0x1, 0xe, InsnDescriptor::IType),
        34 => InsnType::new("slt", "d,s,t", 0x2, 0x0, InsnDescriptor::RType),
        35 => InsnType::new("slti", "d,s,i", 0x3, 0x0, InsnDescriptor::IType),
        36 => InsnType::new("sltu", "d,s,t", 0x2, 0x1, InsnDescriptor::RType),
        37 => InsnType::new("sltui", "d,s,i", 0x3, 0x1, InsnDescriptor::IType),
        38 => InsnType::new("sgt", "d,s,t", 0x2, 0x2, InsnDescriptor::RType),
        39 => InsnType::new("sgti", "d,s,i", 0x3, 0x2, InsnDescriptor::IType),
        40 => InsnType::new("sgtu", "d,s,t", 0x2, 0x3, InsnDescriptor::RType),
        41 => InsnType::new("sgtui", "d,s,i", 0x3, 0x3, InsnDescriptor::IType),
        42 => InsnType::new("sle", "d,s,t", 0x2, 0x4, InsnDescriptor::RType),
        43 => InsnType::new("slei", "d,s,i", 0x3, 0x4, InsnDescriptor::IType),
        44 => InsnType::new("sleu", "d,s,t", 0x2, 0x5, InsnDescriptor::RType),
        45 => InsnType::new("sleui", "d,s,i", 0x3, 0x5, InsnDescriptor::IType),
        46 => InsnType::new("sge", "d,s,t", 0x2, 0x6, InsnDescriptor::RType),
        47 => InsnType::new("sgei", "d,s,i", 0x3, 0x6, InsnDescriptor::IType),
        48 => InsnType::new("sgeu", "d,s,t", 0x2, 0x7, InsnDescriptor::RType),
        49 => InsnType::new("sgeui", "d,s,i", 0x3, 0x7, InsnDescriptor::IType),
        50 => InsnType::new("seq", "d,s,t", 0x2, 0x8, InsnDescriptor::RType),
        51 => InsnType::new("seqi", "d,s,i", 0x3, 0x8, InsnDescriptor::IType),
        52 => InsnType::new("sequ", "d,s,t", 0x2, 0x9, InsnDescriptor::RType),
        53 => InsnType::new("sequi", "d,s,i", 0x3, 0x9, InsnDescriptor::IType),
        54 => InsnType::new("sne", "d,s,t", 0x2, 0xa, InsnDescriptor::RType),
        55 => InsnType::new("snei", "d,s,i", 0x3, 0xa, InsnDescriptor::IType),
        56 => InsnType::new("sneu", "d,s,t", 0x2, 0xb, InsnDescriptor::RType),
        57 => InsnType::new("sneui", "d,s,i", 0x3, 0xb, InsnDescriptor::IType),
        58 => InsnType::new("j", "j", 0x4, 0x0, InsnDescriptor::JType),
        59 => InsnType::new("jr", "s", 0x5, 0x0, InsnDescriptor::JType),
        60 => InsnType::new("jal", "j", 0x6, 0x0, InsnDescriptor::JType),
        61 => InsnType::new("jalr", "s", 0x7, 0x0, InsnDescriptor::JType),
        62 => InsnType::new("beqz", "s,b", 0xa, 0x0, InsnDescriptor::JType),
        63 => InsnType::new("bnez", "s,b", 0xb, 0x0, InsnDescriptor::JType),
        64 => InsnType::new("lw", "d,o(s)", 0x8, 0x0, InsnDescriptor::JType),
        65 => InsnType::new("sw", "d,o(s)", 0x9, 0x0, InsnDescriptor::JType),
        66 => InsnType::new("movgs", "D,s", 0x3, 0xc, InsnDescriptor::IType),
        67 => InsnType::new("movsg", "d,S", 0x3, 0xd, InsnDescriptor::IType),
        68 => InsnType::new("break", "", 0x2, 0xc, InsnDescriptor::IType),
        69 => InsnType::new("syscall", "", 0x2, 0xd, InsnDescriptor::IType),
        70 => InsnType::new("rfe", "", 0x2, 0xe, InsnDescriptor::IType),
        71 => InsnType::directive(".word"),
        72 => InsnType::directive(".ascii"),
        73 => InsnType::directive(".asciiz"),
        74 => InsnType::directive(".space"),
        75 => InsnType::directive(".equ"),
        76 => InsnType::directive(".global"),
        77 => InsnType::directive(".extern"),
        78 => InsnType::directive(".data"),
        79 => InsnType::directive(".text"),
        80 => InsnType::directive(".bss"),
        81 => InsnType::directive(".frame"),
        82 => InsnType::directive(".mask"),
        _ => InsnType::terminator(),
    }
}

/// The whole catalogue as a vector, in declaration order.
pub fn insn_table() -> (table: Vec<InsnType<'static>>)
    ensures
        table_model(table@) == catalogue(),
{
    let mut table: Vec<InsnType<'static>> = Vec::with_capacity(CATALOGUE_LEN);
    let mut i: usize = 0;
    while i < CATALOGUE_LEN
        invariant
            i <= CATALOGUE_LEN,
            table@.len() == i,
            forall|j: int| 0 <= j < i ==> (#[trigger] table@[j])@ == catalogue()[j],
        decreases CATALOGUE_LEN - i,
    {
        table.push(insn_at(i));
        i += 1;
    }
    assert(table_model(table@) =~= catalogue());
    table
}

/// Two positions that are both the first match of one query are the same
/// position.
pub proof fn lemma_first_match_unique(
    table: Seq<InsnSpec>,
    i: int,
    j: int,
    opcode: u32,
    func: u32,
)
    requires
        is_first_match(table, i, opcode, func),
        is_first_match(table, j, opcode, func),
    ensures
        i == j,
{
}

/// Finds the first entry of `table` that answers a query for `opcode` and
/// `func`. No entry is no error: the result is then `None`.
pub fn lookup_in(table: &[InsnType<'_>], opcode: u32, func: u32) -> (found: Option<usize>)
    ensures
        match found {
            Some(i) => lookup_spec(table_model(table@), opcode, func) == Some(i as int),
            None => lookup_spec(table_model(table@), opcode, func) is None,
        },
        match found {
            Some(i) => is_first_match(table_model(table@), i as int, opcode, func),
            None => forall|j: int|
                0 <= j < table@.len() ==> !entry_matches(
                    #[trigger] table_model(table@)[j],
                    opcode,
                    func,
                ),
        },
{
    let ghost model = table_model(table@);
    let mut i: usize = 0;
    while i < table.len()
        invariant
            i <= table@.len(),
            model == table_model(table@),
            forall|j: int| 0 <= j < i ==> !entry_matches(#[trigger] model[j], opcode, func),
        decreases table@.len() - i,
    {
        if table[i].matches(opcode, func) {
            proof {
                assert(is_first_match(model, i as int, opcode, func));
                let chosen = choose|k: int| is_first_match(model, k, opcode, func);
                lemma_first_match_unique(model, i as int, chosen, opcode, func);
            }
            return Some(i);
        }
        i += 1;
    }
    proof {
        assert forall|k: int| !is_first_match(model, k, opcode, func) by {
            if 0 <= k < model.len() {
                assert(!entry_matches(model[k], opcode, func));
            }
        }
    }
    None
}

/// Finds the catalogue entry for `opcode` and `func`.
pub fn lookup(opcode: u32, func: u32) -> (found: Option<usize>)
    ensures
        match found {
            Some(i) => lookup_spec(catalogue(), opcode, func) == Some(i as int),
            None => lookup_spec(catalogue(), opcode, func) is None,
        },
        found is Some ==> found->0 < CATALOGUE_LEN,
{
    let table = insn_table();
    lookup_in(table.as_slice(), opcode, func)
}

/// No two entries of the catalogue answer the same query: whichever entry
/// qualifies is the only one that does.
pub proof fn lemma_catalogue_unambiguous(i: int, j: int, opcode: u32, func: u32)
    requires
        0 <= i < j < catalogue().len(),
    ensures
        !(entry_matches(catalogue()[i], opcode, func) && entry_matches(
            catalogue()[j],
            opcode,
            func,
        )),
{
}

/// An entry of the catalogue that answers a query is what the lookup of
/// that query finds.
pub proof fn lemma_lookup_finds_entry(i: int, opcode: u32, func: u32)
    requires
        0 <= i < catalogue().len(),
        entry_matches(catalogue()[i], opcode, func),
    ensures
        lookup_spec(catalogue(), opcode, func) == Some(i),
{
    assert forall|j: int| 0 <= j < i implies !entry_matches(
        #[trigger] catalogue()[j],
        opcode,
        func,
    ) by {
        lemma_catalogue_unambiguous(j, i, opcode, func);
    }
    assert(is_first_match(catalogue(), i, opcode, func));
    let chosen = choose|k: int| is_first_match(catalogue(), k, opcode, func);
    lemma_first_match_unique(catalogue(), i, chosen, opcode, func);
}

/// A word built from the opcode and function code of a register-type or
/// immediate-type entry decodes to a lookup hit on that very entry,
/// whatever its register fields and its 16-bit tail hold.
pub proof fn lemma_encoded_entry_is_found(i: int, rd: u32, rs: u32, low: u32)
    requires
        0 <= i < catalogue().len(),
        catalogue()[i].kind == InsnDescriptor::RType || catalogue()[i].kind
            == InsnDescriptor::IType,
        rd < 16,
        rs < 16,
        low < 0x10000,
    ensures
        ({
            let entry = catalogue()[i];
            let fields = decode_spec(encode_spec(entry.opcode, rd, rs, entry.func, low));
            lookup_spec(catalogue(), fields.opcode, fields.func) == Some(i)
        }),
{
    let entry = catalogue()[i];
    assert(entry.opcode < 16 && entry.func < 16 && entry.mnemonic is Some);
    lemma_decode_encode(entry.opcode, rd, rs, entry.func, low);
    lemma_lookup_finds_entry(i, entry.opcode, entry.func);
}

/// A jump-type entry is found by its opcode alone: two queries that differ
/// only in the function code both find it.
pub proof fn lemma_jump_entry_ignores_func(i: int, func_a: u32, func_b: u32)
    requires
        0 <= i < catalogue().len(),
        catalogue()[i].kind == InsnDescriptor::JType,
    ensures
        lookup_spec(catalogue(), catalogue()[i].opcode, func_a) == Some(i),
        lookup_spec(catalogue(), catalogue()[i].opcode, func_a) == lookup_spec(
            catalogue(),
            catalogue()[i].opcode,
            func_b,
        ),
{
    assert(catalogue()[i].mnemonic is Some);
    lemma_lookup_finds_entry(i, catalogue()[i].opcode, func_a);
    lemma_lookup_finds_entry(i, catalogue()[i].opcode, func_b);
}

} // verus!
