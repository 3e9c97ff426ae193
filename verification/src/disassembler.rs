//! Rendering of one instruction word as a line of text.
//!
//! A line is the mnemonic of the catalogue entry that the word selects, a
//! colon and a tab, and the operands. The operands follow the entry's
//! template character by character: a token character is replaced by what
//! it stands for, any other character is copied.

use crate::decode::{decode, decode_spec, DecodedInstruction};
use crate::instructions::{catalogue, insn_table, lookup_in, lookup_spec, InsnSpec, InsnType};
use crate::registers::{gpr_name, gpr_text, spr_name, spr_text};
use crate::symbols::{labels_model, resolve_label, resolve_spec, LabelEntry, LabelSpec};
use crate::text::{
    hex_text, lemma_hex_text_len, push_hex, push_signed_decimal, signed_decimal_text,
};
use vstd::arithmetic::power::pow;
use vstd::prelude::*;
use vstd::string::*;

verus! {

/// A word that selects no catalogue entry, with the address it was found
/// at. Such a word ends nothing: the words after it are rendered as usual.
#[derive(Clone, Copy, Debug, PartialEq, Eq, Structural)]
pub struct DecodeMiss {
    pub word: u32,
    pub address: u32,
}

/// An address as text: `0x` and at least five capital hexadecimal digits.
pub open spec fn hex_address_text(address: u32) -> Seq<char> {
    "0x"@ + hex_text(address as nat, 5, true)
}

/// An immediate as text: `0x` and at least four small hexadecimal digits.
pub open spec fn immediate_text(immediate: u32) -> Seq<char> {
    "0x"@ + hex_text(immediate as nat, 4, false)
}

/// The memory offset of a load or store as text: a zero offset is `0`, an
/// offset from a register other than register zero is the signed decimal
/// value, and an offset from register zero is the raw value as an address.
pub open spec fn offset_text(fields: DecodedInstruction) -> Seq<char> {
    if fields.raw_offset == 0 {
        "0"@
    } else if fields.rs != 0 {
        signed_decimal_text(fields.sign_extended_offset as int)
    } else {
        hex_address_text(fields.raw_offset)
    }
}

/// The address that a branch at `load_address` with the signed offset
/// `offset` goes to: the low twenty bits of their sum, and one more.
pub open spec fn branch_target_spec(load_address: u32, offset: i32) -> u32 {
    (((load_address + offset) % 0x100000) + 1) as u32
}

/// An address as it appears among the operands: the name of the label that
/// `labels` resolves it to, or the address in hexadecimal where there are no
/// labels or none of them stands at the address.
pub open spec fn address_text(address: u32, labels: Option<Seq<LabelSpec>>) -> Seq<char> {
    match labels {
        Some(known) => match resolve_spec(known, address) {
            Some(i) => known[i].name,
            None => hex_address_text(address),
        },
        None => hex_address_text(address),
    }
}

/// What one template character contributes to the operands.
pub open spec fn token_text(
    token: char,
    fields: DecodedInstruction,
    load_address: u32,
    labels: Option<Seq<LabelSpec>>,
) -> Seq<char> {
    match token {
        'd' => gpr_text(fields.rd),
        's' => gpr_text(fields.rs),
        't' => gpr_text(fields.rt),
        'D' => spr_text(fields.rd),
        'S' => spr_text(fields.rs),
        'i' => immediate_text(fields.immediate),
        'o' => offset_text(fields),
        'b' => address_text(branch_target_spec(load_address, fields.sign_extended_offset), labels),
        'j' => address_text(fields.raw_offset, labels),
        _ => seq![token],
    }
}

/// The operands of an instruction: the contributions of the template's
/// characters, in order.
pub open spec fn operand_text(
    template: Seq<char>,
    fields: DecodedInstruction,
    load_address: u32,
    labels: Option<Seq<LabelSpec>>,
) -> Seq<char>
    decreases template.len(),
{
    if template.len() == 0 {
        Seq::empty()
    } else {
        operand_text(template.drop_last(), fields, load_address, labels) + token_text(
            template.last(),
            fields,
            load_address,
            labels,
        )
    }
}

/// The text of an optional part of an entry: nothing where it is absent.
pub open spec fn text_or_empty(part: Option<Seq<char>>) -> Seq<char> {
    match part {
        Some(text) => text,
        None => Seq::empty(),
    }
}

/// The line for an instruction that selected `entry`.
pub open spec fn line_text(
    entry: InsnSpec,
    fields: DecodedInstruction,
    load_address: u32,
    labels: Option<Seq<LabelSpec>>,
) -> Seq<char> {
    text_or_empty(entry.mnemonic) + ":\t"@ + operand_text(
        text_or_empty(entry.operands),
        fields,
        load_address,
        labels,
    )
}

/// Whether `word` selects no catalogue entry.
pub open spec fn is_unknown(word: u32) -> bool {
    lookup_spec(catalogue(), decode_spec(word).opcode, decode_spec(word).func) is None
}

/// The rendering of `word` at `load_address`: the line of the catalogue
/// entry that its opcode and function code select, or a miss that carries
/// the word and the address where no entry is selected.
pub open spec fn disassembly(load_address: u32, word: u32, labels: Option<Seq<LabelSpec>>) -> Result<
    Seq<char>,
    DecodeMiss,
> {
    let fields = decode_spec(word);
    match lookup_spec(catalogue(), fields.opcode, fields.func) {
        Some(i) => Ok(line_text(catalogue()[i], fields, load_address, labels)),
        None => Err(DecodeMiss { word, address: load_address }),
    }
}

/// The message for a miss: the word in eight and the address in at
/// least five capital hexadecimal digits.
pub open spec fn miss_text(miss: DecodeMiss) -> Seq<char> {
    "unknown instruction 0x"@ + hex_text(miss.word as nat, 8, true) + " at "@ + hex_address_text(
        miss.address,
    )
}

/// The labels that a formatter was given, as the models that contracts
/// speak of.
pub open spec fn resolver_model(labels: Option<&[LabelEntry]>) -> Option<Seq<LabelSpec>> {
    match labels {
        Some(known) => Some(labels_model(known@)),
        None => None,
    }
}

impl DecodeMiss {
    /// The diagnostic line for this miss.
    pub fn message(&self) -> (text: String)
        ensures
            text@ == miss_text(*self),
    {
        let mut text = String::from_str("unknown instruction 0x");
        push_hex(&mut text, self.word as u64, 8, true);
        text.append(" at ");
        push_hex_address(&mut text, self.address);
        assert(text@ =~= miss_text(*self));
        text
    }
}

/// Appends an address in hexadecimal.
fn push_hex_address(out: &mut String, address: u32)
    ensures
        final(out)@ == old(out)@ + hex_address_text(address),
{
    out.append("0x");
    push_hex(out, address as u64, 5, true);
    assert(out@ =~= old(out)@ + hex_address_text(address));
}

/// Appends an address as a label's name or, failing that, in hexadecimal.
fn push_address(out: &mut String, address: u32, labels: Option<&[LabelEntry]>)
    ensures
        final(out)@ == old(out)@ + address_text(address, resolver_model(labels)),
{
    match labels {
        Some(known) => {
            match resolve_label(known, address) {
                Some(i) => {
                    out.append(known[i].name.as_str());
                },
                None => {
                    push_hex_address(out, address);
                },
            }
        },
        None => {
            push_hex_address(out, address);
        },
    }
}

/// Appends the memory offset of a load or store.
fn push_offset(out: &mut String, fields: &DecodedInstruction)
    ensures
        final(out)@ == old(out)@ + offset_text(*fields),
{
    if fields.raw_offset == 0 {
        out.append("0");
    } else if fields.rs != 0 {
        push_signed_decimal(out, fields.sign_extended_offset);
    } else {
        push_hex_address(out, fields.raw_offset);
    }
}

/// The memory offset of a load or store as text.
pub fn format_offset(fields: &DecodedInstruction) -> (text: String)
    ensures
        text@ == offset_text(*fields),
        fields.raw_offset == 0 ==> text@ == "0"@,
        fields.raw_offset != 0 && fields.rs != 0 ==> text@ == signed_decimal_text(
            fields.sign_extended_offset as int,
        ),
        fields.raw_offset != 0 && fields.rs == 0 ==> text@ == "0x"@ + hex_text(
            fields.raw_offset as nat,
            5,
            true,
        ),
        0 < fields.raw_offset < 0x100000 && fields.rs == 0 ==> text@.len() == 7,
{
    let mut text = String::new();
    push_offset(&mut text, fields);
    assert(text@ =~= offset_text(*fields));
    proof {
        if fields.raw_offset < 0x100000 {
            reveal_strlit("0x");
            reveal_with_fuel(pow, 6);
            lemma_hex_text_len(fields.raw_offset as nat, 5, true);
        }
    }
    text
}

/// The address that a branch at `load_address` with the signed offset
/// `offset` goes to. The sum is cut to its low twenty bits first and
/// incremented after, so the result lies between 1 and 0x100000.
pub fn branch_target(load_address: u32, offset: i32) -> (target: u32)
    ensures
        target == branch_target_spec(load_address, offset),
        target == ((load_address + offset) % 0x100000) + 1,
        1 <= target <= 0x100000,
{
    let shifted: u64 = (load_address as i64 + offset as i64 + 0x8000_0000) as u64;
    let low: u64 = shifted % 0x100000;
    low as u32 + 1
}

/// Renders the operands of an instruction after `template`. A branch or
/// jump target is shown by the name of the first resolved label at that
/// address where `labels` holds one, and in hexadecimal otherwise.
pub fn format_operands(
    template: &str,
    fields: &DecodedInstruction,
    load_address: u32,
    labels: Option<&[LabelEntry]>,
) -> (text: String)
    requires
        fields.rd < 16,
        fields.rs < 16,
        fields.rt < 16,
    ensures
        text@ == operand_text(template@, *fields, load_address, resolver_model(labels)),
{
    let ghost model = resolver_model(labels);
    let mut out = String::new();
    let n: usize = template.unicode_len();
    let mut i: usize = 0;
    while i < n
        invariant
            i <= n,
            n == template@.len(),
            fields.rd < 16,
            fields.rs < 16,
            fields.rt < 16,
            model == resolver_model(labels),
            out@ == operand_text(template@.subrange(0, i as int), *fields, load_address, model),
        decreases n - i,
    {
        let token: char = template.get_char(i);
        let ghost before = out@;
        match token {
            'd' => {
                out.append(gpr_name(fields.rd));
            },
            's' => {
                out.append(gpr_name(fields.rs));
            },
            't' => {
                out.append(gpr_name(fields.rt));
            },
            'D' => {
                out.append(spr_name(fields.rd));
            },
            'S' => {
                out.append(spr_name(fields.rs));
            },
            'i' => {
                out.append("0x");
                push_hex(&mut out, fields.immediate as u64, 4, false);
            },
            'o' => {
                push_offset(&mut out, fields);
            },
            'b' => {
                let target: u32 = branch_target(load_address, fields.sign_extended_offset);
                push_address(&mut out, target, labels);
            },
            'j' => {
                push_address(&mut out, fields.raw_offset, labels);
            },
            _ => {
                out.append(template.substring_char(i, i + 1));
            },
        }
        proof {
            let prefix = template@.subrange(0, i + 1);
            assert(prefix.drop_last() =~= template@.subrange(0, i as int));
            assert(prefix.last() == token);
            assert(template@.subrange(i as int, i + 1) =~= seq![token]);
            assert(out@ =~= before + token_text(token, *fields, load_address, model));
        }
        i += 1;
    }
    assert(template@.subrange(0, n as int) =~= template@);
    out
}

/// Renders the line of an instruction that selected `entry`: the mnemonic,
/// a colon and a tab, and the operands after the entry's template. An
/// entry without a mnemonic or without a template contributes nothing for
/// the part it lacks.
pub fn format_instruction(
    entry: &InsnType<'_>,
    fields: &DecodedInstruction,
    load_address: u32,
    labels: Option<&[LabelEntry]>,
) -> (text: String)
    requires
        fields.rd < 16,
        fields.rs < 16,
        fields.rt < 16,
    ensures
        text@ == line_text(entry@, *fields, load_address, resolver_model(labels)),
{
    let mut text = String::new();
    match entry.mnemonic {
        Some(mnemonic) => {
            text.append(mnemonic);
        },
        None => {},
    }
    text.append(":\t");
    match entry.operands {
        Some(template) => {
            let operands = format_operands(template, fields, load_address, labels);
            text.append(operands.as_str());
        },
        None => {
            assert(operand_text(Seq::empty(), *fields, load_address, resolver_model(labels))
                =~= Seq::<char>::empty());
        },
    }
    assert(text@ =~= line_text(entry@, *fields, load_address, resolver_model(labels)));
    text
}

/// Renders one instruction word with an optional label table.
fn render(insn_address: u32, instruction: u32, labels: Option<&[LabelEntry]>) -> (line: Result<
    String,
    DecodeMiss,
>)
    ensures
        match line {
            Ok(text) => disassembly(insn_address, instruction, resolver_model(labels)) == Ok::<
                Seq<char>,
                DecodeMiss,
            >(text@),
            Err(miss) => disassembly(insn_address, instruction, resolver_model(labels)) == Err::<
                Seq<char>,
                DecodeMiss,
            >(miss),
        },
{
    let fields = decode(instruction);
    let table = insn_table();
    match lookup_in(table.as_slice(), fields.opcode, fields.func) {
        Some(i) => {
            assert(table@[i as int]@ == catalogue()[i as int]);
            Ok(format_instruction(&table[i], &fields, insn_address, labels))
        },
        None => Err(DecodeMiss { word: instruction, address: insn_address }),
    }
}

/// Renders the instruction word `instruction`, loaded at `insn_address`,
/// with every branch and jump target in hexadecimal.
pub fn disassemble(insn_address: u32, instruction: u32) -> (line: Result<String, DecodeMiss>)
    ensures
        match line {
            Ok(text) => disassembly(insn_address, instruction, None) == Ok::<
                Seq<char>,
                DecodeMiss,
            >(text@),
            Err(miss) => disassembly(insn_address, instruction, None) == Err::<
                Seq<char>,
                DecodeMiss,
            >(miss),
        },
        line is Err <==> is_unknown(instruction),
        line is Err ==> line->Err_0 == (DecodeMiss { word: instruction, address: insn_address }),
{
    render(insn_address, instruction, None)
}

/// Renders the instruction word `instruction`, loaded at `insn_address`,
/// with every branch and jump target that `labels` resolves shown by name.
pub fn disassemble_view(insn_address: u32, instruction: u32, labels: &[LabelEntry]) -> (line:
    Result<String, DecodeMiss>)
    ensures
        match line {
            Ok(text) => disassembly(insn_address, instruction, Some(labels_model(labels@)))
                == Ok::<Seq<char>, DecodeMiss>(text@),
            Err(miss) => disassembly(insn_address, instruction, Some(labels_model(labels@)))
                == Err::<Seq<char>, DecodeMiss>(miss),
        },
        line is Err <==> is_unknown(instruction),
        line is Err ==> line->Err_0 == (DecodeMiss { word: instruction, address: insn_address }),
{
    render(insn_address, instruction, Some(labels))
}

} // verus!
