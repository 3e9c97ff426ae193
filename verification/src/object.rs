//! The object file: header, segments, relocation entries and labels,
//! parsed from the bytes of the file.
//!
//! The file is little-endian throughout. It starts with a header of six
//! words; the words of the TEXT segment follow, then those of the DATA
//! segment, then the relocation records of ten bytes each, then the symbol
//! name table. The BSS segment has a size and no stored words.
//!
//! Loading goes through the file in that order and stops at the first
//! thing that is wrong: a header that is cut short, a wrong magic number, a
//! segment that is cut short, a relocation record that is cut short or
//! names no reference type.

use crate::bytes::{le_u32, word_at};
use crate::symbols::{labels_model, LabelEntry, LabelSpec, SegmentType};
use crate::text::{decimal_text, hex_text, push_decimal, push_hex};
use vstd::prelude::*;
use vstd::string::*;

verus! {

/// The number that the first word of an object file must hold.
pub const MAGIC_NUMBER: u32 = 0xdaa1;

/// The size of the header in bytes.
pub const HEADER_SIZE: usize = 24;

/// The size of one relocation record in bytes.
pub const RELOC_SIZE: usize = 10;

/// The names of the segment codes of a relocation record, by code.
pub const SEG_TYPE_NAME: [&'static str; 5] = ["NONE", "TEXT", "DATA", "BSS", "NUM_SEGMENTS"];

/// The segment code of the TEXT segment.
pub const TEXT: u8 = 1;

/// The segment code of the DATA segment.
pub const DATA: u8 = 2;

/// The segment code of the BSS segment.
pub const BSS: u8 = 3;

/// The six words at the start of an object file. Sizes of segments count
/// words, the size of the symbol name table counts bytes.
#[derive(Clone, Copy, Debug, PartialEq, Eq, Structural)]
pub struct ObjectHeader {
    pub magic_number: u32,
    pub text_seg_size: u32,
    pub data_seg_size: u32,
    pub bss_seg_size: u32,
    pub num_references: u32,
    pub symbol_name_table_size: u32,
}

/// What a relocation record refers to.
#[derive(Clone, Copy, Debug, PartialEq, Eq, Structural)]
pub enum ReferenceType {
    GlobalData,
    GlobalText,
    GlobalBss,
    TextLabelRef,
    DataLabelRef,
    BssLabelRef,
    ExternalRef,
}

/// One relocation record.
#[derive(Clone, Copy, Debug, PartialEq, Eq, Structural)]
pub struct RelocEntry {
    pub address: u32,
    pub symbol_ptr: u32,
    pub ref_type: ReferenceType,
    pub seg_type: Option<SegmentType>,
}

/// The part of the file that loading was at when it failed.
#[derive(Clone, Copy, Debug, PartialEq, Eq, Structural)]
pub enum LoadStage {
    Header,
    Text,
    Data,
    Relocations,
}

/// Why a file is no object file. Each of these ends the loading.
#[derive(Clone, Copy, Debug, PartialEq, Eq, Structural)]
pub enum FormatError {
    /// The first word is `found`, not the magic number.
    BadMagic { found: u32 },
    /// The part `stage` needs `expected` bytes and the file has `actual`
    /// bytes left for it.
    Truncated { stage: LoadStage, expected: u64, actual: u64 },
    /// Relocation record `index` has the reference type byte `value`,
    /// which names no reference type.
    BadReferenceType { index: u32, value: u8 },
}

/// The reference type that the byte `code` of a relocation record names.
pub open spec fn reference_type_spec(code: u8) -> Option<ReferenceType> {
    match code {
        0 => Some(ReferenceType::GlobalData),
        1 => Some(ReferenceType::GlobalText),
        2 => Some(ReferenceType::GlobalBss),
        3 => Some(ReferenceType::TextLabelRef),
        4 => Some(ReferenceType::DataLabelRef),
        5 => Some(ReferenceType::BssLabelRef),
        6 => Some(ReferenceType::ExternalRef),
        _ => None,
    }
}

/// The segment that the byte `code` of a relocation record names. Any code
/// but those of the three segments names none.
pub open spec fn segment_type_spec(code: u8) -> Option<SegmentType> {
    if code == TEXT {
        Some(SegmentType::Text)
    } else if code == DATA {
        Some(SegmentType::Data)
    } else if code == BSS {
        Some(SegmentType::Bss)
    } else {
        None
    }
}

/// The name of `segment` in capitals.
pub open spec fn segment_name_spec(segment: SegmentType) -> Seq<char> {
    match segment {
        SegmentType::Text => SEG_TYPE_NAME@[TEXT as int]@,
        SegmentType::Data => SEG_TYPE_NAME@[DATA as int]@,
        SegmentType::Bss => SEG_TYPE_NAME@[BSS as int]@,
    }
}

/// The header that the first 24 bytes of `bytes` hold.
pub open spec fn header_spec(bytes: Seq<u8>) -> ObjectHeader
    recommends
        bytes.len() >= 24,
{
    ObjectHeader {
        magic_number: le_u32(bytes, 0),
        text_seg_size: le_u32(bytes, 4),
        data_seg_size: le_u32(bytes, 8),
        bss_seg_size: le_u32(bytes, 12),
        num_references: le_u32(bytes, 16),
        symbol_name_table_size: le_u32(bytes, 20),
    }
}

/// The outcome of reading the header of `bytes`: a file shorter than a
/// header is truncated, a first word other than the magic number is
/// rejected whatever follows it, and any other file yields its header.
pub open spec fn header_result(bytes: Seq<u8>) -> Result<ObjectHeader, FormatError> {
    if bytes.len() < 24 {
        Err(
            FormatError::Truncated {
                stage: LoadStage::Header,
                expected: 24,
                actual: bytes.len() as u64,
            },
        )
    } else if le_u32(bytes, 0) != MAGIC_NUMBER {
        Err(FormatError::BadMagic { found: le_u32(bytes, 0) })
    } else {
        Ok(header_spec(bytes))
    }
}

impl ReferenceType {
    /// The reference type that `code` names, if it names one.
    pub fn from_byte(code: u8) -> (kind: Option<ReferenceType>)
        ensures
            kind == reference_type_spec(code),
    {
        match code {
            0 => Some(ReferenceType::GlobalData),
            1 => Some(ReferenceType::GlobalText),
            2 => Some(ReferenceType::GlobalBss),
            3 => Some(ReferenceType::TextLabelRef),
            4 => Some(ReferenceType::DataLabelRef),
            5 => Some(ReferenceType::BssLabelRef),
            6 => Some(ReferenceType::ExternalRef),
            _ => None,
        }
    }

    /// The segment of the label that a label reference refers to; `None`
    /// for every other reference type.
    pub open spec fn label_segment_spec(self) -> Option<SegmentType> {
        match self {
            ReferenceType::TextLabelRef => Some(SegmentType::Text),
            ReferenceType::DataLabelRef => Some(SegmentType::Data),
            ReferenceType::BssLabelRef => Some(SegmentType::Bss),
            _ => None,
        }
    }

    /// The segment of the label that a label reference refers to; `None`
    /// for every other reference type.
    pub fn label_segment(&self) -> (segment: Option<SegmentType>)
        ensures
            segment == self.label_segment_spec(),
    {
        match self {
            ReferenceType::TextLabelRef => Some(SegmentType::Text),
            ReferenceType::DataLabelRef => Some(SegmentType::Data),
            ReferenceType::BssLabelRef => Some(SegmentType::Bss),
            _ => None,
        }
    }
}

/// The segment that `code` names, if it names one.
pub fn segment_from_byte(code: u8) -> (segment: Option<SegmentType>)
    ensures
        segment == segment_type_spec(code),
{
    if code == TEXT {
        Some(SegmentType::Text)
    } else if code == DATA {
        Some(SegmentType::Data)
    } else if code == BSS {
        Some(SegmentType::Bss)
    } else {
        None
    }
}

/// The name of `segment` in capitals.
pub fn segment_name(segment: SegmentType) -> (name: &'static str)
    ensures
        name@ == segment_name_spec(segment),
{
    match segment {
        SegmentType::Text => SEG_TYPE_NAME[TEXT as usize],
        SegmentType::Data => SEG_TYPE_NAME[DATA as usize],
        SegmentType::Bss => SEG_TYPE_NAME[BSS as usize],
    }
}

impl ObjectHeader {
    /// The offset of the first DATA word in the file.
    pub open spec fn data_start(self) -> int {
        24 + 4 * self.text_seg_size
    }

    /// The offset of the first relocation record in the file.
    pub open spec fn reloc_start(self) -> int {
        self.data_start() + 4 * self.data_seg_size
    }

    /// The offset of the symbol name table in the file.
    pub open spec fn symbols_start(self) -> int {
        self.reloc_start() + 10 * self.num_references
    }

    /// Reads the header from the start of `bytes`. A file whose first word
    /// is not the magic number is rejected here, before anything of its
    /// segments is looked at.
    pub fn from_bytes(bytes: &[u8]) -> (header: Result<ObjectHeader, FormatError>)
        ensures
            header == header_result(bytes@),
            bytes@.len() >= 24 && le_u32(bytes@, 0) != MAGIC_NUMBER ==> header == Err::<
                ObjectHeader,
                FormatError,
            >(FormatError::BadMagic { found: le_u32(bytes@, 0) }),
            bytes@.len() >= 4 && le_u32(bytes@, 0) != MAGIC_NUMBER ==> header is Err,
            header is Ok ==> header->Ok_0.magic_number == MAGIC_NUMBER,
    {
        if bytes.len() < HEADER_SIZE {
            return Err(
                FormatError::Truncated {
                    stage: LoadStage::Header,
                    expected: HEADER_SIZE as u64,
                    actual: bytes.len() as u64,
                },
            );
        }
        let magic_number: u32 = word_at(bytes, 0);
        if magic_number != MAGIC_NUMBER {
            return Err(FormatError::BadMagic { found: magic_number });
        }
        Ok(
            ObjectHeader {
                magic_number,
                text_seg_size: word_at(bytes, 4),
                data_seg_size: word_at(bytes, 8),
                bss_seg_size: word_at(bytes, 12),
                num_references: word_at(bytes, 16),
                symbol_name_table_size: word_at(bytes, 20),
            },
        )
    }

    /// The offset of the first DATA word in the file.
    pub fn data_offset(&self) -> (offset: u64)
        ensures
            offset == self.data_start(),
    {
        24 + 4 * (self.text_seg_size as u64)
    }

    /// The offset of the first relocation record in the file.
    pub fn reloc_offset(&self) -> (offset: u64)
        ensures
            offset == self.reloc_start(),
    {
        self.data_offset() + 4 * (self.data_seg_size as u64)
    }

    /// The offset of the symbol name table in the file.
    pub fn symbol_table_offset(&self) -> (offset: u64)
        ensures
            offset == self.symbols_start(),
    {
        self.reloc_offset() + 10 * (self.num_references as u64)
    }
}

/// The `count` little-endian words of `bytes` that start at `start`.
pub open spec fn words_spec(bytes: Seq<u8>, start: int, count: nat) -> Seq<u32> {
    Seq::new(count, |i: int| le_u32(bytes, start + 4 * i))
}

/// The relocation record at `at`, given the reference type that its type
/// byte names: address and symbol pointer are words, the segment is the
/// one that the last byte names.
pub open spec fn reloc_spec(bytes: Seq<u8>, at: int, ref_type: ReferenceType) -> RelocEntry {
    RelocEntry {
        address: le_u32(bytes, at),
        symbol_ptr: le_u32(bytes, at + 4),
        ref_type,
        seg_type: segment_type_spec(bytes[at + 9]),
    }
}

/// The outcome of reading the first `upto` of `total` relocation records,
/// which start at `start`. Records are read in order, and the first one
/// that is cut short or names no reference type decides the error.
pub open spec fn relocs_result(bytes: Seq<u8>, start: int, total: u32, upto: nat) -> Result<
    Seq<RelocEntry>,
    FormatError,
>
    decreases upto,
{
    if upto == 0 {
        Ok(Seq::empty())
    } else {
        match relocs_result(bytes, start, total, (upto - 1) as nat) {
            Err(error) => Err(error),
            Ok(earlier) => {
                let index = upto - 1;
                let at = start + 10 * index;
                if bytes.len() < at + 10 {
                    Err(
                        FormatError::Truncated {
                            stage: LoadStage::Relocations,
                            expected: (10 * total) as u64,
                            actual: (bytes.len() - start) as u64,
                        },
                    )
                } else {
                    match reference_type_spec(bytes[at + 8]) {
                        None => Err(
                            FormatError::BadReferenceType {
                                index: index as u32,
                                value: bytes[at + 8],
                            },
                        ),
                        Some(ref_type) => Ok(earlier.push(reloc_spec(bytes, at, ref_type))),
                    }
                }
            },
        }
    }
}

/// The names of `names` as character sequences.
pub open spec fn names_model(names: Seq<String>) -> Seq<Seq<char>> {
    names.map_values(|name: String| name@)
}

/// The label that a relocation record gives rise to: a label reference
/// yields a label at the record's address in the segment that its type
/// names, with the name that the symbol pointer selects among `names`. A
/// pointer that selects no name yields an unresolved label without a name.
/// A record of any other type yields no label.
pub open spec fn label_of(reloc: RelocEntry, names: Seq<Seq<char>>) -> Option<LabelSpec> {
    match reloc.ref_type.label_segment_spec() {
        Some(segment) => Some(
            LabelSpec {
                name: if reloc.symbol_ptr < names.len() {
                    names[reloc.symbol_ptr as int]
                } else {
                    Seq::empty()
                },
                address: reloc.address,
                seg_type: segment,
                resolved: reloc.symbol_ptr < names.len(),
                is_global: false,
                file_no: 0,
            },
        ),
        None => None,
    }
}

/// The label table of a file: the labels of its label references, in the
/// order of the relocation records.
pub open spec fn join_labels_spec(relocs: Seq<RelocEntry>, names: Seq<Seq<char>>) -> Seq<
    LabelSpec,
>
    decreases relocs.len(),
{
    if relocs.len() == 0 {
        Seq::empty()
    } else {
        let earlier = join_labels_spec(relocs.drop_last(), names);
        match label_of(relocs.last(), names) {
            Some(label) => earlier.push(label),
            None => earlier,
        }
    }
}

/// An error among the first records is the error of every longer reading.
pub proof fn lemma_reloc_error_stays(
    bytes: Seq<u8>,
    start: int,
    total: u32,
    upto: nat,
    longer: nat,
)
    requires
        upto <= longer,
        relocs_result(bytes, start, total, upto) is Err,
    ensures
        relocs_result(bytes, start, total, longer) == relocs_result(bytes, start, total, upto),
    decreases longer,
{
    if upto < longer {
        lemma_reloc_error_stays(bytes, start, total, upto, (longer - 1) as nat);
    }
}

/// Reads `count` little-endian words that start at `start`.
pub fn read_words(bytes: &[u8], start: usize, count: usize) -> (words: Vec<u32>)
    requires
        start + 4 * count <= bytes@.len(),
    ensures
        words@ == words_spec(bytes@, start as int, count as nat),
{
    let len: usize = bytes.len();
    let mut words: Vec<u32> = Vec::new();
    let mut i: usize = 0;
    while i < count
        invariant
            i <= count,
            len == bytes@.len(),
            start + 4 * count <= len,
            words@.len() == i,
            forall|j: int| 0 <= j < i ==> #[trigger] words@[j] == le_u32(bytes@, start + 4 * j),
        decreases count - i,
    {
        words.push(word_at(bytes, start + 4 * i));
        i += 1;
    }
    assert(words@ =~= words_spec(bytes@, start as int, count as nat));
    words
}

/// Reads `total` relocation records that start at `start`, in order, and
/// stops at the first record that is cut short or names no reference type.
pub fn read_relocs(bytes: &[u8], start: usize, total: u32) -> (relocs: Result<
    Vec<RelocEntry>,
    FormatError,
>)
    requires
        start <= bytes@.len(),
    ensures
        match relocs {
            Ok(entries) => relocs_result(bytes@, start as int, total, total as nat) == Ok::<
                Seq<RelocEntry>,
                FormatError,
            >(entries@),
            Err(error) => relocs_result(bytes@, start as int, total, total as nat) == Err::<
                Seq<RelocEntry>,
                FormatError,
            >(error),
        },
{
    let len: usize = bytes.len();
    let mut entries: Vec<RelocEntry> = Vec::new();
    let mut at: usize = start;
    let mut k: u32 = 0;
    while k < total
        invariant
            k <= total,
            len == bytes@.len(),
            start <= len,
            at == start + 10 * k,
            at <= len,
            relocs_result(bytes@, start as int, total, k as nat) == Ok::<
                Seq<RelocEntry>,
                FormatError,
            >(entries@),
        decreases total - k,
    {
        if len - at < RELOC_SIZE {
            let error = FormatError::Truncated {
                stage: LoadStage::Relocations,
                expected: 10 * (total as u64),
                actual: (len - start) as u64,
            };
            proof {
                assert(relocs_result(bytes@, start as int, total, (k + 1) as nat) == Err::<
                    Seq<RelocEntry>,
                    FormatError,
                >(error));
                lemma_reloc_error_stays(
                    bytes@,
                    start as int,
                    total,
                    (k + 1) as nat,
                    total as nat,
                );
            }
            return Err(error);
        }
        let code: u8 = bytes[at + 8];
        match ReferenceType::from_byte(code) {
            None => {
                let error = FormatError::BadReferenceType { index: k, value: code };
                proof {
                    assert(relocs_result(bytes@, start as int, total, (k + 1) as nat) == Err::<
                        Seq<RelocEntry>,
                        FormatError,
                    >(error));
                    lemma_reloc_error_stays(
                        bytes@,
                        start as int,
                        total,
                        (k + 1) as nat,
                        total as nat,
                    );
                }
                return Err(error);
            },
            Some(ref_type) => {
                let entry = RelocEntry {
                    address: word_at(bytes, at),
                    symbol_ptr: word_at(bytes, at + 4),
                    ref_type,
                    seg_type: segment_from_byte(bytes[at + 9]),
                };
                assert(entry == reloc_spec(bytes@, at as int, ref_type));
                entries.push(entry);
            },
        }
        at += RELOC_SIZE;
        k += 1;
    }
    Ok(entries)
}

/// Builds the label table of a file from its relocation records and the
/// names of its symbols, which `names` holds by symbol pointer.
pub fn join_labels(relocs: &[RelocEntry], names: &[String]) -> (labels: Vec<LabelEntry>)
    ensures
        labels_model(labels@) == join_labels_spec(relocs@, names_model(names@)),
{
    let ghost known = names_model(names@);
    let mut labels: Vec<LabelEntry> = Vec::new();
    let mut i: usize = 0;
    assert(relocs@.subrange(0, 0) =~= Seq::<RelocEntry>::empty());
    assert(labels_model(labels@) =~= Seq::<LabelSpec>::empty());
    while i < relocs.len()
        invariant
            i <= relocs@.len(),
            known == names_model(names@),
            labels_model(labels@) == join_labels_spec(relocs@.subrange(0, i as int), known),
        decreases relocs@.len() - i,
    {
        let reloc: RelocEntry = relocs[i];
        let ghost before = labels@;
        proof {
            let prefix = relocs@.subrange(0, i + 1);
            assert(prefix.drop_last() =~= relocs@.subrange(0, i as int));
            assert(prefix.last() == reloc);
        }
        match reloc.ref_type.label_segment() {
            Some(segment) => {
                let pointer: usize = reloc.symbol_ptr as usize;
                let resolved: bool = pointer < names.len();
                let name: String = if resolved {
                    names[pointer].clone()
                } else {
                    String::new()
                };
                let label = LabelEntry {
                    name,
                    address: reloc.address,
                    seg_type: segment,
                    resolved,
                    is_global: false,
                    file_no: 0,
                };
                assert(Some(label@) == label_of(reloc, known));
                labels.push(label);
                assert(labels_model(labels@) =~= labels_model(before).push(label@));
            },
            None => {},
        }
        i += 1;
    }
    assert(relocs@.subrange(0, i as int) =~= relocs@);
    labels
}

/// The name of a part of the file in an error message.
pub open spec fn stage_text(stage: LoadStage) -> Seq<char> {
    match stage {
        LoadStage::Header => "header"@,
        LoadStage::Text => "text segment"@,
        LoadStage::Data => "data segment"@,
        LoadStage::Relocations => "relocation table"@,
    }
}

/// The message for `error`: what is wrong, in which part of the file, and
/// the number of bytes that the part needs beside the number that is there.
pub open spec fn error_text(error: FormatError) -> Seq<char> {
    match error {
        FormatError::BadMagic { found } => "bad magic number 0x"@ + hex_text(found as nat, 8, true)
            + ", expected 0x"@ + hex_text(MAGIC_NUMBER as nat, 8, true),
        FormatError::Truncated { stage, expected, actual } => "truncated "@ + stage_text(stage)
            + ": expected "@ + decimal_text(expected as nat) + " bytes, found "@ + decimal_text(
            actual as nat,
        ),
        FormatError::BadReferenceType { index, value } => "relocation "@ + decimal_text(
            index as nat,
        ) + ": unknown reference type "@ + decimal_text(value as nat),
    }
}

impl LoadStage {
    /// The name of this part of the file in an error message.
    pub fn name(&self) -> (name: &'static str)
        ensures
            name@ == stage_text(*self),
    {
        match self {
            LoadStage::Header => "header",
            LoadStage::Text => "text segment",
            LoadStage::Data => "data segment",
            LoadStage::Relocations => "relocation table",
        }
    }
}

impl FormatError {
    /// The message for this error.
    pub fn message(&self) -> (text: String)
        ensures
            text@ == error_text(*self),
    {
        match *self {
            FormatError::BadMagic { found } => {
                let mut text = String::from_str("bad magic number 0x");
                push_hex(&mut text, found as u64, 8, true);
                text.append(", expected 0x");
                push_hex(&mut text, MAGIC_NUMBER as u64, 8, true);
                assert(text@ =~= error_text(*self));
                text
            },
            FormatError::Truncated { stage, expected, actual } => {
                let mut text = String::from_str("truncated ");
                text.append(stage.name());
                text.append(": expected ");
                push_decimal(&mut text, expected);
                text.append(" bytes, found ");
                push_decimal(&mut text, actual);
                assert(text@ =~= error_text(*self));
                text
            },
            FormatError::BadReferenceType { index, value } => {
                let mut text = String::from_str("relocation ");
                push_decimal(&mut text, index as u64);
                text.append(": unknown reference type ");
                push_decimal(&mut text, value as u64);
                assert(text@ =~= error_text(*self));
                text
            },
        }
    }
}

} // verus!
