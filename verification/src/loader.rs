//! A loaded object file and the listing of its TEXT segment.
//!
//! A file is built once, by `FileType::load`, and read afterwards; nothing
//! changes it. Segments lie one after the other in the address space: TEXT
//! starts at address 0, DATA where TEXT ends, BSS where DATA ends.

use crate::bytes::le_u32;
use crate::disassembler::{disassemble_view, disassembly, miss_text, DecodeMiss};
use crate::object::{
    header_result, join_labels, join_labels_spec, names_model, read_relocs, read_words,
    relocs_result, words_spec, FormatError, LoadStage, ObjectHeader, RelocEntry, MAGIC_NUMBER,
};
use crate::symbols::{
    labels_model, resolve_label, resolve_spec, LabelEntry, LabelSpec, Reference, SegmentType,
};
use vstd::prelude::*;
use vstd::string::*;

verus! {

/// An object file after loading.
#[derive(Debug)]
pub struct FileType {
    filename: String,
    file_header: ObjectHeader,
    text: Vec<u32>,
    data: Vec<u32>,
    reloc_entries: Vec<RelocEntry>,
    label_entries: Vec<LabelEntry>,
}

/// What a loaded object file holds.
pub ghost struct FileModel {
    pub filename: Seq<char>,
    pub header: ObjectHeader,
    pub text: Seq<u32>,
    pub data: Seq<u32>,
    pub relocs: Seq<RelocEntry>,
    pub labels: Seq<LabelSpec>,
}

/// A line of a listing: the text of an instruction, or the message for a
/// word that is none.
pub open spec fn rendered(line: Result<Seq<char>, DecodeMiss>) -> Seq<char> {
    match line {
        Ok(text) => text,
        Err(miss) => miss_text(miss),
    }
}

impl FileModel {
    /// The header carries the magic number, and the segments and the
    /// relocation table have the sizes that the header gives.
    pub open spec fn wf(self) -> bool {
        &&& self.header.magic_number == MAGIC_NUMBER
        &&& self.text.len() == self.header.text_seg_size
        &&& self.data.len() == self.header.data_seg_size
        &&& self.relocs.len() == self.header.num_references
    }

    /// The number of words of `segment`.
    pub open spec fn segment_size(self, segment: SegmentType) -> u32 {
        match segment {
            SegmentType::Text => self.header.text_seg_size,
            SegmentType::Data => self.header.data_seg_size,
            SegmentType::Bss => self.header.bss_seg_size,
        }
    }

    /// The address of the first word of `segment`.
    pub open spec fn segment_base(self, segment: SegmentType) -> int {
        match segment {
            SegmentType::Text => 0,
            SegmentType::Data => self.header.text_seg_size as int,
            SegmentType::Bss => self.header.text_seg_size + self.header.data_seg_size,
        }
    }

    /// The word at position `index` of `segment`. The words of BSS are not
    /// stored: each of them is zero.
    pub open spec fn segment_word(self, segment: SegmentType, index: int) -> Option<u32> {
        if 0 <= index < self.segment_size(segment) {
            match segment {
                SegmentType::Text => Some(self.text[index]),
                SegmentType::Data => Some(self.data[index]),
                SegmentType::Bss => Some(0u32),
            }
        } else {
            None
        }
    }

    /// The segment that `address` falls into: TEXT below the base of DATA,
    /// DATA below the base of BSS, and BSS from there on.
    pub open spec fn segment_of(self, address: u32) -> SegmentType {
        if address < self.segment_base(SegmentType::Data) {
            SegmentType::Text
        } else if address < self.segment_base(SegmentType::Bss) {
            SegmentType::Data
        } else {
            SegmentType::Bss
        }
    }

    /// The use of `address` by a word of `source_seg`: with the label that
    /// stands at the address and that label's segment where there is one,
    /// and with the segment that the address falls into where there is none.
    pub open spec fn reference(self, source_seg: SegmentType, address: u32) -> Reference {
        match resolve_spec(self.labels, address) {
            Some(i) => Reference {
                label_entry: Some(i as usize),
                source_seg,
                target_seg: self.labels[i].seg_type,
                address,
            },
            None => Reference {
                label_entry: None,
                source_seg,
                target_seg: self.segment_of(address),
                address,
            },
        }
    }

    /// Line `index` of the listing: TEXT word `index`, which is loaded at
    /// the address `index`, rendered with the labels of the file.
    pub open spec fn listing_line(self, index: int) -> Seq<char> {
        rendered(disassembly(index as u32, self.text[index], Some(self.labels)))
    }
}

/// The outcome of loading the file `bytes`, whose symbols are named by
/// `names`. The header is read first; then the TEXT words, the DATA words
/// and the relocation records, each of which the file must hold in full.
pub open spec fn load_spec(filename: Seq<char>, bytes: Seq<u8>, names: Seq<Seq<char>>) -> Result<
    FileModel,
    FormatError,
> {
    match header_result(bytes) {
        Err(error) => Err(error),
        Ok(header) => {
            if bytes.len() < header.data_start() {
                Err(
                    FormatError::Truncated {
                        stage: LoadStage::Text,
                        expected: (4 * header.text_seg_size) as u64,
                        actual: (bytes.len() - 24) as u64,
                    },
                )
            } else if bytes.len() < header.reloc_start() {
                Err(
                    FormatError::Truncated {
                        stage: LoadStage::Data,
                        expected: (4 * header.data_seg_size) as u64,
                        actual: (bytes.len() - header.data_start()) as u64,
                    },
                )
            } else {
                match relocs_result(
                    bytes,
                    header.reloc_start(),
                    header.num_references,
                    header.num_references as nat,
                ) {
                    Err(error) => Err(error),
                    Ok(relocs) => Ok(
                        FileModel {
                            filename,
                            header,
                            text: words_spec(bytes, 24, header.text_seg_size as nat),
                            data: words_spec(
                                bytes,
                                header.data_start(),
                                header.data_seg_size as nat,
                            ),
                            relocs,
                            labels: join_labels_spec(relocs, names),
                        },
                    ),
                }
            }
        },
    }
}

/// Every reading of relocation records that succeeds has read one entry
/// for each record.
pub proof fn lemma_relocs_len(bytes: Seq<u8>, start: int, total: u32, upto: nat)
    requires
        relocs_result(bytes, start, total, upto) is Ok,
    ensures
        relocs_result(bytes, start, total, upto)->Ok_0.len() == upto,
    decreases upto,
{
    if upto > 0 {
        lemma_relocs_len(bytes, start, total, (upto - 1) as nat);
    }
}

impl View for FileType {
    type V = FileModel;

    closed spec fn view(&self) -> FileModel {
        FileModel {
            filename: self.filename@,
            header: self.file_header,
            text: self.text@,
            data: self.data@,
            relocs: self.reloc_entries@,
            labels: labels_model(self.label_entries@),
        }
    }
}

impl FileType {
    #[verifier::type_invariant]
    spec fn well_formed(&self) -> bool {
        self@.wf()
    }

    /// Loads the object file `bytes`. `names` holds the names of the
    /// file's symbols by symbol pointer, as the reader of the symbol name
    /// table found them. A file whose first word is not the magic number is
    /// rejected whatever else it holds.
    pub fn load(filename: &str, bytes: &[u8], names: &[String]) -> (file: Result<
        FileType,
        FormatError,
    >)
        ensures
            match file {
                Ok(loaded) => load_spec(filename@, bytes@, names_model(names@)) == Ok::<
                    FileModel,
                    FormatError,
                >(loaded@) && loaded@.wf(),
                Err(error) => load_spec(filename@, bytes@, names_model(names@)) == Err::<
                    FileModel,
                    FormatError,
                >(error),
            },
            bytes@.len() >= 24 && le_u32(bytes@, 0) != MAGIC_NUMBER ==> file is Err
                && file->Err_0 == (FormatError::BadMagic { found: le_u32(bytes@, 0) }),
            bytes@.len() >= 4 && le_u32(bytes@, 0) != MAGIC_NUMBER ==> file is Err,
    {
        let file_header: ObjectHeader = match ObjectHeader::from_bytes(bytes) {
            Ok(header) => header,
            Err(error) => {
                return Err(error);
            },
        };
        let len: u64 = bytes.len() as u64;
        let text_bytes: u64 = 4 * (file_header.text_seg_size as u64);
        if len - 24 < text_bytes {
            return Err(
                FormatError::Truncated {
                    stage: LoadStage::Text,
                    expected: text_bytes,
                    actual: len - 24,
                },
            );
        }
        let data_start: u64 = file_header.data_offset();
        let data_bytes: u64 = 4 * (file_header.data_seg_size as u64);
        if len - data_start < data_bytes {
            return Err(
                FormatError::Truncated {
                    stage: LoadStage::Data,
                    expected: data_bytes,
                    actual: len - data_start,
                },
            );
        }
        let reloc_start: u64 = file_header.reloc_offset();
        let text: Vec<u32> = read_words(bytes, 24, file_header.text_seg_size as usize);
        let data: Vec<u32> = read_words(
            bytes,
            data_start as usize,
            file_header.data_seg_size as usize,
        );
        let reloc_entries: Vec<RelocEntry> = match read_relocs(
            bytes,
            reloc_start as usize,
            file_header.num_references,
        ) {
            Ok(entries) => entries,
            Err(error) => {
                return Err(error);
            },
        };
        proof {
            lemma_relocs_len(
                bytes@,
                reloc_start as int,
                file_header.num_references,
                file_header.num_references as nat,
            );
        }
        let label_entries: Vec<LabelEntry> = join_labels(reloc_entries.as_slice(), names);
        Ok(
            FileType {
                filename: String::from_str(filename),
                file_header,
                text,
                data,
                reloc_entries,
                label_entries,
            },
        )
    }

    /// The name that the file was loaded under.
    pub fn filename(&self) -> (name: &str)
        ensures
            name@ == self@.filename,
    {
        self.filename.as_str()
    }

    /// The header of the file.
    pub fn header(&self) -> (header: ObjectHeader)
        ensures
            header == self@.header,
            self@.wf(),
    {
        proof {
            use_type_invariant(self);
        }
        self.file_header
    }

    /// The relocation entries of the file, in file order.
    pub fn reloc_entries(&self) -> (entries: &[RelocEntry])
        ensures
            entries@ == self@.relocs,
    {
        self.reloc_entries.as_slice()
    }

    /// The label table of the file.
    pub fn label_entries(&self) -> (labels: &[LabelEntry])
        ensures
            labels_model(labels@) == self@.labels,
    {
        self.label_entries.as_slice()
    }

    /// The number of words of `segment`.
    pub fn segment_size(&self, segment: SegmentType) -> (size: u32)
        ensures
            size == self@.segment_size(segment),
    {
        match segment {
            SegmentType::Text => self.file_header.text_seg_size,
            SegmentType::Data => self.file_header.data_seg_size,
            SegmentType::Bss => self.file_header.bss_seg_size,
        }
    }

    /// The address of the first word of `segment`.
    pub fn segment_address(&self, segment: SegmentType) -> (base: u64)
        ensures
            base == self@.segment_base(segment),
    {
        match segment {
            SegmentType::Text => 0,
            SegmentType::Data => self.file_header.text_seg_size as u64,
            SegmentType::Bss => self.file_header.text_seg_size as u64
                + self.file_header.data_seg_size as u64,
        }
    }

    /// The word at position `index` of `segment`, or `None` where the
    /// segment has no such position.
    pub fn segment_word(&self, segment: SegmentType, index: usize) -> (word: Option<u32>)
        ensures
            word == self@.segment_word(segment, index as int),
    {
        proof {
            use_type_invariant(self);
        }
        match segment {
            SegmentType::Text => if index < self.text.len() {
                Some(self.text[index])
            } else {
                None
            },
            SegmentType::Data => if index < self.data.len() {
                Some(self.data[index])
            } else {
                None
            },
            SegmentType::Bss => if index < self.file_header.bss_seg_size as usize {
                Some(0)
            } else {
                None
            },
        }
    }

    /// The segment that `address` falls into.
    pub fn segment_of(&self, address: u32) -> (segment: SegmentType)
        ensures
            segment == self@.segment_of(address),
    {
        let address: u64 = address as u64;
        if address < self.segment_address(SegmentType::Data) {
            SegmentType::Text
        } else if address < self.segment_address(SegmentType::Bss) {
            SegmentType::Data
        } else {
            SegmentType::Bss
        }
    }

    /// The name of the first resolved label at `address`, or `None` where
    /// no label of the file stands there.
    pub fn resolve(&self, address: u32) -> (name: Option<&str>)
        ensures
            match name {
                Some(text) => resolve_spec(self@.labels, address) is Some
                    && text@ == self@.labels[resolve_spec(self@.labels, address)->0].name,
                None => resolve_spec(self@.labels, address) is None,
            },
    {
        match resolve_label(self.label_entries.as_slice(), address) {
            Some(i) => Some(self.label_entries[i].name.as_str()),
            None => None,
        }
    }

    /// The use of `address` by a word of `source_seg`.
    pub fn reference(&self, source_seg: SegmentType, address: u32) -> (reference: Reference)
        ensures
            reference == self@.reference(source_seg, address),
    {
        match resolve_label(self.label_entries.as_slice(), address) {
            Some(i) => Reference {
                label_entry: Some(i),
                source_seg,
                target_seg: self.label_entries[i].seg_type,
                address,
            },
            None => Reference {
                label_entry: None,
                source_seg,
                target_seg: self.segment_of(address),
                address,
            },
        }
    }

    /// The listing of the TEXT segment: one line for each word, in order.
    /// A word that selects no catalogue entry yields the message for the
    /// miss and does not disturb the lines after it.
    pub fn disassemble_text(&self) -> (lines: Vec<String>)
        ensures
            lines@.len() == self@.text.len(),
            forall|i: int|
                0 <= i < lines@.len() ==> (#[trigger] lines@[i])@ == self@.listing_line(i),
    {
        proof {
            use_type_invariant(self);
        }
        let mut lines: Vec<String> = Vec::new();
        let mut i: usize = 0;
        while i < self.text.len()
            invariant
                i <= self.text@.len(),
                self.text@.len() <= u32::MAX,
                lines@.len() == i,
                forall|j: int| 0 <= j < i ==> (#[trigger] lines@[j])@ == self@.listing_line(j),
            decreases self.text@.len() - i,
        {
            let line: String = match disassemble_view(
                i as u32,
                self.text[i],
                self.label_entries.as_slice(),
            ) {
                Ok(text) => text,
                Err(miss) => miss.message(),
            };
            lines.push(line);
            i += 1;
        }
        lines
    }
}

} // verus!
