use wobj::bytes::word_at;
use wobj::object::{
    join_labels, read_relocs, read_words, segment_from_byte, segment_name, FormatError, LoadStage,
    ObjectHeader, ReferenceType, RelocEntry, BSS, DATA, HEADER_SIZE, MAGIC_NUMBER, RELOC_SIZE,
    SEG_TYPE_NAME, TEXT,
};
use wobj::symbols::{resolve_label, LabelEntry, SegmentType};

fn words(values: &[u32]) -> Vec<u8> {
    let mut bytes = Vec::new();
    for v in values {
        bytes.extend_from_slice(&v.to_le_bytes());
    }
    bytes
}

fn record(address: u32, symbol_ptr: u32, ref_type: u8, seg_type: u8) -> Vec<u8> {
    let mut bytes = words(&[address, symbol_ptr]);
    bytes.push(ref_type);
    bytes.push(seg_type);
    bytes
}

#[test]
fn words_are_little_endian() {
    let bytes = [0x78, 0x56, 0x34, 0x12, 0xff, 0x00, 0x00, 0x80];
    assert_eq!(word_at(&bytes, 0), 0x1234_5678);
    assert_eq!(word_at(&bytes, 4), 0x8000_00ff);
    assert_eq!(word_at(&bytes, 1), 0xff12_3456);
    assert_eq!(read_words(&bytes, 0, 2), vec![0x1234_5678, 0x8000_00ff]);
    assert_eq!(read_words(&bytes, 3, 1), vec![0x0000_ff12]);
    assert_eq!(read_words(&bytes, 8, 0), Vec::<u32>::new());
}

#[test]
fn constants_of_the_format() {
    assert_eq!(MAGIC_NUMBER, 0xDAA1);
    assert_eq!(HEADER_SIZE, 24);
    assert_eq!(RELOC_SIZE, 10);
    assert_eq!(SEG_TYPE_NAME[TEXT as usize], "TEXT");
    assert_eq!(SEG_TYPE_NAME[DATA as usize], "DATA");
    assert_eq!(SEG_TYPE_NAME[BSS as usize], "BSS");
    assert_eq!(segment_name(SegmentType::Text), "TEXT");
    assert_eq!(segment_name(SegmentType::Data), "DATA");
    assert_eq!(segment_name(SegmentType::Bss), "BSS");
}

#[test]
fn header_is_read_field_by_field() {
    let bytes = words(&[0xDAA1, 1, 2, 3, 4, 5]);
    assert_eq!(
        ObjectHeader::from_bytes(&bytes),
        Ok(ObjectHeader {
            magic_number: 0xDAA1,
            text_seg_size: 1,
            data_seg_size: 2,
            bss_seg_size: 3,
            num_references: 4,
            symbol_name_table_size: 5,
        })
    );
    let bytes = [
        0xA1, 0xDA, 0, 0, 0x04, 0x03, 0x02, 0x01, 0, 0, 0, 0x80, 0xff, 0xff, 0xff, 0xff, 1, 0, 0,
        0, 0, 1, 0, 0, 0xee,
    ];
    let header = ObjectHeader::from_bytes(&bytes).unwrap();
    assert_eq!(header.text_seg_size, 0x0102_0304);
    assert_eq!(header.data_seg_size, 0x8000_0000);
    assert_eq!(header.bss_seg_size, 0xffff_ffff);
    assert_eq!(header.num_references, 1);
    assert_eq!(header.symbol_name_table_size, 0x100);
}

#[test]
fn header_with_a_wrong_magic_number_is_rejected() {
    let bytes = words(&[0xDAA2, 0, 0, 0, 0, 0]);
    assert_eq!(ObjectHeader::from_bytes(&bytes), Err(FormatError::BadMagic { found: 0xDAA2 }));
    let bytes = words(&[0xA1DA_0000, 7, 7, 7, 7, 7]);
    assert_eq!(ObjectHeader::from_bytes(&bytes), Err(FormatError::BadMagic { found: 0xA1DA_0000 }));
    let bytes = words(&[0, 0, 0, 0, 0, 0]);
    assert_eq!(ObjectHeader::from_bytes(&bytes), Err(FormatError::BadMagic { found: 0 }));
}

#[test]
fn header_that_is_cut_short_is_truncated() {
    let bytes = words(&[0xDAA1, 0, 0, 0, 0, 0]);
    for len in 0..24 {
        assert_eq!(
            ObjectHeader::from_bytes(&bytes[..len]),
            Err(FormatError::Truncated {
                stage: LoadStage::Header,
                expected: 24,
                actual: len as u64
            })
        );
    }
    let wrong = words(&[0xBEEF, 0, 0, 0, 0]);
    assert_eq!(
        ObjectHeader::from_bytes(&wrong),
        Err(FormatError::Truncated { stage: LoadStage::Header, expected: 24, actual: 20 })
    );
}

#[test]
fn offsets_follow_the_layout() {
    let header = ObjectHeader {
        magic_number: MAGIC_NUMBER,
        text_seg_size: 3,
        data_seg_size: 5,
        bss_seg_size: 100,
        num_references: 2,
        symbol_name_table_size: 9,
    };
    assert_eq!(header.data_offset(), 36);
    assert_eq!(header.reloc_offset(), 56);
    assert_eq!(header.symbol_table_offset(), 76);
    let header = ObjectHeader {
        magic_number: MAGIC_NUMBER,
        text_seg_size: u32::MAX,
        data_seg_size: u32::MAX,
        bss_seg_size: 0,
        num_references: u32::MAX,
        symbol_name_table_size: 0,
    };
    assert_eq!(header.data_offset(), 24 + 4 * 4294967295u64);
    assert_eq!(header.reloc_offset(), 24 + 8 * 4294967295u64);
    assert_eq!(header.symbol_table_offset(), 24 + 18 * 4294967295u64);
}

#[test]
fn reference_types_by_code() {
    assert_eq!(ReferenceType::from_byte(0), Some(ReferenceType::GlobalData));
    assert_eq!(ReferenceType::from_byte(1), Some(ReferenceType::GlobalText));
    assert_eq!(ReferenceType::from_byte(2), Some(ReferenceType::GlobalBss));
    assert_eq!(ReferenceType::from_byte(3), Some(ReferenceType::TextLabelRef));
    assert_eq!(ReferenceType::from_byte(4), Some(ReferenceType::DataLabelRef));
    assert_eq!(ReferenceType::from_byte(5), Some(ReferenceType::BssLabelRef));
    assert_eq!(ReferenceType::from_byte(6), Some(ReferenceType::ExternalRef));
    for code in 7..=255u8 {
        assert_eq!(ReferenceType::from_byte(code), None);
    }
}

#[test]
fn segments_by_code() {
    assert_eq!(segment_from_byte(0), None);
    assert_eq!(segment_from_byte(1), Some(SegmentType::Text));
    assert_eq!(segment_from_byte(2), Some(SegmentType::Data));
    assert_eq!(segment_from_byte(3), Some(SegmentType::Bss));
    for code in 4..=255u8 {
        assert_eq!(segment_from_byte(code), None);
    }
}

#[test]
fn label_segments_of_reference_types() {
    assert_eq!(ReferenceType::TextLabelRef.label_segment(), Some(SegmentType::Text));
    assert_eq!(ReferenceType::DataLabelRef.label_segment(), Some(SegmentType::Data));
    assert_eq!(ReferenceType::BssLabelRef.label_segment(), Some(SegmentType::Bss));
    assert_eq!(ReferenceType::GlobalData.label_segment(), None);
    assert_eq!(ReferenceType::GlobalText.label_segment(), None);
    assert_eq!(ReferenceType::GlobalBss.label_segment(), None);
    assert_eq!(ReferenceType::ExternalRef.label_segment(), None);
}

#[test]
fn relocation_records_are_read_in_order() {
    let mut bytes = vec![0xaa, 0xbb];
    bytes.extend(record(0x10, 0, 3, 1));
    bytes.extend(record(0x0102_0304, 0x0a0b_0c0d, 6, 0));
    bytes.extend(record(7, 8, 0, 9));
    bytes.push(0xcc);
    assert_eq!(
        read_relocs(&bytes, 2, 3),
        Ok(vec![
            RelocEntry {
                address: 0x10,
                symbol_ptr: 0,
                ref_type: ReferenceType::TextLabelRef,
                seg_type: Some(SegmentType::Text)
            },
            RelocEntry {
                address: 0x0102_0304,
                symbol_ptr: 0x0a0b_0c0d,
                ref_type: ReferenceType::ExternalRef,
                seg_type: None
            },
            RelocEntry {
                address: 7,
                symbol_ptr: 8,
                ref_type: ReferenceType::GlobalData,
                seg_type: None
            },
        ])
    );
    assert_eq!(read_relocs(&bytes, 2, 0), Ok(vec![]));
    assert_eq!(read_relocs(&bytes, bytes.len(), 0), Ok(vec![]));
}

#[test]
fn relocation_record_with_an_unknown_type_is_rejected() {
    let mut bytes = record(1, 2, 5, 3);
    bytes.extend(record(3, 4, 7, 1));
    bytes.extend(record(5, 6, 200, 1));
    assert_eq!(read_relocs(&bytes, 0, 3), Err(FormatError::BadReferenceType { index: 1, value: 7 }));
    assert_eq!(
        read_relocs(&bytes, 10, 2),
        Err(FormatError::BadReferenceType { index: 0, value: 7 })
    );
    assert_eq!(
        read_relocs(&bytes, 20, 1),
        Err(FormatError::BadReferenceType { index: 0, value: 200 })
    );
}

#[test]
fn relocation_table_that_is_cut_short_is_truncated() {
    let mut bytes = record(1, 2, 5, 3);
    bytes.extend(record(3, 4, 6, 1));
    assert_eq!(
        read_relocs(&bytes, 0, 3),
        Err(FormatError::Truncated { stage: LoadStage::Relocations, expected: 30, actual: 20 })
    );
    assert_eq!(
        read_relocs(&bytes[..19], 0, 2),
        Err(FormatError::Truncated { stage: LoadStage::Relocations, expected: 20, actual: 19 })
    );
    assert_eq!(
        read_relocs(&bytes, 20, 1),
        Err(FormatError::Truncated { stage: LoadStage::Relocations, expected: 10, actual: 0 })
    );
}

#[test]
fn the_first_record_that_is_wrong_decides_the_error() {
    let mut bytes = record(1, 2, 9, 3);
    bytes.extend(record(3, 4, 6, 1));
    assert_eq!(read_relocs(&bytes, 0, 3), Err(FormatError::BadReferenceType { index: 0, value: 9 }));
    let mut bytes = record(1, 2, 3, 3);
    bytes.extend(&record(3, 4, 9, 1)[..9]);
    assert_eq!(
        read_relocs(&bytes, 0, 2),
        Err(FormatError::Truncated { stage: LoadStage::Relocations, expected: 20, actual: 19 })
    );
}

fn reloc(address: u32, symbol_ptr: u32, ref_type: ReferenceType) -> RelocEntry {
    RelocEntry { address, symbol_ptr, ref_type, seg_type: Some(SegmentType::Text) }
}

#[test]
fn labels_come_from_label_references_only() {
    let names = vec!["main".to_string(), "count".to_string(), "buffer".to_string()];
    let relocs = vec![
        reloc(0x40, 0, ReferenceType::TextLabelRef),
        reloc(0x50, 1, ReferenceType::GlobalData),
        reloc(0x60, 1, ReferenceType::DataLabelRef),
        reloc(0x70, 2, ReferenceType::ExternalRef),
        reloc(0x80, 2, ReferenceType::BssLabelRef),
        reloc(0x90, 0, ReferenceType::GlobalText),
        reloc(0xa0, 0, ReferenceType::GlobalBss),
    ];
    let labels = join_labels(&relocs, &names);
    let expected = vec![
        LabelEntry {
            name: "main".to_string(),
            address: 0x40,
            seg_type: SegmentType::Text,
            resolved: true,
            is_global: false,
            file_no: 0,
        },
        LabelEntry {
            name: "count".to_string(),
            address: 0x60,
            seg_type: SegmentType::Data,
            resolved: true,
            is_global: false,
            file_no: 0,
        },
        LabelEntry {
            name: "buffer".to_string(),
            address: 0x80,
            seg_type: SegmentType::Bss,
            resolved: true,
            is_global: false,
            file_no: 0,
        },
    ];
    assert_eq!(labels, expected);
}

#[test]
fn a_pointer_without_a_name_gives_an_unresolved_label() {
    let names = vec!["only".to_string()];
    let relocs = vec![
        reloc(0x40, 1, ReferenceType::TextLabelRef),
        reloc(0x40, 0, ReferenceType::TextLabelRef),
        reloc(0x44, u32::MAX, ReferenceType::DataLabelRef),
    ];
    let labels = join_labels(&relocs, &names);
    assert_eq!(labels.len(), 3);
    assert!(!labels[0].resolved);
    assert_eq!(labels[0].name, "");
    assert_eq!(labels[0].address, 0x40);
    assert!(labels[1].resolved);
    assert_eq!(labels[1].name, "only");
    assert!(!labels[2].resolved);
    assert_eq!(labels[2].name, "");
    assert_eq!(resolve_label(&labels, 0x40), Some(1));
    assert_eq!(resolve_label(&labels, 0x44), None);
    assert_eq!(resolve_label(&labels, 0x41), None);
    assert_eq!(join_labels(&[], &names).len(), 0);
    assert_eq!(join_labels(&relocs, &[]).iter().filter(|l| l.resolved).count(), 0);
}

#[test]
fn error_messages_name_stage_and_byte_counts() {
    assert_eq!(
        FormatError::BadMagic { found: 0xBEEF }.message(),
        "bad magic number 0x0000BEEF, expected 0x0000DAA1"
    );
    assert_eq!(
        FormatError::Truncated { stage: LoadStage::Header, expected: 24, actual: 3 }.message(),
        "truncated header: expected 24 bytes, found 3"
    );
    assert_eq!(
        FormatError::Truncated { stage: LoadStage::Text, expected: 17179869180, actual: 0 }
            .message(),
        "truncated text segment: expected 17179869180 bytes, found 0"
    );
    assert_eq!(
        FormatError::Truncated { stage: LoadStage::Data, expected: 8, actual: 7 }.message(),
        "truncated data segment: expected 8 bytes, found 7"
    );
    assert_eq!(
        FormatError::Truncated { stage: LoadStage::Relocations, expected: 30, actual: 20 }
            .message(),
        "truncated relocation table: expected 30 bytes, found 20"
    );
    assert_eq!(
        FormatError::BadReferenceType { index: 12, value: 255 }.message(),
        "relocation 12: unknown reference type 255"
    );
    assert_eq!(LoadStage::Relocations.name(), "relocation table");
}
