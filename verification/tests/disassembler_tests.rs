use wobj::decode::decode;
use wobj::disassembler::{
    branch_target, disassemble, disassemble_view, format_offset, format_operands, DecodeMiss,
};
use wobj::symbols::{LabelEntry, SegmentType};

fn label(name: &str, address: u32, resolved: bool) -> LabelEntry {
    LabelEntry {
        name: name.to_string(),
        address,
        seg_type: SegmentType::Text,
        resolved,
        is_global: false,
        file_no: 0,
    }
}

#[test]
fn add_is_rendered_after_its_template() {
    assert_eq!(disassemble(0, 0x0120_0003), Ok("add:\t$1,$2,$3".to_string()));
}

#[test]
fn immediate_is_four_small_hex_digits() {
    assert_eq!(disassemble(0, 0x1120_00ff), Ok("addi:\t$1,$2,0x00ff".to_string()));
    assert_eq!(disassemble(0, 0x1fe0_abcd), Ok("addi:\t$ra,$sp,0xabcd".to_string()));
    assert_eq!(disassemble(9, 0x3a0e_0001), Ok("lhi:\t$10,0x0001".to_string()));
}

#[test]
fn special_registers_are_named_from_their_own_table() {
    assert_eq!(disassemble(0, 0x345c_0000), Ok("movgs:\t$cctrl,$5".to_string()));
    assert_eq!(disassemble(0, 0x345d_0000), Ok("movsg:\t$4,$estat".to_string()));
    assert_eq!(disassemble(0, 0x0c32_0001), Ok("sub:\t$spr3,$3,$1".to_string()));
}

#[test]
fn empty_templates_leave_the_mnemonic_alone() {
    assert_eq!(disassemble(0, 0x200c_0000), Ok("break:\t".to_string()));
    assert_eq!(disassemble(0, 0x200d_0000), Ok("syscall:\t".to_string()));
    assert_eq!(disassemble(0, 0x2fff_eabc & 0xfffe_ffff), Ok("rfe:\t".to_string()));
}

#[test]
fn offset_zero_is_a_literal_zero() {
    assert_eq!(format_offset(&decode(0x8350_0000)), "0");
    assert_eq!(format_offset(&decode(0x8300_0000)), "0");
    assert_eq!(disassemble(0, 0x8350_0000), Ok("lw:\t$3,0($5)".to_string()));
}

#[test]
fn offset_from_a_register_is_signed_decimal() {
    assert_eq!(format_offset(&decode(0x83e0_0004)), "4");
    assert_eq!(format_offset(&decode(0x83ef_fffc)), "-4");
    assert_eq!(format_offset(&decode(0x8318_0000)), "-524288");
    assert_eq!(format_offset(&decode(0x8317_ffff)), "524287");
    assert_eq!(disassemble(0, 0x83e0_0004), Ok("lw:\t$3,4($sp)".to_string()));
    assert_eq!(disassemble(0, 0x93ef_fffc), Ok("sw:\t$3,-4($sp)".to_string()));
}

#[test]
fn offset_from_register_zero_is_an_address() {
    assert_eq!(format_offset(&decode(0x8300_0010)), "0x00010");
    assert_eq!(format_offset(&decode(0x830f_ffff)), "0xFFFFF");
    assert_eq!(format_offset(&decode(0x8300_abcd)), "0x0ABCD");
    assert_eq!(disassemble(0, 0x8300_0010), Ok("lw:\t$3,0x00010($0)".to_string()));
}

#[test]
fn branch_target_masks_first_and_increments_after() {
    assert_eq!(branch_target(0x0000_1000, -1), 0x1000);
    assert_eq!(branch_target(0, 0), 1);
    assert_eq!(branch_target(0xFFFFF, 0), 0x100000);
    assert_eq!(branch_target(0, -1), 0x100000);
    assert_eq!(branch_target(0x10, 0x20), 0x31);
    assert_eq!(branch_target(0x0030_0005, 2), 8);
    assert_eq!(branch_target(0xFFFF_FFFF, 1), 1);
    assert_eq!(branch_target(0xFFFF_FFFF, i32::MIN), 0x100000);
    assert_eq!(branch_target(0x8000_0000, i32::MAX), 0x100000);
}

#[test]
fn branch_without_labels_is_an_address() {
    assert_eq!(disassemble(0x1000, 0xa05f_ffff), Ok("beqz:\t$5,0x01000".to_string()));
    assert_eq!(disassemble(0x10, 0xb070_0003), Ok("bnez:\t$7,0x00014".to_string()));
    assert_eq!(disassemble(0xFFFFF, 0xa010_0000), Ok("beqz:\t$1,0x100000".to_string()));
}

#[test]
fn jump_without_labels_is_an_address() {
    assert_eq!(disassemble(0, 0x4000_0040), Ok("j:\t0x00040".to_string()));
    assert_eq!(disassemble(0, 0x600a_bcde), Ok("jal:\t0xABCDE".to_string()));
    assert_eq!(disassemble(0, 0xc300_0100), Ok("la:\t$3,0x00100".to_string()));
    assert_eq!(disassemble(0, 0x50f0_0000), Ok("jr:\t$ra".to_string()));
    assert_eq!(disassemble(0, 0x7020_0000), Ok("jalr:\t$2".to_string()));
}

#[test]
fn targets_with_a_label_are_shown_by_name() {
    let labels = vec![label("loop", 0x1000, true), label("main", 0x40, true)];
    assert_eq!(disassemble_view(0, 0x4000_0040, &labels), Ok("j:\tmain".to_string()));
    assert_eq!(disassemble_view(0x1000, 0xa05f_ffff, &labels), Ok("beqz:\t$5,loop".to_string()));
    assert_eq!(disassemble_view(0, 0xc300_1000, &labels), Ok("la:\t$3,loop".to_string()));
}

#[test]
fn targets_without_a_label_fall_back_to_hex() {
    let labels = vec![label("loop", 0x1000, true), label("ghost", 0x41, false)];
    assert_eq!(disassemble_view(0, 0x4000_0040, &labels), Ok("j:\t0x00040".to_string()));
    assert_eq!(disassemble_view(0, 0x4000_0041, &labels), Ok("j:\t0x00041".to_string()));
    assert_eq!(disassemble_view(0x10, 0xb070_0003, &labels), Ok("bnez:\t$7,0x00014".to_string()));
    assert_eq!(disassemble_view(0, 0x4000_0040, &[]), Ok("j:\t0x00040".to_string()));
}

#[test]
fn the_first_label_at_an_address_gives_the_name() {
    let labels =
        vec![label("hidden", 0x40, false), label("first", 0x40, true), label("second", 0x40, true)];
    assert_eq!(disassemble_view(0, 0x4000_0040, &labels), Ok("j:\tfirst".to_string()));
}

#[test]
fn labels_do_not_touch_memory_offsets() {
    let labels = vec![label("data", 0x10, true), label("neg", 0xFFFFC, true)];
    assert_eq!(disassemble_view(0, 0x8300_0010, &labels), Ok("lw:\t$3,0x00010($0)".to_string()));
    assert_eq!(disassemble_view(0, 0x83ef_fffc, &labels), Ok("lw:\t$3,-4($sp)".to_string()));
    assert_eq!(disassemble_view(0, 0x0120_0003, &labels), Ok("add:\t$1,$2,$3".to_string()));
}

#[test]
fn unknown_words_are_reported_with_word_and_address() {
    assert_eq!(disassemble(5, 0x200F_0000), Err(DecodeMiss { word: 0x200F_0000, address: 5 }));
    assert_eq!(
        disassemble(0x12345, 0xd123_4567),
        Err(DecodeMiss { word: 0xd123_4567, address: 0x12345 })
    );
    assert_eq!(
        disassemble_view(7, 0xffff_ffff, &[label("x", 7, true)]),
        Err(DecodeMiss { word: 0xffff_ffff, address: 7 })
    );
}

#[test]
fn miss_message_names_word_and_address() {
    let miss = DecodeMiss { word: 0x200F_0000, address: 5 };
    assert_eq!(miss.message(), "unknown instruction 0x200F0000 at 0x00005");
    let miss = DecodeMiss { word: 0xe, address: 0x123456 };
    assert_eq!(miss.message(), "unknown instruction 0x0000000E at 0x123456");
}

#[test]
fn format_operands_copies_other_characters() {
    let fields = decode(0x0120_0003);
    assert_eq!(format_operands("d,s,t", &fields, 0, None), "$1,$2,$3");
    assert_eq!(format_operands("", &fields, 0, None), "");
    assert_eq!(format_operands("[d] <- (s) + t;", &fields, 0, None), "[$1] <- ($2) + $3;");
    assert_eq!(format_operands("D/S", &fields, 0, None), "$spr1/$spr2");
    assert_eq!(format_operands("x\u{e9}y", &fields, 0, None), "x\u{e9}y");
    assert_eq!(format_operands("i", &fields, 0, None), "0x0003");
}

#[test]
fn format_operands_with_and_without_labels() {
    let fields = decode(0x4000_0040);
    let labels = vec![label("main", 0x40, true), label("next", 0x41, true)];
    assert_eq!(format_operands("j", &fields, 0, None), "0x00040");
    assert_eq!(format_operands("j", &fields, 0, Some(&labels)), "main");
    assert_eq!(format_operands("b", &fields, 0, Some(&labels)), "next");
    assert_eq!(format_operands("b", &fields, 1, Some(&labels)), "0x00042");
    assert_eq!(format_operands("j b", &fields, 0, Some(&labels)), "main next");
}
