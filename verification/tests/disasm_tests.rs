use riscv_core::fields::{get_pseudo_sequence, Field, Instruction};
use riscv_core::op::Op;
use std::collections::HashMap;

fn no_symbols() -> HashMap<i64, String> {
    HashMap::new()
}

#[test]
fn fields_of_add() {
    let fields = Op::Add { rd: 10, rs1: 11, rs2: 12 }.to_fields();
    assert_eq!(fields.len(), 4);
    assert!(matches!(fields[0], Field::Opcode("add")));
    assert!(matches!(fields[1], Field::Reg(10)));
    assert!(matches!(fields[2], Field::Reg(11)));
    assert!(matches!(fields[3], Field::Reg(12)));
}

#[test]
fn fields_of_load_use_indirect() {
    let fields = Op::Lw { rd: 10, rs1: 2, offset: 8 }.to_fields();
    assert!(matches!(fields[0], Field::Opcode("lw")));
    assert!(matches!(fields[1], Field::Reg(10)));
    assert!(matches!(fields[2], Field::Indirect(8, 2)));
}

#[test]
fn fields_of_store_put_source_first() {
    let fields = Op::Sd { rs1: 2, rs2: 10, offset: 0 }.to_fields();
    assert!(matches!(fields[0], Field::Opcode("sd")));
    assert!(matches!(fields[1], Field::Reg(10)));
    assert!(matches!(fields[2], Field::Indirect(0, 2)));
}

#[test]
fn pseudo_nop() {
    let fields = Op::Addi { rd: 0, rs1: 0, imm: 0 }.to_pseudo_fields();
    assert_eq!(fields.len(), 1);
    assert!(matches!(fields[0], Field::Opcode("nop")));
}

#[test]
fn pseudo_li_mv_la() {
    let fields = Op::Addi { rd: 10, rs1: 0, imm: 1 }.to_pseudo_fields();
    assert!(matches!(fields[0], Field::Opcode("li")));
    let fields = Op::Addi { rd: 10, rs1: 11, imm: 0 }.to_pseudo_fields();
    assert!(matches!(fields[0], Field::Opcode("mv")));
    // an addi off gp renders as a gp-relative la
    let fields = Op::Addi { rd: 10, rs1: 3, imm: 16 }.to_pseudo_fields();
    assert!(matches!(fields[0], Field::Opcode("la")));
    assert!(matches!(fields[2], Field::GPRelAddr(16)));
    // but a zero immediate off gp is mv: the table is tried in order
    let fields = Op::Addi { rd: 10, rs1: 3, imm: 0 }.to_pseudo_fields();
    assert!(matches!(fields[0], Field::Opcode("mv")));
}

#[test]
fn pseudo_ret_jr_jalr() {
    let fields = Op::Jalr { rd: 0, rs1: 1, offset: 0 }.to_pseudo_fields();
    assert_eq!(fields.len(), 1);
    assert!(matches!(fields[0], Field::Opcode("ret")));
    let fields = Op::Jalr { rd: 0, rs1: 10, offset: 0 }.to_pseudo_fields();
    assert!(matches!(fields[0], Field::Opcode("jr")));
    let fields = Op::Jalr { rd: 1, rs1: 10, offset: 0 }.to_pseudo_fields();
    assert_eq!(fields.len(), 2);
    assert!(matches!(fields[0], Field::Opcode("jalr")));
}

#[test]
fn pseudo_branches_and_sign_tests() {
    let fields = Op::Beq { rs1: 10, rs2: 0, offset: 8 }.to_pseudo_fields();
    assert!(matches!(fields[0], Field::Opcode("beqz")));
    let fields = Op::Bge { rs1: 0, rs2: 10, offset: 8 }.to_pseudo_fields();
    assert!(matches!(fields[0], Field::Opcode("blez")));
    let fields = Op::Xori { rd: 10, rs1: 11, imm: -1 }.to_pseudo_fields();
    assert!(matches!(fields[0], Field::Opcode("not")));
    let fields = Op::Sltiu { rd: 10, rs1: 11, imm: 1 }.to_pseudo_fields();
    assert!(matches!(fields[0], Field::Opcode("seqz")));
    let fields = Op::Sub { rd: 10, rs1: 0, rs2: 11 }.to_pseudo_fields();
    assert!(matches!(fields[0], Field::Opcode("neg")));
}

#[test]
fn pseudo_falls_back_to_canonical() {
    let fields = Op::Add { rd: 10, rs1: 11, rs2: 12 }.to_pseudo_fields();
    assert_eq!(fields.len(), 4);
    assert!(matches!(fields[0], Field::Opcode("add")));
}

#[test]
fn render_add() {
    let s = Op::Add { rd: 10, rs1: 11, rs2: 12 }.to_string(
        0,
        0,
        false,
        false,
        true,
        false,
        None,
        &no_symbols(),
    );
    assert_eq!(s.trim(), "add     a0, a1, a2");
}

#[test]
fn render_compressed_li_pseudo() {
    // the decoded c.li renders as li, and verbosely as c.addi
    let op = Op::new(0x4505);
    let s = op.to_string(0, 0, true, false, false, false, None, &no_symbols());
    assert_eq!(s.trim(), "li      a0, 1");
    let s = op.to_string(0, 0, true, false, true, false, None, &no_symbols());
    assert_eq!(s.trim(), "c.addi  a0, zero, 1");
}

#[test]
fn render_ret() {
    let op = Op::new(0x8082);
    let s = op.to_string(0, 0, true, false, false, false, None, &no_symbols());
    assert_eq!(s.trim(), "ret");
}

#[test]
fn render_hex_and_decimal_immediates() {
    let op = Op::Addi { rd: 10, rs1: 11, imm: 7 };
    // small immediates render in decimal even in hex mode
    let s = op.to_string(0, 0, false, true, true, false, None, &no_symbols());
    assert_eq!(s.trim(), "addi    a0, a1, 7");
    let op = Op::Addi { rd: 10, rs1: 11, imm: 255 };
    let s = op.to_string(0, 0, false, true, true, false, None, &no_symbols());
    assert_eq!(s.trim(), "addi    a0, a1, 0xff");
    let s = op.to_string(0, 0, false, false, true, false, None, &no_symbols());
    assert_eq!(s.trim(), "addi    a0, a1, 255");
    // a negative immediate in hex renders as its two's-complement pattern
    let op = Op::Addi { rd: 10, rs1: 11, imm: -1 };
    let s = op.to_string(0, 0, false, true, true, false, None, &no_symbols());
    assert_eq!(s.trim(), "addi    a0, a1, 0xffffffffffffffff");
}

#[test]
fn render_indirect_elides_zero_offset() {
    let op = Op::Lw { rd: 10, rs1: 2, offset: 0 };
    let s = op.to_string(0, 0, false, false, false, false, None, &no_symbols());
    assert_eq!(s.trim(), "lw      a0, (sp)");
    let s = op.to_string(0, 0, false, false, true, false, None, &no_symbols());
    assert_eq!(s.trim(), "lw      a0, 0(sp)");
}

#[test]
fn render_address_column() {
    let op = Op::Addi { rd: 0, rs1: 0, imm: 0 };
    let s = op.to_string(0x80, 0, false, true, true, true, None, &no_symbols());
    assert!(s.starts_with("0x   80 "));
    let s = op.to_string(128, 0, false, false, true, true, None, &no_symbols());
    assert!(s.starts_with("    128 "));
}

#[test]
fn render_label_column() {
    let mut symbols = HashMap::new();
    symbols.insert(0i64, String::from("main"));
    let op = Op::Addi { rd: 0, rs1: 0, imm: 0 };
    let s = op.to_string(0, 0, false, false, true, false, None, &symbols);
    assert!(s.starts_with("main:           addi"));
    // long symbols truncate to 14 characters plus an ellipsis
    symbols.insert(0i64, String::from("a_very_long_symbol_name"));
    let s = op.to_string(0, 0, false, false, true, false, None, &symbols);
    assert!(s.starts_with("a_very_long_sy…:addi"));
}

#[test]
fn render_branch_target_symbol() {
    let mut symbols = HashMap::new();
    symbols.insert(8i64, String::from("loop"));
    let op = Op::Beq { rs1: 0, rs2: 0, offset: 8 };
    let s = op.to_string(0, 0, false, false, false, false, None, &symbols);
    assert_eq!(s.trim(), "beqz    zero, loop");
    // a numeral symbol gets the local-label direction suffix
    symbols.insert(8i64, String::from("3"));
    let s = op.to_string(0, 0, false, false, false, false, None, &symbols);
    assert_eq!(s.trim(), "beqz    zero, 3f");
    let op = Op::Beq { rs1: 0, rs2: 0, offset: -8 };
    symbols.remove(&8i64);
    symbols.insert(0i64, String::from("3"));
    let s = op.to_string(8, 0, false, false, false, false, None, &symbols);
    assert_eq!(s.trim(), "beqz    zero, 3b");
    // verbose mode keeps the numeric offset
    symbols.remove(&0i64);
    symbols.insert(8i64, String::from("loop"));
    let op = Op::Beq { rs1: 0, rs2: 0, offset: 8 };
    let s = op.to_string(0, 0, false, false, true, false, None, &symbols);
    assert_eq!(s.trim(), "beq     zero, zero, 8");
}

#[test]
fn render_gp_relative() {
    let mut symbols = HashMap::new();
    symbols.insert(0x1010i64, String::from("counter"));
    let op = Op::Addi { rd: 10, rs1: 3, imm: 16 };
    let s = op.to_string(0, 0x1000, false, false, false, false, None, &symbols);
    assert_eq!(s.trim(), "la      a0, counter");
    symbols.clear();
    let s = op.to_string(0, 0x1000, false, false, false, false, None, &symbols);
    assert_eq!(s.trim(), "la      a0, 4112");
}

#[test]
fn render_arrow_overlay() {
    let op = Op::Addi { rd: 0, rs1: 0, imm: 0 };
    let s = op.to_string(0, 0, false, false, false, false, Some("=>"), &no_symbols());
    assert!(s.starts_with("             => nop"));
}

#[test]
fn pseudo_sequence_la() {
    let insts = [
        Instruction { address: 0, raw: 0, op: Op::Auipc { rd: 10, imm: 0x1000 } },
        Instruction { address: 4, raw: 0, op: Op::Addi { rd: 10, rs1: 10, imm: 8 } },
    ];
    let r = get_pseudo_sequence(&insts, &no_symbols());
    let (n, fields) = r.expect("the pair folds to la");
    assert_eq!(n, 2);
    assert!(matches!(fields[0], Field::Opcode("la")));
    assert!(matches!(fields[1], Field::Reg(10)));
    assert!(matches!(fields[2], Field::PCRelAddr(0x1008)));
}

#[test]
fn pseudo_sequence_call() {
    let insts = [
        Instruction { address: 0, raw: 0, op: Op::Auipc { rd: 1, imm: 0x1234_5000 } },
        Instruction { address: 4, raw: 0, op: Op::Jalr { rd: 1, rs1: 1, offset: 0x678 } },
    ];
    let r = get_pseudo_sequence(&insts, &no_symbols());
    let (n, fields) = r.expect("the pair folds to call");
    assert_eq!(n, 2);
    assert!(matches!(fields[0], Field::Opcode("call")));
    assert!(matches!(fields[1], Field::PCRelAddr(0x1234_5678)));
}

#[test]
fn pseudo_sequence_refuses_labeled_second() {
    let insts = [
        Instruction { address: 0, raw: 0, op: Op::Auipc { rd: 1, imm: 0x1234_5000 } },
        Instruction { address: 4, raw: 0, op: Op::Jalr { rd: 1, rs1: 1, offset: 0x678 } },
    ];
    let mut symbols = HashMap::new();
    symbols.insert(4i64, String::from("target"));
    assert!(get_pseudo_sequence(&insts, &symbols).is_none());
}

#[test]
fn pseudo_sequence_needs_matching_registers() {
    let insts = [
        Instruction { address: 0, raw: 0, op: Op::Auipc { rd: 10, imm: 0x1000 } },
        Instruction { address: 4, raw: 0, op: Op::Addi { rd: 11, rs1: 10, imm: 8 } },
    ];
    assert!(get_pseudo_sequence(&insts, &no_symbols()).is_none());
    let short = [Instruction { address: 0, raw: 0, op: Op::Fence }];
    assert!(get_pseudo_sequence(&short, &no_symbols()).is_none());
}

#[test]
fn branch_target_of_branches_and_j() {
    assert_eq!(Op::Beq { rs1: 0, rs2: 0, offset: 8 }.branch_target(100), Some(108));
    assert_eq!(Op::Jal { rd: 0, offset: -4 }.branch_target(100), Some(96));
    assert_eq!(Op::Jal { rd: 1, offset: -4 }.branch_target(100), None);
    assert_eq!(Op::Add { rd: 1, rs1: 2, rs2: 3 }.branch_target(100), None);
}

#[test]
fn field_to_string_variants() {
    let symbols = no_symbols();
    assert_eq!(Field::Reg(0).to_string(0, 0, false, false, &symbols).as_str(), "zero");
    assert_eq!(Field::Reg(31).to_string(0, 0, false, false, &symbols).as_str(), "t6");
    assert_eq!(Field::Imm(-17).to_string(0, 0, false, false, &symbols).as_str(), "-17");
    assert_eq!(
        Field::Indirect(-4, 8).to_string(0, 0, false, false, &symbols).as_str(),
        "-4(s0)"
    );
    assert_eq!(
        Field::Indirect(255, 8).to_string(0, 0, true, false, &symbols).as_str(),
        "0xff(s0)"
    );
    assert_eq!(Field::PCRelAddr(12).to_string(0, 0, true, true, &symbols).as_str(), "0xc");
}

#[test]
fn local_label_suffix_only_for_positive_numerals() {
    let mut symbols = HashMap::new();
    // a numeral too large for an i64 is treated as an ordinary name
    symbols.insert(8i64, String::from("99999999999999999999"));
    let op = Op::Beq { rs1: 0, rs2: 0, offset: 8 };
    let s = op.to_string(0, 0, false, false, false, false, None, &symbols);
    assert_eq!(s.trim(), "beqz    zero, 99999999999999999999");
    // zero is not positive
    symbols.insert(8i64, String::from("0"));
    let s = op.to_string(0, 0, false, false, false, false, None, &symbols);
    assert_eq!(s.trim(), "beqz    zero, 0");
    // an explicit plus sign still counts as a numeral
    symbols.insert(8i64, String::from("+7"));
    let s = op.to_string(0, 0, false, false, false, false, None, &symbols);
    assert_eq!(s.trim(), "beqz    zero, +7f");
}
