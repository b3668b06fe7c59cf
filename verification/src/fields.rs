//! The disassembler's structured view: an operation as an ordered list of
//! typed fields, canonically (`to_fields`) or with pseudo-instruction
//! recognition (`to_pseudo_fields`), and the two-instruction
//! pseudo-sequence recognizer for `la` and `call`.

use crate::op::{Op, GP, RA, ZERO};
use std::collections::HashMap;
use vstd::prelude::*;

verus! {

/// One operand (or the mnemonic) of a rendered instruction.
pub enum Field {
    /// The instruction mnemonic.
    Opcode(&'static str),
    /// A register, by index.
    Reg(usize),
    /// A literal immediate.
    Imm(i64),
    /// A base-register-plus-offset operand, as loads and stores use.
    Indirect(i64, usize),
    /// An address relative to the instruction's own location.
    PCRelAddr(i64),
    /// An address relative to the global pointer.
    GPRelAddr(i64),
}

/// The mathematical form of a `Field`: the mnemonic as its characters.
#[verifier::ext_equal]
pub enum FieldV {
    Opcode(Seq<char>),
    Reg(usize),
    Imm(i64),
    Indirect(i64, usize),
    PCRelAddr(i64),
    GPRelAddr(i64),
}

impl View for Field {
    type V = FieldV;

    open spec fn view(&self) -> FieldV {
        match *self {
            Field::Opcode(s) => FieldV::Opcode(s@),
            Field::Reg(r) => FieldV::Reg(r),
            Field::Imm(i) => FieldV::Imm(i),
            Field::Indirect(i, r) => FieldV::Indirect(i, r),
            Field::PCRelAddr(o) => FieldV::PCRelAddr(o),
            Field::GPRelAddr(o) => FieldV::GPRelAddr(o),
        }
    }
}

pub open spec fn fields_view(s: Seq<Field>) -> Seq<FieldV> {
    s.map_values(|f: Field| f@)
}

/// The canonical field sequence: the mnemonic, then the operands in
/// assembler order.
pub open spec fn fields_of(op: Op) -> Seq<FieldV> {
    match op {
        Op::Add { rd, rs1, rs2 } => seq![FieldV::Opcode("add"@), FieldV::Reg(rd), FieldV::Reg(rs1), FieldV::Reg(rs2)],
        Op::Sub { rd, rs1, rs2 } => seq![FieldV::Opcode("sub"@), FieldV::Reg(rd), FieldV::Reg(rs1), FieldV::Reg(rs2)],
        Op::Sll { rd, rs1, rs2 } => seq![FieldV::Opcode("sll"@), FieldV::Reg(rd), FieldV::Reg(rs1), FieldV::Reg(rs2)],
        Op::Slt { rd, rs1, rs2 } => seq![FieldV::Opcode("slt"@), FieldV::Reg(rd), FieldV::Reg(rs1), FieldV::Reg(rs2)],
        Op::Sltu { rd, rs1, rs2 } => seq![FieldV::Opcode("sltu"@), FieldV::Reg(rd), FieldV::Reg(rs1), FieldV::Reg(rs2)],
        Op::Xor { rd, rs1, rs2 } => seq![FieldV::Opcode("xor"@), FieldV::Reg(rd), FieldV::Reg(rs1), FieldV::Reg(rs2)],
        Op::Srl { rd, rs1, rs2 } => seq![FieldV::Opcode("srl"@), FieldV::Reg(rd), FieldV::Reg(rs1), FieldV::Reg(rs2)],
        Op::Sra { rd, rs1, rs2 } => seq![FieldV::Opcode("sra"@), FieldV::Reg(rd), FieldV::Reg(rs1), FieldV::Reg(rs2)],
        Op::Or { rd, rs1, rs2 } => seq![FieldV::Opcode("or"@), FieldV::Reg(rd), FieldV::Reg(rs1), FieldV::Reg(rs2)],
        Op::And { rd, rs1, rs2 } => seq![FieldV::Opcode("and"@), FieldV::Reg(rd), FieldV::Reg(rs1), FieldV::Reg(rs2)],
        Op::Addw { rd, rs1, rs2 } => seq![FieldV::Opcode("addw"@), FieldV::Reg(rd), FieldV::Reg(rs1), FieldV::Reg(rs2)],
        Op::Subw { rd, rs1, rs2 } => seq![FieldV::Opcode("subw"@), FieldV::Reg(rd), FieldV::Reg(rs1), FieldV::Reg(rs2)],
        Op::Sllw { rd, rs1, rs2 } => seq![FieldV::Opcode("sllw"@), FieldV::Reg(rd), FieldV::Reg(rs1), FieldV::Reg(rs2)],
        Op::Srlw { rd, rs1, rs2 } => seq![FieldV::Opcode("srlw"@), FieldV::Reg(rd), FieldV::Reg(rs1), FieldV::Reg(rs2)],
        Op::Sraw { rd, rs1, rs2 } => seq![FieldV::Opcode("sraw"@), FieldV::Reg(rd), FieldV::Reg(rs1), FieldV::Reg(rs2)],
        Op::Mul { rd, rs1, rs2 } => seq![FieldV::Opcode("mul"@), FieldV::Reg(rd), FieldV::Reg(rs1), FieldV::Reg(rs2)],
        Op::Mulh { rd, rs1, rs2 } => seq![FieldV::Opcode("mulh"@), FieldV::Reg(rd), FieldV::Reg(rs1), FieldV::Reg(rs2)],
        Op::Mulhsu { rd, rs1, rs2 } => seq![FieldV::Opcode("mulhsu"@), FieldV::Reg(rd), FieldV::Reg(rs1), FieldV::Reg(rs2)],
        Op::Mulhu { rd, rs1, rs2 } => seq![FieldV::Opcode("mulhu"@), FieldV::Reg(rd), FieldV::Reg(rs1), FieldV::Reg(rs2)],
        Op::Div { rd, rs1, rs2 } => seq![FieldV::Opcode("div"@), FieldV::Reg(rd), FieldV::Reg(rs1), FieldV::Reg(rs2)],
        Op::Divu { rd, rs1, rs2 } => seq![FieldV::Opcode("divu"@), FieldV::Reg(rd), FieldV::Reg(rs1), FieldV::Reg(rs2)],
        Op::Rem { rd, rs1, rs2 } => seq![FieldV::Opcode("rem"@), FieldV::Reg(rd), FieldV::Reg(rs1), FieldV::Reg(rs2)],
        Op::Remu { rd, rs1, rs2 } => seq![FieldV::Opcode("remu"@), FieldV::Reg(rd), FieldV::Reg(rs1), FieldV::Reg(rs2)],
        Op::Mulw { rd, rs1, rs2 } => seq![FieldV::Opcode("mulw"@), FieldV::Reg(rd), FieldV::Reg(rs1), FieldV::Reg(rs2)],
        Op::Divw { rd, rs1, rs2 } => seq![FieldV::Opcode("divw"@), FieldV::Reg(rd), FieldV::Reg(rs1), FieldV::Reg(rs2)],
        Op::Divuw { rd, rs1, rs2 } => seq![FieldV::Opcode("divuw"@), FieldV::Reg(rd), FieldV::Reg(rs1), FieldV::Reg(rs2)],
        Op::Remw { rd, rs1, rs2 } => seq![FieldV::Opcode("remw"@), FieldV::Reg(rd), FieldV::Reg(rs1), FieldV::Reg(rs2)],
        Op::Remuw { rd, rs1, rs2 } => seq![FieldV::Opcode("remuw"@), FieldV::Reg(rd), FieldV::Reg(rs1), FieldV::Reg(rs2)],
        Op::Addi { rd, rs1, imm } => seq![FieldV::Opcode("addi"@), FieldV::Reg(rd), FieldV::Reg(rs1), FieldV::Imm(imm)],
        Op::Slti { rd, rs1, imm } => seq![FieldV::Opcode("slti"@), FieldV::Reg(rd), FieldV::Reg(rs1), FieldV::Imm(imm)],
        Op::Sltiu { rd, rs1, imm } => seq![FieldV::Opcode("sltiu"@), FieldV::Reg(rd), FieldV::Reg(rs1), FieldV::Imm(imm)],
        Op::Xori { rd, rs1, imm } => seq![FieldV::Opcode("xori"@), FieldV::Reg(rd), FieldV::Reg(rs1), FieldV::Imm(imm)],
        Op::Ori { rd, rs1, imm } => seq![FieldV::Opcode("ori"@), FieldV::Reg(rd), FieldV::Reg(rs1), FieldV::Imm(imm)],
        Op::Andi { rd, rs1, imm } => seq![FieldV::Opcode("andi"@), FieldV::Reg(rd), FieldV::Reg(rs1), FieldV::Imm(imm)],
        Op::Slli { rd, rs1, shamt } => seq![FieldV::Opcode("slli"@), FieldV::Reg(rd), FieldV::Reg(rs1), FieldV::Imm(shamt)],
        Op::Srli { rd, rs1, shamt } => seq![FieldV::Opcode("srli"@), FieldV::Reg(rd), FieldV::Reg(rs1), FieldV::Imm(shamt)],
        Op::Srai { rd, rs1, shamt } => seq![FieldV::Opcode("srai"@), FieldV::Reg(rd), FieldV::Reg(rs1), FieldV::Imm(shamt)],
        Op::Addiw { rd, rs1, imm } => seq![FieldV::Opcode("addiw"@), FieldV::Reg(rd), FieldV::Reg(rs1), FieldV::Imm(imm)],
        Op::Slliw { rd, rs1, shamt } => seq![FieldV::Opcode("slliw"@), FieldV::Reg(rd), FieldV::Reg(rs1), FieldV::Imm(shamt)],
        Op::Srliw { rd, rs1, shamt } => seq![FieldV::Opcode("srliw"@), FieldV::Reg(rd), FieldV::Reg(rs1), FieldV::Imm(shamt)],
        Op::Sraiw { rd, rs1, shamt } => seq![FieldV::Opcode("sraiw"@), FieldV::Reg(rd), FieldV::Reg(rs1), FieldV::Imm(shamt)],
        Op::Beq { rs1, rs2, offset } => seq![FieldV::Opcode("beq"@), FieldV::Reg(rs1), FieldV::Reg(rs2), FieldV::PCRelAddr(offset)],
        Op::Bne { rs1, rs2, offset } => seq![FieldV::Opcode("bne"@), FieldV::Reg(rs1), FieldV::Reg(rs2), FieldV::PCRelAddr(offset)],
        Op::Blt { rs1, rs2, offset } => seq![FieldV::Opcode("blt"@), FieldV::Reg(rs1), FieldV::Reg(rs2), FieldV::PCRelAddr(offset)],
        Op::Bge { rs1, rs2, offset } => seq![FieldV::Opcode("bge"@), FieldV::Reg(rs1), FieldV::Reg(rs2), FieldV::PCRelAddr(offset)],
        Op::Bltu { rs1, rs2, offset } => seq![FieldV::Opcode("bltu"@), FieldV::Reg(rs1), FieldV::Reg(rs2), FieldV::PCRelAddr(offset)],
        Op::Bgeu { rs1, rs2, offset } => seq![FieldV::Opcode("bgeu"@), FieldV::Reg(rs1), FieldV::Reg(rs2), FieldV::PCRelAddr(offset)],
        Op::Jal { rd, offset } => seq![FieldV::Opcode("jal"@), FieldV::Reg(rd), FieldV::PCRelAddr(offset)],
        Op::Jalr { rd, rs1, offset } => seq![FieldV::Opcode("jalr"@), FieldV::Reg(rd), FieldV::Indirect(offset, rs1)],
        Op::Lb { rd, rs1, offset } => seq![FieldV::Opcode("lb"@), FieldV::Reg(rd), FieldV::Indirect(offset, rs1)],
        Op::Lh { rd, rs1, offset } => seq![FieldV::Opcode("lh"@), FieldV::Reg(rd), FieldV::Indirect(offset, rs1)],
        Op::Lw { rd, rs1, offset } => seq![FieldV::Opcode("lw"@), FieldV::Reg(rd), FieldV::Indirect(offset, rs1)],
        Op::Ld { rd, rs1, offset } => seq![FieldV::Opcode("ld"@), FieldV::Reg(rd), FieldV::Indirect(offset, rs1)],
        Op::Lbu { rd, rs1, offset } => seq![FieldV::Opcode("lbu"@), FieldV::Reg(rd), FieldV::Indirect(offset, rs1)],
        Op::Lhu { rd, rs1, offset } => seq![FieldV::Opcode("lhu"@), FieldV::Reg(rd), FieldV::Indirect(offset, rs1)],
        Op::Lwu { rd, rs1, offset } => seq![FieldV::Opcode("lwu"@), FieldV::Reg(rd), FieldV::Indirect(offset, rs1)],
        Op::Sb { rs1, rs2, offset } => seq![FieldV::Opcode("sb"@), FieldV::Reg(rs2), FieldV::Indirect(offset, rs1)],
        Op::Sh { rs1, rs2, offset } => seq![FieldV::Opcode("sh"@), FieldV::Reg(rs2), FieldV::Indirect(offset, rs1)],
        Op::Sw { rs1, rs2, offset } => seq![FieldV::Opcode("sw"@), FieldV::Reg(rs2), FieldV::Indirect(offset, rs1)],
        Op::Sd { rs1, rs2, offset } => seq![FieldV::Opcode("sd"@), FieldV::Reg(rs2), FieldV::Indirect(offset, rs1)],
        Op::Lui { rd, imm } => seq![FieldV::Opcode("lui"@), FieldV::Reg(rd), FieldV::Imm(imm)],
        Op::Auipc { rd, imm } => seq![FieldV::Opcode("auipc"@), FieldV::Reg(rd), FieldV::Imm(imm)],
        Op::Fence => seq![FieldV::Opcode("fence"@)],
        Op::Ecall => seq![FieldV::Opcode("ecall"@)],
        Op::Ebreak => seq![FieldV::Opcode("ebreak"@)],
        Op::Unimplemented { .. } => seq![FieldV::Opcode("???"@)],
    }
}

/// The field sequence after pseudo-instruction rewriting: the first
/// matching pattern wins, and an operation no pattern covers renders
/// canonically.
pub open spec fn pseudo_fields_of(op: Op) -> Seq<FieldV> {
    match op {
        Op::Addi { rd, rs1, imm } => {
            if rd == ZERO && rs1 == ZERO && imm == 0 {
                seq![FieldV::Opcode("nop"@)]
            } else if rs1 == ZERO {
                seq![FieldV::Opcode("li"@), FieldV::Reg(rd), FieldV::Imm(imm)]
            } else if imm == 0 {
                seq![FieldV::Opcode("mv"@), FieldV::Reg(rd), FieldV::Reg(rs1)]
            } else if rs1 == GP {
                seq![FieldV::Opcode("la"@), FieldV::Reg(rd), FieldV::GPRelAddr(imm)]
            } else {
                fields_of(op)
            }
        },
        Op::Jalr { rd, rs1, offset } => {
            if rd == ZERO && rs1 == RA && offset == 0 {
                seq![FieldV::Opcode("ret"@)]
            } else if rd == ZERO && offset == 0 {
                seq![FieldV::Opcode("jr"@), FieldV::Reg(rs1)]
            } else if rd == RA && offset == 0 {
                seq![FieldV::Opcode("jalr"@), FieldV::Reg(rs1)]
            } else {
                fields_of(op)
            }
        },
        Op::Jal { rd, offset } => {
            if rd == ZERO {
                seq![FieldV::Opcode("j"@), FieldV::PCRelAddr(offset)]
            } else if rd == RA {
                seq![FieldV::Opcode("jal"@), FieldV::PCRelAddr(offset)]
            } else {
                fields_of(op)
            }
        },
        Op::Xori { rd, rs1, imm } => {
            if imm == -1 {
                seq![FieldV::Opcode("not"@), FieldV::Reg(rd), FieldV::Reg(rs1)]
            } else {
                fields_of(op)
            }
        },
        Op::Sltiu { rd, rs1, imm } => {
            if imm == 1 {
                seq![FieldV::Opcode("seqz"@), FieldV::Reg(rd), FieldV::Reg(rs1)]
            } else {
                fields_of(op)
            }
        },
        Op::Sltu { rd, rs1, rs2 } => {
            if rs1 == ZERO {
                seq![FieldV::Opcode("snez"@), FieldV::Reg(rd), FieldV::Reg(rs2)]
            } else {
                fields_of(op)
            }
        },
        Op::Beq { rs1, rs2, offset } => {
            if rs1 == ZERO {
                seq![FieldV::Opcode("beqz"@), FieldV::Reg(rs2), FieldV::PCRelAddr(offset)]
            } else if rs2 == ZERO {
                seq![FieldV::Opcode("beqz"@), FieldV::Reg(rs1), FieldV::PCRelAddr(offset)]
            } else {
                fields_of(op)
            }
        },
        Op::Bne { rs1, rs2, offset } => {
            if rs1 == ZERO {
                seq![FieldV::Opcode("bnez"@), FieldV::Reg(rs2), FieldV::PCRelAddr(offset)]
            } else if rs2 == ZERO {
                seq![FieldV::Opcode("bnez"@), FieldV::Reg(rs1), FieldV::PCRelAddr(offset)]
            } else {
                fields_of(op)
            }
        },
        Op::Blt { rs1, rs2, offset } => {
            if rs2 == ZERO {
                seq![FieldV::Opcode("bltz"@), FieldV::Reg(rs1), FieldV::PCRelAddr(offset)]
            } else if rs1 == ZERO {
                seq![FieldV::Opcode("bgtz"@), FieldV::Reg(rs2), FieldV::PCRelAddr(offset)]
            } else {
                fields_of(op)
            }
        },
        Op::Bge { rs1, rs2, offset } => {
            if rs2 == ZERO {
                seq![FieldV::Opcode("bgez"@), FieldV::Reg(rs1), FieldV::PCRelAddr(offset)]
            } else if rs1 == ZERO {
                seq![FieldV::Opcode("blez"@), FieldV::Reg(rs2), FieldV::PCRelAddr(offset)]
            } else {
                fields_of(op)
            }
        },
        Op::Subw { rd, rs1, rs2 } => {
            if rs1 == ZERO {
                seq![FieldV::Opcode("negw"@), FieldV::Reg(rd), FieldV::Reg(rs2)]
            } else {
                fields_of(op)
            }
        },
        Op::Sub { rd, rs1, rs2 } => {
            if rs1 == ZERO {
                seq![FieldV::Opcode("neg"@), FieldV::Reg(rd), FieldV::Reg(rs2)]
            } else {
                fields_of(op)
            }
        },
        Op::Slt { rd, rs1, rs2 } => {
            if rs1 == ZERO {
                seq![FieldV::Opcode("sgtz"@), FieldV::Reg(rd), FieldV::Reg(rs2)]
            } else if rs2 == ZERO {
                seq![FieldV::Opcode("sltz"@), FieldV::Reg(rd), FieldV::Reg(rs1)]
            } else {
                fields_of(op)
            }
        },
        _ => fields_of(op),
    }
}

impl Op {
    /// The canonical rendering: the mnemonic, then the operands in
    /// assembler order.
    #[verifier::rlimit(100)]
    pub fn to_fields(&self) -> (r: Vec<Field>)
        ensures
            fields_view(r@) == fields_of(*self),
    {
        let r = match *self {
            Op::Add { rd, rs1, rs2 } => vec![Field::Opcode("add"), Field::Reg(rd), Field::Reg(rs1), Field::Reg(rs2)],
            Op::Sub { rd, rs1, rs2 } => vec![Field::Opcode("sub"), Field::Reg(rd), Field::Reg(rs1), Field::Reg(rs2)],
            Op::Sll { rd, rs1, rs2 } => vec![Field::Opcode("sll"), Field::Reg(rd), Field::Reg(rs1), Field::Reg(rs2)],
            Op::Slt { rd, rs1, rs2 } => vec![Field::Opcode("slt"), Field::Reg(rd), Field::Reg(rs1), Field::Reg(rs2)],
            Op::Sltu { rd, rs1, rs2 } => vec![Field::Opcode("sltu"), Field::Reg(rd), Field::Reg(rs1), Field::Reg(rs2)],
            Op::Xor { rd, rs1, rs2 } => vec![Field::Opcode("xor"), Field::Reg(rd), Field::Reg(rs1), Field::Reg(rs2)],
            Op::Srl { rd, rs1, rs2 } => vec![Field::Opcode("srl"), Field::Reg(rd), Field::Reg(rs1), Field::Reg(rs2)],
            Op::Sra { rd, rs1, rs2 } => vec![Field::Opcode("sra"), Field::Reg(rd), Field::Reg(rs1), Field::Reg(rs2)],
            Op::Or { rd, rs1, rs2 } => vec![Field::Opcode("or"), Field::Reg(rd), Field::Reg(rs1), Field::Reg(rs2)],
            Op::And { rd, rs1, rs2 } => vec![Field::Opcode("and"), Field::Reg(rd), Field::Reg(rs1), Field::Reg(rs2)],
            Op::Addw { rd, rs1, rs2 } => vec![Field::Opcode("addw"), Field::Reg(rd), Field::Reg(rs1), Field::Reg(rs2)],
            Op::Subw { rd, rs1, rs2 } => vec![Field::Opcode("subw"), Field::Reg(rd), Field::Reg(rs1), Field::Reg(rs2)],
            Op::Sllw { rd, rs1, rs2 } => vec![Field::Opcode("sllw"), Field::Reg(rd), Field::Reg(rs1), Field::Reg(rs2)],
            Op::Srlw { rd, rs1, rs2 } => vec![Field::Opcode("srlw"), Field::Reg(rd), Field::Reg(rs1), Field::Reg(rs2)],
            Op::Sraw { rd, rs1, rs2 } => vec![Field::Opcode("sraw"), Field::Reg(rd), Field::Reg(rs1), Field::Reg(rs2)],
            Op::Mul { rd, rs1, rs2 } => vec![Field::Opcode("mul"), Field::Reg(rd), Field::Reg(rs1), Field::Reg(rs2)],
            Op::Mulh { rd, rs1, rs2 } => vec![Field::Opcode("mulh"), Field::Reg(rd), Field::Reg(rs1), Field::Reg(rs2)],
            Op::Mulhsu { rd, rs1, rs2 } => vec![Field::Opcode("mulhsu"), Field::Reg(rd), Field::Reg(rs1), Field::Reg(rs2)],
            Op::Mulhu { rd, rs1, rs2 } => vec![Field::Opcode("mulhu"), Field::Reg(rd), Field::Reg(rs1), Field::Reg(rs2)],
            Op::Div { rd, rs1, rs2 } => vec![Field::Opcode("div"), Field::Reg(rd), Field::Reg(rs1), Field::Reg(rs2)],
            Op::Divu { rd, rs1, rs2 } => vec![Field::Opcode("divu"), Field::Reg(rd), Field::Reg(rs1), Field::Reg(rs2)],
            Op::Rem { rd, rs1, rs2 } => vec![Field::Opcode("rem"), Field::Reg(rd), Field::Reg(rs1), Field::Reg(rs2)],
            Op::Remu { rd, rs1, rs2 } => vec![Field::Opcode("remu"), Field::Reg(rd), Field::Reg(rs1), Field::Reg(rs2)],
            Op::Mulw { rd, rs1, rs2 } => vec![Field::Opcode("mulw"), Field::Reg(rd), Field::Reg(rs1), Field::Reg(rs2)],
            Op::Divw { rd, rs1, rs2 } => vec![Field::Opcode("divw"), Field::Reg(rd), Field::Reg(rs1), Field::Reg(rs2)],
            Op::Divuw { rd, rs1, rs2 } => vec![Field::Opcode("divuw"), Field::Reg(rd), Field::Reg(rs1), Field::Reg(rs2)],
            Op::Remw { rd, rs1, rs2 } => vec![Field::Opcode("remw"), Field::Reg(rd), Field::Reg(rs1), Field::Reg(rs2)],
            Op::Remuw { rd, rs1, rs2 } => vec![Field::Opcode("remuw"), Field::Reg(rd), Field::Reg(rs1), Field::Reg(rs2)],
            Op::Addi { rd, rs1, imm } => vec![Field::Opcode("addi"), Field::Reg(rd), Field::Reg(rs1), Field::Imm(imm)],
            Op::Slti { rd, rs1, imm } => vec![Field::Opcode("slti"), Field::Reg(rd), Field::Reg(rs1), Field::Imm(imm)],
            Op::Sltiu { rd, rs1, imm } => vec![Field::Opcode("sltiu"), Field::Reg(rd), Field::Reg(rs1), Field::Imm(imm)],
            Op::Xori { rd, rs1, imm } => vec![Field::Opcode("xori"), Field::Reg(rd), Field::Reg(rs1), Field::Imm(imm)],
            Op::Ori { rd, rs1, imm } => vec![Field::Opcode("ori"), Field::Reg(rd), Field::Reg(rs1), Field::Imm(imm)],
            Op::Andi { rd, rs1, imm } => vec![Field::Opcode("andi"), Field::Reg(rd), Field::Reg(rs1), Field::Imm(imm)],
            Op::Slli { rd, rs1, shamt } => vec![Field::Opcode("slli"), Field::Reg(rd), Field::Reg(rs1), Field::Imm(shamt)],
            Op::Srli { rd, rs1, shamt } => vec![Field::Opcode("srli"), Field::Reg(rd), Field::Reg(rs1), Field::Imm(shamt)],
            Op::Srai { rd, rs1, shamt } => vec![Field::Opcode("srai"), Field::Reg(rd), Field::Reg(rs1), Field::Imm(shamt)],
            Op::Addiw { rd, rs1, imm } => vec![Field::Opcode("addiw"), Field::Reg(rd), Field::Reg(rs1), Field::Imm(imm)],
            Op::Slliw { rd, rs1, shamt } => vec![Field::Opcode("slliw"), Field::Reg(rd), Field::Reg(rs1), Field::Imm(shamt)],
            Op::Srliw { rd, rs1, shamt } => vec![Field::Opcode("srliw"), Field::Reg(rd), Field::Reg(rs1), Field::Imm(shamt)],
            Op::Sraiw { rd, rs1, shamt } => vec![Field::Opcode("sraiw"), Field::Reg(rd), Field::Reg(rs1), Field::Imm(shamt)],
            Op::Beq { rs1, rs2, offset } => vec![Field::Opcode("beq"), Field::Reg(rs1), Field::Reg(rs2), Field::PCRelAddr(offset)],
            Op::Bne { rs1, rs2, offset } => vec![Field::Opcode("bne"), Field::Reg(rs1), Field::Reg(rs2), Field::PCRelAddr(offset)],
            Op::Blt { rs1, rs2, offset } => vec![Field::Opcode("blt"), Field::Reg(rs1), Field::Reg(rs2), Field::PCRelAddr(offset)],
            Op::Bge { rs1, rs2, offset } => vec![Field::Opcode("bge"), Field::Reg(rs1), Field::Reg(rs2), Field::PCRelAddr(offset)],
            Op::Bltu { rs1, rs2, offset } => vec![Field::Opcode("bltu"), Field::Reg(rs1), Field::Reg(rs2), Field::PCRelAddr(offset)],
            Op::Bgeu { rs1, rs2, offset } => vec![Field::Opcode("bgeu"), Field::Reg(rs1), Field::Reg(rs2), Field::PCRelAddr(offset)],
            Op::Jal { rd, offset } => vec![Field::Opcode("jal"), Field::Reg(rd), Field::PCRelAddr(offset)],
            Op::Jalr { rd, rs1, offset } => vec![Field::Opcode("jalr"), Field::Reg(rd), Field::Indirect(offset, rs1)],
            Op::Lb { rd, rs1, offset } => vec![Field::Opcode("lb"), Field::Reg(rd), Field::Indirect(offset, rs1)],
            Op::Lh { rd, rs1, offset } => vec![Field::Opcode("lh"), Field::Reg(rd), Field::Indirect(offset, rs1)],
            Op::Lw { rd, rs1, offset } => vec![Field::Opcode("lw"), Field::Reg(rd), Field::Indirect(offset, rs1)],
            Op::Ld { rd, rs1, offset } => vec![Field::Opcode("ld"), Field::Reg(rd), Field::Indirect(offset, rs1)],
            Op::Lbu { rd, rs1, offset } => vec![Field::Opcode("lbu"), Field::Reg(rd), Field::Indirect(offset, rs1)],
            Op::Lhu { rd, rs1, offset } => vec![Field::Opcode("lhu"), Field::Reg(rd), Field::Indirect(offset, rs1)],
            Op::Lwu { rd, rs1, offset } => vec![Field::Opcode("lwu"), Field::Reg(rd), Field::Indirect(offset, rs1)],
            Op::Sb { rs1, rs2, offset } => vec![Field::Opcode("sb"), Field::Reg(rs2), Field::Indirect(offset, rs1)],
            Op::Sh { rs1, rs2, offset } => vec![Field::Opcode("sh"), Field::Reg(rs2), Field::Indirect(offset, rs1)],
            Op::Sw { rs1, rs2, offset } => vec![Field::Opcode("sw"), Field::Reg(rs2), Field::Indirect(offset, rs1)],
            Op::Sd { rs1, rs2, offset } => vec![Field::Opcode("sd"), Field::Reg(rs2), Field::Indirect(offset, rs1)],
            Op::Lui { rd, imm } => vec![Field::Opcode("lui"), Field::Reg(rd), Field::Imm(imm)],
            Op::Auipc { rd, imm } => vec![Field::Opcode("auipc"), Field::Reg(rd), Field::Imm(imm)],
            Op::Fence => vec![Field::Opcode("fence")],
            Op::Ecall => vec![Field::Opcode("ecall")],
            Op::Ebreak => vec![Field::Opcode("ebreak")],
            Op::Unimplemented { .. } => vec![Field::Opcode("???")],
        };
        proof {
            assert(fields_view(r@) =~= fields_of(*self));
        }
        r
    }

    /// The pseudo-instruction rendering: the first matching alias from the
    /// standard table, else the canonical fields.
    #[verifier::rlimit(100)]
    pub fn to_pseudo_fields(&self) -> (r: Vec<Field>)
        ensures
            fields_view(r@) == pseudo_fields_of(*self),
    {
        let r = match *self {
            Op::Addi { rd, rs1, imm } => {
                if rd == ZERO && rs1 == ZERO && imm == 0 {
                    vec![Field::Opcode("nop")]
                } else if rs1 == ZERO {
                    vec![Field::Opcode("li"), Field::Reg(rd), Field::Imm(imm)]
                } else if imm == 0 {
                    vec![Field::Opcode("mv"), Field::Reg(rd), Field::Reg(rs1)]
                } else if rs1 == GP {
                    vec![Field::Opcode("la"), Field::Reg(rd), Field::GPRelAddr(imm)]
                } else {
                    self.to_fields()
                }
            },
            Op::Jalr { rd, rs1, offset } => {
                if rd == ZERO && rs1 == RA && offset == 0 {
                    vec![Field::Opcode("ret")]
                } else if rd == ZERO && offset == 0 {
                    vec![Field::Opcode("jr"), Field::Reg(rs1)]
                } else if rd == RA && offset == 0 {
                    vec![Field::Opcode("jalr"), Field::Reg(rs1)]
                } else {
                    self.to_fields()
                }
            },
            Op::Jal { rd, offset } => {
                if rd == ZERO {
                    vec![Field::Opcode("j"), Field::PCRelAddr(offset)]
                } else if rd == RA {
                    vec![Field::Opcode("jal"), Field::PCRelAddr(offset)]
                } else {
                    self.to_fields()
                }
            },
            Op::Xori { rd, rs1, imm } => {
                if imm == -1 {
                    vec![Field::Opcode("not"), Field::Reg(rd), Field::Reg(rs1)]
                } else {
                    self.to_fields()
                }
            },
            Op::Sltiu { rd, rs1, imm } => {
                if imm == 1 {
                    vec![Field::Opcode("seqz"), Field::Reg(rd), Field::Reg(rs1)]
                } else {
                    self.to_fields()
                }
            },
            Op::Sltu { rd, rs1, rs2 } => {
                if rs1 == ZERO {
                    vec![Field::Opcode("snez"), Field::Reg(rd), Field::Reg(rs2)]
                } else {
                    self.to_fields()
                }
            },
            Op::Beq { rs1, rs2, offset } => {
                if rs1 == ZERO {
                    vec![Field::Opcode("beqz"), Field::Reg(rs2), Field::PCRelAddr(offset)]
                } else if rs2 == ZERO {
                    vec![Field::Opcode("beqz"), Field::Reg(rs1), Field::PCRelAddr(offset)]
                } else {
                    self.to_fields()
                }
            },
            Op::Bne { rs1, rs2, offset } => {
                if rs1 == ZERO {
                    vec![Field::Opcode("bnez"), Field::Reg(rs2), Field::PCRelAddr(offset)]
                } else if rs2 == ZERO {
                    vec![Field::Opcode("bnez"), Field::Reg(rs1), Field::PCRelAddr(offset)]
                } else {
                    self.to_fields()
                }
            },
            Op::Blt { rs1, rs2, offset } => {
                if rs2 == ZERO {
                    vec![Field::Opcode("bltz"), Field::Reg(rs1), Field::PCRelAddr(offset)]
                } else if rs1 == ZERO {
                    vec![Field::Opcode("bgtz"), Field::Reg(rs2), Field::PCRelAddr(offset)]
                } else {
                    self.to_fields()
                }
            },
            Op::Bge { rs1, rs2, offset } => {
                if rs2 == ZERO {
                    vec![Field::Opcode("bgez"), Field::Reg(rs1), Field::PCRelAddr(offset)]
                } else if rs1 == ZERO {
                    vec![Field::Opcode("blez"), Field::Reg(rs2), Field::PCRelAddr(offset)]
                } else {
                    self.to_fields()
                }
            },
            Op::Subw { rd, rs1, rs2 } => {
                if rs1 == ZERO {
                    vec![Field::Opcode("negw"), Field::Reg(rd), Field::Reg(rs2)]
                } else {
                    self.to_fields()
                }
            },
            Op::Sub { rd, rs1, rs2 } => {
                if rs1 == ZERO {
                    vec![Field::Opcode("neg"), Field::Reg(rd), Field::Reg(rs2)]
                } else {
                    self.to_fields()
                }
            },
            Op::Slt { rd, rs1, rs2 } => {
                if rs1 == ZERO {
                    vec![Field::Opcode("sgtz"), Field::Reg(rd), Field::Reg(rs2)]
                } else if rs2 == ZERO {
                    vec![Field::Opcode("sltz"), Field::Reg(rd), Field::Reg(rs1)]
                } else {
                    self.to_fields()
                }
            },
            _ => self.to_fields(),
        };
        proof {
            assert(fields_view(r@) =~= pseudo_fields_of(*self));
        }
        r
    }

    /// The offset a branch or an unconditional `j` would add to the
    /// program counter; `None` for every other operation.
    pub open spec fn branch_offset(self) -> Option<i64> {
        match self {
            Op::Beq { offset, .. } => Some(offset),
            Op::Bne { offset, .. } => Some(offset),
            Op::Blt { offset, .. } => Some(offset),
            Op::Bge { offset, .. } => Some(offset),
            Op::Bltu { offset, .. } => Some(offset),
            Op::Bgeu { offset, .. } => Some(offset),
            Op::Jal { rd, offset } => if rd == ZERO {
                Some(offset)
            } else {
                None
            },
            _ => None,
        }
    }

    /// The static target of a branch or a `j`, given the instruction's
    /// address.
    pub fn branch_target(&self, pc: i64) -> (r: Option<i64>)
        requires
            self.branch_offset() matches Some(o) ==> i64::MIN <= pc + o <= i64::MAX,
        ensures
            r == match self.branch_offset() {
                Some(o) => Some((pc + o) as i64),
                None => None::<i64>,
            },
    {
        match *self {
            Op::Beq { offset, .. } => Some(pc + offset),
            Op::Bne { offset, .. } => Some(pc + offset),
            Op::Blt { offset, .. } => Some(pc + offset),
            Op::Bge { offset, .. } => Some(pc + offset),
            Op::Bltu { offset, .. } => Some(pc + offset),
            Op::Bgeu { offset, .. } => Some(pc + offset),
            Op::Jal { rd, offset } => {
                if rd == ZERO {
                    Some(pc + offset)
                } else {
                    None
                }
            },
            _ => None,
        }
    }
}

/// One decoded instruction in a program listing.
#[derive(Clone, Copy, Debug)]
pub struct Instruction {
    pub address: i64,
    pub raw: u32,
    pub op: Op,
}

/// Whether two adjacent operations form a recognized two-instruction
/// pseudo-sequence: `auipc`+`addi` into the same register (`la`), or
/// `auipc ra`+`jalr ra, ra` (`call`).
pub open spec fn pseudo_seq_match(op1: Op, op2: Op) -> bool {
    ||| (op1 matches Op::Auipc { rd: rd1, .. } && op2 matches Op::Addi { rd: rd2, rs1, .. }
        && rd1 == rd2 && rd2 == rs1)
    ||| (op1 matches Op::Auipc { rd: rd1, .. } && op2 matches Op::Jalr { rd: rd2, rs1, .. }
        && rd1 == RA && rd2 == RA && rs1 == RA)
}

/// The combined offset of a recognized pseudo-sequence, before wrapping.
pub open spec fn pseudo_seq_sum(op1: Op, op2: Op) -> int {
    match (op1, op2) {
        (Op::Auipc { imm: imm1, .. }, Op::Addi { imm: imm2, .. }) => imm1 + imm2,
        (Op::Auipc { imm: imm1, .. }, Op::Jalr { offset, .. }) => imm1 + offset,
        _ => 0,
    }
}

/// The fields of a recognized pseudo-sequence.
pub open spec fn pseudo_seq_fields(op1: Op, op2: Op) -> Seq<FieldV> {
    match (op1, op2) {
        (Op::Auipc { rd: rd1, imm: imm1 }, Op::Addi { imm: imm2, .. }) => seq![
            FieldV::Opcode("la"@),
            FieldV::Reg(rd1),
            FieldV::PCRelAddr((imm1 + imm2) as i64),
        ],
        (Op::Auipc { imm: imm1, .. }, Op::Jalr { offset, .. }) => seq![
            FieldV::Opcode("call"@),
            FieldV::PCRelAddr((imm1 + offset) as i64),
        ],
        _ => Seq::empty(),
    }
}

/// Recognize a two-instruction pseudo-sequence at the head of the
/// listing. The merge is refused when a symbol labels the second
/// instruction: a branch target lands between the two.
pub fn get_pseudo_sequence(instructions: &[Instruction], symbols: &HashMap<i64, String>) -> (r:
    Option<(usize, Vec<Field>)>)
    requires
        instructions@.len() >= 2 && pseudo_seq_match(instructions@[0].op, instructions@[1].op)
            ==> i64::MIN <= pseudo_seq_sum(instructions@[0].op, instructions@[1].op) <= i64::MAX,
    ensures
        ({
            let applies = instructions@.len() >= 2 && !symbols@.contains_key(
                instructions@[1].address,
            ) && pseudo_seq_match(instructions@[0].op, instructions@[1].op);
            &&& applies ==> (r matches Some(p) && p.0 == 2 && fields_view(p.1@)
                == pseudo_seq_fields(instructions@[0].op, instructions@[1].op))
            &&& !applies ==> r is None
        }),
{
    if instructions.len() < 2 {
        return None;
    }
    let inst1 = &instructions[0];
    let inst2 = &instructions[1];
    if symbols.contains_key(&inst2.address) {
        return None;
    }
    let r: Option<(usize, Vec<Field>)> = match (inst1.op, inst2.op) {
        (
            Op::Auipc { rd: rd1, imm: imm1 },
            Op::Addi { rd: rd2, rs1: rs1b, imm: imm2 },
        ) if rd1 == rd2 && rd2 == rs1b => Some(
            (2, vec![Field::Opcode("la"), Field::Reg(rd1), Field::PCRelAddr(imm1 + imm2)]),
        ),
        (
            Op::Auipc { rd: rd1, imm: imm1 },
            Op::Jalr { rd: rd2, rs1: rs1b, offset },
        ) if rd1 == RA && rd2 == RA && rs1b == RA => Some(
            (2, vec![Field::Opcode("call"), Field::PCRelAddr(imm1 + offset)]),
        ),
        _ => None,
    };
    proof {
        if r is Some {
            assert(fields_view((r->0).1@) =~= pseudo_seq_fields(inst1.op, inst2.op));
        }
    }
    r
}

/// Every rendering starts with at least the mnemonic.
pub proof fn lemma_fields_nonempty(op: Op)
    ensures
        fields_of(op).len() >= 1,
        pseudo_fields_of(op).len() >= 1,
{
}

} // verus!
