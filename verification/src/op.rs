//! The decoded instruction form: one variant per RV64IMC instruction, plus an
//! `Unimplemented` sink that keeps the raw word and the reason it was refused.
//!
//! Register indices are in [0, 31]; compressed primed registers decode to
//! [8, 15]. Immediates are sign-extended to 64 bits at decode time and are
//! ready for direct arithmetic use. Shift amounts are in [0, 63] for
//! doubleword shifts and [0, 31] for word shifts.

use vstd::prelude::*;

verus! {

pub const ZERO: usize = 0;

pub const RA: usize = 1;

pub const SP: usize = 2;

pub const GP: usize = 3;

pub const A0: usize = 10;

pub const A1: usize = 11;

pub const A2: usize = 12;

pub const A7: usize = 17;

/// Why a word decodes to `Op::Unimplemented`. Sub-opcode fields are carried
/// as the unsigned values of their bit ranges.
#[derive(Clone, Copy, PartialEq, Eq, Structural, Debug)]
pub enum Note {
    /// The primary opcode (bits [6:0]) matches no implemented instruction class.
    UnknownOpcode(u32),
    /// A `jalr` encoding with a funct3 other than zero.
    JalrFunct3(u32),
    /// A branch encoding with an unassigned funct3.
    BranchFunct3(u32),
    /// A load encoding with an unassigned funct3.
    LoadFunct3(u32),
    /// A store encoding with an unassigned funct3.
    StoreFunct3(u32),
    /// An immediate-mode ALU shift with an unknown upper-immediate subtype.
    ITypeSubtype(u32, u32),
    /// An immediate-mode ALU encoding with an unassigned funct3.
    ITypeFunct3(u32),
    /// A word-form immediate ALU shift with an unknown upper-immediate subtype.
    IWSubtype(u32, u32),
    /// A word-form immediate ALU encoding with an unassigned funct3.
    IWFunct3(u32),
    /// A register-register ALU encoding with an unassigned (funct3, funct7).
    RTypeFunct(u32, u32),
    /// A word-form register-register ALU encoding with an unassigned (funct3, funct7).
    RWTypeFunct(u32, u32),
    /// C.ADDI4SPN with a zero immediate is reserved.
    CAddi4spnZero,
    /// C.FLD needs the D extension.
    CFld,
    /// The reserved quadrant-0 funct3 slot.
    CReservedQ0,
    /// C.FSD needs the D extension.
    CFsd,
    /// C.ADDIW with rd=0 is reserved.
    CAddiwZeroRd,
    /// C.ADDI16SP with a zero immediate is reserved.
    CAddi16spZero,
    /// C.LUI with a zero immediate is reserved.
    CLuiZero,
    /// The reserved quadrant-1 register-register slots.
    CReservedQ1,
    /// C.FLDSP needs the D extension.
    CFldsp,
    /// C.LWSP with rd=0 is reserved.
    CLwspZeroRd,
    /// C.LDSP with rd=0 is reserved.
    CLdspZeroRd,
    /// C.JR with rd=0 is reserved.
    CJrZeroRd,
    /// C.FSDSP needs the D extension.
    CFsdsp,
}

/// A decoded RV64IMC instruction.
#[derive(Clone, Copy, PartialEq, Eq, Structural, Debug)]
pub enum Op {
    // r-type
    Add { rd: usize, rs1: usize, rs2: usize },
    Sub { rd: usize, rs1: usize, rs2: usize },
    Sll { rd: usize, rs1: usize, rs2: usize },
    Slt { rd: usize, rs1: usize, rs2: usize },
    Sltu { rd: usize, rs1: usize, rs2: usize },
    Xor { rd: usize, rs1: usize, rs2: usize },
    Srl { rd: usize, rs1: usize, rs2: usize },
    Sra { rd: usize, rs1: usize, rs2: usize },
    Or { rd: usize, rs1: usize, rs2: usize },
    And { rd: usize, rs1: usize, rs2: usize },
    // rv64-specific r-type
    Addw { rd: usize, rs1: usize, rs2: usize },
    Subw { rd: usize, rs1: usize, rs2: usize },
    Sllw { rd: usize, rs1: usize, rs2: usize },
    Srlw { rd: usize, rs1: usize, rs2: usize },
    Sraw { rd: usize, rs1: usize, rs2: usize },
    // i-type
    Addi { rd: usize, rs1: usize, imm: i64 },
    Slti { rd: usize, rs1: usize, imm: i64 },
    Sltiu { rd: usize, rs1: usize, imm: i64 },
    Xori { rd: usize, rs1: usize, imm: i64 },
    Ori { rd: usize, rs1: usize, imm: i64 },
    Andi { rd: usize, rs1: usize, imm: i64 },
    Slli { rd: usize, rs1: usize, shamt: i64 },
    Srli { rd: usize, rs1: usize, shamt: i64 },
    Srai { rd: usize, rs1: usize, shamt: i64 },
    // rv64-specific i-type
    Addiw { rd: usize, rs1: usize, imm: i64 },
    Slliw { rd: usize, rs1: usize, shamt: i64 },
    Srliw { rd: usize, rs1: usize, shamt: i64 },
    Sraiw { rd: usize, rs1: usize, shamt: i64 },
    // branch
    Beq { rs1: usize, rs2: usize, offset: i64 },
    Bne { rs1: usize, rs2: usize, offset: i64 },
    Blt { rs1: usize, rs2: usize, offset: i64 },
    Bge { rs1: usize, rs2: usize, offset: i64 },
    Bltu { rs1: usize, rs2: usize, offset: i64 },
    Bgeu { rs1: usize, rs2: usize, offset: i64 },
    // jump
    Jal { rd: usize, offset: i64 },
    Jalr { rd: usize, rs1: usize, offset: i64 },
    // load
    Lb { rd: usize, rs1: usize, offset: i64 },
    Lh { rd: usize, rs1: usize, offset: i64 },
    Lw { rd: usize, rs1: usize, offset: i64 },
    Ld { rd: usize, rs1: usize, offset: i64 },
    Lbu { rd: usize, rs1: usize, offset: i64 },
    Lhu { rd: usize, rs1: usize, offset: i64 },
    Lwu { rd: usize, rs1: usize, offset: i64 },
    // store
    Sb { rs1: usize, rs2: usize, offset: i64 },
    Sh { rs1: usize, rs2: usize, offset: i64 },
    Sw { rs1: usize, rs2: usize, offset: i64 },
    Sd { rs1: usize, rs2: usize, offset: i64 },
    // u-type
    Lui { rd: usize, imm: i64 },
    Auipc { rd: usize, imm: i64 },
    // misc
    Fence,
    Ecall,
    Ebreak,
    // m extension
    Mul { rd: usize, rs1: usize, rs2: usize },
    Mulh { rd: usize, rs1: usize, rs2: usize },
    Mulhsu { rd: usize, rs1: usize, rs2: usize },
    Mulhu { rd: usize, rs1: usize, rs2: usize },
    Div { rd: usize, rs1: usize, rs2: usize },
    Divu { rd: usize, rs1: usize, rs2: usize },
    Rem { rd: usize, rs1: usize, rs2: usize },
    Remu { rd: usize, rs1: usize, rs2: usize },
    // m extension rv64-specific
    Mulw { rd: usize, rs1: usize, rs2: usize },
    Divw { rd: usize, rs1: usize, rs2: usize },
    Divuw { rd: usize, rs1: usize, rs2: usize },
    Remw { rd: usize, rs1: usize, rs2: usize },
    Remuw { rd: usize, rs1: usize, rs2: usize },
    Unimplemented { inst: u32, note: Note },
}

/// Every register index names one of the 32 architectural registers, and
/// shift amounts fit their shifter: [0, 63] for doubleword shifts, [0, 31]
/// for word shifts. The decoder only produces such operations, and the
/// executor relies on it.
pub open spec fn op_wf(op: Op) -> bool {
    match op {
        Op::Add { rd, rs1, rs2 } => rd < 32 && rs1 < 32 && rs2 < 32,
        Op::Sub { rd, rs1, rs2 } => rd < 32 && rs1 < 32 && rs2 < 32,
        Op::Sll { rd, rs1, rs2 } => rd < 32 && rs1 < 32 && rs2 < 32,
        Op::Slt { rd, rs1, rs2 } => rd < 32 && rs1 < 32 && rs2 < 32,
        Op::Sltu { rd, rs1, rs2 } => rd < 32 && rs1 < 32 && rs2 < 32,
        Op::Xor { rd, rs1, rs2 } => rd < 32 && rs1 < 32 && rs2 < 32,
        Op::Srl { rd, rs1, rs2 } => rd < 32 && rs1 < 32 && rs2 < 32,
        Op::Sra { rd, rs1, rs2 } => rd < 32 && rs1 < 32 && rs2 < 32,
        Op::Or { rd, rs1, rs2 } => rd < 32 && rs1 < 32 && rs2 < 32,
        Op::And { rd, rs1, rs2 } => rd < 32 && rs1 < 32 && rs2 < 32,
        Op::Addw { rd, rs1, rs2 } => rd < 32 && rs1 < 32 && rs2 < 32,
        Op::Subw { rd, rs1, rs2 } => rd < 32 && rs1 < 32 && rs2 < 32,
        Op::Sllw { rd, rs1, rs2 } => rd < 32 && rs1 < 32 && rs2 < 32,
        Op::Srlw { rd, rs1, rs2 } => rd < 32 && rs1 < 32 && rs2 < 32,
        Op::Sraw { rd, rs1, rs2 } => rd < 32 && rs1 < 32 && rs2 < 32,
        Op::Addi { rd, rs1, .. } => rd < 32 && rs1 < 32,
        Op::Slti { rd, rs1, .. } => rd < 32 && rs1 < 32,
        Op::Sltiu { rd, rs1, .. } => rd < 32 && rs1 < 32,
        Op::Xori { rd, rs1, .. } => rd < 32 && rs1 < 32,
        Op::Ori { rd, rs1, .. } => rd < 32 && rs1 < 32,
        Op::Andi { rd, rs1, .. } => rd < 32 && rs1 < 32,
        Op::Slli { rd, rs1, shamt } => rd < 32 && rs1 < 32 && 0 <= shamt < 64,
        Op::Srli { rd, rs1, shamt } => rd < 32 && rs1 < 32 && 0 <= shamt < 64,
        Op::Srai { rd, rs1, shamt } => rd < 32 && rs1 < 32 && 0 <= shamt < 64,
        Op::Addiw { rd, rs1, .. } => rd < 32 && rs1 < 32,
        Op::Slliw { rd, rs1, shamt } => rd < 32 && rs1 < 32 && 0 <= shamt < 32,
        Op::Srliw { rd, rs1, shamt } => rd < 32 && rs1 < 32 && 0 <= shamt < 32,
        Op::Sraiw { rd, rs1, shamt } => rd < 32 && rs1 < 32 && 0 <= shamt < 32,
        Op::Beq { rs1, rs2, .. } => rs1 < 32 && rs2 < 32,
        Op::Bne { rs1, rs2, .. } => rs1 < 32 && rs2 < 32,
        Op::Blt { rs1, rs2, .. } => rs1 < 32 && rs2 < 32,
        Op::Bge { rs1, rs2, .. } => rs1 < 32 && rs2 < 32,
        Op::Bltu { rs1, rs2, .. } => rs1 < 32 && rs2 < 32,
        Op::Bgeu { rs1, rs2, .. } => rs1 < 32 && rs2 < 32,
        Op::Jal { rd, .. } => rd < 32,
        Op::Jalr { rd, rs1, .. } => rd < 32 && rs1 < 32,
        Op::Lb { rd, rs1, .. } => rd < 32 && rs1 < 32,
        Op::Lh { rd, rs1, .. } => rd < 32 && rs1 < 32,
        Op::Lw { rd, rs1, .. } => rd < 32 && rs1 < 32,
        Op::Ld { rd, rs1, .. } => rd < 32 && rs1 < 32,
        Op::Lbu { rd, rs1, .. } => rd < 32 && rs1 < 32,
        Op::Lhu { rd, rs1, .. } => rd < 32 && rs1 < 32,
        Op::Lwu { rd, rs1, .. } => rd < 32 && rs1 < 32,
        Op::Sb { rs1, rs2, .. } => rs1 < 32 && rs2 < 32,
        Op::Sh { rs1, rs2, .. } => rs1 < 32 && rs2 < 32,
        Op::Sw { rs1, rs2, .. } => rs1 < 32 && rs2 < 32,
        Op::Sd { rs1, rs2, .. } => rs1 < 32 && rs2 < 32,
        Op::Lui { rd, .. } => rd < 32,
        Op::Auipc { rd, .. } => rd < 32,
        Op::Fence => true,
        Op::Ecall => true,
        Op::Ebreak => true,
        Op::Mul { rd, rs1, rs2 } => rd < 32 && rs1 < 32 && rs2 < 32,
        Op::Mulh { rd, rs1, rs2 } => rd < 32 && rs1 < 32 && rs2 < 32,
        Op::Mulhsu { rd, rs1, rs2 } => rd < 32 && rs1 < 32 && rs2 < 32,
        Op::Mulhu { rd, rs1, rs2 } => rd < 32 && rs1 < 32 && rs2 < 32,
        Op::Div { rd, rs1, rs2 } => rd < 32 && rs1 < 32 && rs2 < 32,
        Op::Divu { rd, rs1, rs2 } => rd < 32 && rs1 < 32 && rs2 < 32,
        Op::Rem { rd, rs1, rs2 } => rd < 32 && rs1 < 32 && rs2 < 32,
        Op::Remu { rd, rs1, rs2 } => rd < 32 && rs1 < 32 && rs2 < 32,
        Op::Mulw { rd, rs1, rs2 } => rd < 32 && rs1 < 32 && rs2 < 32,
        Op::Divw { rd, rs1, rs2 } => rd < 32 && rs1 < 32 && rs2 < 32,
        Op::Divuw { rd, rs1, rs2 } => rd < 32 && rs1 < 32 && rs2 < 32,
        Op::Remw { rd, rs1, rs2 } => rd < 32 && rs1 < 32 && rs2 < 32,
        Op::Remuw { rd, rs1, rs2 } => rd < 32 && rs1 < 32 && rs2 < 32,
        Op::Unimplemented { .. } => true,
    }
}

} // verus!
