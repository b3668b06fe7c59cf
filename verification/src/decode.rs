//! The decoder: from a raw instruction word to an `Op`.
//!
//! Decoding is total: every 16-bit or 32-bit input maps to exactly one
//! operation, and unknown encodings become `Op::Unimplemented` with the
//! reason. A word is compressed iff its low two bits are not `0b11`; the
//! decoder then reads only the low 16 bits. Compressed instructions expand
//! to the equivalent uncompressed operation, so the executor and the
//! disassembler have a single code path; the caller remembers the fetched
//! width. The spec functions below state the full decode map, and each
//! executable decoder is proved equal to it.

use crate::bits::{
    c_addi16sp_imm_of, c_addi4spn_imm_of, c_beqz_bnez_imm_of, c_funct3_of, c_j_jal_imm_of,
    c_ld_sd_imm_of, c_ldsp_imm_of, c_li_addi_addiw_andi_imm_of, c_lui_imm_of, c_lw_sw_imm_of,
    c_lwsp_imm_of, c_op_of, c_rd_rs1_of, c_rs1_prime_of, c_rs2_of, c_rs2_prime_of, c_sdsp_imm_of,
    c_slli_srli_srai_imm_of, c_swsp_imm_of, funct3_of, funct7_of, get_c_addi16sp_imm,
    get_c_addi4spn_imm, get_c_beqz_bnez_imm, get_c_funct3, get_c_j_jal_imm, get_c_ld_sd_imm,
    get_c_ldsp_imm, get_c_li_addi_addiw_andi_imm, get_c_lui_imm, get_c_lw_sw_imm, get_c_lwsp_imm,
    get_c_op, get_c_rd_rs1, get_c_rs1_prime, get_c_rs2, get_c_rs2_prime, get_c_sdsp_imm,
    get_c_slli_srli_srai_imm, get_c_swsp_imm, get_funct3, get_funct7, get_imm_b, get_imm_i,
    get_imm_j, get_imm_s, get_imm_u, get_rd, get_rs1, get_rs2, imm_b_of, imm_i_of, imm_j_of,
    imm_s_of, imm_u_of, lemma_field_bounds, opcode_of, rd_of, rs1_of, rs2_of,
};
use crate::op::{op_wf, Note, Op, RA, SP, ZERO};
use vstd::prelude::*;

verus! {

pub open spec fn decode_branches_s(w: u32) -> Op {
    let funct3 = funct3_of(w);
    let rs1 = rs1_of(w);
    let rs2 = rs2_of(w);
    let offset = imm_b_of(w);
    if funct3 == 0 {
        Op::Beq { rs1, rs2, offset }
    } else if funct3 == 1 {
        Op::Bne { rs1, rs2, offset }
    } else if funct3 == 4 {
        Op::Blt { rs1, rs2, offset }
    } else if funct3 == 5 {
        Op::Bge { rs1, rs2, offset }
    } else if funct3 == 6 {
        Op::Bltu { rs1, rs2, offset }
    } else if funct3 == 7 {
        Op::Bgeu { rs1, rs2, offset }
    } else {
        Op::Unimplemented { inst: w, note: Note::BranchFunct3(funct3) }
    }
}

pub open spec fn decode_load_s(w: u32) -> Op {
    let funct3 = funct3_of(w);
    let rd = rd_of(w);
    let rs1 = rs1_of(w);
    let offset = imm_i_of(w);
    if funct3 == 0 {
        Op::Lb { rd, rs1, offset }
    } else if funct3 == 1 {
        Op::Lh { rd, rs1, offset }
    } else if funct3 == 2 {
        Op::Lw { rd, rs1, offset }
    } else if funct3 == 3 {
        Op::Ld { rd, rs1, offset }
    } else if funct3 == 4 {
        Op::Lbu { rd, rs1, offset }
    } else if funct3 == 5 {
        Op::Lhu { rd, rs1, offset }
    } else if funct3 == 6 {
        Op::Lwu { rd, rs1, offset }
    } else {
        Op::Unimplemented { inst: w, note: Note::LoadFunct3(funct3) }
    }
}

pub open spec fn decode_store_s(w: u32) -> Op {
    let funct3 = funct3_of(w);
    let rs1 = rs1_of(w);
    let rs2 = rs2_of(w);
    let offset = imm_s_of(w);
    if funct3 == 0 {
        Op::Sb { rs1, rs2, offset }
    } else if funct3 == 1 {
        Op::Sh { rs1, rs2, offset }
    } else if funct3 == 2 {
        Op::Sw { rs1, rs2, offset }
    } else if funct3 == 3 {
        Op::Sd { rs1, rs2, offset }
    } else {
        Op::Unimplemented { inst: w, note: Note::StoreFunct3(funct3) }
    }
}

/// The six-bit shift amount of a doubleword immediate shift.
pub open spec fn shamt6_of(w: u32) -> i64 {
    ((w >> 20) & 0x3f) as i64
}

/// The five-bit shift amount of a word immediate shift.
pub open spec fn shamt5_of(w: u32) -> i64 {
    ((w >> 20) & 0x1f) as i64
}

/// The upper six bits of the I-immediate, distinguishing shift subtypes.
pub open spec fn imm_high6_of(w: u32) -> u32 {
    w >> 26
}

pub open spec fn decode_i_type_s(w: u32) -> Op {
    let funct3 = funct3_of(w);
    let rd = rd_of(w);
    let rs1 = rs1_of(w);
    let imm = imm_i_of(w);
    let shamt = shamt6_of(w);
    let imm_high = imm_high6_of(w);
    if funct3 == 0 {
        Op::Addi { rd, rs1, imm }
    } else if funct3 == 1 {
        if imm_high == 0 {
            Op::Slli { rd, rs1, shamt }
        } else {
            Op::Unimplemented { inst: w, note: Note::ITypeSubtype(funct3, imm_high) }
        }
    } else if funct3 == 2 {
        Op::Slti { rd, rs1, imm }
    } else if funct3 == 3 {
        Op::Sltiu { rd, rs1, imm }
    } else if funct3 == 4 {
        Op::Xori { rd, rs1, imm }
    } else if funct3 == 5 {
        if imm_high == 0x00 {
            Op::Srli { rd, rs1, shamt }
        } else if imm_high == 0x10 {
            Op::Srai { rd, rs1, shamt }
        } else {
            Op::Unimplemented { inst: w, note: Note::ITypeSubtype(funct3, imm_high) }
        }
    } else if funct3 == 6 {
        Op::Ori { rd, rs1, imm }
    } else if funct3 == 7 {
        Op::Andi { rd, rs1, imm }
    } else {
        Op::Unimplemented { inst: w, note: Note::ITypeFunct3(funct3) }
    }
}

pub open spec fn decode_rv64_i_type_s(w: u32) -> Op {
    let funct3 = funct3_of(w);
    let rd = rd_of(w);
    let rs1 = rs1_of(w);
    let imm = imm_i_of(w);
    let shamt = shamt5_of(w);
    let imm_high = funct7_of(w);
    if funct3 == 0 {
        Op::Addiw { rd, rs1, imm }
    } else if funct3 == 1 {
        Op::Slliw { rd, rs1, shamt }
    } else if funct3 == 5 {
        if imm_high == 0x00 {
            Op::Srliw { rd, rs1, shamt }
        } else if imm_high == 0x20 {
            Op::Sraiw { rd, rs1, shamt }
        } else {
            Op::Unimplemented { inst: w, note: Note::IWSubtype(funct3, imm_high) }
        }
    } else {
        Op::Unimplemented { inst: w, note: Note::IWFunct3(funct3) }
    }
}

pub open spec fn decode_r_type_s(w: u32) -> Op {
    let funct3 = funct3_of(w);
    let funct7 = funct7_of(w);
    let rd = rd_of(w);
    let rs1 = rs1_of(w);
    let rs2 = rs2_of(w);
    if funct7 == 0x00 && funct3 == 0x00 {
        Op::Add { rd, rs1, rs2 }
    } else if funct7 == 0x20 && funct3 == 0x00 {
        Op::Sub { rd, rs1, rs2 }
    } else if funct7 == 0x00 && funct3 == 0x01 {
        Op::Sll { rd, rs1, rs2 }
    } else if funct7 == 0x00 && funct3 == 0x02 {
        Op::Slt { rd, rs1, rs2 }
    } else if funct7 == 0x00 && funct3 == 0x03 {
        Op::Sltu { rd, rs1, rs2 }
    } else if funct7 == 0x00 && funct3 == 0x04 {
        Op::Xor { rd, rs1, rs2 }
    } else if funct7 == 0x00 && funct3 == 0x05 {
        Op::Srl { rd, rs1, rs2 }
    } else if funct7 == 0x20 && funct3 == 0x05 {
        Op::Sra { rd, rs1, rs2 }
    } else if funct7 == 0x00 && funct3 == 0x06 {
        Op::Or { rd, rs1, rs2 }
    } else if funct7 == 0x00 && funct3 == 0x07 {
        Op::And { rd, rs1, rs2 }
    } else if funct7 == 0x01 && funct3 == 0x00 {
        Op::Mul { rd, rs1, rs2 }
    } else if funct7 == 0x01 && funct3 == 0x01 {
        Op::Mulh { rd, rs1, rs2 }
    } else if funct7 == 0x01 && funct3 == 0x02 {
        Op::Mulhsu { rd, rs1, rs2 }
    } else if funct7 == 0x01 && funct3 == 0x03 {
        Op::Mulhu { rd, rs1, rs2 }
    } else if funct7 == 0x01 && funct3 == 0x04 {
        Op::Div { rd, rs1, rs2 }
    } else if funct7 == 0x01 && funct3 == 0x05 {
        Op::Divu { rd, rs1, rs2 }
    } else if funct7 == 0x01 && funct3 == 0x06 {
        Op::Rem { rd, rs1, rs2 }
    } else if funct7 == 0x01 && funct3 == 0x07 {
        Op::Remu { rd, rs1, rs2 }
    } else {
        Op::Unimplemented { inst: w, note: Note::RTypeFunct(funct3, funct7) }
    }
}

pub open spec fn decode_rv64_r_type_s(w: u32) -> Op {
    let funct3 = funct3_of(w);
    let funct7 = funct7_of(w);
    let rd = rd_of(w);
    let rs1 = rs1_of(w);
    let rs2 = rs2_of(w);
    if funct7 == 0x00 && funct3 == 0x00 {
        Op::Addw { rd, rs1, rs2 }
    } else if funct7 == 0x20 && funct3 == 0x00 {
        Op::Subw { rd, rs1, rs2 }
    } else if funct7 == 0x00 && funct3 == 0x01 {
        Op::Sllw { rd, rs1, rs2 }
    } else if funct7 == 0x00 && funct3 == 0x05 {
        Op::Srlw { rd, rs1, rs2 }
    } else if funct7 == 0x20 && funct3 == 0x05 {
        Op::Sraw { rd, rs1, rs2 }
    } else if funct7 == 0x01 && funct3 == 0x00 {
        Op::Mulw { rd, rs1, rs2 }
    } else if funct7 == 0x01 && funct3 == 0x04 {
        Op::Divw { rd, rs1, rs2 }
    } else if funct7 == 0x01 && funct3 == 0x05 {
        Op::Divuw { rd, rs1, rs2 }
    } else if funct7 == 0x01 && funct3 == 0x06 {
        Op::Remw { rd, rs1, rs2 }
    } else if funct7 == 0x01 && funct3 == 0x07 {
        Op::Remuw { rd, rs1, rs2 }
    } else {
        Op::Unimplemented { inst: w, note: Note::RWTypeFunct(funct3, funct7) }
    }
}

pub open spec fn decode_compressed_s(w: u32) -> Op {
    let quadrant = c_op_of(w);
    let funct3 = c_funct3_of(w);
    if quadrant == 0 {
        if funct3 == 0 {
            // C.ADDI4SPN
            let rd = c_rs2_prime_of(w);
            let imm = c_addi4spn_imm_of(w);
            if imm == 0 {
                Op::Unimplemented { inst: w, note: Note::CAddi4spnZero }
            } else {
                Op::Addi { rd, rs1: SP, imm }
            }
        } else if funct3 == 1 {
            Op::Unimplemented { inst: w, note: Note::CFld }
        } else if funct3 == 2 {
            // C.LW
            Op::Lw { rd: c_rs2_prime_of(w), rs1: c_rs1_prime_of(w), offset: c_lw_sw_imm_of(w) }
        } else if funct3 == 3 {
            // C.LD
            Op::Ld { rd: c_rs2_prime_of(w), rs1: c_rs1_prime_of(w), offset: c_ld_sd_imm_of(w) }
        } else if funct3 == 4 {
            Op::Unimplemented { inst: w, note: Note::CReservedQ0 }
        } else if funct3 == 5 {
            Op::Unimplemented { inst: w, note: Note::CFsd }
        } else if funct3 == 6 {
            // C.SW
            Op::Sw { rs1: c_rs1_prime_of(w), rs2: c_rs2_prime_of(w), offset: c_lw_sw_imm_of(w) }
        } else {
            // C.SD
            Op::Sd { rs1: c_rs1_prime_of(w), rs2: c_rs2_prime_of(w), offset: c_ld_sd_imm_of(w) }
        }
    } else if quadrant == 1 {
        if funct3 == 0 {
            // C.ADDI; rd == 0 encodes NOP, kept as Addi
            let rd = c_rd_rs1_of(w);
            Op::Addi { rd, rs1: rd, imm: c_li_addi_addiw_andi_imm_of(w) }
        } else if funct3 == 1 {
            // C.ADDIW
            let rd = c_rd_rs1_of(w);
            if rd == 0 {
                Op::Unimplemented { inst: w, note: Note::CAddiwZeroRd }
            } else {
                Op::Addiw { rd, rs1: rd, imm: c_li_addi_addiw_andi_imm_of(w) }
            }
        } else if funct3 == 2 {
            // C.LI; rd == 0 is a hint
            Op::Addi { rd: c_rd_rs1_of(w), rs1: ZERO, imm: c_li_addi_addiw_andi_imm_of(w) }
        } else if funct3 == 3 {
            let rd = c_rd_rs1_of(w);
            if rd == 2 {
                // C.ADDI16SP
                let imm = c_addi16sp_imm_of(w);
                if imm == 0 {
                    Op::Unimplemented { inst: w, note: Note::CAddi16spZero }
                } else {
                    Op::Addi { rd: SP, rs1: SP, imm }
                }
            } else {
                // C.LUI; rd == 0 is a hint
                let imm = c_lui_imm_of(w);
                if imm == 0 {
                    Op::Unimplemented { inst: w, note: Note::CLuiZero }
                } else {
                    Op::Lui { rd, imm }
                }
            }
        } else if funct3 == 4 {
            let funct2 = (w >> 10) & 0x3;
            let rd = c_rs1_prime_of(w);
            if funct2 == 0 {
                // C.SRLI
                Op::Srli { rd, rs1: rd, shamt: c_slli_srli_srai_imm_of(w) }
            } else if funct2 == 1 {
                // C.SRAI
                Op::Srai { rd, rs1: rd, shamt: c_slli_srli_srai_imm_of(w) }
            } else if funct2 == 2 {
                // C.ANDI
                Op::Andi { rd, rs1: rd, imm: c_li_addi_addiw_andi_imm_of(w) }
            } else {
                // register-register operations, by bit 12 and bits 6:5
                let rs2 = c_rs2_prime_of(w);
                let bit12 = (w >> 12) & 0x1;
                let funct = (w >> 5) & 0x3;
                if bit12 == 0 && funct == 0 {
                    Op::Sub { rd, rs1: rd, rs2 }
                } else if bit12 == 0 && funct == 1 {
                    Op::Xor { rd, rs1: rd, rs2 }
                } else if bit12 == 0 && funct == 2 {
                    Op::Or { rd, rs1: rd, rs2 }
                } else if bit12 == 0 && funct == 3 {
                    Op::And { rd, rs1: rd, rs2 }
                } else if bit12 == 1 && funct == 0 {
                    Op::Subw { rd, rs1: rd, rs2 }
                } else if bit12 == 1 && funct == 1 {
                    Op::Addw { rd, rs1: rd, rs2 }
                } else {
                    Op::Unimplemented { inst: w, note: Note::CReservedQ1 }
                }
            }
        } else if funct3 == 5 {
            // C.J
            Op::Jal { rd: ZERO, offset: c_j_jal_imm_of(w) }
        } else if funct3 == 6 {
            // C.BEQZ
            Op::Beq { rs1: c_rs1_prime_of(w), rs2: ZERO, offset: c_beqz_bnez_imm_of(w) }
        } else {
            // C.BNEZ
            Op::Bne { rs1: c_rs1_prime_of(w), rs2: ZERO, offset: c_beqz_bnez_imm_of(w) }
        }
    } else {
        if funct3 == 0 {
            // C.SLLI; rd == 0 is a hint
            let rd = c_rd_rs1_of(w);
            Op::Slli { rd, rs1: rd, shamt: c_slli_srli_srai_imm_of(w) }
        } else if funct3 == 1 {
            Op::Unimplemented { inst: w, note: Note::CFldsp }
        } else if funct3 == 2 {
            // C.LWSP
            let rd = c_rd_rs1_of(w);
            if rd == 0 {
                Op::Unimplemented { inst: w, note: Note::CLwspZeroRd }
            } else {
                Op::Lw { rd, rs1: SP, offset: c_lwsp_imm_of(w) }
            }
        } else if funct3 == 3 {
            // C.LDSP
            let rd = c_rd_rs1_of(w);
            if rd == 0 {
                Op::Unimplemented { inst: w, note: Note::CLdspZeroRd }
            } else {
                Op::Ld { rd, rs1: SP, offset: c_ldsp_imm_of(w) }
            }
        } else if funct3 == 4 {
            let rd = c_rd_rs1_of(w);
            let rs2 = c_rs2_of(w);
            let bit12 = (w >> 12) & 0x1;
            if bit12 == 0 {
                if rs2 == 0 {
                    if rd == 0 {
                        Op::Unimplemented { inst: w, note: Note::CJrZeroRd }
                    } else {
                        // C.JR
                        Op::Jalr { rd: ZERO, rs1: rd, offset: 0 }
                    }
                } else {
                    // C.MV; rd == 0 is a hint
                    Op::Add { rd, rs1: ZERO, rs2 }
                }
            } else {
                if rd == 0 && rs2 == 0 {
                    Op::Ebreak
                } else if rs2 == 0 {
                    // C.JALR
                    Op::Jalr { rd: RA, rs1: rd, offset: 0 }
                } else {
                    // C.ADD; rd == 0 is a hint
                    Op::Add { rd, rs1: rd, rs2 }
                }
            }
        } else if funct3 == 5 {
            Op::Unimplemented { inst: w, note: Note::CFsdsp }
        } else if funct3 == 6 {
            // C.SWSP
            Op::Sw { rs1: SP, rs2: c_rs2_of(w), offset: c_swsp_imm_of(w) }
        } else {
            // C.SDSP
            Op::Sd { rs1: SP, rs2: c_rs2_of(w), offset: c_sdsp_imm_of(w) }
        }
    }
}

/// The full decode map: every 32-bit word decodes to exactly one operation.
pub open spec fn decode(w: u32) -> Op {
    if w & 0x3 != 0x3 {
        decode_compressed_s(w)
    } else {
        let opcode = opcode_of(w);
        if opcode == 0x33 {
            decode_r_type_s(w)
        } else if opcode == 0x3b {
            decode_rv64_r_type_s(w)
        } else if opcode == 0x13 {
            decode_i_type_s(w)
        } else if opcode == 0x1b {
            decode_rv64_i_type_s(w)
        } else if opcode == 0x63 {
            decode_branches_s(w)
        } else if opcode == 0x6f {
            Op::Jal { rd: rd_of(w), offset: imm_j_of(w) }
        } else if opcode == 0x67 {
            if funct3_of(w) == 0 {
                Op::Jalr { rd: rd_of(w), rs1: rs1_of(w), offset: imm_i_of(w) }
            } else {
                Op::Unimplemented { inst: w, note: Note::JalrFunct3(funct3_of(w)) }
            }
        } else if opcode == 0x03 {
            decode_load_s(w)
        } else if opcode == 0x23 {
            decode_store_s(w)
        } else if opcode == 0x37 {
            Op::Lui { rd: rd_of(w), imm: imm_u_of(w) }
        } else if opcode == 0x17 {
            Op::Auipc { rd: rd_of(w), imm: imm_u_of(w) }
        } else if opcode == 0x0f {
            Op::Fence
        } else if w == 0x0000_0073 {
            Op::Ecall
        } else if w == 0x0010_0073 {
            Op::Ebreak
        } else {
            Op::Unimplemented { inst: w, note: Note::UnknownOpcode(opcode) }
        }
    }
}

impl Op {
    /// Decode a raw instruction word. Total: every word maps to exactly one
    /// operation, and the result is always well-formed.
    pub fn new(inst: u32) -> (r: Op)
        ensures
            r == decode(inst),
            op_wf(r),
    {
        proof {
            lemma_decode_wf(inst);
            lemma_field_bounds();
        }
        // a 16-bit compressed instruction has its bottom two bits != 0b11
        if inst & 0x3 != 0x3 {
            return Self::decode_compressed(inst);
        }
        let opcode = inst & 0x7f;
        match opcode {
            0x33 => Self::decode_r_type(inst),
            0x3b => Self::decode_rv64_r_type(inst),
            0x13 => Self::decode_i_type(inst),
            0x1b => Self::decode_rv64_i_type(inst),
            0x63 => Self::decode_branches(inst),
            0x6f => Op::Jal { rd: get_rd(inst), offset: get_imm_j(inst) },
            0x67 => {
                let funct3 = get_funct3(inst);
                if funct3 == 0 {
                    Op::Jalr { rd: get_rd(inst), rs1: get_rs1(inst), offset: get_imm_i(inst) }
                } else {
                    Op::Unimplemented { inst, note: Note::JalrFunct3(funct3) }
                }
            },
            0x03 => Self::decode_load(inst),
            0x23 => Self::decode_store(inst),
            0x37 => Op::Lui { rd: get_rd(inst), imm: get_imm_u(inst) },
            0x17 => Op::Auipc { rd: get_rd(inst), imm: get_imm_u(inst) },
            0x0f => Op::Fence,
            0x73 => {
                if inst == 0x0000_0073 {
                    Op::Ecall
                } else if inst == 0x0010_0073 {
                    Op::Ebreak
                } else {
                    Op::Unimplemented { inst, note: Note::UnknownOpcode(opcode) }
                }
            },
            _ => Op::Unimplemented { inst, note: Note::UnknownOpcode(opcode) },
        }
    }

    fn decode_branches(inst: u32) -> (r: Op)
        ensures
            r == decode_branches_s(inst),
    {
        let funct3 = get_funct3(inst);
        let rs1 = get_rs1(inst);
        let rs2 = get_rs2(inst);
        let offset = get_imm_b(inst);
        match funct3 {
            0 => Op::Beq { rs1, rs2, offset },
            1 => Op::Bne { rs1, rs2, offset },
            4 => Op::Blt { rs1, rs2, offset },
            5 => Op::Bge { rs1, rs2, offset },
            6 => Op::Bltu { rs1, rs2, offset },
            7 => Op::Bgeu { rs1, rs2, offset },
            _ => Op::Unimplemented { inst, note: Note::BranchFunct3(funct3) },
        }
    }

    fn decode_load(inst: u32) -> (r: Op)
        ensures
            r == decode_load_s(inst),
    {
        let funct3 = get_funct3(inst);
        let rd = get_rd(inst);
        let rs1 = get_rs1(inst);
        let offset = get_imm_i(inst);
        match funct3 {
            0 => Op::Lb { rd, rs1, offset },
            1 => Op::Lh { rd, rs1, offset },
            2 => Op::Lw { rd, rs1, offset },
            3 => Op::Ld { rd, rs1, offset },
            4 => Op::Lbu { rd, rs1, offset },
            5 => Op::Lhu { rd, rs1, offset },
            6 => Op::Lwu { rd, rs1, offset },
            _ => Op::Unimplemented { inst, note: Note::LoadFunct3(funct3) },
        }
    }

    fn decode_store(inst: u32) -> (r: Op)
        ensures
            r == decode_store_s(inst),
    {
        let funct3 = get_funct3(inst);
        let rs1 = get_rs1(inst);
        let rs2 = get_rs2(inst);
        let offset = get_imm_s(inst);
        match funct3 {
            0 => Op::Sb { rs1, rs2, offset },
            1 => Op::Sh { rs1, rs2, offset },
            2 => Op::Sw { rs1, rs2, offset },
            3 => Op::Sd { rs1, rs2, offset },
            _ => Op::Unimplemented { inst, note: Note::StoreFunct3(funct3) },
        }
    }

    fn decode_i_type(inst: u32) -> (r: Op)
        ensures
            r == decode_i_type_s(inst),
    {
        let funct3 = get_funct3(inst);
        let rd = get_rd(inst);
        let rs1 = get_rs1(inst);
        let imm = get_imm_i(inst);
        let shamt = ((inst >> 20) & 0x3f) as i64;
        let imm_high = inst >> 26;
        match funct3 {
            0 => Op::Addi { rd, rs1, imm },
            1 => {
                if imm_high == 0 {
                    Op::Slli { rd, rs1, shamt }
                } else {
                    Op::Unimplemented { inst, note: Note::ITypeSubtype(funct3, imm_high) }
                }
            },
            2 => Op::Slti { rd, rs1, imm },
            3 => Op::Sltiu { rd, rs1, imm },
            4 => Op::Xori { rd, rs1, imm },
            5 => {
                if imm_high == 0x00 {
                    Op::Srli { rd, rs1, shamt }
                } else if imm_high == 0x10 {
                    Op::Srai { rd, rs1, shamt }
                } else {
                    Op::Unimplemented { inst, note: Note::ITypeSubtype(funct3, imm_high) }
                }
            },
            6 => Op::Ori { rd, rs1, imm },
            7 => Op::Andi { rd, rs1, imm },
            _ => Op::Unimplemented { inst, note: Note::ITypeFunct3(funct3) },
        }
    }

    fn decode_rv64_i_type(inst: u32) -> (r: Op)
        ensures
            r == decode_rv64_i_type_s(inst),
    {
        let funct3 = get_funct3(inst);
        let rd = get_rd(inst);
        let rs1 = get_rs1(inst);
        let imm = get_imm_i(inst);
        let shamt = ((inst >> 20) & 0x1f) as i64;
        let imm_high = get_funct7(inst);
        match funct3 {
            0 => Op::Addiw { rd, rs1, imm },
            1 => Op::Slliw { rd, rs1, shamt },
            5 => {
                if imm_high == 0x00 {
                    Op::Srliw { rd, rs1, shamt }
                } else if imm_high == 0x20 {
                    Op::Sraiw { rd, rs1, shamt }
                } else {
                    Op::Unimplemented { inst, note: Note::IWSubtype(funct3, imm_high) }
                }
            },
            _ => Op::Unimplemented { inst, note: Note::IWFunct3(funct3) },
        }
    }

    fn decode_r_type(inst: u32) -> (r: Op)
        ensures
            r == decode_r_type_s(inst),
    {
        let funct3 = get_funct3(inst);
        let funct7 = get_funct7(inst);
        let rd = get_rd(inst);
        let rs1 = get_rs1(inst);
        let rs2 = get_rs2(inst);
        match (funct7, funct3) {
            (0x00, 0x00) => Op::Add { rd, rs1, rs2 },
            (0x20, 0x00) => Op::Sub { rd, rs1, rs2 },
            (0x00, 0x01) => Op::Sll { rd, rs1, rs2 },
            (0x00, 0x02) => Op::Slt { rd, rs1, rs2 },
            (0x00, 0x03) => Op::Sltu { rd, rs1, rs2 },
            (0x00, 0x04) => Op::Xor { rd, rs1, rs2 },
            (0x00, 0x05) => Op::Srl { rd, rs1, rs2 },
            (0x20, 0x05) => Op::Sra { rd, rs1, rs2 },
            (0x00, 0x06) => Op::Or { rd, rs1, rs2 },
            (0x00, 0x07) => Op::And { rd, rs1, rs2 },
            (0x01, 0x00) => Op::Mul { rd, rs1, rs2 },
            (0x01, 0x01) => Op::Mulh { rd, rs1, rs2 },
            (0x01, 0x02) => Op::Mulhsu { rd, rs1, rs2 },
            (0x01, 0x03) => Op::Mulhu { rd, rs1, rs2 },
            (0x01, 0x04) => Op::Div { rd, rs1, rs2 },
            (0x01, 0x05) => Op::Divu { rd, rs1, rs2 },
            (0x01, 0x06) => Op::Rem { rd, rs1, rs2 },
            (0x01, 0x07) => Op::Remu { rd, rs1, rs2 },
            _ => Op::Unimplemented { inst, note: Note::RTypeFunct(funct3, funct7) },
        }
    }

    fn decode_rv64_r_type(inst: u32) -> (r: Op)
        ensures
            r == decode_rv64_r_type_s(inst),
    {
        let funct3 = get_funct3(inst);
        let funct7 = get_funct7(inst);
        let rd = get_rd(inst);
        let rs1 = get_rs1(inst);
        let rs2 = get_rs2(inst);
        match (funct7, funct3) {
            (0x00, 0x00) => Op::Addw { rd, rs1, rs2 },
            (0x20, 0x00) => Op::Subw { rd, rs1, rs2 },
            (0x00, 0x01) => Op::Sllw { rd, rs1, rs2 },
            (0x00, 0x05) => Op::Srlw { rd, rs1, rs2 },
            (0x20, 0x05) => Op::Sraw { rd, rs1, rs2 },
            (0x01, 0x00) => Op::Mulw { rd, rs1, rs2 },
            (0x01, 0x04) => Op::Divw { rd, rs1, rs2 },
            (0x01, 0x05) => Op::Divuw { rd, rs1, rs2 },
            (0x01, 0x06) => Op::Remw { rd, rs1, rs2 },
            (0x01, 0x07) => Op::Remuw { rd, rs1, rs2 },
            _ => Op::Unimplemented { inst, note: Note::RWTypeFunct(funct3, funct7) },
        }
    }

    fn decode_compressed(inst: u32) -> (r: Op)
        requires
            inst & 0x3 != 0x3,
        ensures
            r == decode_compressed_s(inst),
    {
        let quadrant = get_c_op(inst);
        let funct3 = get_c_funct3(inst);
        match (quadrant, funct3) {
            (0, 0) => {
                // C.ADDI4SPN
                let rd = get_c_rs2_prime(inst);
                let imm = get_c_addi4spn_imm(inst);
                if imm == 0 {
                    Op::Unimplemented { inst, note: Note::CAddi4spnZero }
                } else {
                    Op::Addi { rd, rs1: SP, imm }
                }
            },
            (0, 1) => Op::Unimplemented { inst, note: Note::CFld },
            (0, 2) => {
                // C.LW
                Op::Lw { rd: get_c_rs2_prime(inst), rs1: get_c_rs1_prime(inst), offset: get_c_lw_sw_imm(inst) }
            },
            (0, 3) => {
                // C.LD
                Op::Ld { rd: get_c_rs2_prime(inst), rs1: get_c_rs1_prime(inst), offset: get_c_ld_sd_imm(inst) }
            },
            (0, 4) => Op::Unimplemented { inst, note: Note::CReservedQ0 },
            (0, 5) => Op::Unimplemented { inst, note: Note::CFsd },
            (0, 6) => {
                // C.SW
                Op::Sw { rs1: get_c_rs1_prime(inst), rs2: get_c_rs2_prime(inst), offset: get_c_lw_sw_imm(inst) }
            },
            (0, _) => {
                // C.SD
                Op::Sd { rs1: get_c_rs1_prime(inst), rs2: get_c_rs2_prime(inst), offset: get_c_ld_sd_imm(inst) }
            },
            (1, 0) => {
                // C.ADDI; rd == 0 encodes NOP, kept as Addi
                let rd = get_c_rd_rs1(inst);
                Op::Addi { rd, rs1: rd, imm: get_c_li_addi_addiw_andi_imm(inst) }
            },
            (1, 1) => {
                // C.ADDIW
                let rd = get_c_rd_rs1(inst);
                if rd == 0 {
                    Op::Unimplemented { inst, note: Note::CAddiwZeroRd }
                } else {
                    Op::Addiw { rd, rs1: rd, imm: get_c_li_addi_addiw_andi_imm(inst) }
                }
            },
            (1, 2) => {
                // C.LI; rd == 0 is a hint
                Op::Addi { rd: get_c_rd_rs1(inst), rs1: ZERO, imm: get_c_li_addi_addiw_andi_imm(inst) }
            },
            (1, 3) => {
                let rd = get_c_rd_rs1(inst);
                if rd == 2 {
                    // C.ADDI16SP
                    let imm = get_c_addi16sp_imm(inst);
                    if imm == 0 {
                        Op::Unimplemented { inst, note: Note::CAddi16spZero }
                    } else {
                        Op::Addi { rd: SP, rs1: SP, imm }
                    }
                } else {
                    // C.LUI; rd == 0 is a hint
                    let imm = get_c_lui_imm(inst);
                    if imm == 0 {
                        Op::Unimplemented { inst, note: Note::CLuiZero }
                    } else {
                        Op::Lui { rd, imm }
                    }
                }
            },
            (1, 4) => {
                let funct2 = (inst >> 10) & 0x3;
                let rd = get_c_rs1_prime(inst);
                if funct2 == 0 {
                    // C.SRLI
                    Op::Srli { rd, rs1: rd, shamt: get_c_slli_srli_srai_imm(inst) }
                } else if funct2 == 1 {
                    // C.SRAI
                    Op::Srai { rd, rs1: rd, shamt: get_c_slli_srli_srai_imm(inst) }
                } else if funct2 == 2 {
                    // C.ANDI
                    Op::Andi { rd, rs1: rd, imm: get_c_li_addi_addiw_andi_imm(inst) }
                } else {
                    // register-register operations, by bit 12 and bits 6:5
                    let rs2 = get_c_rs2_prime(inst);
                    let bit12 = (inst >> 12) & 0x1;
                    let funct = (inst >> 5) & 0x3;
                    match (bit12, funct) {
                        (0, 0) => Op::Sub { rd, rs1: rd, rs2 },
                        (0, 1) => Op::Xor { rd, rs1: rd, rs2 },
                        (0, 2) => Op::Or { rd, rs1: rd, rs2 },
                        (0, 3) => Op::And { rd, rs1: rd, rs2 },
                        (1, 0) => Op::Subw { rd, rs1: rd, rs2 },
                        (1, 1) => Op::Addw { rd, rs1: rd, rs2 },
                        _ => Op::Unimplemented { inst, note: Note::CReservedQ1 },
                    }
                }
            },
            (1, 5) => {
                // C.J
                Op::Jal { rd: ZERO, offset: get_c_j_jal_imm(inst) }
            },
            (1, 6) => {
                // C.BEQZ
                Op::Beq { rs1: get_c_rs1_prime(inst), rs2: ZERO, offset: get_c_beqz_bnez_imm(inst) }
            },
            (1, _) => {
                // C.BNEZ
                Op::Bne { rs1: get_c_rs1_prime(inst), rs2: ZERO, offset: get_c_beqz_bnez_imm(inst) }
            },
            (_, 0) => {
                // C.SLLI; rd == 0 is a hint
                let rd = get_c_rd_rs1(inst);
                Op::Slli { rd, rs1: rd, shamt: get_c_slli_srli_srai_imm(inst) }
            },
            (_, 1) => Op::Unimplemented { inst, note: Note::CFldsp },
            (_, 2) => {
                // C.LWSP
                let rd = get_c_rd_rs1(inst);
                if rd == 0 {
                    Op::Unimplemented { inst, note: Note::CLwspZeroRd }
                } else {
                    Op::Lw { rd, rs1: SP, offset: get_c_lwsp_imm(inst) }
                }
            },
            (_, 3) => {
                // C.LDSP
                let rd = get_c_rd_rs1(inst);
                if rd == 0 {
                    Op::Unimplemented { inst, note: Note::CLdspZeroRd }
                } else {
                    Op::Ld { rd, rs1: SP, offset: get_c_ldsp_imm(inst) }
                }
            },
            (_, 4) => {
                let rd = get_c_rd_rs1(inst);
                let rs2 = get_c_rs2(inst);
                let bit12 = (inst >> 12) & 0x1;
                if bit12 == 0 {
                    if rs2 == 0 {
                        if rd == 0 {
                            Op::Unimplemented { inst, note: Note::CJrZeroRd }
                        } else {
                            // C.JR
                            Op::Jalr { rd: ZERO, rs1: rd, offset: 0 }
                        }
                    } else {
                        // C.MV; rd == 0 is a hint
                        Op::Add { rd, rs1: ZERO, rs2 }
                    }
                } else {
                    if rd == 0 && rs2 == 0 {
                        Op::Ebreak
                    } else if rs2 == 0 {
                        // C.JALR
                        Op::Jalr { rd: RA, rs1: rd, offset: 0 }
                    } else {
                        // C.ADD; rd == 0 is a hint
                        Op::Add { rd, rs1: rd, rs2 }
                    }
                }
            },
            (_, 5) => Op::Unimplemented { inst, note: Note::CFsdsp },
            (_, 6) => {
                // C.SWSP
                Op::Sw { rs1: SP, rs2: get_c_rs2(inst), offset: get_c_swsp_imm(inst) }
            },
            (_, _) => {
                // C.SDSP
                Op::Sd { rs1: SP, rs2: get_c_rs2(inst), offset: get_c_sdsp_imm(inst) }
            },
        }
    }
}

/// Decoding only produces well-formed operations.
#[verifier::rlimit(50)]
pub proof fn lemma_decode_wf(w: u32)
    ensures
        op_wf(decode(w)),
{
    lemma_field_bounds();
}

} // verus!
