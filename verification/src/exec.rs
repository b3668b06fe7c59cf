//! The executor: applies one decoded operation to a machine state.
//!
//! `step` is the mathematical small-step semantics: from an operation and a
//! machine state to the next state and an outcome. `Op::execute` is proved
//! to implement it exactly. The executor never advances the program counter
//! past the instruction; the surrounding loop advances by the instruction
//! length on fall-through, and jumps and taken branches rewrite the counter
//! here. If `execute` errs, the register writes and counter updates made
//! before the error point remain, exactly as `step` states.

use crate::alu::{
    div32, div64, divu32, divu64, exec_div32, exec_div64, exec_mulh64, exec_mulhsu64,
    exec_mulhu64, exec_rem32, exec_rem64, mulh64, mulhsu64, mulhu64, rem32, rem64, remu32, remu64,
    sll32, sll64, sra32, sra64, srl32, srl64, wadd32, wadd64, wmul32, wmul64, wsub32, wsub64,
};
use crate::err::ExecError;
use crate::machine::{
    append_bytes, copy_range, le_bytes, le_val, lemma_le_val_bound, mem_in_range, mem_store,
    pc_in_range, reg_write, sext_val, EffectsV, Machine, MachineV,
};
use crate::op::{Op, A0, A1, A2, A7};
use crate::text::{dec_int, hex_nat, i64_to_dec, u64_to_hex};
use vstd::arithmetic::power2::{lemma2_to64, lemma2_to64_rest, pow2};
use vstd::prelude::*;
use vstd::string::StringExecFns;

verus! {

/// The result of one step: the next machine state and the outcome.
#[verifier::ext_equal]
pub struct StepR {
    pub m: MachineV,
    pub r: Result<(), ExecError>,
}

pub open spec fn st_ok(m: MachineV) -> StepR {
    StepR { m, r: Ok(()) }
}

pub open spec fn st_err(m: MachineV, e: ExecError) -> StepR {
    StepR { m, r: Err(e) }
}

/// Write `v` to register `rd` and fall through.
pub open spec fn st_wr(m: MachineV, rd: usize, v: i64) -> StepR {
    StepR { m: MachineV { regs: reg_write(m.regs, rd as int, v), ..m }, r: Ok(()) }
}

/// Take the branch iff `cond`: the target is the current counter plus the
/// offset, wrapping, and must stay in memory.
pub open spec fn st_branch(m: MachineV, cond: bool, offset: i64) -> StepR {
    if cond {
        let t = wadd64(m.pc, offset);
        if pc_in_range(m, t) {
            StepR { m: MachineV { pc: t, ..m }, r: Ok(()) }
        } else {
            st_err(m, ExecError::PcOutOfRange)
        }
    } else {
        st_ok(m)
    }
}

/// Load `width` bytes at `rs1 + offset` into `rd`, sign- or zero-extended.
pub open spec fn st_load(
    m: MachineV,
    rd: usize,
    rs1: usize,
    offset: i64,
    width: int,
    signed: bool,
) -> StepR {
    let ea = wadd64(m.regs[rs1 as int], offset);
    if mem_in_range(m, ea, width) {
        let v = le_val(m.mem.subrange(ea - m.base, ea - m.base + width));
        let x = if signed {
            sext_val(v, (8 * width) as nat)
        } else {
            v as i64
        };
        st_wr(m, rd, x)
    } else {
        st_err(m, ExecError::MemOutOfRange)
    }
}

/// Store the low `width` bytes of `rs2` at `rs1 + offset`, little-endian.
pub open spec fn st_store(m: MachineV, rs1: usize, rs2: usize, offset: i64, width: nat) -> StepR {
    let ea = wadd64(m.regs[rs1 as int], offset);
    if mem_in_range(m, ea, width as int) {
        StepR {
            m: MachineV {
                mem: mem_store(
                    m.mem,
                    ea - m.base,
                    le_bytes((m.regs[rs2 as int] as u64) as nat, width),
                ),
                ..m
            },
            r: Ok(()),
        }
    } else {
        st_err(m, ExecError::MemOutOfRange)
    }
}

/// The effect-trace line of a read system call.
pub open spec fn read_msg(fd: i64, addr: i64, count: i64) -> Seq<char> {
    "read("@ + dec_int(fd as int) + ", 0x"@ + hex_nat((addr as u64) as nat) + ", "@ + dec_int(
        count as int,
    ) + ")"@
}

/// The effect-trace line of a write system call.
pub open spec fn write_msg(fd: i64, addr: i64, count: i64) -> Seq<char> {
    "write("@ + dec_int(fd as int) + ", 0x"@ + hex_nat((addr as u64) as nat) + ", "@ + dec_int(
        count as int,
    ) + ")"@
}

/// The system-call dispatcher, by the value of a7: read (63), write (64),
/// exit (93); anything else is fatal. Read consumes from the machine's
/// pending input queue: up to a2 bytes, as many as are queued.
pub open spec fn st_ecall(m: MachineV) -> StepR {
    let a7 = m.regs[17];
    if a7 == 63 {
        let fd = m.regs[10];
        let buf = m.regs[11];
        let count = m.regs[12];
        let m1 = MachineV {
            effects: EffectsV { message: Some(read_msg(fd, buf, count)), ..m.effects },
            ..m
        };
        if fd != 0 {
            st_err(m1, ExecError::ReadBadFd(fd))
        } else if count < 0 {
            st_err(m1, ExecError::ReadBadCount(count))
        } else {
            let n = if count <= m.input.len() {
                count as int
            } else {
                m.input.len() as int
            };
            let chunk = m.input.take(n);
            if mem_in_range(m, buf, n) {
                StepR {
                    m: MachineV {
                        mem: mem_store(m1.mem, buf - m1.base, chunk),
                        regs: reg_write(m1.regs, 10, n as i64),
                        input: m.input.skip(n),
                        stdin: m.stdin + chunk,
                        effects: EffectsV { stdin: Some(chunk), ..m1.effects },
                        ..m1
                    },
                    r: Ok(()),
                }
            } else {
                st_err(m1, ExecError::MemOutOfRange)
            }
        }
    } else if a7 == 64 {
        let fd = m.regs[10];
        let buf = m.regs[11];
        let count = m.regs[12];
        let m1 = MachineV {
            effects: EffectsV { message: Some(write_msg(fd, buf, count)), ..m.effects },
            ..m
        };
        if fd != 1 {
            st_err(m1, ExecError::WriteBadFd(fd))
        } else if count < 0 {
            st_err(m1, ExecError::WriteBadCount(count))
        } else {
            if mem_in_range(m, buf, count as int) {
                let chunk = m.mem.subrange(buf - m.base, buf - m.base + count);
                StepR {
                    m: MachineV {
                        regs: reg_write(m1.regs, 10, count),
                        stdout: m.stdout + chunk,
                        effects: EffectsV { stdout: Some(chunk), ..m1.effects },
                        ..m1
                    },
                    r: Ok(()),
                }
            } else {
                st_err(m1, ExecError::MemOutOfRange)
            }
        }
    } else if a7 == 93 {
        st_err(m, ExecError::Exit((((m.regs[10] as u64) & 0xff) as i64)))
    } else {
        st_err(m, ExecError::UnsupportedSyscall(a7))
    }
}

/// The small-step semantics: the state after executing `op` on `m`, and
/// the outcome. `length` is the byte length of the fetched encoding (2 for
/// a compressed instruction, 4 otherwise); only jumps read it, to compute
/// the return address.
pub open spec fn step(op: Op, m: MachineV, length: i64) -> StepR
    recommends
        m.wf(),
        crate::op::op_wf(op),
{
    match op {
        Op::Add { rd, rs1, rs2 } => st_wr(m, rd, wadd64(m.regs[rs1 as int], m.regs[rs2 as int])),
        Op::Sub { rd, rs1, rs2 } => st_wr(m, rd, wsub64(m.regs[rs1 as int], m.regs[rs2 as int])),
        Op::Sll { rd, rs1, rs2 } => st_wr(
            m,
            rd,
            sll64(m.regs[rs1 as int], (m.regs[rs2 as int] as u64) & 0x3f),
        ),
        Op::Slt { rd, rs1, rs2 } => st_wr(
            m,
            rd,
            if m.regs[rs1 as int] < m.regs[rs2 as int] {
                1
            } else {
                0
            },
        ),
        Op::Sltu { rd, rs1, rs2 } => st_wr(
            m,
            rd,
            if (m.regs[rs1 as int] as u64) < (m.regs[rs2 as int] as u64) {
                1
            } else {
                0
            },
        ),
        Op::Xor { rd, rs1, rs2 } => st_wr(m, rd, m.regs[rs1 as int] ^ m.regs[rs2 as int]),
        Op::Srl { rd, rs1, rs2 } => st_wr(
            m,
            rd,
            srl64(m.regs[rs1 as int], (m.regs[rs2 as int] as u64) & 0x3f),
        ),
        Op::Sra { rd, rs1, rs2 } => st_wr(
            m,
            rd,
            sra64(m.regs[rs1 as int], (m.regs[rs2 as int] as u64) & 0x3f),
        ),
        Op::Or { rd, rs1, rs2 } => st_wr(m, rd, m.regs[rs1 as int] | m.regs[rs2 as int]),
        Op::And { rd, rs1, rs2 } => st_wr(m, rd, m.regs[rs1 as int] & m.regs[rs2 as int]),
        Op::Addw { rd, rs1, rs2 } => st_wr(
            m,
            rd,
            wadd32(m.regs[rs1 as int] as i32, m.regs[rs2 as int] as i32) as i64,
        ),
        Op::Subw { rd, rs1, rs2 } => st_wr(
            m,
            rd,
            wsub32(m.regs[rs1 as int] as i32, m.regs[rs2 as int] as i32) as i64,
        ),
        Op::Sllw { rd, rs1, rs2 } => st_wr(
            m,
            rd,
            sll32(m.regs[rs1 as int] as i32, (m.regs[rs2 as int] as i32 as u32) & 0x1f) as i64,
        ),
        Op::Srlw { rd, rs1, rs2 } => st_wr(
            m,
            rd,
            srl32(m.regs[rs1 as int] as i32, (m.regs[rs2 as int] as i32 as u32) & 0x1f) as i64,
        ),
        Op::Sraw { rd, rs1, rs2 } => st_wr(
            m,
            rd,
            sra32(m.regs[rs1 as int] as i32, (m.regs[rs2 as int] as i32 as u32) & 0x1f) as i64,
        ),
        Op::Addi { rd, rs1, imm } => st_wr(m, rd, wadd64(m.regs[rs1 as int], imm)),
        Op::Slti { rd, rs1, imm } => st_wr(
            m,
            rd,
            if m.regs[rs1 as int] < imm {
                1
            } else {
                0
            },
        ),
        Op::Sltiu { rd, rs1, imm } => st_wr(
            m,
            rd,
            if (m.regs[rs1 as int] as u64) < (imm as u64) {
                1
            } else {
                0
            },
        ),
        Op::Xori { rd, rs1, imm } => st_wr(m, rd, m.regs[rs1 as int] ^ imm),
        Op::Ori { rd, rs1, imm } => st_wr(m, rd, m.regs[rs1 as int] | imm),
        Op::Andi { rd, rs1, imm } => st_wr(m, rd, m.regs[rs1 as int] & imm),
        Op::Slli { rd, rs1, shamt } => st_wr(m, rd, sll64(m.regs[rs1 as int], shamt as u64)),
        Op::Srli { rd, rs1, shamt } => st_wr(m, rd, srl64(m.regs[rs1 as int], shamt as u64)),
        Op::Srai { rd, rs1, shamt } => st_wr(m, rd, sra64(m.regs[rs1 as int], shamt as u64)),
        Op::Addiw { rd, rs1, imm } => st_wr(
            m,
            rd,
            wadd32(m.regs[rs1 as int] as i32, imm as i32) as i64,
        ),
        Op::Slliw { rd, rs1, shamt } => st_wr(
            m,
            rd,
            sll32(m.regs[rs1 as int] as i32, shamt as u32) as i64,
        ),
        Op::Srliw { rd, rs1, shamt } => st_wr(
            m,
            rd,
            srl32(m.regs[rs1 as int] as i32, shamt as u32) as i64,
        ),
        Op::Sraiw { rd, rs1, shamt } => st_wr(
            m,
            rd,
            sra32(m.regs[rs1 as int] as i32, shamt as u32) as i64,
        ),
        Op::Beq { rs1, rs2, offset } => st_branch(
            m,
            m.regs[rs1 as int] == m.regs[rs2 as int],
            offset,
        ),
        Op::Bne { rs1, rs2, offset } => st_branch(
            m,
            m.regs[rs1 as int] != m.regs[rs2 as int],
            offset,
        ),
        Op::Blt { rs1, rs2, offset } => st_branch(
            m,
            m.regs[rs1 as int] < m.regs[rs2 as int],
            offset,
        ),
        Op::Bge { rs1, rs2, offset } => st_branch(
            m,
            m.regs[rs1 as int] >= m.regs[rs2 as int],
            offset,
        ),
        Op::Bltu { rs1, rs2, offset } => st_branch(
            m,
            (m.regs[rs1 as int] as u64) < (m.regs[rs2 as int] as u64),
            offset,
        ),
        Op::Bgeu { rs1, rs2, offset } => st_branch(
            m,
            (m.regs[rs1 as int] as u64) >= (m.regs[rs2 as int] as u64),
            offset,
        ),
        Op::Jal { rd, offset } => {
            let m1 = MachineV { regs: reg_write(m.regs, rd as int, wadd64(m.pc, length)), ..m };
            let t = wadd64(m.pc, offset);
            if pc_in_range(m1, t) {
                StepR { m: MachineV { pc: t, ..m1 }, r: Ok(()) }
            } else {
                st_err(m1, ExecError::PcOutOfRange)
            }
        },
        Op::Jalr { rd, rs1, offset } => {
            let rs1_val = m.regs[rs1 as int];
            let m1 = MachineV { regs: reg_write(m.regs, rd as int, wadd64(m.pc, length)), ..m };
            let t = ((wadd64(rs1_val, offset) as u64) & 0xffff_ffff_ffff_fffe) as i64;
            if pc_in_range(m1, t) {
                StepR { m: MachineV { pc: t, ..m1 }, r: Ok(()) }
            } else {
                st_err(m1, ExecError::PcOutOfRange)
            }
        },
        Op::Lb { rd, rs1, offset } => st_load(m, rd, rs1, offset, 1, true),
        Op::Lh { rd, rs1, offset } => st_load(m, rd, rs1, offset, 2, true),
        Op::Lw { rd, rs1, offset } => st_load(m, rd, rs1, offset, 4, true),
        Op::Ld { rd, rs1, offset } => st_load(m, rd, rs1, offset, 8, true),
        Op::Lbu { rd, rs1, offset } => st_load(m, rd, rs1, offset, 1, false),
        Op::Lhu { rd, rs1, offset } => st_load(m, rd, rs1, offset, 2, false),
        Op::Lwu { rd, rs1, offset } => st_load(m, rd, rs1, offset, 4, false),
        Op::Sb { rs1, rs2, offset } => st_store(m, rs1, rs2, offset, 1),
        Op::Sh { rs1, rs2, offset } => st_store(m, rs1, rs2, offset, 2),
        Op::Sw { rs1, rs2, offset } => st_store(m, rs1, rs2, offset, 4),
        Op::Sd { rs1, rs2, offset } => st_store(m, rs1, rs2, offset, 8),
        Op::Lui { rd, imm } => st_wr(m, rd, imm),
        Op::Auipc { rd, imm } => st_wr(m, rd, wadd64(m.pc, imm)),
        Op::Fence => st_ok(m),
        Op::Ecall => st_ecall(m),
        Op::Ebreak => st_err(m, ExecError::Ebreak),
        Op::Mul { rd, rs1, rs2 } => st_wr(m, rd, wmul64(m.regs[rs1 as int], m.regs[rs2 as int])),
        Op::Mulh { rd, rs1, rs2 } => st_wr(m, rd, mulh64(m.regs[rs1 as int], m.regs[rs2 as int])),
        Op::Mulhsu { rd, rs1, rs2 } => st_wr(
            m,
            rd,
            mulhsu64(m.regs[rs1 as int], m.regs[rs2 as int]),
        ),
        Op::Mulhu { rd, rs1, rs2 } => st_wr(
            m,
            rd,
            mulhu64(m.regs[rs1 as int], m.regs[rs2 as int]),
        ),
        Op::Div { rd, rs1, rs2 } => st_wr(m, rd, div64(m.regs[rs1 as int], m.regs[rs2 as int])),
        Op::Divu { rd, rs1, rs2 } => st_wr(m, rd, divu64(m.regs[rs1 as int], m.regs[rs2 as int])),
        Op::Rem { rd, rs1, rs2 } => st_wr(m, rd, rem64(m.regs[rs1 as int], m.regs[rs2 as int])),
        Op::Remu { rd, rs1, rs2 } => st_wr(m, rd, remu64(m.regs[rs1 as int], m.regs[rs2 as int])),
        Op::Mulw { rd, rs1, rs2 } => st_wr(
            m,
            rd,
            wmul32(m.regs[rs1 as int] as i32, m.regs[rs2 as int] as i32) as i64,
        ),
        Op::Divw { rd, rs1, rs2 } => st_wr(
            m,
            rd,
            div32(m.regs[rs1 as int] as i32, m.regs[rs2 as int] as i32) as i64,
        ),
        Op::Divuw { rd, rs1, rs2 } => st_wr(
            m,
            rd,
            divu32(m.regs[rs1 as int] as i32, m.regs[rs2 as int] as i32) as i64,
        ),
        Op::Remw { rd, rs1, rs2 } => st_wr(
            m,
            rd,
            rem32(m.regs[rs1 as int] as i32, m.regs[rs2 as int] as i32) as i64,
        ),
        Op::Remuw { rd, rs1, rs2 } => st_wr(
            m,
            rd,
            remu32(m.regs[rs1 as int] as i32, m.regs[rs2 as int] as i32) as i64,
        ),
        Op::Unimplemented { inst, note } => st_err(m, ExecError::Unimplemented { inst, note }),
    }
}

/// Wrap a 64-bit unsigned value into the signed range, two's complement.
fn u64_to_i64_wrap(v: u64) -> (r: i64)
    ensures
        r as int == sext_val(v as nat, 64),
{
    proof {
        lemma2_to64();
        lemma2_to64_rest();
    }
    if v < 0x8000_0000_0000_0000 {
        proof {
            assert((v as nat) < pow2(63));
        }
        v as i64
    } else {
        let r = ((v - 0x8000_0000_0000_0000) as i64) + i64::MIN;
        proof {
            assert(r as int == v as int - 0x1_0000_0000_0000_0000);
            assert(sext_val(v as nat, 64) == ((v as nat) - pow2(64)) as i64);
            assert(((v as nat) - pow2(64)) as i64 as int == v as int - 0x1_0000_0000_0000_0000);
        }
        r
    }
}

fn make_read_msg(fd: i64, addr: i64, count: i64) -> (r: String)
    ensures
        r@ == read_msg(fd, addr, count),
{
    let r = String::from_str("read(").concat(i64_to_dec(fd).as_str()).concat(", 0x").concat(
        u64_to_hex(#[verifier::truncate] (addr as u64)).as_str(),
    ).concat(", ").concat(i64_to_dec(count).as_str()).concat(")");
    proof {
        assert(r@ =~= read_msg(fd, addr, count));
    }
    r
}

fn make_write_msg(fd: i64, addr: i64, count: i64) -> (r: String)
    ensures
        r@ == write_msg(fd, addr, count),
{
    let r = String::from_str("write(").concat(i64_to_dec(fd).as_str()).concat(", 0x").concat(
        u64_to_hex(#[verifier::truncate] (addr as u64)).as_str(),
    ).concat(", ").concat(i64_to_dec(count).as_str()).concat(")");
    proof {
        assert(r@ =~= write_msg(fd, addr, count));
    }
    r
}

impl Op {
    /// Execute one operation against the machine. The program counter is
    /// not advanced on fall-through; `length` (2 or 4) is only used to
    /// compute return addresses for `jal`/`jalr`.
    #[verifier::rlimit(100)]
    pub fn execute(&self, m: &mut Machine, length: i64) -> (r: Result<(), ExecError>)
        requires
            old(m).wf(),
            crate::op::op_wf(*self),
        ensures
            final(m).wf(),
            final(m)@ == step(*self, old(m)@, length).m,
            r == step(*self, old(m)@, length).r,
    {
        let ghost pre = old(m)@;
        match *self {
            Op::Add { rd, rs1, rs2 } => {
                let val = m.get(rs1).wrapping_add(m.get(rs2));
                m.set(rd, val);
                Ok(())
            },
            Op::Sub { rd, rs1, rs2 } => {
                let val = m.get(rs1).wrapping_sub(m.get(rs2));
                m.set(rd, val);
                Ok(())
            },
            Op::Sll { rd, rs1, rs2 } => {
                let sh = #[verifier::truncate] (m.get(rs2) as u64) & 0x3f;
                proof {
                    crate::alu::lemma_exec_bounds();
                }
                let val = m.get(rs1) << sh;
                m.set(rd, val);
                Ok(())
            },
            Op::Slt { rd, rs1, rs2 } => {
                let val: i64 = if m.get(rs1) < m.get(rs2) {
                    1
                } else {
                    0
                };
                m.set(rd, val);
                Ok(())
            },
            Op::Sltu { rd, rs1, rs2 } => {
                let a = #[verifier::truncate] (m.get(rs1) as u64);
                let b = #[verifier::truncate] (m.get(rs2) as u64);
                let val: i64 = if a < b {
                    1
                } else {
                    0
                };
                m.set(rd, val);
                Ok(())
            },
            Op::Xor { rd, rs1, rs2 } => {
                let val = m.get(rs1) ^ m.get(rs2);
                m.set(rd, val);
                Ok(())
            },
            Op::Srl { rd, rs1, rs2 } => {
                let sh = #[verifier::truncate] (m.get(rs2) as u64) & 0x3f;
                proof {
                    crate::alu::lemma_exec_bounds();
                }
                let val = #[verifier::truncate] (((#[verifier::truncate] (m.get(rs1) as u64))
                    >> sh) as i64);
                m.set(rd, val);
                Ok(())
            },
            Op::Sra { rd, rs1, rs2 } => {
                let sh = #[verifier::truncate] (m.get(rs2) as u64) & 0x3f;
                proof {
                    crate::alu::lemma_exec_bounds();
                }
                let val = m.get(rs1) >> sh;
                m.set(rd, val);
                Ok(())
            },
            Op::Or { rd, rs1, rs2 } => {
                let val = m.get(rs1) | m.get(rs2);
                m.set(rd, val);
                Ok(())
            },
            Op::And { rd, rs1, rs2 } => {
                let val = m.get(rs1) & m.get(rs2);
                m.set(rd, val);
                Ok(())
            },
            Op::Addw { rd, rs1, rs2 } => {
                let val = m.get32(rs1).wrapping_add(m.get32(rs2));
                m.set32(rd, val);
                Ok(())
            },
            Op::Subw { rd, rs1, rs2 } => {
                let val = m.get32(rs1).wrapping_sub(m.get32(rs2));
                m.set32(rd, val);
                Ok(())
            },
            Op::Sllw { rd, rs1, rs2 } => {
                let sh = #[verifier::truncate] (m.get32(rs2) as u32) & 0x1f;
                proof {
                    crate::alu::lemma_exec_bounds();
                }
                let val = m.get32(rs1) << sh;
                m.set32(rd, val);
                Ok(())
            },
            Op::Srlw { rd, rs1, rs2 } => {
                let sh = #[verifier::truncate] (m.get32(rs2) as u32) & 0x1f;
                proof {
                    crate::alu::lemma_exec_bounds();
                }
                let val = #[verifier::truncate] (((#[verifier::truncate] (m.get32(rs1) as u32))
                    >> sh) as i32);
                m.set32(rd, val);
                Ok(())
            },
            Op::Sraw { rd, rs1, rs2 } => {
                let sh = #[verifier::truncate] (m.get32(rs2) as u32) & 0x1f;
                proof {
                    crate::alu::lemma_exec_bounds();
                }
                let val = m.get32(rs1) >> sh;
                m.set32(rd, val);
                Ok(())
            },
            Op::Addi { rd, rs1, imm } => {
                let val = m.get(rs1).wrapping_add(imm);
                m.set(rd, val);
                Ok(())
            },
            Op::Slti { rd, rs1, imm } => {
                let val: i64 = if m.get(rs1) < imm {
                    1
                } else {
                    0
                };
                m.set(rd, val);
                Ok(())
            },
            Op::Sltiu { rd, rs1, imm } => {
                let a = #[verifier::truncate] (m.get(rs1) as u64);
                let b = #[verifier::truncate] (imm as u64);
                let val: i64 = if a < b {
                    1
                } else {
                    0
                };
                m.set(rd, val);
                Ok(())
            },
            Op::Xori { rd, rs1, imm } => {
                let val = m.get(rs1) ^ imm;
                m.set(rd, val);
                Ok(())
            },
            Op::Ori { rd, rs1, imm } => {
                let val = m.get(rs1) | imm;
                m.set(rd, val);
                Ok(())
            },
            Op::Andi { rd, rs1, imm } => {
                let val = m.get(rs1) & imm;
                m.set(rd, val);
                Ok(())
            },
            Op::Slli { rd, rs1, shamt } => {
                let val = m.get(rs1) << (shamt as u64);
                m.set(rd, val);
                Ok(())
            },
            Op::Srli { rd, rs1, shamt } => {
                let val = #[verifier::truncate] (((#[verifier::truncate] (m.get(rs1) as u64))
                    >> (shamt as u64)) as i64);
                m.set(rd, val);
                Ok(())
            },
            Op::Srai { rd, rs1, shamt } => {
                let val = m.get(rs1) >> (shamt as u64);
                m.set(rd, val);
                Ok(())
            },
            Op::Addiw { rd, rs1, imm } => {
                let val = m.get32(rs1).wrapping_add(#[verifier::truncate] (imm as i32));
                m.set32(rd, val);
                Ok(())
            },
            Op::Slliw { rd, rs1, shamt } => {
                let val = m.get32(rs1) << (shamt as u32);
                m.set32(rd, val);
                Ok(())
            },
            Op::Srliw { rd, rs1, shamt } => {
                let val = #[verifier::truncate] (((#[verifier::truncate] (m.get32(rs1) as u32))
                    >> (shamt as u32)) as i32);
                m.set32(rd, val);
                Ok(())
            },
            Op::Sraiw { rd, rs1, shamt } => {
                let val = m.get32(rs1) >> (shamt as u32);
                m.set32(rd, val);
                Ok(())
            },
            Op::Beq { rs1, rs2, offset } => {
                if m.get(rs1) == m.get(rs2) {
                    m.set_pc(m.pc.wrapping_add(offset))
                } else {
                    Ok(())
                }
            },
            Op::Bne { rs1, rs2, offset } => {
                if m.get(rs1) != m.get(rs2) {
                    m.set_pc(m.pc.wrapping_add(offset))
                } else {
                    Ok(())
                }
            },
            Op::Blt { rs1, rs2, offset } => {
                if m.get(rs1) < m.get(rs2) {
                    m.set_pc(m.pc.wrapping_add(offset))
                } else {
                    Ok(())
                }
            },
            Op::Bge { rs1, rs2, offset } => {
                if m.get(rs1) >= m.get(rs2) {
                    m.set_pc(m.pc.wrapping_add(offset))
                } else {
                    Ok(())
                }
            },
            Op::Bltu { rs1, rs2, offset } => {
                let a = #[verifier::truncate] (m.get(rs1) as u64);
                let b = #[verifier::truncate] (m.get(rs2) as u64);
                if a < b {
                    m.set_pc(m.pc.wrapping_add(offset))
                } else {
                    Ok(())
                }
            },
            Op::Bgeu { rs1, rs2, offset } => {
                let a = #[verifier::truncate] (m.get(rs1) as u64);
                let b = #[verifier::truncate] (m.get(rs2) as u64);
                if a >= b {
                    m.set_pc(m.pc.wrapping_add(offset))
                } else {
                    Ok(())
                }
            },
            Op::Jal { rd, offset } => {
                let ret = m.pc.wrapping_add(length);
                m.set(rd, ret);
                m.set_pc(m.pc.wrapping_add(offset))
            },
            Op::Jalr { rd, rs1, offset } => {
                let rs1_val = m.get(rs1);
                let ret = m.pc.wrapping_add(length);
                m.set(rd, ret);
                let t = #[verifier::truncate] (rs1_val.wrapping_add(offset) as u64)
                    & 0xffff_ffff_ffff_fffe;
                m.set_pc(#[verifier::truncate] (t as i64))
            },
            Op::Lb { rd, rs1, offset } => {
                let ea = m.get(rs1).wrapping_add(offset);
                match m.load_le(ea, 1) {
                    Err(e) => Err(e),
                    Ok(v) => {
                        proof {
                            lemma_le_val_bound(pre.mem.subrange(ea - pre.base, ea - pre.base + 1));
                            lemma2_to64();
                        }
                        let x: i64 = if v >= 0x80 {
                            (v as i64) - 0x100
                        } else {
                            v as i64
                        };
                        m.set(rd, x);
                        Ok(())
                    },
                }
            },
            Op::Lh { rd, rs1, offset } => {
                let ea = m.get(rs1).wrapping_add(offset);
                match m.load_le(ea, 2) {
                    Err(e) => Err(e),
                    Ok(v) => {
                        proof {
                            lemma_le_val_bound(pre.mem.subrange(ea - pre.base, ea - pre.base + 2));
                            lemma2_to64();
                        }
                        let x: i64 = if v >= 0x8000 {
                            (v as i64) - 0x1_0000
                        } else {
                            v as i64
                        };
                        m.set(rd, x);
                        Ok(())
                    },
                }
            },
            Op::Lw { rd, rs1, offset } => {
                let ea = m.get(rs1).wrapping_add(offset);
                match m.load_le(ea, 4) {
                    Err(e) => Err(e),
                    Ok(v) => {
                        proof {
                            lemma_le_val_bound(pre.mem.subrange(ea - pre.base, ea - pre.base + 4));
                            lemma2_to64();
                        }
                        let x: i64 = if v >= 0x8000_0000 {
                            (v as i64) - 0x1_0000_0000
                        } else {
                            v as i64
                        };
                        m.set(rd, x);
                        Ok(())
                    },
                }
            },
            Op::Ld { rd, rs1, offset } => {
                let ea = m.get(rs1).wrapping_add(offset);
                match m.load_le(ea, 8) {
                    Err(e) => Err(e),
                    Ok(v) => {
                        proof {
                            lemma_le_val_bound(pre.mem.subrange(ea - pre.base, ea - pre.base + 8));
                            lemma2_to64();
                        }
                        let x = u64_to_i64_wrap(v);
                        m.set(rd, x);
                        Ok(())
                    },
                }
            },
            Op::Lbu { rd, rs1, offset } => {
                let ea = m.get(rs1).wrapping_add(offset);
                match m.load_le(ea, 1) {
                    Err(e) => Err(e),
                    Ok(v) => {
                        proof {
                            lemma_le_val_bound(pre.mem.subrange(ea - pre.base, ea - pre.base + 1));
                            lemma2_to64();
                        }
                        m.set(rd, v as i64);
                        Ok(())
                    },
                }
            },
            Op::Lhu { rd, rs1, offset } => {
                let ea = m.get(rs1).wrapping_add(offset);
                match m.load_le(ea, 2) {
                    Err(e) => Err(e),
                    Ok(v) => {
                        proof {
                            lemma_le_val_bound(pre.mem.subrange(ea - pre.base, ea - pre.base + 2));
                            lemma2_to64();
                        }
                        m.set(rd, v as i64);
                        Ok(())
                    },
                }
            },
            Op::Lwu { rd, rs1, offset } => {
                let ea = m.get(rs1).wrapping_add(offset);
                match m.load_le(ea, 4) {
                    Err(e) => Err(e),
                    Ok(v) => {
                        proof {
                            lemma_le_val_bound(pre.mem.subrange(ea - pre.base, ea - pre.base + 4));
                            lemma2_to64();
                        }
                        m.set(rd, v as i64);
                        Ok(())
                    },
                }
            },
            Op::Sb { rs1, rs2, offset } => {
                let ea = m.get(rs1).wrapping_add(offset);
                let v = #[verifier::truncate] (m.get(rs2) as u64);
                m.store_le(ea, v, 1)
            },
            Op::Sh { rs1, rs2, offset } => {
                let ea = m.get(rs1).wrapping_add(offset);
                let v = #[verifier::truncate] (m.get(rs2) as u64);
                m.store_le(ea, v, 2)
            },
            Op::Sw { rs1, rs2, offset } => {
                let ea = m.get(rs1).wrapping_add(offset);
                let v = #[verifier::truncate] (m.get(rs2) as u64);
                m.store_le(ea, v, 4)
            },
            Op::Sd { rs1, rs2, offset } => {
                let ea = m.get(rs1).wrapping_add(offset);
                let v = #[verifier::truncate] (m.get(rs2) as u64);
                m.store_le(ea, v, 8)
            },
            Op::Lui { rd, imm } => {
                m.set(rd, imm);
                Ok(())
            },
            Op::Auipc { rd, imm } => {
                let val = m.pc.wrapping_add(imm);
                m.set(rd, val);
                Ok(())
            },
            Op::Fence => Ok(()),
            Op::Ecall => self.execute_ecall(m),
            Op::Ebreak => Err(ExecError::Ebreak),
            Op::Mul { rd, rs1, rs2 } => {
                let val = m.get(rs1).wrapping_mul(m.get(rs2));
                m.set(rd, val);
                Ok(())
            },
            Op::Mulh { rd, rs1, rs2 } => {
                let val = exec_mulh64(m.get(rs1), m.get(rs2));
                m.set(rd, val);
                Ok(())
            },
            Op::Mulhsu { rd, rs1, rs2 } => {
                let val = exec_mulhsu64(m.get(rs1), m.get(rs2));
                m.set(rd, val);
                Ok(())
            },
            Op::Mulhu { rd, rs1, rs2 } => {
                let val = exec_mulhu64(m.get(rs1), m.get(rs2));
                m.set(rd, val);
                Ok(())
            },
            Op::Div { rd, rs1, rs2 } => {
                let val = exec_div64(m.get(rs1), m.get(rs2));
                m.set(rd, val);
                Ok(())
            },
            Op::Divu { rd, rs1, rs2 } => {
                let a = m.get(rs1);
                let b = m.get(rs2);
                let bu = #[verifier::truncate] (b as u64);
                let val: i64 = if bu == 0 {
                    -1
                } else {
                    let au = #[verifier::truncate] (a as u64);
                    #[verifier::truncate] ((au / bu) as i64)
                };
                proof {
                    crate::alu::lemma_exec_bounds();
                }
                m.set(rd, val);
                Ok(())
            },
            Op::Remu { rd, rs1, rs2 } => {
                let a = m.get(rs1);
                let b = m.get(rs2);
                let bu = #[verifier::truncate] (b as u64);
                let val: i64 = if bu == 0 {
                    a
                } else {
                    let au = #[verifier::truncate] (a as u64);
                    #[verifier::truncate] ((au % bu) as i64)
                };
                proof {
                    crate::alu::lemma_exec_bounds();
                }
                m.set(rd, val);
                Ok(())
            },
            Op::Mulw { rd, rs1, rs2 } => {
                let val = m.get32(rs1).wrapping_mul(m.get32(rs2));
                m.set32(rd, val);
                Ok(())
            },
            Op::Divw { rd, rs1, rs2 } => {
                let val = exec_div32(m.get32(rs1), m.get32(rs2));
                m.set32(rd, val);
                Ok(())
            },
            Op::Divuw { rd, rs1, rs2 } => {
                let a = m.get32(rs1);
                let b = m.get32(rs2);
                let bu = #[verifier::truncate] (b as u32);
                let val: i32 = if bu == 0 {
                    -1
                } else {
                    let au = #[verifier::truncate] (a as u32);
                    #[verifier::truncate] ((au / bu) as i32)
                };
                proof {
                    crate::alu::lemma_exec_bounds();
                }
                m.set32(rd, val);
                Ok(())
            },
            Op::Remw { rd, rs1, rs2 } => {
                let val = exec_rem32(m.get32(rs1), m.get32(rs2));
                m.set32(rd, val);
                Ok(())
            },
            Op::Remuw { rd, rs1, rs2 } => {
                let a = m.get32(rs1);
                let b = m.get32(rs2);
                let bu = #[verifier::truncate] (b as u32);
                let val: i32 = if bu == 0 {
                    a
                } else {
                    let au = #[verifier::truncate] (a as u32);
                    #[verifier::truncate] ((au % bu) as i32)
                };
                proof {
                    crate::alu::lemma_exec_bounds();
                }
                m.set32(rd, val);
                Ok(())
            },
            Op::Rem { rd, rs1, rs2 } => {
                let val = exec_rem64(m.get(rs1), m.get(rs2));
                m.set(rd, val);
                Ok(())
            },
            Op::Unimplemented { inst, note } => Err(ExecError::Unimplemented { inst, note }),
        }
    }

    /// The system-call dispatcher: read, write, exit by the value of a7.
    #[verifier::rlimit(100)]
    fn execute_ecall(&self, m: &mut Machine) -> (r: Result<(), ExecError>)
        requires
            old(m).wf(),
        ensures
            final(m).wf(),
            final(m)@ == st_ecall(old(m)@).m,
            r == st_ecall(old(m)@).r,
    {
        let ghost pre = old(m)@;
        let a7 = m.get(A7);
        if a7 == 63 {
            // read system call
            let msg = make_read_msg(m.get(A0), m.get(A1), m.get(A2));
            m.effects.message = Some(msg);
            let fd = m.get(A0);
            let buf_addr = m.get(A1);
            let count = m.get(A2);
            if fd != 0 {
                return Err(ExecError::ReadBadFd(fd));
            }
            if count < 0 {
                return Err(ExecError::ReadBadCount(count));
            }
            let n: usize = if (count as u64) <= (m.input.len() as u64) {
                count as usize
            } else {
                m.input.len()
            };
            let chunk = copy_range(&m.input, 0, n);
            proof {
                assert(chunk@ =~= pre.input.take(n as int));
            }
            match m.store_bytes(buf_addr, &chunk) {
                Err(e) => {
                    proof {
                        assert(m@ =~= st_ecall(pre).m);
                    }
                    return Err(e);
                },
                Ok(()) => {},
            }
            m.set(A0, n as i64);
            let rest = copy_range(&m.input, n, m.input.len());
            proof {
                assert(rest@ =~= pre.input.skip(n as int));
            }
            m.input = rest;
            append_bytes(&mut m.stdin, &chunk);
            m.effects.stdin = Some(chunk);
            proof {
                assert(m@ =~= st_ecall(pre).m);
            }
            Ok(())
        } else if a7 == 64 {
            // write system call
            let msg = make_write_msg(m.get(A0), m.get(A1), m.get(A2));
            m.effects.message = Some(msg);
            let fd = m.get(A0);
            let buf_addr = m.get(A1);
            let count = m.get(A2);
            if fd != 1 {
                return Err(ExecError::WriteBadFd(fd));
            }
            if count < 0 {
                return Err(ExecError::WriteBadCount(count));
            }
            let chunk = match m.load_bytes(buf_addr, count) {
                Err(e) => {
                    proof {
                        assert(m@ =~= st_ecall(pre).m);
                    }
                    return Err(e);
                },
                Ok(v) => v,
            };
            m.set(A0, count);
            append_bytes(&mut m.stdout, &chunk);
            m.effects.stdout = Some(chunk);
            proof {
                assert(m@ =~= st_ecall(pre).m);
            }
            Ok(())
        } else if a7 == 93 {
            // exit system call
            let status = ((#[verifier::truncate] (m.get(A0) as u64)) & 0xff) as i64;
            Err(ExecError::Exit(status))
        } else {
            Err(ExecError::UnsupportedSyscall(a7))
        }
    }
}

} // verus!
