use riscv_core::err::ExecError;
use riscv_core::machine::Machine;
use riscv_core::op::Op;

fn fresh() -> Machine {
    Machine::new(0, 4096, Vec::new())
}

#[test]
fn write_to_zero_register_discarded() {
    let mut m = fresh();
    let op = Op::Addi { rd: 0, rs1: 0, imm: 7 };
    assert_eq!(op.execute(&mut m, 4), Ok(()));
    assert_eq!(m.get(0), 0);
    assert_eq!(m.pc, 0);
}

#[test]
fn add_wraps() {
    let mut m = fresh();
    m.set(11, i64::MAX);
    m.set(12, 1);
    assert_eq!(Op::Add { rd: 10, rs1: 11, rs2: 12 }.execute(&mut m, 4), Ok(()));
    assert_eq!(m.get(10), i64::MIN);
}

#[test]
fn wform_sign_extends() {
    let mut m = fresh();
    // addw: 0x7fff_ffff + 1 wraps to -0x8000_0000, sign-extended
    m.set(11, 0x7fff_ffff);
    m.set(12, 1);
    assert_eq!(Op::Addw { rd: 10, rs1: 11, rs2: 12 }.execute(&mut m, 4), Ok(()));
    assert_eq!(m.get(10), -0x8000_0000i64);
    // only the low 32 bits of the sources matter
    m.set(11, 0x1_0000_0005i64);
    m.set(12, 2);
    assert_eq!(Op::Addw { rd: 10, rs1: 11, rs2: 12 }.execute(&mut m, 4), Ok(()));
    assert_eq!(m.get(10), 7);
}

#[test]
fn shifts() {
    let mut m = fresh();
    m.set(11, -8);
    m.set(12, 2);
    assert_eq!(Op::Sra { rd: 10, rs1: 11, rs2: 12 }.execute(&mut m, 4), Ok(()));
    assert_eq!(m.get(10), -2);
    assert_eq!(Op::Srl { rd: 10, rs1: 11, rs2: 12 }.execute(&mut m, 4), Ok(()));
    assert_eq!(m.get(10), ((-8i64 as u64) >> 2) as i64);
    // shift source uses only its low six bits
    m.set(12, 64 + 2);
    assert_eq!(Op::Sll { rd: 10, rs1: 11, rs2: 12 }.execute(&mut m, 4), Ok(()));
    assert_eq!(m.get(10), -32);
}

#[test]
fn slli_then_srli_masks_high_bits() {
    let mut m = fresh();
    m.set(11, -1);
    assert_eq!(Op::Slli { rd: 10, rs1: 11, shamt: 16 }.execute(&mut m, 4), Ok(()));
    assert_eq!(Op::Srli { rd: 10, rs1: 10, shamt: 16 }.execute(&mut m, 4), Ok(()));
    assert_eq!(m.get(10) as u64, 0x0000_ffff_ffff_ffff);
}

#[test]
fn comparisons() {
    let mut m = fresh();
    m.set(11, -1);
    m.set(12, 1);
    assert_eq!(Op::Slt { rd: 10, rs1: 11, rs2: 12 }.execute(&mut m, 4), Ok(()));
    assert_eq!(m.get(10), 1);
    assert_eq!(Op::Sltu { rd: 10, rs1: 11, rs2: 12 }.execute(&mut m, 4), Ok(()));
    assert_eq!(m.get(10), 0);
    assert_eq!(Op::Sltiu { rd: 10, rs1: 12, imm: -1 }.execute(&mut m, 4), Ok(()));
    assert_eq!(m.get(10), 1);
}

#[test]
fn mul_and_high_halves() {
    let mut m = fresh();
    m.set(11, -3);
    m.set(12, 5);
    assert_eq!(Op::Mul { rd: 10, rs1: 11, rs2: 12 }.execute(&mut m, 4), Ok(()));
    assert_eq!(m.get(10), -15);
    assert_eq!(Op::Mulh { rd: 10, rs1: 11, rs2: 12 }.execute(&mut m, 4), Ok(()));
    assert_eq!(m.get(10), -1);
    // mulhu of two large values: (2^63)^2 >> 64 = 2^62
    m.set(11, i64::MIN);
    m.set(12, i64::MIN);
    assert_eq!(Op::Mulhu { rd: 10, rs1: 11, rs2: 12 }.execute(&mut m, 4), Ok(()));
    assert_eq!(m.get(10), 0x4000_0000_0000_0000);
    assert_eq!(Op::Mulh { rd: 10, rs1: 11, rs2: 12 }.execute(&mut m, 4), Ok(()));
    assert_eq!(m.get(10), 0x4000_0000_0000_0000);
    // mulhsu: -1 * (2^64 - 1) = -(2^64 - 1); high half is -1
    m.set(11, -1);
    m.set(12, -1);
    assert_eq!(Op::Mulhsu { rd: 10, rs1: 11, rs2: 12 }.execute(&mut m, 4), Ok(()));
    assert_eq!(m.get(10), -1);
}

#[test]
fn division_by_zero() {
    let mut m = fresh();
    m.set(11, 7);
    m.set(12, 0);
    assert_eq!(Op::Div { rd: 10, rs1: 11, rs2: 12 }.execute(&mut m, 4), Ok(()));
    assert_eq!(m.get(10), -1);
    assert_eq!(Op::Rem { rd: 10, rs1: 11, rs2: 12 }.execute(&mut m, 4), Ok(()));
    assert_eq!(m.get(10), 7);
    assert_eq!(Op::Divu { rd: 10, rs1: 11, rs2: 12 }.execute(&mut m, 4), Ok(()));
    assert_eq!(m.get(10) as u64, u64::MAX);
    assert_eq!(Op::Remu { rd: 10, rs1: 11, rs2: 12 }.execute(&mut m, 4), Ok(()));
    assert_eq!(m.get(10), 7);
    m.set(11, -9);
    assert_eq!(Op::Divw { rd: 10, rs1: 11, rs2: 12 }.execute(&mut m, 4), Ok(()));
    assert_eq!(m.get(10), -1);
    assert_eq!(Op::Remw { rd: 10, rs1: 11, rs2: 12 }.execute(&mut m, 4), Ok(()));
    assert_eq!(m.get(10), -9);
    assert_eq!(Op::Divuw { rd: 10, rs1: 11, rs2: 12 }.execute(&mut m, 4), Ok(()));
    assert_eq!(m.get(10), -1);
    assert_eq!(Op::Remuw { rd: 10, rs1: 11, rs2: 12 }.execute(&mut m, 4), Ok(()));
    assert_eq!(m.get(10), -9);
}

#[test]
fn division_signed_overflow() {
    let mut m = fresh();
    m.set(11, i64::MIN);
    m.set(12, -1);
    assert_eq!(Op::Div { rd: 10, rs1: 11, rs2: 12 }.execute(&mut m, 4), Ok(()));
    assert_eq!(m.get(10), i64::MIN);
    assert_eq!(Op::Rem { rd: 10, rs1: 11, rs2: 12 }.execute(&mut m, 4), Ok(()));
    assert_eq!(m.get(10), 0);
    m.set(11, i32::MIN as i64);
    assert_eq!(Op::Divw { rd: 10, rs1: 11, rs2: 12 }.execute(&mut m, 4), Ok(()));
    assert_eq!(m.get(10), i32::MIN as i64);
    assert_eq!(Op::Remw { rd: 10, rs1: 11, rs2: 12 }.execute(&mut m, 4), Ok(()));
    assert_eq!(m.get(10), 0);
}

#[test]
fn truncated_division_rounds_toward_zero() {
    let mut m = fresh();
    m.set(11, -7);
    m.set(12, 2);
    assert_eq!(Op::Div { rd: 10, rs1: 11, rs2: 12 }.execute(&mut m, 4), Ok(()));
    assert_eq!(m.get(10), -3);
    assert_eq!(Op::Rem { rd: 10, rs1: 11, rs2: 12 }.execute(&mut m, 4), Ok(()));
    assert_eq!(m.get(10), -1);
}

#[test]
fn branch_taken_and_fall_through() {
    // beq x0, x0, 0 rewrites the counter to itself: an infinite loop
    let mut m = fresh();
    assert_eq!(Op::Beq { rs1: 0, rs2: 0, offset: 0 }.execute(&mut m, 4), Ok(()));
    assert_eq!(m.pc, 0);
    // bne x0, x0, 8 falls through: the counter is untouched here
    assert_eq!(Op::Bne { rs1: 0, rs2: 0, offset: 8 }.execute(&mut m, 4), Ok(()));
    assert_eq!(m.pc, 0);
    // beq x0, x0, 8 is taken
    assert_eq!(Op::Beq { rs1: 0, rs2: 0, offset: 8 }.execute(&mut m, 4), Ok(()));
    assert_eq!(m.pc, 8);
}

#[test]
fn jal_and_jalr() {
    let mut m = fresh();
    m.set_pc(100).unwrap();
    assert_eq!(Op::Jal { rd: 1, offset: 16 }.execute(&mut m, 4), Ok(()));
    assert_eq!(m.get(1), 104);
    assert_eq!(m.pc, 116);
    // jalr clears the low bit of the target
    m.set(11, 201);
    assert_eq!(Op::Jalr { rd: 1, rs1: 11, offset: 2 }.execute(&mut m, 2), Ok(()));
    assert_eq!(m.get(1), 118);
    assert_eq!(m.pc, 202);
}

#[test]
fn jump_out_of_range_keeps_partial_state() {
    let mut m = fresh();
    m.set_pc(8).unwrap();
    let r = Op::Jal { rd: 1, offset: 100_000 }.execute(&mut m, 4);
    assert_eq!(r, Err(ExecError::PcOutOfRange));
    // the return address was already written before the jump failed
    assert_eq!(m.get(1), 12);
    assert_eq!(m.pc, 8);
}

#[test]
fn loads_and_stores() {
    let mut m = fresh();
    m.set(11, 64);  // base
    m.set(12, -2);  // value
    assert_eq!(Op::Sd { rs1: 11, rs2: 12, offset: 0 }.execute(&mut m, 4), Ok(()));
    assert_eq!(Op::Ld { rd: 10, rs1: 11, offset: 0 }.execute(&mut m, 4), Ok(()));
    assert_eq!(m.get(10), -2);
    assert_eq!(Op::Lb { rd: 10, rs1: 11, offset: 0 }.execute(&mut m, 4), Ok(()));
    assert_eq!(m.get(10), -2);
    assert_eq!(Op::Lbu { rd: 10, rs1: 11, offset: 0 }.execute(&mut m, 4), Ok(()));
    assert_eq!(m.get(10), 0xfe);
    assert_eq!(Op::Lhu { rd: 10, rs1: 11, offset: 0 }.execute(&mut m, 4), Ok(()));
    assert_eq!(m.get(10), 0xfffe);
    assert_eq!(Op::Lwu { rd: 10, rs1: 11, offset: 0 }.execute(&mut m, 4), Ok(()));
    assert_eq!(m.get(10), 0xffff_fffe);
    // a store of the low halfword only
    m.set(12, 0x1234_5678);
    assert_eq!(Op::Sh { rs1: 11, rs2: 12, offset: 8 }.execute(&mut m, 4), Ok(()));
    assert_eq!(Op::Lhu { rd: 10, rs1: 11, offset: 8 }.execute(&mut m, 4), Ok(()));
    assert_eq!(m.get(10), 0x5678);
    // little-endian order
    assert_eq!(Op::Lbu { rd: 10, rs1: 11, offset: 8 }.execute(&mut m, 4), Ok(()));
    assert_eq!(m.get(10), 0x78);
}

#[test]
fn load_out_of_range() {
    let mut m = fresh();
    m.set(11, 4090);
    assert_eq!(
        Op::Ld { rd: 10, rs1: 11, offset: 0 }.execute(&mut m, 4),
        Err(ExecError::MemOutOfRange)
    );
}

#[test]
fn ecall_exit_status() {
    // li a0, 42; li a7, 93; ecall terminates with exactly "exit(42)"
    let program: [u32; 3] = [0x02a0_0513, 0x05d0_0893, 0x0000_0073];
    let mut m = fresh();
    let mut result = Ok(());
    for w in program {
        let op = Op::new(w);
        result = op.execute(&mut m, 4);
        if result.is_err() {
            break;
        }
        let next = m.pc + 4;
        m.set_pc(next).unwrap();
    }
    assert_eq!(result, Err(ExecError::Exit(42)));
    assert_eq!(result.unwrap_err().message().as_str(), "exit(42)");
}

#[test]
fn ecall_exit_masks_low_byte() {
    let mut m = fresh();
    m.set(10, 0x1ff);
    m.set(17, 93);
    assert_eq!(Op::Ecall.execute(&mut m, 4), Err(ExecError::Exit(0xff)));
}

#[test]
fn ecall_write_appends_to_stdout() {
    let mut m = fresh();
    let data = vec![b'h', b'i', b'!'];
    m.store_bytes(100, &data).unwrap();
    m.set(17, 64);  // write
    m.set(10, 1);  // stdout
    m.set(11, 100);  // buffer
    m.set(12, 3);  // count
    assert_eq!(Op::Ecall.execute(&mut m, 4), Ok(()));
    assert_eq!(m.get(10), 3);
    assert_eq!(m.stdout, data);
    assert_eq!(m.effects.stdout.as_deref(), Some(&data[..]));
    assert_eq!(m.effects.message.as_deref(), Some("write(1, 0x64, 3)"));
}

#[test]
fn ecall_write_wrong_fd() {
    let mut m = fresh();
    m.set(17, 64);
    m.set(10, 2);
    assert_eq!(Op::Ecall.execute(&mut m, 4), Err(ExecError::WriteBadFd(2)));
    assert_eq!(
        ExecError::WriteBadFd(2).message().as_str(),
        "write syscall: only stdout (fd 1) supported, not 2"
    );
}

#[test]
fn ecall_write_negative_count() {
    let mut m = fresh();
    m.set(17, 64);
    m.set(10, 1);
    m.set(12, -1);
    assert_eq!(Op::Ecall.execute(&mut m, 4), Err(ExecError::WriteBadCount(-1)));
}

#[test]
fn ecall_read_consumes_queued_input() {
    let mut m = Machine::new(0, 4096, vec![1, 2, 3, 4, 5]);
    m.set(17, 63);  // read
    m.set(10, 0);  // stdin
    m.set(11, 200);  // buffer
    m.set(12, 3);  // count
    assert_eq!(Op::Ecall.execute(&mut m, 4), Ok(()));
    assert_eq!(m.get(10), 3);
    assert_eq!(m.stdin, vec![1, 2, 3]);
    assert_eq!(m.input, vec![4, 5]);
    let buf = m.load_bytes(200, 3).unwrap();
    assert_eq!(buf, vec![1, 2, 3]);
    // a second read asking for more than remains returns what is left
    m.set(10, 0);
    m.set(12, 10);
    assert_eq!(Op::Ecall.execute(&mut m, 4), Ok(()));
    assert_eq!(m.get(10), 2);
    assert_eq!(m.stdin, vec![1, 2, 3, 4, 5]);
}

#[test]
fn ecall_read_wrong_fd() {
    let mut m = fresh();
    m.set(17, 63);
    m.set(10, 1);
    assert_eq!(Op::Ecall.execute(&mut m, 4), Err(ExecError::ReadBadFd(1)));
    assert_eq!(
        ExecError::ReadBadFd(1).message().as_str(),
        "read syscall: only stdin (fd 0) supported, not 1"
    );
}

#[test]
fn ecall_unsupported() {
    let mut m = fresh();
    m.set(17, 99);
    assert_eq!(Op::Ecall.execute(&mut m, 4), Err(ExecError::UnsupportedSyscall(99)));
    assert_eq!(
        ExecError::UnsupportedSyscall(99).message().as_str(),
        "unsupported syscall 99"
    );
}

#[test]
fn ebreak_surfaces() {
    let mut m = fresh();
    assert_eq!(Op::Ebreak.execute(&mut m, 4), Err(ExecError::Ebreak));
    assert_eq!(ExecError::Ebreak.message().as_str(), "ebreak");
}

#[test]
fn unimplemented_error_message() {
    let mut m = fresh();
    let op = Op::new(0x0000_0007);
    let err = op.execute(&mut m, 4).unwrap_err();
    assert_eq!(
        err.message().as_str(),
        "inst: 0x7 note: disassembler found unknown instruction opcode 0x7"
    );
}

#[test]
fn lui_auipc_values() {
    let mut m = fresh();
    m.set_pc(8).unwrap();
    assert_eq!(Op::Lui { rd: 10, imm: 0x1234_5000 }.execute(&mut m, 4), Ok(()));
    assert_eq!(m.get(10), 0x1234_5000);
    assert_eq!(Op::Auipc { rd: 10, imm: 0x1000 }.execute(&mut m, 4), Ok(()));
    assert_eq!(m.get(10), 0x1008);
}

#[test]
fn fence_is_a_no_op() {
    let mut m = fresh();
    assert_eq!(Op::Fence.execute(&mut m, 4), Ok(()));
    assert_eq!(m.pc, 0);
    assert_eq!(m.get(10), 0);
}

#[test]
fn program_fetched_from_memory_runs_to_exit() {
    // the same exit(42) program, fetched word by word from memory as the
    // surrounding interpreter would
    let words: [u32; 3] = [0x02a0_0513, 0x05d0_0893, 0x0000_0073];
    let mut image = Vec::new();
    for w in words {
        image.extend_from_slice(&w.to_le_bytes());
    }
    let mut m = Machine::new(0, 4096, Vec::new());
    m.store_bytes(0, &image).unwrap();
    let mut last = Ok(());
    for _ in 0..16 {
        let lo = m.load_le(m.pc, 2).unwrap() as u32;
        let (word, length) = if lo & 0x3 != 0x3 {
            (lo, 2i64)
        } else {
            (m.load_le(m.pc, 4).unwrap() as u32, 4i64)
        };
        let op = Op::new(word);
        let pc_before = m.pc;
        last = op.execute(&mut m, length);
        if last.is_err() {
            break;
        }
        if m.pc == pc_before {
            m.set_pc(pc_before + length).unwrap();
        }
    }
    assert_eq!(last, Err(ExecError::Exit(42)));
    assert_eq!(last.unwrap_err().message().as_str(), "exit(42)");
}
