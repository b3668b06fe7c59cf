//! Execution-time errors. Decoding never fails; everything the executor can
//! refuse is here. `Exit` and `Ebreak` are orderly terminations that the
//! surrounding loop may recognize; the rest are fatal to the running program.

use crate::op::Note;
use crate::text::{dec_int, dec_nat, hex_nat, i64_to_dec, u64_to_dec, u64_to_hex};
use vstd::prelude::*;
use vstd::string::StringExecFns;

verus! {

#[derive(Clone, Copy, PartialEq, Eq, Structural, Debug)]
pub enum ExecError {
    /// The exit system call: carries the low 8 bits of a0.
    Exit(i64),
    /// An `ebreak` instruction: a debugger hook, not a crash.
    Ebreak,
    /// The read system call with a file descriptor other than 0 (stdin).
    ReadBadFd(i64),
    /// The read system call with a negative buffer size.
    ReadBadCount(i64),
    /// The write system call with a file descriptor other than 1 (stdout).
    WriteBadFd(i64),
    /// The write system call with a negative buffer size.
    WriteBadCount(i64),
    /// A system call number other than read (63), write (64) or exit (93).
    UnsupportedSyscall(i64),
    /// A memory access outside the machine's memory region.
    MemOutOfRange,
    /// A jump or taken branch to a target outside the machine's memory region.
    PcOutOfRange,
    /// An instruction the decoder refused, with the raw word and the reason.
    Unimplemented { inst: u32, note: Note },
}

/// The text of a decode refusal, naming the fields that failed to match.
pub open spec fn note_text(n: Note) -> Seq<char> {
    match n {
        Note::UnknownOpcode(op) => "disassembler found unknown instruction opcode 0x"@ + hex_nat(
            op as nat,
        ),
        Note::JalrFunct3(f) => "jalr with unknown funct3 value of "@ + dec_nat(f as nat),
        Note::BranchFunct3(f) => "branch instruction of unknown type "@ + dec_nat(f as nat),
        Note::LoadFunct3(f) => "load instruction of unknown type "@ + dec_nat(f as nat),
        Note::StoreFunct3(f) => "store instruction of unknown type "@ + dec_nat(f as nat),
        Note::ITypeSubtype(f, hi) => "immediate mode alu instruction of type "@ + dec_nat(f as nat)
            + " with unknown subtype "@ + dec_nat(hi as nat),
        Note::ITypeFunct3(f) => "alu immediate of unknown type "@ + dec_nat(f as nat),
        Note::IWSubtype(f, hi) => "immediate mode alu w instruction of type "@ + dec_nat(f as nat)
            + " with unknown subtype "@ + dec_nat(hi as nat),
        Note::IWFunct3(f) => "immediate mode alu w instruction of unknown type "@ + dec_nat(
            f as nat,
        ),
        Note::RTypeFunct(f3, f7) => "alu instruction of unknown type "@ + dec_nat(f3 as nat)
            + " subtype "@ + dec_nat(f7 as nat),
        Note::RWTypeFunct(f3, f7) => "alu w instruction of unknown type "@ + dec_nat(f3 as nat)
            + " subtype "@ + dec_nat(f7 as nat),
        Note::CAddi4spnZero => "C.ADDI4SPN with imm=0 is reserved"@,
        Note::CFld => "C.FLD is not supported"@,
        Note::CReservedQ0 => "Reserved compressed instruction at (0, 4)"@,
        Note::CFsd => "C.FSD is not supported"@,
        Note::CAddiwZeroRd => "C.ADDIW with rd=0 is reserved"@,
        Note::CAddi16spZero => "C.ADDI16SP with imm=0 is reserved"@,
        Note::CLuiZero => "C.LUI with imm=0 is reserved"@,
        Note::CReservedQ1 => "Reserved compressed instruction at (1, 4)"@,
        Note::CFldsp => "C.FLDSP is not supported"@,
        Note::CLwspZeroRd => "C.LWSP with rd=0 is reserved"@,
        Note::CLdspZeroRd => "C.LDSP with rd=0 is reserved"@,
        Note::CJrZeroRd => "C.JR with rd=0 is reserved"@,
        Note::CFsdsp => "C.FSDSP is not supported"@,
    }
}

impl Note {
    /// Render the refusal reason.
    pub fn text(&self) -> (r: String)
        ensures
            r@ == note_text(*self),
    {
        match *self {
            Note::UnknownOpcode(op) => String::from_str(
                "disassembler found unknown instruction opcode 0x",
            ).concat(u64_to_hex(op as u64).as_str()),
            Note::JalrFunct3(f) => String::from_str("jalr with unknown funct3 value of ").concat(
                u64_to_dec(f as u64).as_str(),
            ),
            Note::BranchFunct3(f) => String::from_str("branch instruction of unknown type ").concat(
                u64_to_dec(f as u64).as_str(),
            ),
            Note::LoadFunct3(f) => String::from_str("load instruction of unknown type ").concat(
                u64_to_dec(f as u64).as_str(),
            ),
            Note::StoreFunct3(f) => String::from_str("store instruction of unknown type ").concat(
                u64_to_dec(f as u64).as_str(),
            ),
            Note::ITypeSubtype(f, hi) => String::from_str(
                "immediate mode alu instruction of type ",
            ).concat(u64_to_dec(f as u64).as_str()).concat(" with unknown subtype ").concat(
                u64_to_dec(hi as u64).as_str(),
            ),
            Note::ITypeFunct3(f) => String::from_str("alu immediate of unknown type ").concat(
                u64_to_dec(f as u64).as_str(),
            ),
            Note::IWSubtype(f, hi) => String::from_str(
                "immediate mode alu w instruction of type ",
            ).concat(u64_to_dec(f as u64).as_str()).concat(" with unknown subtype ").concat(
                u64_to_dec(hi as u64).as_str(),
            ),
            Note::IWFunct3(f) => String::from_str(
                "immediate mode alu w instruction of unknown type ",
            ).concat(u64_to_dec(f as u64).as_str()),
            Note::RTypeFunct(f3, f7) => String::from_str("alu instruction of unknown type ").concat(
                u64_to_dec(f3 as u64).as_str(),
            ).concat(" subtype ").concat(u64_to_dec(f7 as u64).as_str()),
            Note::RWTypeFunct(f3, f7) => String::from_str(
                "alu w instruction of unknown type ",
            ).concat(u64_to_dec(f3 as u64).as_str()).concat(" subtype ").concat(
                u64_to_dec(f7 as u64).as_str(),
            ),
            Note::CAddi4spnZero => String::from_str("C.ADDI4SPN with imm=0 is reserved"),
            Note::CFld => String::from_str("C.FLD is not supported"),
            Note::CReservedQ0 => String::from_str("Reserved compressed instruction at (0, 4)"),
            Note::CFsd => String::from_str("C.FSD is not supported"),
            Note::CAddiwZeroRd => String::from_str("C.ADDIW with rd=0 is reserved"),
            Note::CAddi16spZero => String::from_str("C.ADDI16SP with imm=0 is reserved"),
            Note::CLuiZero => String::from_str("C.LUI with imm=0 is reserved"),
            Note::CReservedQ1 => String::from_str("Reserved compressed instruction at (1, 4)"),
            Note::CFldsp => String::from_str("C.FLDSP is not supported"),
            Note::CLwspZeroRd => String::from_str("C.LWSP with rd=0 is reserved"),
            Note::CLdspZeroRd => String::from_str("C.LDSP with rd=0 is reserved"),
            Note::CJrZeroRd => String::from_str("C.JR with rd=0 is reserved"),
            Note::CFsdsp => String::from_str("C.FSDSP is not supported"),
        }
    }
}

/// The text of an execution error, as the surrounding loop logs or
/// recognizes it. An orderly exit reads exactly `exit(N)`; a debugger
/// break reads exactly `ebreak`.
pub open spec fn error_text(e: ExecError) -> Seq<char> {
    match e {
        ExecError::Exit(status) => "exit("@ + dec_int(status as int) + ")"@,
        ExecError::Ebreak => "ebreak"@,
        ExecError::ReadBadFd(fd) => "read syscall: only stdin (fd 0) supported, not "@ + dec_int(
            fd as int,
        ),
        ExecError::ReadBadCount(c) => "read syscall: invalid buffer size: "@ + dec_int(c as int),
        ExecError::WriteBadFd(fd) => "write syscall: only stdout (fd 1) supported, not "@ + dec_int(
            fd as int,
        ),
        ExecError::WriteBadCount(c) => "write syscall: invalid buffer size: "@ + dec_int(c as int),
        ExecError::UnsupportedSyscall(n) => "unsupported syscall "@ + dec_int(n as int),
        ExecError::MemOutOfRange => "memory access out of range"@,
        ExecError::PcOutOfRange => "jump target out of range"@,
        ExecError::Unimplemented { inst, note } => "inst: 0x"@ + hex_nat(inst as nat) + " note: "@
            + note_text(note),
    }
}

impl ExecError {
    /// Render the error for logging or display.
    pub fn message(&self) -> (r: String)
        ensures
            r@ == error_text(*self),
    {
        match *self {
            ExecError::Exit(status) => String::from_str("exit(").concat(
                i64_to_dec(status).as_str(),
            ).concat(")"),
            ExecError::Ebreak => String::from_str("ebreak"),
            ExecError::ReadBadFd(fd) => String::from_str(
                "read syscall: only stdin (fd 0) supported, not ",
            ).concat(i64_to_dec(fd).as_str()),
            ExecError::ReadBadCount(c) => String::from_str(
                "read syscall: invalid buffer size: ",
            ).concat(i64_to_dec(c).as_str()),
            ExecError::WriteBadFd(fd) => String::from_str(
                "write syscall: only stdout (fd 1) supported, not ",
            ).concat(i64_to_dec(fd).as_str()),
            ExecError::WriteBadCount(c) => String::from_str(
                "write syscall: invalid buffer size: ",
            ).concat(i64_to_dec(c).as_str()),
            ExecError::UnsupportedSyscall(n) => String::from_str("unsupported syscall ").concat(
                i64_to_dec(n).as_str(),
            ),
            ExecError::MemOutOfRange => String::from_str("memory access out of range"),
            ExecError::PcOutOfRange => String::from_str("jump target out of range"),
            ExecError::Unimplemented { inst, note } => String::from_str("inst: 0x").concat(
                u64_to_hex(inst as u64).as_str(),
            ).concat(" note: ").concat(note.text().as_str()),
        }
    }
}

} // verus!
