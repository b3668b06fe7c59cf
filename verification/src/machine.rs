//! The machine state the executor acts on: a 32-entry register file, a
//! program counter, one bounded memory region, a queue of pending input
//! for the read system call, append-only stdin/stdout logs, and an
//! effect-capture slot describing the last system call.
//!
//! Register 0 is the hard-wired zero register: discarding writes to it is
//! this machine's policy, so the executor stays uniform. Memory covers the
//! addresses `[base, base + mem.len())`; multi-byte accesses are
//! little-endian.

use crate::err::ExecError;
use vstd::arithmetic::power2::{lemma2_to64, lemma_pow2_adds, lemma_pow2_strictly_increases, pow2};
use vstd::prelude::*;

verus! {

/// Externally visible side effects of the last executed system call.
pub struct Effects {
    pub message: Option<String>,
    pub stdin: Option<Vec<u8>>,
    pub stdout: Option<Vec<u8>>,
}

#[verifier::ext_equal]
pub struct EffectsV {
    pub message: Option<Seq<char>>,
    pub stdin: Option<Seq<u8>>,
    pub stdout: Option<Seq<u8>>,
}

impl View for Effects {
    type V = EffectsV;

    open spec fn view(&self) -> EffectsV {
        EffectsV {
            message: match self.message {
                Some(s) => Some(s@),
                None => None,
            },
            stdin: match self.stdin {
                Some(v) => Some(v@),
                None => None,
            },
            stdout: match self.stdout {
                Some(v) => Some(v@),
                None => None,
            },
        }
    }
}

pub struct Machine {
    pub regs: Vec<i64>,
    pub pc: i64,
    pub base: i64,
    pub mem: Vec<u8>,
    /// Bytes the read system call has not yet consumed.
    pub input: Vec<u8>,
    /// Log of every byte the program has read.
    pub stdin: Vec<u8>,
    /// Log of every byte the program has written.
    pub stdout: Vec<u8>,
    pub effects: Effects,
}

/// The mathematical state of a `Machine`.
#[verifier::ext_equal]
pub struct MachineV {
    pub regs: Seq<i64>,
    pub pc: i64,
    pub base: i64,
    pub mem: Seq<u8>,
    pub input: Seq<u8>,
    pub stdin: Seq<u8>,
    pub stdout: Seq<u8>,
    pub effects: EffectsV,
}

impl View for Machine {
    type V = MachineV;

    open spec fn view(&self) -> MachineV {
        MachineV {
            regs: self.regs@,
            pc: self.pc,
            base: self.base,
            mem: self.mem@,
            input: self.input@,
            stdin: self.stdin@,
            stdout: self.stdout@,
            effects: self.effects@,
        }
    }
}

impl MachineV {
    /// Well-formedness: 32 registers with register 0 pinned at zero, and a
    /// memory region whose end fits in an `i64` address.
    pub open spec fn wf(self) -> bool {
        &&& self.regs.len() == 32
        &&& self.regs[0] == 0
        &&& 0 <= self.base
        &&& self.base + self.mem.len() <= i64::MAX
    }
}

/// The register file after writing `v` to register `rd`: a write to
/// register 0 is discarded.
pub open spec fn reg_write(regs: Seq<i64>, rd: int, v: i64) -> Seq<i64> {
    if rd == 0 {
        regs
    } else {
        regs.update(rd, v)
    }
}

/// The `width` bytes at `addr` lie inside the memory region.
pub open spec fn mem_in_range(m: MachineV, addr: i64, width: int) -> bool {
    m.base <= addr && addr - m.base + width <= m.mem.len()
}

/// A jump target must stay inside the memory region (one past the end is
/// allowed, so a program may fall off the end and be caught at fetch time).
pub open spec fn pc_in_range(m: MachineV, target: i64) -> bool {
    m.base <= target && target - m.base <= m.mem.len()
}

/// The value of a little-endian byte sequence.
pub open spec fn le_val(bytes: Seq<u8>) -> nat
    decreases bytes.len(),
{
    if bytes.len() == 0 {
        0
    } else {
        (bytes[0] + 256 * le_val(bytes.skip(1))) as nat
    }
}

/// The low `width` bytes of `v`, little-endian.
pub open spec fn le_bytes(v: nat, width: nat) -> Seq<u8>
    decreases width,
{
    if width == 0 {
        Seq::empty()
    } else {
        seq![(v % 256) as u8] + le_bytes(v / 256, (width - 1) as nat)
    }
}

/// `mem` with `bytes` written at offset `idx`.
pub open spec fn mem_store(mem: Seq<u8>, idx: int, bytes: Seq<u8>) -> Seq<u8> {
    mem.take(idx) + bytes + mem.skip(idx + bytes.len())
}

/// Interpret `v` as a `bits`-wide two's-complement value.
pub open spec fn sext_val(v: nat, bits: nat) -> i64
    recommends
        1 <= bits <= 64,
        v < pow2(bits),
{
    if v < pow2((bits - 1) as nat) {
        v as i64
    } else {
        (v - pow2(bits)) as i64
    }
}

pub proof fn lemma_le_val_bound(bytes: Seq<u8>)
    ensures
        le_val(bytes) < pow2(8 * bytes.len()),
    decreases bytes.len(),
{
    if bytes.len() == 0 {
        lemma2_to64();
    } else {
        lemma_le_val_bound(bytes.skip(1));
        lemma_pow2_adds(8, 8 * (bytes.len() - 1) as nat);
        lemma2_to64();
    }
}

pub proof fn lemma_le_bytes_len(v: nat, width: nat)
    ensures
        le_bytes(v, width).len() == width,
    decreases width,
{
    if width > 0 {
        lemma_le_bytes_len(v / 256, (width - 1) as nat);
    }
}

#[verifier::loop_isolation(false)]
fn zeroed_i64(n: usize) -> (r: Vec<i64>)
    ensures
        r@ == Seq::new(n as nat, |i: int| 0i64),
{
    let mut v: Vec<i64> = Vec::new();
    while v.len() < n
        invariant
            v@.len() <= n,
            forall|i: int| 0 <= i < v@.len() ==> v@[i] == 0i64,
        decreases n - v@.len(),
    {
        v.push(0);
    }
    proof {
        assert(v@ =~= Seq::new(n as nat, |i: int| 0i64));
    }
    v
}

#[verifier::loop_isolation(false)]
fn zeroed_u8(n: usize) -> (r: Vec<u8>)
    ensures
        r@ == Seq::new(n as nat, |i: int| 0u8),
{
    let mut v: Vec<u8> = Vec::new();
    while v.len() < n
        invariant
            v@.len() <= n,
            forall|i: int| 0 <= i < v@.len() ==> v@[i] == 0u8,
        decreases n - v@.len(),
    {
        v.push(0);
    }
    proof {
        assert(v@ =~= Seq::new(n as nat, |i: int| 0u8));
    }
    v
}

/// Append all of `src` to `dst`.
#[verifier::loop_isolation(false)]
pub fn append_bytes(dst: &mut Vec<u8>, src: &Vec<u8>)
    ensures
        final(dst)@ == old(dst)@ + src@,
{
    let mut i: usize = 0;
    while i < src.len()
        invariant
            i <= src@.len(),
            dst@ == old(dst)@ + src@.take(i as int),
        decreases src@.len() - i,
    {
        let b = src[i];
        dst.push(b);
        i += 1;
        proof {
            assert(old(dst)@ + src@.take(i as int) =~= (old(dst)@ + src@.take(i - 1)).push(b));
        }
    }
    proof {
        assert(src@.take(src@.len() as int) =~= src@);
    }
}

/// A copy of `src[from..to]`.
#[verifier::loop_isolation(false)]
pub fn copy_range(src: &Vec<u8>, from: usize, to: usize) -> (r: Vec<u8>)
    requires
        from <= to <= src@.len(),
    ensures
        r@ == src@.subrange(from as int, to as int),
{
    let mut v: Vec<u8> = Vec::new();
    let mut i: usize = from;
    while i < to
        invariant
            from <= i <= to <= src@.len(),
            v@ == src@.subrange(from as int, i as int),
        decreases to - i,
    {
        let b = src[i];
        v.push(b);
        i += 1;
        proof {
            assert(src@.subrange(from as int, i as int) =~= src@.subrange(
                from as int,
                i - 1,
            ).push(b));
        }
    }
    v
}

impl Machine {
    pub open spec fn wf(self) -> bool {
        self@.wf()
    }

    /// A fresh machine: all registers zero, the program counter at `base`,
    /// `mem_size` zeroed bytes of memory, and `input` queued for the read
    /// system call.
    pub fn new(base: i64, mem_size: usize, input: Vec<u8>) -> (m: Machine)
        requires
            0 <= base,
            base + mem_size <= i64::MAX,
        ensures
            m@ == (MachineV {
                regs: Seq::new(32, |i: int| 0i64),
                pc: base,
                base: base,
                mem: Seq::new(mem_size as nat, |i: int| 0u8),
                input: input@,
                stdin: Seq::<u8>::empty(),
                stdout: Seq::<u8>::empty(),
                effects: EffectsV { message: None, stdin: None, stdout: None },
            }),
            m.wf(),
    {
        let m = Machine {
            regs: zeroed_i64(32),
            pc: base,
            base,
            mem: zeroed_u8(mem_size),
            input,
            stdin: Vec::new(),
            stdout: Vec::new(),
            effects: Effects { message: None, stdin: None, stdout: None },
        };
        proof {
            assert(m@ =~= (MachineV {
                regs: Seq::new(32, |i: int| 0i64),
                pc: base,
                base: base,
                mem: Seq::new(mem_size as nat, |i: int| 0u8),
                input: m.input@,
                stdin: Seq::<u8>::empty(),
                stdout: Seq::<u8>::empty(),
                effects: EffectsV { message: None, stdin: None, stdout: None },
            }));
        }
        m
    }

    /// Read a register.
    pub fn get(&self, reg: usize) -> (r: i64)
        requires
            self.wf(),
            reg < 32,
        ensures
            r == self@.regs[reg as int],
    {
        self.regs[reg]
    }

    /// Write a register; a write to register 0 is discarded.
    pub fn set(&mut self, reg: usize, val: i64)
        requires
            old(self).wf(),
            reg < 32,
        ensures
            final(self)@ == (MachineV {
                regs: reg_write(old(self)@.regs, reg as int, val),
                ..old(self)@
            }),
            final(self).wf(),
    {
        if reg != 0 {
            self.regs.set(reg, val);
        }
        proof {
            assert(self@ =~= (MachineV {
                regs: reg_write(old(self)@.regs, reg as int, val),
                ..old(self)@
            }));
        }
    }

    /// Read the low 32 bits of a register as a signed value.
    pub fn get32(&self, reg: usize) -> (r: i32)
        requires
            self.wf(),
            reg < 32,
        ensures
            r == self@.regs[reg as int] as i32,
    {
        #[verifier::truncate] (self.regs[reg] as i32)
    }

    /// Write a register with the sign-extension of a 32-bit value; a write
    /// to register 0 is discarded.
    pub fn set32(&mut self, reg: usize, val: i32)
        requires
            old(self).wf(),
            reg < 32,
        ensures
            final(self)@ == (MachineV {
                regs: reg_write(old(self)@.regs, reg as int, val as i64),
                ..old(self)@
            }),
            final(self).wf(),
    {
        self.set(reg, val as i64);
    }

    /// Redirect the program counter, refusing targets outside memory.
    pub fn set_pc(&mut self, target: i64) -> (r: Result<(), ExecError>)
        requires
            old(self).wf(),
        ensures
            final(self).wf(),
            pc_in_range(old(self)@, target) ==> r == Ok::<(), ExecError>(()) && final(self)@
                == (MachineV { pc: target, ..old(self)@ }),
            !pc_in_range(old(self)@, target) ==> r == Err::<(), ExecError>(ExecError::PcOutOfRange)
                && final(self)@ == old(self)@,
    {
        if target >= self.base && target - self.base <= self.mem.len() as i64 {
            self.pc = target;
            Ok(())
        } else {
            Err(ExecError::PcOutOfRange)
        }
    }

    /// Read `width` little-endian bytes at `addr` as an unsigned value.
    #[verifier::loop_isolation(false)]
    pub fn load_le(&self, addr: i64, width: usize) -> (r: Result<u64, ExecError>)
        requires
            self.wf(),
            1 <= width <= 8,
        ensures
            mem_in_range(self@, addr, width as int) ==> r == Ok::<u64, ExecError>(
                (le_val(
                    self@.mem.subrange(addr - self@.base, addr - self@.base + width),
                ) as u64),
            ),
            !mem_in_range(self@, addr, width as int) ==> r == Err::<u64, ExecError>(
                ExecError::MemOutOfRange,
            ),
    {
        if addr < self.base {
            return Err(ExecError::MemOutOfRange);
        }
        let lo = addr - self.base;
        if lo as u64 > self.mem.len() as u64 || width as u64 > self.mem.len() as u64 - lo as u64 {
            return Err(ExecError::MemOutOfRange);
        }
        let idx = lo as usize;
        let ghost gmem = self@.mem;
        let ghost gidx = idx as int;
        let mut val: u64 = 0;
        let mut j: usize = width;
        proof {
            lemma2_to64();
            assert(gmem.subrange(gidx + width, gidx + width) =~= Seq::<u8>::empty());
        }
        while j > 0
            invariant
                self.wf(),
                gmem == self@.mem,
                j <= width <= 8,
                gidx + width <= gmem.len(),
                0 <= gidx,
                val as nat == le_val(gmem.subrange(gidx + j, gidx + width)),
                val < pow2((8 * (width - j)) as nat),
            decreases j,
        {
            j -= 1;
            let b = self.mem[idx + j];
            proof {
                lemma2_to64();
                lemma_pow2_adds((8 * (width - j - 1)) as nat, 8);
                if 8 * (width - j) < 64 {
                    lemma_pow2_strictly_increases((8 * (width - j)) as nat, 64);
                }
                assert(gmem.subrange(gidx + j, gidx + width) =~= seq![b] + gmem.subrange(
                    gidx + j + 1,
                    gidx + width,
                ));
                assert(le_val(seq![b] + gmem.subrange(gidx + j + 1, gidx + width)) == b + 256
                    * le_val(
                    (seq![b] + gmem.subrange(gidx + j + 1, gidx + width)).skip(1),
                )) by {
                    assert((seq![b] + gmem.subrange(gidx + j + 1, gidx + width)).len() > 0);
                }
                assert((seq![b] + gmem.subrange(gidx + j + 1, gidx + width)).skip(1)
                    =~= gmem.subrange(gidx + j + 1, gidx + width));
            }
            val = val * 256 + (b as u64);
        }
        Ok(val)
    }

    /// Write the low `width` bytes of `val` at `addr`, little-endian.
    #[verifier::loop_isolation(false)]
    pub fn store_le(&mut self, addr: i64, val: u64, width: usize) -> (r: Result<(), ExecError>)
        requires
            old(self).wf(),
            1 <= width <= 8,
        ensures
            final(self).wf(),
            mem_in_range(old(self)@, addr, width as int) ==> r == Ok::<(), ExecError>(())
                && final(self)@ == (MachineV {
                mem: mem_store(
                    old(self)@.mem,
                    addr - old(self)@.base,
                    le_bytes(val as nat, width as nat),
                ),
                ..old(self)@
            }),
            !mem_in_range(old(self)@, addr, width as int) ==> r == Err::<(), ExecError>(
                ExecError::MemOutOfRange,
            ) && final(self)@ == old(self)@,
    {
        if addr < self.base {
            return Err(ExecError::MemOutOfRange);
        }
        let lo = addr - self.base;
        if lo as u64 > self.mem.len() as u64 || width as u64 > self.mem.len() as u64 - lo as u64 {
            return Err(ExecError::MemOutOfRange);
        }
        let idx = lo as usize;
        let ghost gidx = idx as int;
        let ghost gmem = old(self)@.mem;
        let mut cur: u64 = val;
        let mut j: usize = 0;
        proof {
            lemma_le_bytes_len(val as nat, width as nat);
        }
        while j < width
            invariant
                self.wf(),
                j <= width <= 8,
                0 <= gidx,
                gidx + width <= gmem.len(),
                self@.mem.len() == gmem.len(),
                self@ == (MachineV { mem: self@.mem, ..old(self)@ }),
                le_bytes(val as nat, width as nat) == self@.mem.subrange(gidx, gidx + j)
                    + le_bytes(cur as nat, (width - j) as nat),
                forall|k: int|
                    0 <= k < gmem.len() && !(gidx <= k < gidx + j) ==> self@.mem[k] == gmem[k],
            decreases width - j,
        {
            let b = (cur % 256) as u8;
            self.mem.set(idx + j, b);
            let ghost prev = cur;
            cur = cur / 256;
            j += 1;
            proof {
                lemma_le_bytes_len(cur as nat, (width - j) as nat);
                assert(le_bytes(prev as nat, (width - j + 1) as nat) =~= seq![b] + le_bytes(
                    cur as nat,
                    (width - j) as nat,
                ));
                assert(self@.mem.subrange(gidx, gidx + j) =~= self@.mem.subrange(gidx, gidx + j - 1)
                    + seq![b]);
                assert(le_bytes(val as nat, width as nat) =~= self@.mem.subrange(gidx, gidx + j)
                    + le_bytes(cur as nat, (width - j) as nat));
            }
        }
        proof {
            lemma_le_bytes_len(val as nat, width as nat);
            assert(le_bytes(cur as nat, 0) =~= Seq::<u8>::empty());
            assert(self@.mem.subrange(gidx, gidx + width) =~= le_bytes(val as nat, width as nat));
            assert(self@.mem =~= mem_store(gmem, gidx, le_bytes(val as nat, width as nat)));
            assert(self@ =~= (MachineV {
                mem: mem_store(gmem, gidx, le_bytes(val as nat, width as nat)),
                ..old(self)@
            }));
        }
        Ok(())
    }

    /// Write `data` at `addr`.
    #[verifier::loop_isolation(false)]
    pub fn store_bytes(&mut self, addr: i64, data: &Vec<u8>) -> (r: Result<(), ExecError>)
        requires
            old(self).wf(),
        ensures
            final(self).wf(),
            mem_in_range(old(self)@, addr, data@.len() as int) ==> r == Ok::<(), ExecError>(())
                && final(self)@ == (MachineV {
                mem: mem_store(old(self)@.mem, addr - old(self)@.base, data@),
                ..old(self)@
            }),
            !mem_in_range(old(self)@, addr, data@.len() as int) ==> r == Err::<(), ExecError>(
                ExecError::MemOutOfRange,
            ) && final(self)@ == old(self)@,
    {
        if addr < self.base {
            return Err(ExecError::MemOutOfRange);
        }
        let lo = addr - self.base;
        if lo as u64 > self.mem.len() as u64 || data.len() as u64 > self.mem.len() as u64
            - lo as u64 {
            return Err(ExecError::MemOutOfRange);
        }
        let idx = lo as usize;
        let ghost gidx = idx as int;
        let ghost gmem = old(self)@.mem;
        let mut j: usize = 0;
        while j < data.len()
            invariant
                self.wf(),
                j <= data@.len(),
                0 <= gidx,
                gidx + data@.len() <= gmem.len(),
                self@.mem.len() == gmem.len(),
                self@ == (MachineV { mem: self@.mem, ..old(self)@ }),
                self@.mem.subrange(gidx, gidx + j) == data@.take(j as int),
                forall|k: int|
                    0 <= k < gmem.len() && !(gidx <= k < gidx + j) ==> self@.mem[k] == gmem[k],
            decreases data@.len() - j,
        {
            let b = data[j];
            self.mem.set(idx + j, b);
            j += 1;
            proof {
                assert(self@.mem.subrange(gidx, gidx + j) =~= self@.mem.subrange(gidx, gidx + j - 1)
                    + seq![b]);
                assert(data@.take(j as int) =~= data@.take(j - 1) + seq![b]);
            }
        }
        proof {
            assert(data@.take(data@.len() as int) =~= data@);
            assert(self@.mem =~= mem_store(gmem, gidx, data@));
            assert(self@ =~= (MachineV { mem: mem_store(gmem, gidx, data@), ..old(self)@ }));
        }
        Ok(())
    }

    /// A copy of the `count` bytes at `addr`.
    pub fn load_bytes(&self, addr: i64, count: i64) -> (r: Result<Vec<u8>, ExecError>)
        requires
            self.wf(),
            0 <= count,
        ensures
            mem_in_range(self@, addr, count as int) ==> r is Ok && r->Ok_0@ == self@.mem.subrange(
                addr - self@.base,
                addr - self@.base + count,
            ),
            !mem_in_range(self@, addr, count as int) ==> r == Err::<Vec<u8>, ExecError>(
                ExecError::MemOutOfRange,
            ),
    {
        if addr < self.base {
            return Err(ExecError::MemOutOfRange);
        }
        let lo = addr - self.base;
        if lo as u64 > self.mem.len() as u64 || count as u64 > self.mem.len() as u64 - lo as u64 {
            return Err(ExecError::MemOutOfRange);
        }
        let idx = lo as usize;
        let n = count as usize;
        Ok(copy_range(&self.mem, idx, idx + n))
    }
}

} // verus!
