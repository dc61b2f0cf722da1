//! Memory-mapped register access for the MAC and UART drivers, with a ghost
//! trace of every access.
use vstd::prelude::*;

verus! {

/// A block of memory-mapped registers, addressed by byte offset from its base.
pub trait Mmio {
    fn read32(&self, offset: usize) -> u32;

    fn write32(&self, offset: usize, value: u32);

    fn read8(&self, offset: usize) -> u8;

    fn write8(&self, offset: usize, value: u8);
}

/// One access to a register block, with the value read or written.
#[allow(inconsistent_fields)]
#[derive(Debug, Clone, Copy, PartialEq, Eq, Structural)]
pub enum MmioOp {
    Read32 { offset: usize, value: u32 },
    Write32 { offset: usize, value: u32 },
    Read8 { offset: usize, value: u8 },
    Write8 { offset: usize, value: u8 },
}

impl MmioOp {
    /// The 32-bit value carried by the access.
    pub open spec fn value32(self) -> u32 {
        match self {
            MmioOp::Read32 { value, .. } => value,
            MmioOp::Write32 { value, .. } => value,
            MmioOp::Read8 { value, .. } => value as u32,
            MmioOp::Write8 { value, .. } => value as u32,
        }
    }
}

pub open spec fn rd32(offset: usize, v: u32) -> MmioOp {
    MmioOp::Read32 { offset, value: v }
}

pub open spec fn wr32(offset: usize, v: u32) -> MmioOp {
    MmioOp::Write32 { offset, value: v }
}

/// A read of `offset` returning `v`, then a write of `v` with `mask` cleared and
/// `bits` set.
pub open spec fn modify_ops(offset: usize, v: u32, mask: u32, bits: u32) -> Seq<MmioOp> {
    seq![rd32(offset, v), wr32(offset, (v & !mask) | bits)]
}

/// `now` is `before` with more accesses after it.
pub open spec fn extends_mmio(before: Seq<MmioOp>, now: Seq<MmioOp>) -> bool {
    before.len() <= now.len() && now.take(before.len() as int) == before
}

/// The accesses of `now` made after `before`.
pub open spec fn since_mmio(before: Seq<MmioOp>, now: Seq<MmioOp>) -> Seq<MmioOp> {
    now.skip(before.len() as int)
}

/// `t` is one read-modify-write of `offset`, using the value read.
pub open spec fn modified(t: Seq<MmioOp>, offset: usize, mask: u32, bits: u32) -> bool {
    t.len() == 2 && t == modify_ops(offset, t[0].value32(), mask, bits)
}

/// A register block together with the trace of the accesses made to it.
pub struct Regs<M> {
    io: M,
    ops: Ghost<Seq<MmioOp>>,
}

impl<M: Mmio> Regs<M> {
    /// Every access made, oldest first.
    pub closed spec fn ops(&self) -> Seq<MmioOp> {
        self.ops@
    }

    pub closed spec fn io(&self) -> M {
        self.io
    }

    /// The register block itself, for accesses that are not traced.
    pub fn block(&self) -> (r: &M)
        ensures
            *r == self.io(),
    {
        &self.io
    }

    pub fn new(io: M) -> (r: Regs<M>)
        ensures
            r.io() == io,
            r.ops() == Seq::<MmioOp>::empty(),
    {
        Regs { io, ops: Ghost(Seq::empty()) }
    }

    pub fn read32(&mut self, offset: usize) -> (r: u32)
        ensures
            final(self).io() == old(self).io(),
            final(self).ops() == old(self).ops().push(rd32(offset, r)),
    {
        let r = self.io.read32(offset);
        self.ops = Ghost(self.ops@.push(rd32(offset, r)));
        r
    }

    pub fn write32(&mut self, offset: usize, value: u32)
        ensures
            final(self).io() == old(self).io(),
            final(self).ops() == old(self).ops().push(wr32(offset, value)),
    {
        self.io.write32(offset, value);
        self.ops = Ghost(self.ops@.push(wr32(offset, value)));
    }

    pub fn read8(&mut self, offset: usize) -> (r: u8)
        ensures
            final(self).io() == old(self).io(),
            final(self).ops() == old(self).ops().push(MmioOp::Read8 { offset, value: r }),
    {
        let r = self.io.read8(offset);
        self.ops = Ghost(self.ops@.push(MmioOp::Read8 { offset, value: r }));
        r
    }

    pub fn write8(&mut self, offset: usize, value: u8)
        ensures
            final(self).io() == old(self).io(),
            final(self).ops() == old(self).ops().push(MmioOp::Write8 { offset, value }),
    {
        self.io.write8(offset, value);
        self.ops = Ghost(self.ops@.push(MmioOp::Write8 { offset, value }));
    }

    /// Read-modify-write: clears `mask`, sets `bits`.
    pub fn modify32(&mut self, offset: usize, mask: u32, bits: u32)
        ensures
            final(self).io() == old(self).io(),
            final(self).ops().len() == old(self).ops().len() + 2,
            final(self).ops() == old(self).ops() + modify_ops(
                offset,
                final(self).ops()[old(self).ops().len() as int].value32(),
                mask,
                bits,
            ),
    {
        let v = self.read32(offset);
        self.write32(offset, (v & !mask) | bits);
        assert(self.ops() =~= old(self).ops() + modify_ops(offset, v, mask, bits));
    }
}

} // verus!
