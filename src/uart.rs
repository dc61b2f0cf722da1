//! A driver for the Cadence UART of the ZynqMP: set-up, character output and
//! input, interrupt clearing.
use vstd::prelude::*;
use crate::mmio::{rd32, wr32, Mmio, MmioOp, Regs};

verus! {

pub const UART_CONTROL: usize = 0x00;
pub const UART_INTRPT_EN: usize = 0x08;
pub const UART_INTRPT_DIS: usize = 0x0c;
pub const UART_CHNL_INT_STS: usize = 0x14;
pub const UART_RCVR_TIMEOUT: usize = 0x1c;
pub const UART_RCVR_FIFO_TRIGGER_LEVEL: usize = 0x20;
pub const UART_CHANNEL_STS: usize = 0x2c;
pub const UART_TX_RX_FIFO: usize = 0x30;

pub const CONTROL_RXRES: u32 = 0x001;
pub const CONTROL_TXRES: u32 = 0x002;
pub const CONTROL_RXEN: u32 = 0x004;
pub const CONTROL_RXDIS: u32 = 0x008;
pub const CONTROL_TXEN: u32 = 0x010;
pub const CONTROL_TXDIS: u32 = 0x020;
pub const CONTROL_RSTTO: u32 = 0x040;
pub const CONTROL_STTBRK: u32 = 0x080;
pub const CONTROL_STPBRK: u32 = 0x100;

/// The receive-trigger interrupt.
pub const INTRPT_RTRIG: u32 = 0x001;

pub const CHANNEL_STS_REMPTY: u32 = 0x002;
pub const CHANNEL_STS_TEMPTY: u32 = 0x008;

/// The read-modify-write steps of `init`, as (register, mask, bits): the
/// receive-trigger interrupt enabled and not disabled, both paths reset, transmit
/// and receive enabled, the receiver timeout restarted, any break stopped.
pub open spec fn init_step(j: int) -> (usize, u32, u32) {
    if j == 0 {
        (UART_INTRPT_EN, INTRPT_RTRIG, INTRPT_RTRIG)
    } else if j == 1 {
        (UART_INTRPT_DIS, INTRPT_RTRIG, 0)
    } else if j == 2 {
        (UART_CONTROL, CONTROL_TXRES, CONTROL_TXRES)
    } else if j == 3 {
        (UART_CONTROL, CONTROL_RXRES, CONTROL_RXRES)
    } else if j == 4 {
        (UART_CONTROL, CONTROL_TXDIS, 0)
    } else if j == 5 {
        (UART_CONTROL, CONTROL_TXEN, CONTROL_TXEN)
    } else if j == 6 {
        (UART_CONTROL, CONTROL_RXDIS, 0)
    } else if j == 7 {
        (UART_CONTROL, CONTROL_RXEN, CONTROL_RXEN)
    } else if j == 8 {
        (UART_CONTROL, CONTROL_RSTTO, CONTROL_RSTTO)
    } else if j == 9 {
        (UART_CONTROL, CONTROL_STTBRK, 0)
    } else {
        (UART_CONTROL, CONTROL_STPBRK, CONTROL_STPBRK)
    }
}

/// The number of read-modify-write steps of `init`.
pub const INIT_STEPS: usize = 11;

/// Access `2 * j + base` and the next one of `t` are read-modify-write step `j`
/// of `init`, using the value read.
pub open spec fn init_step_done(t: Seq<MmioOp>, base: int, j: int) -> bool {
    let (off, mask, bits) = init_step(j);
    let v = t[base + 2 * j].value32();
    &&& t[base + 2 * j] == rd32(off, v)
    &&& t[base + 2 * j + 1] == wr32(off, (v & !mask) | bits)
}

/// `t` is what `init` does: receive trigger level 1, the read-modify-write
/// steps in order, then a zero receiver timeout.
pub open spec fn init_trace(t: Seq<MmioOp>) -> bool {
    &&& t.len() == 2 * INIT_STEPS + 2
    &&& t[0] == wr32(UART_RCVR_FIFO_TRIGGER_LEVEL, 1)
    &&& forall|j: int| 0 <= j < INIT_STEPS ==> #[trigger] init_step_done(t, 1, j)
    &&& t[2 * INIT_STEPS + 1] == wr32(UART_RCVR_TIMEOUT, 0)
}

fn init_step_of(j: usize) -> (r: (usize, u32, u32))
    requires
        j < INIT_STEPS,
    ensures
        r == init_step(j as int),
{
    if j == 0 {
        (UART_INTRPT_EN, INTRPT_RTRIG, INTRPT_RTRIG)
    } else if j == 1 {
        (UART_INTRPT_DIS, INTRPT_RTRIG, 0)
    } else if j == 2 {
        (UART_CONTROL, CONTROL_TXRES, CONTROL_TXRES)
    } else if j == 3 {
        (UART_CONTROL, CONTROL_RXRES, CONTROL_RXRES)
    } else if j == 4 {
        (UART_CONTROL, CONTROL_TXDIS, 0)
    } else if j == 5 {
        (UART_CONTROL, CONTROL_TXEN, CONTROL_TXEN)
    } else if j == 6 {
        (UART_CONTROL, CONTROL_RXDIS, 0)
    } else if j == 7 {
        (UART_CONTROL, CONTROL_RXEN, CONTROL_RXEN)
    } else if j == 8 {
        (UART_CONTROL, CONTROL_RSTTO, CONTROL_RSTTO)
    } else if j == 9 {
        (UART_CONTROL, CONTROL_STTBRK, 0)
    } else {
        (UART_CONTROL, CONTROL_STPBRK, CONTROL_STPBRK)
    }
}

/// `t` is what `put_char` does with `c` and at most `max_polls` extra polls:
/// `c` into the FIFO, a carriage return after a line feed, then channel status
/// reads until the transmit FIFO is empty or the polls run out; `r` says
/// whether it emptied.
pub open spec fn put_char_trace(c: u8, max_polls: u32, t: Seq<MmioOp>, r: bool) -> bool {
    let k: int = if c == 10 { 2 } else { 1 };
    &&& t.len() > k
    &&& t[0] == (MmioOp::Write8 { offset: UART_TX_RX_FIFO, value: c })
    &&& c == 10 ==> t[1] == (MmioOp::Write8 { offset: UART_TX_RX_FIFO, value: 13 })
    &&& t.len() - k <= max_polls + 1
    &&& forall|i: int| k <= i < t.len() ==> #[trigger] t[i] == rd32(UART_CHANNEL_STS, t[i].value32())
    &&& forall|i: int| k <= i < t.len() - 1 ==> (#[trigger] t[i]).value32() & CHANNEL_STS_TEMPTY == 0
    &&& r == (t.last().value32() & CHANNEL_STS_TEMPTY != 0)
    &&& !r ==> t.len() - k == max_polls + 1
}

/// A UART register block.
pub struct Device<M> {
    regs: Regs<M>,
}

impl<M: Mmio> Device<M> {
    /// Every register access made through the driver, oldest first.
    pub closed spec fn ops(&self) -> Seq<MmioOp> {
        self.regs.ops()
    }

    pub fn new(io: M) -> (r: Device<M>)
        ensures
            r.ops() == Seq::<MmioOp>::empty(),
    {
        Device { regs: Regs::new(io) }
    }

    /// Sets the UART up: receive trigger interrupt at one byte, both paths reset
    /// and enabled, receiver timeout restarted and zero, no break.
    pub fn init(&mut self)
        ensures
            final(self).ops().len() == old(self).ops().len() + 2 * INIT_STEPS + 2,
            final(self).ops().take(old(self).ops().len() as int) == old(self).ops(),
            init_trace(final(self).ops().skip(old(self).ops().len() as int)),
    {
        let ghost o = self.ops();
        self.regs.write32(UART_RCVR_FIFO_TRIGGER_LEVEL, 1);
        let mut j: usize = 0;
        while j < INIT_STEPS
            invariant
                j <= INIT_STEPS,
                o == old(self).ops(),
                self.ops().len() == o.len() + 1 + 2 * j,
                self.ops().take(o.len() as int) == o,
                self.ops()[o.len() as int] == wr32(UART_RCVR_FIFO_TRIGGER_LEVEL, 1),
                forall|i: int| 0 <= i < j ==> #[trigger] init_step_done(self.ops(), o.len() + 1int, i),
            decreases INIT_STEPS - j,
        {
            let (off, mask, bits) = init_step_of(j);
            let ghost before = self.ops();
            self.regs.modify32(off, mask, bits);
            assert forall|i: int| 0 <= i <= j implies #[trigger] init_step_done(self.ops(), o.len() + 1int, i) by {
                if i < j {
                    assert(init_step_done(before, o.len() + 1int, i));
                }
            }
            assert(self.ops().take(o.len() as int) =~= o);
            j = j + 1;
        }
        let ghost o2 = self.ops();
        self.regs.write32(UART_RCVR_TIMEOUT, 0);
        let ghost t = self.ops().skip(o.len() as int);
        assert(self.ops().take(o.len() as int) =~= o);
        assert forall|i: int| 0 <= i < INIT_STEPS implies #[trigger] init_step_done(t, 1, i) by {
            assert(init_step_done(o2, o.len() + 1int, i));
        }
    }

    /// Writes `c` (and a carriage return after a line feed), then waits, for at
    /// most `max_polls` extra status reads, until the transmit FIFO is empty;
    /// returns whether it emptied.
    pub fn put_char(&mut self, c: u8, max_polls: u32) -> (r: bool)
        ensures
            final(self).ops().take(old(self).ops().len() as int) == old(self).ops(),
            final(self).ops().len() >= old(self).ops().len(),
            put_char_trace(c, max_polls, final(self).ops().skip(old(self).ops().len() as int), r),
    {
        let ghost o = self.ops();
        let ghost k: int = if c == 10 { 2 } else { 1 };
        self.regs.write8(UART_TX_RX_FIFO, c);
        if c == 10u8 {
            self.regs.write8(UART_TX_RX_FIFO, 13u8);
        }
        let mut sts = self.regs.read32(UART_CHANNEL_STS);
        let mut n: u32 = 0;
        while sts & CHANNEL_STS_TEMPTY == 0
            invariant
                n <= max_polls,
                o == old(self).ops(),
                k == (if c == 10 { 2int } else { 1int }),
                self.ops().len() == o.len() + k + n + 1,
                self.ops().take(o.len() as int) == o,
                self.ops()[o.len() as int] == (MmioOp::Write8 { offset: UART_TX_RX_FIFO, value: c }),
                c == 10 ==> self.ops()[o.len() + 1int] == (MmioOp::Write8 { offset: UART_TX_RX_FIFO, value: 13 }),
                self.ops().last() == rd32(UART_CHANNEL_STS, sts),
                forall|i: int| o.len() + k <= i < self.ops().len() ==> #[trigger] self.ops()[i] == rd32(UART_CHANNEL_STS, self.ops()[i].value32()),
                forall|i: int| o.len() + k <= i < self.ops().len() - 1 ==> (#[trigger] self.ops()[i]).value32() & CHANNEL_STS_TEMPTY == 0,
            ensures
                sts & CHANNEL_STS_TEMPTY != 0 || n == max_polls,
            decreases max_polls - n,
        {
            if n == max_polls {
                break;
            }
            sts = self.regs.read32(UART_CHANNEL_STS);
            n = n + 1;
        }
        assert(self.ops().take(o.len() as int) =~= o);
        let ghost t = self.ops().skip(o.len() as int);
        assert(forall|i: int| 0 <= i < t.len() ==> t[i] == self.ops()[o.len() + i]);
        assert(t.len() > k);
        assert(t[0] == (MmioOp::Write8 { offset: UART_TX_RX_FIFO, value: c }));
        assert(c == 10 ==> t[1] == (MmioOp::Write8 { offset: UART_TX_RX_FIFO, value: 13 }));
        assert(t.len() - k <= max_polls + 1);
        assert(forall|i: int| k <= i < t.len() ==> #[trigger] t[i] == rd32(UART_CHANNEL_STS, t[i].value32()));
        assert(forall|i: int| k <= i < t.len() - 1 ==> (#[trigger] t[i]).value32() & CHANNEL_STS_TEMPTY == 0);
        assert((sts & CHANNEL_STS_TEMPTY != 0) == (t.last().value32() & CHANNEL_STS_TEMPTY != 0));
        sts & CHANNEL_STS_TEMPTY != 0
    }

    /// Clears every channel interrupt.
    pub fn clear_all_interrupts(&mut self)
        ensures
            final(self).ops() == old(self).ops().push(wr32(UART_CHNL_INT_STS, 0xffff_ffff)),
    {
        self.regs.write32(UART_CHNL_INT_STS, 0xffff_ffff);
    }

    /// The next received byte, if the receive FIFO holds one.
    pub fn get_char(&mut self) -> (r: Option<u8>)
        ensures
            final(self).ops().len() > old(self).ops().len(),
            final(self).ops().take(old(self).ops().len() as int) == old(self).ops(),
            final(self).ops()[old(self).ops().len() as int] == rd32(
                UART_CHANNEL_STS,
                final(self).ops()[old(self).ops().len() as int].value32(),
            ),
            if final(self).ops()[old(self).ops().len() as int].value32() & CHANNEL_STS_REMPTY == 0 {
                &&& final(self).ops().len() == old(self).ops().len() + 2
                &&& final(self).ops().last() matches MmioOp::Read8 { offset, value }
                &&& offset == UART_TX_RX_FIFO
                &&& r == Some(value)
            } else {
                final(self).ops().len() == old(self).ops().len() + 1 && r is None
            },
    {
        let ghost o = self.ops();
        let sts = self.regs.read32(UART_CHANNEL_STS);
        let r = if sts & CHANNEL_STS_REMPTY == 0 {
            Some(self.regs.read8(UART_TX_RX_FIFO))
        } else {
            None
        };
        assert(self.ops().take(o.len() as int) =~= o);
        r
    }
}

} // verus!
