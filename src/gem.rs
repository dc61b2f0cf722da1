//! A driver for the Cadence GEM Ethernet MAC of the ZynqMP, as a typestate
//! lifecycle: reset, PHY management ready, configured, running.
use core::marker::PhantomData;
use vstd::prelude::*;
use crate::mmio::{extends_mmio, modified, modify_ops, rd32, since_mmio, wr32, Mmio, MmioOp, Regs};
use crate::{Duplex, PhyReadWrite, Speed};

verus! {

/// A 48-bit MAC address, first byte first.
pub struct MacAddress([u8; 6]);

/// The little-endian value of bytes `b[lo..lo + n]`.
pub open spec fn le_value(b: Seq<u8>, lo: int, n: nat) -> nat
    decreases n,
{
    if n == 0 {
        0
    } else {
        b[lo] as nat + 256 * le_value(b, lo + 1, (n - 1) as nat)
    }
}

impl MacAddress {
    /// The six bytes.
    pub closed spec fn bytes(&self) -> Seq<u8> {
        self.0@
    }

    pub fn new(mac: [u8; 6]) -> (r: MacAddress)
        ensures
            r.bytes() == mac@,
    {
        MacAddress(mac)
    }

    /// The first four bytes as a little-endian word.
    pub fn get_bottom(&self) -> (r: u32)
        ensures
            r as nat == le_value(self.bytes(), 0, 4),
    {
        reveal_with_fuel(le_value, 5);
        let b = &self.0;
        b[0] as u32 + (b[1] as u32) * 256 + (b[2] as u32) * 65536 + (b[3] as u32) * 16777216
    }

    /// The last two bytes as a little-endian half-word.
    pub fn get_top(&self) -> (r: u16)
        ensures
            r as nat == le_value(self.bytes(), 4, 2),
    {
        reveal_with_fuel(le_value, 3);
        let b = &self.0;
        b[4] as u16 + (b[5] as u16) * 256
    }

    pub fn inner(&self) -> (r: [u8; 6])
        ensures
            r@ == self.bytes(),
    {
        self.0
    }
}

impl From<(u32, u16)> for MacAddress {
    /// The address whose first four bytes are `bottom` and last two `top`,
    /// both little endian.
    fn from(mac: (u32, u16)) -> (r: MacAddress)
        ensures
            le_value(r.bytes(), 0, 4) == mac.0 as nat,
            le_value(r.bytes(), 4, 2) == mac.1 as nat,
    {
        let (bottom, top) = mac;
        let data: [u8; 6] = [
            (bottom % 256) as u8,
            (bottom / 256 % 256) as u8,
            (bottom / 65536 % 256) as u8,
            (bottom / 16777216) as u8,
            (top % 256) as u8,
            (top / 256) as u8,
        ];
        proof {
            reveal_with_fuel(le_value, 5);
        }
        MacAddress(data)
    }
}

impl vstd::std_specs::convert::FromSpecImpl<(u32, u16)> for MacAddress {
    open spec fn obeys_from_spec() -> bool {
        true
    }

    closed spec fn from_spec(v: (u32, u16)) -> MacAddress {
        MacAddress(
            [
                (v.0 % 256) as u8,
                (v.0 / 256 % 256) as u8,
                (v.0 / 65536 % 256) as u8,
                (v.0 / 16777216) as u8,
                (v.1 % 256) as u8,
                (v.1 / 256) as u8,
            ],
        )
    }
}

/// The outcome that the receive status register reports.
#[derive(Debug, Clone, Copy, PartialEq, Eq, Structural)]
pub enum RecvStatus {
    FrameReceived,
    RespNotOk,
    FifoOverflow,
    UnavailableBuffer,
    Unknown,
}

} // verus!

verus! {

pub const GEM_NETWORK_CONTROL: usize = 0x000;
pub const GEM_NETWORK_CONFIG: usize = 0x004;
pub const GEM_NETWORK_STATUS: usize = 0x008;
pub const GEM_DMA_CONFIG: usize = 0x010;
pub const GEM_TRANSMIT_STATUS: usize = 0x014;
pub const GEM_RECEIVE_Q_PTR: usize = 0x018;
pub const GEM_TRANSMIT_Q_PTR: usize = 0x01c;
pub const GEM_RECEIVE_STATUS: usize = 0x020;
pub const GEM_INT_STATUS: usize = 0x024;
pub const GEM_INT_ENABLE: usize = 0x028;
pub const GEM_INT_DISABLE: usize = 0x02c;
pub const GEM_PHY_MANAGEMENT: usize = 0x034;
pub const GEM_HASH_BOTTOM: usize = 0x080;
pub const GEM_HASH_TOP: usize = 0x084;
pub const GEM_SPEC_ADD1_BOTTOM: usize = 0x088;
pub const GEM_SPEC_ADD1_TOP: usize = 0x08c;
pub const GEM_TRANSMIT_Q1_PTR: usize = 0x440;
pub const GEM_RECEIVE_Q1_PTR: usize = 0x480;
pub const GEM_UPPER_TX_Q_BASE_ADDR: usize = 0x4c8;
pub const GEM_TX_BD_CONTROL: usize = 0x4cc;
pub const GEM_RX_BD_CONTROL: usize = 0x4d0;
pub const GEM_UPPER_RX_Q_BASE_ADDR: usize = 0x4d4;

pub const NETWORK_CONTROL_ENABLE_RECEIVE: u32 = 0x0004;
pub const NETWORK_CONTROL_ENABLE_TRANSMIT: u32 = 0x0008;
pub const NETWORK_CONTROL_MAN_PORT_EN: u32 = 0x0010;
pub const NETWORK_CONTROL_CLEAR_ALL_STATS_REGS: u32 = 0x0020;
pub const NETWORK_CONTROL_TX_START_PCLK: u32 = 0x0200;

pub const NETWORK_CONFIG_SPEED: u32 = 0x0000_0001;
pub const NETWORK_CONFIG_FULL_DUPLEX: u32 = 0x0000_0002;
pub const NETWORK_CONFIG_COPY_ALL_FRAMES: u32 = 0x0000_0010;
pub const NETWORK_CONFIG_NO_BROADCAST: u32 = 0x0000_0020;
pub const NETWORK_CONFIG_GIGABIT_MODE_ENABLE: u32 = 0x0000_0400;
pub const NETWORK_CONFIG_PAUSE_ENABLE: u32 = 0x0000_2000;
pub const NETWORK_CONFIG_DATA_BUS_WIDTH: u32 = 0x0060_0000;
pub const NETWORK_CONFIG_RECEIVE_CHECKSUM_OFFLOAD_ENABLE: u32 = 0x0100_0000;

/// Network configuration defaults: broadcasts received, 64-bit data bus,
/// receive checksum offload, no pause.
pub const NETWORK_CONFIG_DEFAULTS_MASK: u32 = 0x0160_2020;
pub const NETWORK_CONFIG_DEFAULTS: u32 = 0x0120_0000;

/// DMA configuration: 1600-byte receive buffers, full-size packet buffers,
/// INCR16 bursts, plain descriptors, no packet byte swap.
pub const DMA_CONFIG_DEFAULTS: u32 = 0x0019_0704;

pub const NETWORK_STATUS_MAN_DONE: u32 = 0x0004;

pub const TRANSMIT_STATUS_TRANSMIT_GO: u32 = 0x0008;

pub const RECEIVE_STATUS_BUFFER_NOT_AVAILABLE: u32 = 0x0001;
pub const RECEIVE_STATUS_FRAME_RECEIVED: u32 = 0x0002;
pub const RECEIVE_STATUS_RECEIVE_OVERRUN: u32 = 0x0004;
pub const RECEIVE_STATUS_RESP_NOT_OK: u32 = 0x0008;

pub const INT_RECEIVE_COMPLETE: u32 = 0x0002;
pub const INT_TRANSMIT_COMPLETE: u32 = 0x0080;

/// PHY management frame fields: clause 22 start, the fixed `10` code, the
/// operation, PHY and register address, data.
pub const PHY_MANAGEMENT_CLAUSE22: u32 = 0x4000_0000;
pub const PHY_MANAGEMENT_CODE: u32 = 0x0002_0000;
pub const PHY_MANAGEMENT_OP_WRITE: u32 = 0x1000_0000;
pub const PHY_MANAGEMENT_OP_READ: u32 = 0x2000_0000;

/// How many status polls a management-bus or transmit wait makes at most.
pub const GEM_POLL_LIMIT: u32 = 1_000_000;

/// The register writes of the reset, in order: interrupts off, receive and
/// transmit off, statistics cleared, status cleared, management idle, second
/// queue pointers and descriptor controls zero, hash filter empty.
pub open spec fn reset_write(i: int) -> (usize, u32) {
    if i == 0 {
        (GEM_INT_DISABLE, 0xffff_ffff)
    } else if i == 1 {
        (GEM_NETWORK_CONTROL, 0)
    } else if i == 2 {
        (GEM_NETWORK_CONTROL, NETWORK_CONTROL_CLEAR_ALL_STATS_REGS)
    } else if i == 3 {
        (GEM_TRANSMIT_STATUS, 0xffff_ffff)
    } else if i == 4 {
        (GEM_RECEIVE_STATUS, 0xffff_ffff)
    } else if i == 5 {
        (GEM_PHY_MANAGEMENT, 0)
    } else if i == 6 {
        (GEM_TRANSMIT_Q1_PTR, 0)
    } else if i == 7 {
        (GEM_RECEIVE_Q1_PTR, 0)
    } else if i == 8 {
        (GEM_TX_BD_CONTROL, 0)
    } else if i == 9 {
        (GEM_RX_BD_CONTROL, 0)
    } else if i == 10 {
        (GEM_HASH_BOTTOM, 0)
    } else {
        (GEM_HASH_TOP, 0)
    }
}

pub const RESET_WRITES: usize = 12;

fn reset_write_of(i: usize) -> (r: (usize, u32))
    requires
        i < RESET_WRITES,
    ensures
        r == reset_write(i as int),
{
    if i == 0 {
        (GEM_INT_DISABLE, 0xffff_ffff)
    } else if i == 1 {
        (GEM_NETWORK_CONTROL, 0)
    } else if i == 2 {
        (GEM_NETWORK_CONTROL, NETWORK_CONTROL_CLEAR_ALL_STATS_REGS)
    } else if i == 3 {
        (GEM_TRANSMIT_STATUS, 0xffff_ffff)
    } else if i == 4 {
        (GEM_RECEIVE_STATUS, 0xffff_ffff)
    } else if i == 5 {
        (GEM_PHY_MANAGEMENT, 0)
    } else if i == 6 {
        (GEM_TRANSMIT_Q1_PTR, 0)
    } else if i == 7 {
        (GEM_RECEIVE_Q1_PTR, 0)
    } else if i == 8 {
        (GEM_TX_BD_CONTROL, 0)
    } else if i == 9 {
        (GEM_RX_BD_CONTROL, 0)
    } else if i == 10 {
        (GEM_HASH_BOTTOM, 0)
    } else {
        (GEM_HASH_TOP, 0)
    }
}

/// `t` is what `init` does: the reset writes, then the defaults: network
/// configuration, DMA configuration, management port on, receive and transmit
/// complete interrupts on.
pub open spec fn gem_init_trace(t: Seq<MmioOp>) -> bool {
    &&& t.len() == RESET_WRITES + 6
    &&& forall|i: int| 0 <= i < RESET_WRITES ==> #[trigger] t[i] == wr32(reset_write(i).0, reset_write(i).1)
    &&& modified(t.subrange(12, 14), GEM_NETWORK_CONFIG, NETWORK_CONFIG_DEFAULTS_MASK, NETWORK_CONFIG_DEFAULTS)
    &&& t[14] == wr32(GEM_DMA_CONFIG, DMA_CONFIG_DEFAULTS)
    &&& modified(t.subrange(15, 17), GEM_NETWORK_CONTROL, NETWORK_CONTROL_MAN_PORT_EN, NETWORK_CONTROL_MAN_PORT_EN)
    &&& t[17] == wr32(GEM_INT_ENABLE, INT_RECEIVE_COMPLETE | INT_TRANSMIT_COMPLETE)
}

/// The management frame for a clause 22 access.
pub open spec fn spec_man_frame(op: u32, phy_addr: u32, regnum: u32, data: u16) -> u32 {
    PHY_MANAGEMENT_CLAUSE22 | PHY_MANAGEMENT_CODE | op | ((phy_addr & 0x1f) << 23u32) | ((regnum & 0x1f) << 18u32) | (data as u32)
}

/// The management frame for a clause 22 access of `regnum` at `phy_addr`:
/// `op` is the read or write operation code.
pub fn man_frame(op: u32, phy_addr: u32, regnum: u32, data: u16) -> (r: u32)
    ensures
        r == spec_man_frame(op, phy_addr, regnum, data),
{
    PHY_MANAGEMENT_CLAUSE22 | PHY_MANAGEMENT_CODE | op | ((phy_addr & 0x1f) << 23u32) | ((regnum & 0x1f) << 18u32) | (data as u32)
}

/// The outcome that receive status `bits` reports, by priority.
pub open spec fn spec_recv_status(bits: u32) -> RecvStatus {
    if bits & RECEIVE_STATUS_FRAME_RECEIVED != 0 {
        RecvStatus::FrameReceived
    } else if bits & RECEIVE_STATUS_RESP_NOT_OK != 0 {
        RecvStatus::RespNotOk
    } else if bits & RECEIVE_STATUS_RECEIVE_OVERRUN != 0 {
        RecvStatus::FifoOverflow
    } else if bits & RECEIVE_STATUS_BUFFER_NOT_AVAILABLE != 0 {
        RecvStatus::UnavailableBuffer
    } else {
        RecvStatus::Unknown
    }
}

/// The outcome that receive status `bits` reports: a received frame first, then
/// a bus error, an overrun, a missing buffer.
pub fn recv_status(bits: u32) -> (r: RecvStatus)
    ensures
        r == spec_recv_status(bits),
{
    if bits & RECEIVE_STATUS_FRAME_RECEIVED != 0 {
        RecvStatus::FrameReceived
    } else if bits & RECEIVE_STATUS_RESP_NOT_OK != 0 {
        RecvStatus::RespNotOk
    } else if bits & RECEIVE_STATUS_RECEIVE_OVERRUN != 0 {
        RecvStatus::FifoOverflow
    } else if bits & RECEIVE_STATUS_BUFFER_NOT_AVAILABLE != 0 {
        RecvStatus::UnavailableBuffer
    } else {
        RecvStatus::Unknown
    }
}

/// The network configuration (mask, bits) for a link speed.
pub open spec fn speed_bits(speed: Speed) -> (u32, u32) {
    match speed {
        Speed::S1000 => (NETWORK_CONFIG_GIGABIT_MODE_ENABLE, NETWORK_CONFIG_GIGABIT_MODE_ENABLE),
        Speed::S100 => (NETWORK_CONFIG_GIGABIT_MODE_ENABLE | NETWORK_CONFIG_SPEED, NETWORK_CONFIG_SPEED),
        Speed::S10 => (NETWORK_CONFIG_GIGABIT_MODE_ENABLE | NETWORK_CONFIG_SPEED, 0),
    }
}

/// Lifecycle states of the MAC.
pub struct Reset;

pub struct PhyReady;

pub struct Config;

pub struct Running;

/// The MAC in lifecycle state `S`, over register block `M`.
pub struct Device<S, M> {
    regs: Regs<M>,
    phantom: PhantomData<S>,
}

impl<S, M: Mmio> Device<S, M> {
    /// The register accesses of the driver's own methods, oldest first. The
    /// management frames sent through `PhyReadWrite`, whose methods take
    /// `&self`, are not recorded.
    pub closed spec fn ops(&self) -> Seq<MmioOp> {
        self.regs.ops()
    }

    /// The register block.
    pub closed spec fn block(&self) -> M {
        self.regs.io()
    }

    fn into_state<U>(self) -> (r: Device<U, M>)
        ensures
            r.ops() == self.ops(),
            r.block() == self.block(),
    {
        Device { regs: self.regs, phantom: PhantomData }
    }
}

impl<M: Mmio> Device<Reset, M> {
    pub fn new(io: M) -> (r: Device<Reset, M>)
        ensures
            r.block() == io,
            r.ops() == Seq::<MmioOp>::empty(),
    {
        Device { regs: Regs::new(io), phantom: PhantomData }
    }

    /// Resets the MAC and sets its defaults; the management port is then on.
    pub fn init(self) -> (r: Device<PhyReady, M>)
        ensures
            r.block() == self.block(),
            r.ops().take(self.ops().len() as int) == self.ops(),
            r.ops().len() == self.ops().len() + 18,
            gem_init_trace(r.ops().skip(self.ops().len() as int)),
    {
        let mut dev = self;
        let ghost o = dev.ops();
        let mut i: usize = 0;
        while i < RESET_WRITES
            invariant
                i <= RESET_WRITES,
                dev.block() == self.block(),
                o == self.ops(),
                dev.ops().len() == o.len() + i,
                dev.ops().take(o.len() as int) == o,
                forall|j: int| 0 <= j < i ==> #[trigger] dev.ops()[o.len() + j] == wr32(reset_write(j).0, reset_write(j).1),
            decreases RESET_WRITES - i,
        {
            let (offset, value) = reset_write_of(i);
            dev.regs.write32(offset, value);
            assert(dev.ops().take(o.len() as int) =~= o);
            i = i + 1;
        }
        let ghost o1 = dev.ops();
        dev.regs.modify32(GEM_NETWORK_CONFIG, NETWORK_CONFIG_DEFAULTS_MASK, NETWORK_CONFIG_DEFAULTS);
        let ghost m1 = dev.ops();
        assert(m1.subrange(o1.len() as int, o1.len() + 2int) =~= modify_ops(GEM_NETWORK_CONFIG, m1[o1.len() as int].value32(), NETWORK_CONFIG_DEFAULTS_MASK, NETWORK_CONFIG_DEFAULTS));
        assert(modified(m1.subrange(o1.len() as int, o1.len() + 2int), GEM_NETWORK_CONFIG, NETWORK_CONFIG_DEFAULTS_MASK, NETWORK_CONFIG_DEFAULTS));
        dev.regs.write32(GEM_DMA_CONFIG, DMA_CONFIG_DEFAULTS);
        let ghost m2 = dev.ops();
        dev.regs.modify32(GEM_NETWORK_CONTROL, NETWORK_CONTROL_MAN_PORT_EN, NETWORK_CONTROL_MAN_PORT_EN);
        let ghost m3 = dev.ops();
        assert(m3.subrange(m2.len() as int, m2.len() + 2int) =~= modify_ops(GEM_NETWORK_CONTROL, m3[m2.len() as int].value32(), NETWORK_CONTROL_MAN_PORT_EN, NETWORK_CONTROL_MAN_PORT_EN));
        assert(modified(m3.subrange(m2.len() as int, m2.len() + 2int), GEM_NETWORK_CONTROL, NETWORK_CONTROL_MAN_PORT_EN, NETWORK_CONTROL_MAN_PORT_EN));
        dev.regs.write32(GEM_INT_ENABLE, INT_RECEIVE_COMPLETE | INT_TRANSMIT_COMPLETE);
        assert(dev.ops().subrange(o1.len() as int, o1.len() + 2int) =~= m1.subrange(o1.len() as int, o1.len() + 2int));
        assert(dev.ops().subrange(m2.len() as int, m2.len() + 2int) =~= m3.subrange(m2.len() as int, m2.len() + 2int));
        let ghost t = dev.ops().skip(o.len() as int);
        assert(dev.ops().take(o.len() as int) =~= o);
        assert forall|j: int| 0 <= j < RESET_WRITES implies #[trigger] t[j] == wr32(reset_write(j).0, reset_write(j).1) by {
            assert(o1[o.len() + j] == wr32(reset_write(j).0, reset_write(j).1));
        }
        assert(t.subrange(12, 14) =~= dev.ops().subrange(o1.len() as int, o1.len() + 2int));
        assert(t.subrange(15, 17) =~= dev.ops().subrange(o1.len() + 3int, o1.len() + 5int));
        dev.into_state()
    }
}

impl<M: Mmio> Device<PhyReady, M> {
    /// Waits, for at most `GEM_POLL_LIMIT` reads, until the management bus is idle.
    fn wait_man_done(&self) {
        let mut n: u32 = 0;
        while n < GEM_POLL_LIMIT && self.regs.block().read32(GEM_NETWORK_STATUS) & NETWORK_STATUS_MAN_DONE == 0
            invariant
                n <= GEM_POLL_LIMIT,
            decreases GEM_POLL_LIMIT - n,
        {
            n = n + 1;
        }
    }

    /// Sends one management frame, waiting for the bus before and after.
    fn phy_setup_op(&self, phy_addr: u32, regnum: u32, op: u32, data: u16) {
        self.wait_man_done();
        self.regs.block().write32(GEM_PHY_MANAGEMENT, man_frame(op, phy_addr, regnum, data));
        self.wait_man_done();
    }

    /// PHY management is done: the MAC can be configured.
    pub fn phy_complete(self) -> (r: Device<Config, M>)
        ensures
            r.ops() == self.ops(),
            r.block() == self.block(),
    {
        self.into_state()
    }
}

impl<M: Mmio> PhyReadWrite for Device<PhyReady, M> {
    fn phy_write(&self, phy_addr: u32, regnum: u32, data: u16) {
        self.phy_setup_op(phy_addr, regnum, PHY_MANAGEMENT_OP_WRITE, data);
    }

    fn phy_read(&self, phy_addr: u32, regnum: u32) -> u16 {
        self.phy_setup_op(phy_addr, regnum, PHY_MANAGEMENT_OP_READ, 0);
        (self.regs.block().read32(GEM_PHY_MANAGEMENT) & 0xffff) as u16
    }
}


impl<S, M: Mmio> Device<S, M> {
    fn rmw(&mut self, offset: usize, mask: u32, bits: u32)
        ensures
            final(self).block() == old(self).block(),
            extends_mmio(old(self).ops(), final(self).ops()),
            modified(since_mmio(old(self).ops(), final(self).ops()), offset, mask, bits),
    {
        let ghost o = self.ops();
        self.regs.modify32(offset, mask, bits);
        assert(self.ops().take(o.len() as int) =~= o);
        assert(since_mmio(o, self.ops()) =~= modify_ops(offset, self.ops()[o.len() as int].value32(), mask, bits));
    }

    fn write(&mut self, offset: usize, value: u32)
        ensures
            final(self).block() == old(self).block(),
            final(self).ops() == old(self).ops().push(wr32(offset, value)),
    {
        self.regs.write32(offset, value);
    }

    fn read(&mut self, offset: usize) -> (r: u32)
        ensures
            final(self).block() == old(self).block(),
            final(self).ops() == old(self).ops().push(rd32(offset, r)),
    {
        self.regs.read32(offset)
    }

    /// Two read-modify-writes of the network control register.
    fn network_control_twice(&mut self, mask1: u32, bits1: u32, mask2: u32, bits2: u32)
        ensures
            final(self).block() == old(self).block(),
            extends_mmio(old(self).ops(), final(self).ops()),
            since_mmio(old(self).ops(), final(self).ops()).len() == 4,
            modified(since_mmio(old(self).ops(), final(self).ops()).take(2), GEM_NETWORK_CONTROL, mask1, bits1),
            modified(since_mmio(old(self).ops(), final(self).ops()).skip(2), GEM_NETWORK_CONTROL, mask2, bits2),
    {
        let ghost o = self.ops();
        self.rmw(GEM_NETWORK_CONTROL, mask1, bits1);
        let ghost o1 = self.ops();
        self.rmw(GEM_NETWORK_CONTROL, mask2, bits2);
        assert(self.ops().take(o.len() as int) =~= o);
        assert(since_mmio(o, self.ops()).take(2) =~= since_mmio(o, o1));
        assert(since_mmio(o, self.ops()).skip(2) =~= since_mmio(o1, self.ops()));
    }
}

impl<M: Mmio> Device<Config, M> {
    /// Sets the MAC's link speed.
    pub fn set_speed(&mut self, speed: Speed)
        ensures
            final(self).block() == old(self).block(),
            extends_mmio(old(self).ops(), final(self).ops()),
            modified(since_mmio(old(self).ops(), final(self).ops()), GEM_NETWORK_CONFIG, speed_bits(speed).0, speed_bits(speed).1),
    {
        match speed {
            Speed::S1000 => self.rmw(GEM_NETWORK_CONFIG, NETWORK_CONFIG_GIGABIT_MODE_ENABLE, NETWORK_CONFIG_GIGABIT_MODE_ENABLE),
            Speed::S100 => self.rmw(GEM_NETWORK_CONFIG, NETWORK_CONFIG_GIGABIT_MODE_ENABLE | NETWORK_CONFIG_SPEED, NETWORK_CONFIG_SPEED),
            Speed::S10 => self.rmw(GEM_NETWORK_CONFIG, NETWORK_CONFIG_GIGABIT_MODE_ENABLE | NETWORK_CONFIG_SPEED, 0),
        }
    }

    /// Sets the MAC's duplex.
    pub fn set_duplex(&mut self, duplex: Duplex)
        ensures
            final(self).block() == old(self).block(),
            extends_mmio(old(self).ops(), final(self).ops()),
            modified(
                since_mmio(old(self).ops(), final(self).ops()),
                GEM_NETWORK_CONFIG,
                NETWORK_CONFIG_FULL_DUPLEX,
                if duplex == Duplex::Full { NETWORK_CONFIG_FULL_DUPLEX } else { 0 },
            ),
    {
        match duplex {
            Duplex::Half => self.rmw(GEM_NETWORK_CONFIG, NETWORK_CONFIG_FULL_DUPLEX, 0),
            Duplex::Full => self.rmw(GEM_NETWORK_CONFIG, NETWORK_CONFIG_FULL_DUPLEX, NETWORK_CONFIG_FULL_DUPLEX),
        }
    }

    /// Receives every frame, whatever its destination.
    pub fn enable_promiscuous_mode(&mut self)
        ensures
            final(self).block() == old(self).block(),
            extends_mmio(old(self).ops(), final(self).ops()),
            modified(since_mmio(old(self).ops(), final(self).ops()), GEM_NETWORK_CONFIG, NETWORK_CONFIG_COPY_ALL_FRAMES, NETWORK_CONFIG_COPY_ALL_FRAMES),
    {
        self.rmw(GEM_NETWORK_CONFIG, NETWORK_CONFIG_COPY_ALL_FRAMES, NETWORK_CONFIG_COPY_ALL_FRAMES);
    }

    pub fn disable_promiscuous_mode(&mut self)
        ensures
            final(self).block() == old(self).block(),
            extends_mmio(old(self).ops(), final(self).ops()),
            modified(since_mmio(old(self).ops(), final(self).ops()), GEM_NETWORK_CONFIG, NETWORK_CONFIG_COPY_ALL_FRAMES, 0),
    {
        self.rmw(GEM_NETWORK_CONFIG, NETWORK_CONFIG_COPY_ALL_FRAMES, 0);
    }

    /// Sets the first specific address filter to `mac`.
    pub fn set_mac_address(&mut self, mac: MacAddress)
        ensures
            final(self).block() == old(self).block(),
            final(self).ops() == old(self).ops() + seq![
                wr32(GEM_SPEC_ADD1_BOTTOM, le_value(mac.bytes(), 0, 4) as u32),
                wr32(GEM_SPEC_ADD1_TOP, le_value(mac.bytes(), 4, 2) as u32),
            ],
    {
        let ghost o = self.ops();
        self.write(GEM_SPEC_ADD1_BOTTOM, mac.get_bottom());
        self.write(GEM_SPEC_ADD1_TOP, mac.get_top() as u32);
        assert(self.ops() =~= o + seq![
            wr32(GEM_SPEC_ADD1_BOTTOM, le_value(mac.bytes(), 0, 4) as u32),
            wr32(GEM_SPEC_ADD1_TOP, le_value(mac.bytes(), 4, 2) as u32),
        ]);
    }

    /// The first specific address filter, as (bottom word, top half-word).
    pub fn split_mac_address(&mut self) -> (r: (u32, u32))
        ensures
            final(self).block() == old(self).block(),
            final(self).ops() == old(self).ops() + seq![rd32(GEM_SPEC_ADD1_BOTTOM, r.0), rd32(GEM_SPEC_ADD1_TOP, final(self).ops().last().value32())],
            r.1 == final(self).ops().last().value32() & 0xffff,
    {
        let ghost o = self.ops();
        let bottom = self.read(GEM_SPEC_ADD1_BOTTOM);
        let top = self.read(GEM_SPEC_ADD1_TOP);
        assert(self.ops() =~= o + seq![rd32(GEM_SPEC_ADD1_BOTTOM, bottom), rd32(GEM_SPEC_ADD1_TOP, top)]);
        (bottom, top & 0xffff)
    }

    /// Points the transmit queue at descriptor `desc` (upper address bits zero).
    pub fn set_tx_desc(&mut self, desc: u32)
        ensures
            final(self).block() == old(self).block(),
            final(self).ops() == old(self).ops() + seq![wr32(GEM_TRANSMIT_Q_PTR, desc), wr32(GEM_UPPER_TX_Q_BASE_ADDR, 0)],
    {
        let ghost o = self.ops();
        self.write(GEM_TRANSMIT_Q_PTR, desc);
        self.write(GEM_UPPER_TX_Q_BASE_ADDR, 0);
        assert(self.ops() =~= o + seq![wr32(GEM_TRANSMIT_Q_PTR, desc), wr32(GEM_UPPER_TX_Q_BASE_ADDR, 0)]);
    }

    /// Points the second transmit queue at descriptor `desc`.
    pub fn set_tx_q1_desc(&mut self, desc: u32)
        ensures
            final(self).block() == old(self).block(),
            final(self).ops() == old(self).ops().push(wr32(GEM_TRANSMIT_Q1_PTR, desc)),
    {
        self.write(GEM_TRANSMIT_Q1_PTR, desc);
    }

    /// Points the receive queue at descriptor `desc` (upper address bits zero).
    pub fn set_rx_desc(&mut self, desc: u32)
        ensures
            final(self).block() == old(self).block(),
            final(self).ops() == old(self).ops() + seq![wr32(GEM_RECEIVE_Q_PTR, desc), wr32(GEM_UPPER_RX_Q_BASE_ADDR, 0)],
    {
        let ghost o = self.ops();
        self.write(GEM_RECEIVE_Q_PTR, desc);
        self.write(GEM_UPPER_RX_Q_BASE_ADDR, 0);
        assert(self.ops() =~= o + seq![wr32(GEM_RECEIVE_Q_PTR, desc), wr32(GEM_UPPER_RX_Q_BASE_ADDR, 0)]);
    }

    /// Enables transmit, then receive.
    pub fn run(self) -> (r: Device<Running, M>)
        ensures
            r.block() == self.block(),
            extends_mmio(self.ops(), r.ops()),
            since_mmio(self.ops(), r.ops()).len() == 4,
            modified(since_mmio(self.ops(), r.ops()).take(2), GEM_NETWORK_CONTROL, NETWORK_CONTROL_ENABLE_TRANSMIT, NETWORK_CONTROL_ENABLE_TRANSMIT),
            modified(since_mmio(self.ops(), r.ops()).skip(2), GEM_NETWORK_CONTROL, NETWORK_CONTROL_ENABLE_RECEIVE, NETWORK_CONTROL_ENABLE_RECEIVE),
    {
        let mut dev = self;
        dev.network_control_twice(
            NETWORK_CONTROL_ENABLE_TRANSMIT,
            NETWORK_CONTROL_ENABLE_TRANSMIT,
            NETWORK_CONTROL_ENABLE_RECEIVE,
            NETWORK_CONTROL_ENABLE_RECEIVE,
        );
        dev.into_state()
    }
}

impl<M: Mmio> Device<Running, M> {
    /// Clears every interrupt status bit.
    pub fn clear_all_interrupts(&mut self)
        ensures
            final(self).block() == old(self).block(),
            final(self).ops() == old(self).ops().push(wr32(GEM_INT_STATUS, 0xffff_ffff)),
    {
        self.write(GEM_INT_STATUS, 0xffff_ffff);
    }

    /// A transmission has completed.
    pub fn tx_is_complete(&mut self) -> (r: bool)
        ensures
            final(self).block() == old(self).block(),
            final(self).ops() == old(self).ops().push(rd32(GEM_INT_STATUS, final(self).ops().last().value32())),
            r == (final(self).ops().last().value32() & INT_TRANSMIT_COMPLETE != 0),
    {
        self.read(GEM_INT_STATUS) & INT_TRANSMIT_COMPLETE != 0
    }

    /// A reception has completed.
    pub fn rx_is_complete(&mut self) -> (r: bool)
        ensures
            final(self).block() == old(self).block(),
            final(self).ops() == old(self).ops().push(rd32(GEM_INT_STATUS, final(self).ops().last().value32())),
            r == (final(self).ops().last().value32() & INT_RECEIVE_COMPLETE != 0),
    {
        self.read(GEM_INT_STATUS) & INT_RECEIVE_COMPLETE != 0
    }

    pub fn int_status(&mut self) -> (r: u32)
        ensures
            final(self).block() == old(self).block(),
            final(self).ops() == old(self).ops().push(rd32(GEM_INT_STATUS, r)),
    {
        self.read(GEM_INT_STATUS)
    }

    pub fn get_rx_desc(&mut self) -> (r: u32)
        ensures
            final(self).block() == old(self).block(),
            final(self).ops() == old(self).ops().push(rd32(GEM_RECEIVE_Q_PTR, r)),
    {
        self.read(GEM_RECEIVE_Q_PTR)
    }

    pub fn get_tx_desc(&mut self) -> (r: u32)
        ensures
            final(self).block() == old(self).block(),
            final(self).ops() == old(self).ops().push(rd32(GEM_TRANSMIT_Q_PTR, r)),
    {
        self.read(GEM_TRANSMIT_Q_PTR)
    }

    /// The transmit status, which it then clears by writing it back.
    pub fn get_transmit_status(&mut self) -> (r: u32)
        ensures
            final(self).block() == old(self).block(),
            final(self).ops() == old(self).ops() + seq![rd32(GEM_TRANSMIT_STATUS, r), wr32(GEM_TRANSMIT_STATUS, r)],
    {
        let ghost o = self.ops();
        let val = self.read(GEM_TRANSMIT_STATUS);
        self.write(GEM_TRANSMIT_STATUS, val);
        assert(self.ops() =~= o + seq![rd32(GEM_TRANSMIT_STATUS, val), wr32(GEM_TRANSMIT_STATUS, val)]);
        val
    }

    /// The receive outcome, whose status it then clears by writing it back.
    pub fn get_receive_status(&mut self) -> (r: RecvStatus)
        ensures
            final(self).block() == old(self).block(),
            final(self).ops() == old(self).ops() + seq![
                rd32(GEM_RECEIVE_STATUS, final(self).ops().last().value32()),
                wr32(GEM_RECEIVE_STATUS, final(self).ops().last().value32()),
            ],
            r == spec_recv_status(final(self).ops().last().value32()),
    {
        let ghost o = self.ops();
        let bits = self.read(GEM_RECEIVE_STATUS);
        self.write(GEM_RECEIVE_STATUS, bits);
        assert(self.ops() =~= o + seq![rd32(GEM_RECEIVE_STATUS, bits), wr32(GEM_RECEIVE_STATUS, bits)]);
        recv_status(bits)
    }

    /// Waits, for at most `max_polls` extra status reads, until no transmission
    /// is under way, then starts one; returns whether it started.
    pub fn transmit(&mut self, max_polls: u32) -> (r: bool)
        ensures
            final(self).block() == old(self).block(),
            extends_mmio(old(self).ops(), final(self).ops()),
            transmit_trace(max_polls, since_mmio(old(self).ops(), final(self).ops()), r),
    {
        let ghost o = self.ops();
        let mut sts = self.read(GEM_TRANSMIT_STATUS);
        let mut n: u32 = 0;
        while sts & TRANSMIT_STATUS_TRANSMIT_GO != 0
            invariant
                n <= max_polls,
                o == old(self).ops(),
                self.block() == old(self).block(),
                self.ops().len() == o.len() + n + 1,
                self.ops().take(o.len() as int) == o,
                self.ops().last() == rd32(GEM_TRANSMIT_STATUS, sts),
                forall|i: int| o.len() <= i < self.ops().len() ==> #[trigger] self.ops()[i] == rd32(GEM_TRANSMIT_STATUS, self.ops()[i].value32()),
                forall|i: int| o.len() <= i < self.ops().len() - 1 ==> (#[trigger] self.ops()[i]).value32() & TRANSMIT_STATUS_TRANSMIT_GO != 0,
            ensures
                sts & TRANSMIT_STATUS_TRANSMIT_GO == 0 || n == max_polls,
            decreases max_polls - n,
        {
            if n == max_polls {
                break;
            }
            sts = self.read(GEM_TRANSMIT_STATUS);
            n = n + 1;
        }
        let ghost polls = self.ops();
        assert(polls.take(o.len() as int) =~= o);
        if sts & TRANSMIT_STATUS_TRANSMIT_GO != 0 {
            assert(forall|i: int| 0 <= i < since_mmio(o, polls).len() ==> since_mmio(o, polls)[i] == polls[o.len() + i]);
            assert(transmit_after_polls(max_polls, since_mmio(o, polls), false, n as int));
            return false;
        }
        self.rmw(GEM_NETWORK_CONTROL, NETWORK_CONTROL_TX_START_PCLK, NETWORK_CONTROL_TX_START_PCLK);
        proof {
            let t = since_mmio(o, self.ops());
            assert(self.ops().take(o.len() as int) =~= o);
            assert(t.take(n + 1) =~= since_mmio(o, polls));
            assert(t.skip(n + 1) =~= since_mmio(polls, self.ops()));
            assert(forall|i: int| 0 <= i < since_mmio(o, polls).len() ==> since_mmio(o, polls)[i] == polls[o.len() + i]);
            assert(forall|i: int| 0 <= i <= n ==> t[i] == since_mmio(o, polls)[i]);
            assert(transmit_after_polls(max_polls, t, true, n as int));
        }
        true
    }

    /// Disables transmit, then receive.
    pub fn stop(self) -> (r: Device<Config, M>)
        ensures
            r.block() == self.block(),
            extends_mmio(self.ops(), r.ops()),
            since_mmio(self.ops(), r.ops()).len() == 4,
            modified(since_mmio(self.ops(), r.ops()).take(2), GEM_NETWORK_CONTROL, NETWORK_CONTROL_ENABLE_TRANSMIT, 0),
            modified(since_mmio(self.ops(), r.ops()).skip(2), GEM_NETWORK_CONTROL, NETWORK_CONTROL_ENABLE_RECEIVE, 0),
    {
        let mut dev = self;
        dev.network_control_twice(NETWORK_CONTROL_ENABLE_TRANSMIT, 0, NETWORK_CONTROL_ENABLE_RECEIVE, 0);
        dev.into_state()
    }

    /// The address in the first specific address filter.
    pub fn mac_address(&mut self) -> (r: MacAddress)
        ensures
            final(self).block() == old(self).block(),
            final(self).ops().len() == old(self).ops().len() + 2,
            final(self).ops().take(old(self).ops().len() as int) == old(self).ops(),
            final(self).ops()[old(self).ops().len() as int] == rd32(GEM_SPEC_ADD1_BOTTOM, final(self).ops()[old(self).ops().len() as int].value32()),
            final(self).ops().last() == rd32(GEM_SPEC_ADD1_TOP, final(self).ops().last().value32()),
            le_value(r.bytes(), 0, 4) == final(self).ops()[old(self).ops().len() as int].value32() as nat,
            le_value(r.bytes(), 4, 2) == (final(self).ops().last().value32() & 0xffff) as nat,
    {
        let ghost o = self.ops();
        let bottom = self.read(GEM_SPEC_ADD1_BOTTOM);
        let top = self.read(GEM_SPEC_ADD1_TOP);
        assert(self.ops().take(o.len() as int) =~= o);
        assert(top & 0xffff <= 0xffff) by (bit_vector);
        MacAddress::from((bottom, (top & 0xffff) as u16))
    }
}

/// `t` is what `transmit` does with at most `max_polls` extra polls: transmit
/// status reads while a transmission is under way, then, where one ended, a
/// start of transmission; `r` says whether it started.
pub open spec fn transmit_trace(max_polls: u32, t: Seq<MmioOp>, r: bool) -> bool {
    exists|n: int| #[trigger] transmit_after_polls(max_polls, t, r, n)
}

/// `t` is what `transmit` does when it reads the status `n + 1` times.
pub open spec fn transmit_after_polls(max_polls: u32, t: Seq<MmioOp>, r: bool, n: int) -> bool {
    &&& 0 <= n <= max_polls
    &&& t.len() >= n + 1
    &&& forall|i: int| 0 <= i <= n ==> #[trigger] t[i] == rd32(GEM_TRANSMIT_STATUS, t[i].value32())
    &&& forall|i: int| 0 <= i < n ==> (#[trigger] t[i]).value32() & TRANSMIT_STATUS_TRANSMIT_GO != 0
    &&& r == (t[n].value32() & TRANSMIT_STATUS_TRANSMIT_GO == 0)
    &&& if r {
        modified(t.skip(n + 1), GEM_NETWORK_CONTROL, NETWORK_CONTROL_TX_START_PCLK, NETWORK_CONTROL_TX_START_PCLK)
    } else {
        t.len() == n + 1 && n == max_polls
    }
}

} // verus!
