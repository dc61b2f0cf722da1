//! Bus operations, register numbers and bit fields of the standard (clause 22)
//! PHY registers, and the local register mirror.
use vstd::prelude::*;
use crate::dp83867::Dp83867Reg;

verus! {

/// One access on the management bus, with the value read or written.
#[derive(Debug, Clone, Copy, PartialEq, Eq, Structural)]
pub enum BusOp {
    Read { phy_addr: u32, regnum: u32, data: u16 },
    Write { phy_addr: u32, regnum: u32, data: u16 },
}

impl BusOp {
    /// The value carried by the access.
    pub open spec fn data(self) -> u16 {
        match self {
            BusOp::Read { data, .. } => data,
            BusOp::Write { data, .. } => data,
        }
    }

    /// The register accessed.
    pub open spec fn reg(self) -> u32 {
        match self {
            BusOp::Read { regnum, .. } => regnum,
            BusOp::Write { regnum, .. } => regnum,
        }
    }

    pub open spec fn is_write(self) -> bool {
        self is Write
    }
}

/// A read of register `reg` at `addr` that returned `v`.
pub open spec fn rd(addr: u32, reg: u16, v: u16) -> BusOp {
    BusOp::Read { phy_addr: addr, regnum: reg as u32, data: v }
}

/// A write of `v` to register `reg` at `addr`.
pub open spec fn wr(addr: u32, reg: u16, v: u16) -> BusOp {
    BusOp::Write { phy_addr: addr, regnum: reg as u32, data: v }
}

} // verus!

verus! {

/// The identifier register read by PHY detection.
pub const DETECT_REG: u16 = 0x01;

/// Bits of the identifier register that a present PHY sets.
pub const PHYREG_MASK: u16 = 0x1808;

pub const MII_BMCR: u16 = 0x00;
pub const MII_BMSR: u16 = 0x01;
pub const MII_ADVERTISE: u16 = 0x04;
pub const MII_LPA: u16 = 0x05;
pub const MII_CTRL1000: u16 = 0x09;
pub const MII_STAT1000: u16 = 0x0a;
pub const MII_MMD_CTRL: u16 = 0x0d;
pub const MII_MMD_DATA: u16 = 0x0e;
pub const MII_ESTATUS: u16 = 0x0f;

/// MMD access control: data function, no post increment.
pub const MII_MMD_CTRL_NOINCR: u16 = 0x4000;

pub const BMCR_SPEED1000: u16 = 0x0040;
pub const BMCR_FULLDPLX: u16 = 0x0100;
pub const BMCR_ANRESTART: u16 = 0x0200;
pub const BMCR_ISOLATE: u16 = 0x0400;
pub const BMCR_ANENABLE: u16 = 0x1000;

pub const BMSR_ERCAP: u16 = 0x0001;
pub const BMSR_LSTATUS: u16 = 0x0004;
pub const BMSR_ANEGCOMPLETE: u16 = 0x0020;
pub const BMSR_ESTATEN: u16 = 0x0100;

pub const ADVERTISE_10HALF: u16 = 0x0020;
pub const ADVERTISE_10FULL: u16 = 0x0040;
pub const ADVERTISE_100HALF: u16 = 0x0080;
pub const ADVERTISE_100FULL: u16 = 0x0100;
pub const ADVERTISE_PAUSE_CAP: u16 = 0x0400;
pub const ADVERTISE_PAUSE_ASYM: u16 = 0x0800;

/// The advertisement bits that follow the capability set.
pub const ADVERTISE_MASK: u16 = 0x0de0;

pub const CTRL1000_HALF: u16 = 0x0100;
pub const CTRL1000_FULL: u16 = 0x0200;

pub const STAT1000_HALF: u16 = 0x0400;
pub const STAT1000_FULL: u16 = 0x0800;

pub const ESTATUS_1000_THALF: u16 = 0x1000;
pub const ESTATUS_1000_TFULL: u16 = 0x2000;
pub const ESTATUS_1000_XHALF: u16 = 0x4000;
pub const ESTATUS_1000_XFULL: u16 = 0x8000;

/// Standard PHY registers used by detection.
#[derive(Clone, Copy)]
pub enum PhyReg {
    DetectReg,
}

/// Generic MII registers.
#[derive(Clone, Copy)]
pub enum Mii {
    Bmcr,
    Bmsr,
    Advertise,
    Lpa,
    Ctrl1000,
    Stat1000,
    MmdCtrl,
    MmdData,
    EStatus,
}

impl Mii {
    pub open spec fn value(self) -> u16 {
        match self {
            Mii::Bmcr => MII_BMCR,
            Mii::Bmsr => MII_BMSR,
            Mii::Advertise => MII_ADVERTISE,
            Mii::Lpa => MII_LPA,
            Mii::Ctrl1000 => MII_CTRL1000,
            Mii::Stat1000 => MII_STAT1000,
            Mii::MmdCtrl => MII_MMD_CTRL,
            Mii::MmdData => MII_MMD_DATA,
            Mii::EStatus => MII_ESTATUS,
        }
    }

    pub fn num(self) -> (r: u16)
        ensures
            r == self.value(),
    {
        match self {
            Mii::Bmcr => MII_BMCR,
            Mii::Bmsr => MII_BMSR,
            Mii::Advertise => MII_ADVERTISE,
            Mii::Lpa => MII_LPA,
            Mii::Ctrl1000 => MII_CTRL1000,
            Mii::Stat1000 => MII_STAT1000,
            Mii::MmdCtrl => MII_MMD_CTRL,
            Mii::MmdData => MII_MMD_DATA,
            Mii::EStatus => MII_ESTATUS,
        }
    }
}

} // verus!

verus! {

/// A register number in one of the three address spaces.
#[derive(Clone, Copy)]
pub enum RegNum {
    Phy(PhyReg),
    Mii(Mii),
    Dp83867(Dp83867Reg),
}

impl RegNum {
    pub open spec fn value(self) -> u16 {
        match self {
            RegNum::Phy(PhyReg::DetectReg) => DETECT_REG,
            RegNum::Mii(m) => m.value(),
            RegNum::Dp83867(d) => d.value(),
        }
    }

    pub fn num(self) -> (r: u16)
        ensures
            r == self.value(),
    {
        match self {
            RegNum::Phy(PhyReg::DetectReg) => DETECT_REG,
            RegNum::Mii(m) => m.num(),
            RegNum::Dp83867(d) => d.num(),
        }
    }
}

} // verus!

verus! {

/// `now` is `before` with more accesses after it.
pub open spec fn extends(before: Seq<BusOp>, now: Seq<BusOp>) -> bool {
    before.len() <= now.len() && now.take(before.len() as int) == before
}

/// The accesses of `now` made after `before`.
pub open spec fn since(before: Seq<BusOp>, now: Seq<BusOp>) -> Seq<BusOp> {
    now.skip(before.len() as int)
}

} // verus!

verus! {

pub proof fn lemma_extends_trans(a: Seq<BusOp>, b: Seq<BusOp>, c: Seq<BusOp>)
    requires
        extends(a, b),
        extends(b, c),
    ensures
        extends(a, c),
{
    assert(c.take(a.len() as int) =~= b.take(a.len() as int));
}

} // verus!

verus! {

pub proof fn lemma_since_concat(a: Seq<BusOp>, b: Seq<BusOp>, c: Seq<BusOp>)
    requires
        extends(a, b),
        extends(b, c),
    ensures
        extends(a, c),
        since(a, c) == since(a, b) + since(b, c),
{
    lemma_extends_trans(a, b, c);
    assert(since(a, c) =~= since(a, b) + since(b, c));
}

} // verus!

verus! {

/// The value that register `reg` holds before access `i` of `t`, in a plain
/// register file that starts out as `bank` and keeps what is written.
pub open spec fn reg_before(bank: spec_fn(u32) -> u16, t: Seq<BusOp>, reg: u32, i: int) -> u16
    decreases i,
{
    if i <= 0 {
        bank(reg)
    } else if t[i - 1].is_write() && t[i - 1].reg() == reg {
        t[i - 1].data()
    } else {
        reg_before(bank, t, reg, i - 1)
    }
}

/// Every read of `t` returns what a plain register file starting as `bank`
/// holds at that point.
pub open spec fn bank_consistent(bank: spec_fn(u32) -> u16, t: Seq<BusOp>) -> bool {
    forall|i: int| 0 <= i < t.len() && !(#[trigger] t[i]).is_write() ==> t[i].data() == reg_before(bank, t, t[i].reg(), i)
}

/// The register file after `t`.
pub open spec fn bank_after(bank: spec_fn(u32) -> u16, t: Seq<BusOp>) -> spec_fn(u32) -> u16 {
    |reg: u32| reg_before(bank, t, reg, t.len() as int)
}

/// Clearing `m` and setting `b` a second time changes nothing.
pub proof fn lemma_modify_idempotent(x: u16, m: u16, b: u16)
    ensures
        (((x & !m) | b) & !m) | b == (x & !m) | b,
{
    assert((((x & !m) | b) & !m) | b == (x & !m) | b) by (bit_vector);
}

} // verus!
