//! The device-independent PHY engine: register access (direct and through the
//! MMD proxy registers), detection, advertisement, negotiation and link
//! resolution.
use vstd::prelude::*;
use crate::bus::{
    bank_after, bank_consistent, lemma_modify_idempotent, reg_before,    extends, lemma_extends_trans, since,    rd, wr, BusOp, Mii, PhyReg, RegNum, ADVERTISE_100FULL, ADVERTISE_100HALF, ADVERTISE_10FULL,
    ADVERTISE_10HALF, ADVERTISE_MASK, ADVERTISE_PAUSE_ASYM, ADVERTISE_PAUSE_CAP, BMCR_ANENABLE,
    BMCR_ANRESTART, BMCR_ISOLATE, BMSR_ANEGCOMPLETE, BMSR_ERCAP, BMSR_ESTATEN, BMSR_LSTATUS,
    CTRL1000_FULL, CTRL1000_HALF, DETECT_REG, ESTATUS_1000_TFULL, ESTATUS_1000_THALF,
    ESTATUS_1000_XFULL, ESTATUS_1000_XHALF, MII_ADVERTISE, MII_BMCR, MII_BMSR, MII_CTRL1000,
    MII_ESTATUS, MII_LPA, MII_MMD_CTRL, MII_MMD_CTRL_NOINCR, MII_MMD_DATA, MII_STAT1000,
    PHYREG_MASK, STAT1000_FULL, STAT1000_HALF,
};
use crate::{Duplex, PhyError, PhyReadWrite, Speed, Supported};

verus! {

/// The three writes that point the MMD data register at register `reg` of MMD
/// device `dev`.
pub open spec fn mmd_setup(addr: u32, dev: u16, reg: u16) -> Seq<BusOp> {
    seq![wr(addr, MII_MMD_CTRL, dev), wr(addr, MII_MMD_DATA, reg), wr(addr, MII_MMD_CTRL, dev | MII_MMD_CTRL_NOINCR)]
}

/// An indirect read of MMD register `reg` of device `dev` that returned `v`.
pub open spec fn mmd_rd(addr: u32, dev: u16, reg: u16, v: u16) -> Seq<BusOp> {
    mmd_setup(addr, dev, reg).push(rd(addr, MII_MMD_DATA, v))
}

/// An indirect write of `v` to MMD register `reg` of device `dev`.
pub open spec fn mmd_wr(addr: u32, dev: u16, reg: u16, v: u16) -> Seq<BusOp> {
    mmd_setup(addr, dev, reg).push(wr(addr, MII_MMD_DATA, v))
}

/// The engine of one PHY: its bus address, its transport and its capability
/// set. The ghost trace `ops` holds every bus access made through the engine.
pub struct GenPhy<'a, T> {
    device: &'a T,
    addr: u32,
    supported: Supported,
    ops: Ghost<Seq<BusOp>>,
}

impl<'a, T> GenPhy<'a, T> {
    /// The bus address of the PHY.
    pub closed spec fn phy_addr(&self) -> u32 {
        self.addr
    }

    /// The capability set given at construction.
    pub closed spec fn caps(&self) -> Supported {
        self.supported
    }

    /// Every bus access made through this engine, oldest first.
    pub closed spec fn ops(&self) -> Seq<BusOp> {
        self.ops@
    }

    /// The transport the engine talks through.
    pub closed spec fn transport(&self) -> &'a T {
        self.device
    }

    /// `self` is the same PHY as `other`: same transport, address and capabilities.
    pub open spec fn same_phy(&self, other: &Self) -> bool {
        &&& self.transport() == other.transport()
        &&& self.phy_addr() == other.phy_addr()
        &&& self.caps() == other.caps()
    }

    /// The bus address of the PHY.
    pub fn addr(&self) -> (r: u32)
        ensures
            r == self.phy_addr(),
    {
        self.addr
    }
}

impl<'a, T: PhyReadWrite> GenPhy<'a, T> {
    pub(crate) fn write(&mut self, regnum: RegNum, data: u16)
        ensures
            final(self).same_phy(old(self)),
            final(self).ops() == old(self).ops().push(wr(old(self).phy_addr(), regnum.value(), data)),
    {
        let n = regnum.num();
        self.device.phy_write(self.addr, n as u32, data);
        self.ops = Ghost(self.ops@.push(wr(self.addr, n, data)));
    }

    pub(crate) fn read(&mut self, regnum: RegNum) -> (r: u16)
        ensures
            final(self).same_phy(old(self)),
            final(self).ops() == old(self).ops().push(rd(old(self).phy_addr(), regnum.value(), r)),
    {
        let n = regnum.num();
        let r = self.device.phy_read(self.addr, n as u32);
        self.ops = Ghost(self.ops@.push(rd(self.addr, n, r)));
        r
    }

    fn phy_mmd_start_indirect(&mut self, dev: u16, regnum: u16)
        ensures
            final(self).same_phy(old(self)),
            final(self).ops() == old(self).ops() + mmd_setup(old(self).phy_addr(), dev, regnum),
    {
        // Write the desired MMD device address.
        self.write(RegNum::Mii(Mii::MmdCtrl), dev);
        // Write the desired MMD register address.
        self.write(RegNum::Mii(Mii::MmdData), regnum);
        // Select the function: data with no post increment.
        self.write(RegNum::Mii(Mii::MmdCtrl), dev | MII_MMD_CTRL_NOINCR);
        assert(self.ops() =~= old(self).ops() + mmd_setup(old(self).phy_addr(), dev, regnum));
    }

    pub(crate) fn read_mmd(&mut self, dev: u16, regnum: RegNum) -> (r: u16)
        ensures
            final(self).same_phy(old(self)),
            final(self).ops() == old(self).ops() + mmd_rd(old(self).phy_addr(), dev, regnum.value(), r),
    {
        self.phy_mmd_start_indirect(dev, regnum.num());
        let r = self.read(RegNum::Mii(Mii::MmdData));
        assert(self.ops() =~= old(self).ops() + mmd_rd(old(self).phy_addr(), dev, regnum.value(), r));
        r
    }

    pub(crate) fn write_mmd(&mut self, dev: u16, regnum: RegNum, data: u16)
        ensures
            final(self).same_phy(old(self)),
            final(self).ops() == old(self).ops() + mmd_wr(old(self).phy_addr(), dev, regnum.value(), data),
    {
        self.phy_mmd_start_indirect(dev, regnum.num());
        self.write(RegNum::Mii(Mii::MmdData), data);
        assert(self.ops() =~= old(self).ops() + mmd_wr(old(self).phy_addr(), dev, regnum.value(), data));
    }
}

} // verus!

verus! {

/// A local mirror of one 16-bit register. Only `from_read`, `phy_read` and
/// `phy_write` touch the bus; every field operation works on the mirror alone.
pub struct Reg {
    pub(crate) num: RegNum,
    pub(crate) value: u16,
}

impl Reg {
    /// A zeroed mirror; no bus access.
    pub(crate) fn new(num: RegNum) -> (r: Reg)
        ensures
            r.num == num,
            r.value == 0,
    {
        Reg { num, value: 0 }
    }

    /// A mirror filled by one bus read.
    pub(crate) fn from_read<'a, T: PhyReadWrite>(phy: &mut GenPhy<'a, T>, num: RegNum) -> (r: Reg)
        ensures
            r.num == num,
            final(phy).same_phy(old(phy)),
            final(phy).ops() == old(phy).ops().push(rd(old(phy).phy_addr(), num.value(), r.value)),
    {
        let value = phy.read(num);
        Reg { num, value }
    }

    pub(crate) fn get(&self) -> (r: u16)
        ensures
            r == self.value,
    {
        self.value
    }

    pub(crate) fn set(&mut self, value: u16)
        ensures
            final(self).num == old(self).num,
            final(self).value == value,
    {
        self.value = value;
    }

    /// Clears the bits of `mask`, then sets those of `bits`.
    pub(crate) fn modify(&mut self, mask: u16, bits: u16)
        ensures
            final(self).num == old(self).num,
            final(self).value == (old(self).value & !mask) | bits,
    {
        self.value = (self.value & !mask) | bits;
    }

    /// Clears the bits of `mask`.
    pub(crate) fn clear(&mut self, mask: u16)
        ensures
            final(self).num == old(self).num,
            final(self).value == old(self).value & !mask,
    {
        self.value = self.value & !mask;
    }

    /// Some bit of `mask` is set.
    pub(crate) fn is_set(&self, mask: u16) -> (r: bool)
        ensures
            r == (self.value & mask != 0),
    {
        self.value & mask != 0
    }

    /// The bits under `mask` are exactly `bits`.
    pub(crate) fn matches_all(&self, mask: u16, bits: u16) -> (r: bool)
        ensures
            r == (self.value & mask == bits),
    {
        self.value & mask == bits
    }

    pub(crate) fn bitand_assign(&mut self, rhs: Reg)
        ensures
            final(self).num == old(self).num,
            final(self).value == old(self).value & rhs.value,
    {
        self.value = self.value & rhs.value;
    }

    /// Writes the mirror to its register.
    pub(crate) fn phy_write<'a, T: PhyReadWrite>(&self, phy: &mut GenPhy<'a, T>)
        ensures
            final(phy).same_phy(old(phy)),
            final(phy).ops() == old(phy).ops().push(wr(old(phy).phy_addr(), self.num.value(), self.value)),
    {
        phy.write(self.num, self.value);
    }

    /// Refills the mirror from its register.
    pub(crate) fn phy_read<'a, T: PhyReadWrite>(&mut self, phy: &mut GenPhy<'a, T>)
        ensures
            final(self).num == old(self).num,
            final(phy).same_phy(old(phy)),
            final(phy).ops() == old(phy).ops().push(rd(old(phy).phy_addr(), old(self).num.value(), final(self).value)),
    {
        self.value = phy.read(self.num);
    }
}

/// A local mirror of one MMD register of device `mmd_addr`.
pub struct MmdReg {
    pub(crate) num: RegNum,
    pub(crate) value: u16,
    pub(crate) mmd_addr: u16,
}

impl MmdReg {
    /// A zeroed mirror; no bus access.
    pub(crate) fn new(num: RegNum, mmd_addr: u16) -> (r: MmdReg)
        ensures
            r.num == num,
            r.value == 0,
            r.mmd_addr == mmd_addr,
    {
        MmdReg { num, value: 0, mmd_addr }
    }

    /// A mirror filled by one indirect read.
    pub(crate) fn from_read<'a, T: PhyReadWrite>(phy: &mut GenPhy<'a, T>, num: RegNum, mmd_addr: u16) -> (r: MmdReg)
        ensures
            r.num == num,
            r.mmd_addr == mmd_addr,
            final(phy).same_phy(old(phy)),
            final(phy).ops() == old(phy).ops() + mmd_rd(old(phy).phy_addr(), mmd_addr, num.value(), r.value),
    {
        let value = phy.read_mmd(mmd_addr, num);
        MmdReg { num, value, mmd_addr }
    }

    /// Clears the bits of `mask`, then sets those of `bits`.
    pub(crate) fn modify(&mut self, mask: u16, bits: u16)
        ensures
            final(self).num == old(self).num,
            final(self).mmd_addr == old(self).mmd_addr,
            final(self).value == (old(self).value & !mask) | bits,
    {
        self.value = (self.value & !mask) | bits;
    }

    /// Clears the bits of `mask`.
    pub(crate) fn clear(&mut self, mask: u16)
        ensures
            final(self).num == old(self).num,
            final(self).mmd_addr == old(self).mmd_addr,
            final(self).value == old(self).value & !mask,
    {
        self.value = self.value & !mask;
    }

    /// Some bit of `mask` is set.
    pub(crate) fn is_set(&self, mask: u16) -> (r: bool)
        ensures
            r == (self.value & mask != 0),
    {
        self.value & mask != 0
    }

    /// Writes the mirror to its register through the MMD proxy.
    pub(crate) fn phy_write<'a, T: PhyReadWrite>(&self, phy: &mut GenPhy<'a, T>)
        ensures
            final(phy).same_phy(old(phy)),
            final(phy).ops() == old(phy).ops() + mmd_wr(old(phy).phy_addr(), self.mmd_addr, self.num.value(), self.value),
    {
        phy.write_mmd(self.mmd_addr, self.num, self.value);
    }
}

/// A detection read `v` comes from a present PHY.
pub open spec fn phy_id_valid(v: u16) -> bool {
    v != 0xffff && v & PHYREG_MASK == PHYREG_MASK
}

/// The address of the `i`-th detection read: first the requested one, then
/// 31 down to 0.
pub open spec fn scan_addr(req: u32, i: int) -> u32 {
    if i == 0 {
        req
    } else {
        (32 - i) as u32
    }
}

/// `t` is a detection scan from `req`: identifier reads in scan order that
/// stop at the first valid one, or after all 33.
pub open spec fn detect_trace(req: u32, t: Seq<BusOp>) -> bool {
    &&& 1 <= t.len() <= 33
    &&& forall|i: int| 0 <= i < t.len() ==> #[trigger] t[i] == rd(scan_addr(req, i), DETECT_REG, t[i].data())
    &&& forall|i: int| 0 <= i < t.len() - 1 ==> !phy_id_valid(#[trigger] t[i].data())
    &&& !phy_id_valid(t.last().data()) ==> t.len() == 33
}

/// The outcome of the detection scan `t`.
pub open spec fn detect_result(req: u32, t: Seq<BusOp>) -> Result<u32, PhyError> {
    if phy_id_valid(t.last().data()) {
        Ok(scan_addr(req, t.len() - 1))
    } else {
        Err(PhyError::NoPhyFound)
    }
}

impl<'a, T: PhyReadWrite> GenPhy<'a, T> {
    /// An engine for the PHY at `addr`, with no bus access: detection is left
    /// to `probe`.
    pub fn with_address(addr: u32, device: &'a T, supported: Supported) -> (r: GenPhy<'a, T>)
        ensures
            r.transport() == device,
            r.phy_addr() == addr,
            r.caps() == supported,
            r.ops() == Seq::<BusOp>::empty(),
    {
        GenPhy { device, addr, supported, ops: Ghost(Seq::empty()) }
    }

    /// Detects the PHY from the current address (see `detect`) and takes the
    /// address found. On failure the address is left as it was.
    pub fn probe(&mut self) -> (r: Result<(), PhyError>)
        ensures
            final(self).transport() == old(self).transport(),
            final(self).caps() == old(self).caps(),
            extends(old(self).ops(), final(self).ops()),
            detect_trace(old(self).phy_addr(), since(old(self).ops(), final(self).ops())),
            match detect_result(old(self).phy_addr(), since(old(self).ops(), final(self).ops())) {
                Ok(a) => r == Ok::<(), PhyError>(()) && final(self).phy_addr() == a,
                Err(e) => r == Err::<(), PhyError>(e) && final(self).phy_addr() == old(self).phy_addr(),
            },
    {
        let addr = self.addr;
        match self.detect(addr) {
            Ok(a) => {
                self.addr = a;
                Ok(())
            },
            Err(e) => Err(e),
        }
    }

    /// Detects the PHY: the requested address if it answers, else the first of
    /// 31 down to 0 that does. It fails with `NoPhyFound` exactly when all 33
    /// identifier reads are invalid; it makes no other access. See `probe`.
    pub fn new(addr: u32, device: &'a T, supported: Supported) -> (r: Result<GenPhy<'a, T>, PhyError>)
        ensures
            r matches Ok(g) ==> {
                &&& g.transport() == device
                &&& g.caps() == supported
                &&& detect_trace(addr, g.ops())
                &&& detect_result(addr, g.ops()) == Ok::<u32, PhyError>(g.phy_addr())
            },
            r matches Err(e) ==> e == PhyError::NoPhyFound,
    {
        let mut gp = GenPhy::with_address(addr, device, supported);
        match gp.probe() {
            Ok(()) => {
                assert(since(Seq::<BusOp>::empty(), gp.ops()) =~= gp.ops());
                Ok(gp)
            },
            Err(e) => Err(e),
        }
    }

    fn is_valid_phy_reg(&mut self, phy_addr: u32) -> (r: bool)
        ensures
            final(self).same_phy(old(self)),
            final(self).ops().len() == old(self).ops().len() + 1,
            final(self).ops().drop_last() == old(self).ops(),
            final(self).ops().last() == rd(phy_addr, DETECT_REG, final(self).ops().last().data()),
            r == phy_id_valid(final(self).ops().last().data()),
    {
        let phyreg = self.device.phy_read(phy_addr, RegNum::Phy(PhyReg::DetectReg).num() as u32);
        self.ops = Ghost(self.ops@.push(rd(phy_addr, DETECT_REG, phyreg)));
        assert(self.ops().drop_last() =~= old(self).ops());
        phyreg != 0xffff && phyreg & PHYREG_MASK == PHYREG_MASK
    }

    /// The detection scan from `phy_addr`: identifier reads of `phy_addr`, then
    /// of 31 down to 0, up to the first valid one, whose address it returns;
    /// `NoPhyFound` when all 33 are invalid. It reads nothing else and writes
    /// nothing.
    pub fn detect(&mut self, phy_addr: u32) -> (r: Result<u32, PhyError>)
        ensures
            final(self).same_phy(old(self)),
            extends(old(self).ops(), final(self).ops()),
            detect_trace(phy_addr, since(old(self).ops(), final(self).ops())),
            r == detect_result(phy_addr, since(old(self).ops(), final(self).ops())),
    {
        let ghost o = self.ops();
        if self.is_valid_phy_reg(phy_addr) {
            assert(self.ops().take(o.len() as int) =~= o);
            assert(since(o, self.ops()) =~= seq![self.ops().last()]);
            return Ok(phy_addr);
        }
        assert(self.ops().take(o.len() as int) =~= o);
        assert(since(o, self.ops()) =~= seq![self.ops().last()]);
        let mut i: u32 = 32;
        while i > 0
            invariant
                i <= 32,
                o == old(self).ops(),
                self.same_phy(old(self)),
                extends(o, self.ops()),
                since(o, self.ops()).len() == 33 - i,
                forall|j: int| 0 <= j < since(o, self.ops()).len() ==> #[trigger] since(o, self.ops())[j] == rd(scan_addr(phy_addr, j), DETECT_REG, since(o, self.ops())[j].data()),
                forall|j: int| 0 <= j < since(o, self.ops()).len() ==> !phy_id_valid(#[trigger] since(o, self.ops())[j].data()),
            decreases i,
        {
            i = i - 1;
            let ghost before = self.ops();
            let valid = self.is_valid_phy_reg(i);
            assert(self.ops() == before.push(self.ops().last()));
            assert(self.ops().take(o.len() as int) =~= o);
            assert(since(o, self.ops()) =~= since(o, before).push(self.ops().last()));
            if valid {
                return Ok(i);
            }
        }
        Err(PhyError::NoPhyFound)
    }
}

} // verus!

verus! {

/// `mask` where `c` holds, else nothing.
pub open spec fn flag(c: bool, mask: u16) -> u16 {
    if c {
        mask
    } else {
        0
    }
}

/// The advertisement bits for capability set `s`. The two 1000BASE-X
/// capabilities are advertised through the 10 Mbps bits.
pub open spec fn advert_bits(s: Supported) -> u16 {
    flag(s.base10_t_half || s.base1000_x_full, ADVERTISE_10HALF) | flag(
        s.base10_t_full || s.base1000_x_half,
        ADVERTISE_10FULL,
    ) | flag(s.base100_t_half, ADVERTISE_100HALF) | flag(s.base100_t_full, ADVERTISE_100FULL) | flag(
        s.pause,
        ADVERTISE_PAUSE_CAP,
    ) | flag(s.asym_pause, ADVERTISE_PAUSE_ASYM)
}

/// The advertisement register `cur` with the capability bits of `s` put in.
pub open spec fn advert_value(s: Supported, cur: u16) -> u16 {
    (cur & !ADVERTISE_MASK) | advert_bits(s)
}

/// The 1000BASE-T control register `cur` with the gigabit bits of `s` put in.
pub open spec fn ctrl1000_value(s: Supported, cur: u16) -> u16 {
    (cur & !(CTRL1000_HALF | CTRL1000_FULL)) | (flag(s.base1000_t_half, CTRL1000_HALF) | flag(
        s.base1000_t_full,
        CTRL1000_FULL,
    ))
}

/// `t` is what `config_advert` does at `addr` for capabilities `s`, ending in
/// `r`: read the advertisement and write it back if it differs from the
/// composed one; read the status and fail without the extended-status bit;
/// read the gigabit control and write it back if it differs.
pub open spec fn advert_trace(addr: u32, s: Supported, t: Seq<BusOp>, r: Result<bool, PhyError>) -> bool {
    let a0 = t[0].data();
    let a1 = advert_value(s, a0);
    let k: int = if a1 != a0 { 1 } else { 0 };
    let st = t[1 + k].data();
    let c0 = t[2 + k].data();
    let c1 = ctrl1000_value(s, c0);
    let k2: int = if c1 != c0 { 1 } else { 0 };
    &&& t.len() >= 2 + k
    &&& t[0] == rd(addr, MII_ADVERTISE, a0)
    &&& a1 != a0 ==> t[1] == wr(addr, MII_ADVERTISE, a1)
    &&& t[1 + k] == rd(addr, MII_BMSR, st)
    &&& if st & BMSR_ESTATEN == 0 {
        t.len() == 2 + k && r == Err::<bool, PhyError>(PhyError::CapabilityMismatch)
    } else {
        &&& t.len() == 3 + k + k2
        &&& t[2 + k] == rd(addr, MII_CTRL1000, c0)
        &&& c1 != c0 ==> t[3 + k] == wr(addr, MII_CTRL1000, c1)
        &&& r == Ok::<bool, PhyError>(a1 != a0 || c1 != c0)
    }
}

/// The control register `b` with negotiation enabled and restarted and
/// isolation cleared.
pub open spec fn restart_value(b: u16) -> u16 {
    (b & !(BMCR_ANENABLE | BMCR_ANRESTART | BMCR_ISOLATE)) | (BMCR_ANENABLE | BMCR_ANRESTART)
}

/// `t` reads the control register and writes it back with negotiation restarted.
pub open spec fn restart_trace(addr: u32, t: Seq<BusOp>) -> bool {
    &&& t.len() == 2
    &&& t[0] == rd(addr, MII_BMCR, t[0].data())
    &&& t[1] == wr(addr, MII_BMCR, restart_value(t[0].data()))
}

/// A control register value that forces a restart although the advertisement
/// did not change: the PHY is isolated or negotiation is off.
pub open spec fn aneg_stale(b: u16) -> bool {
    b & BMCR_ISOLATE == BMCR_ISOLATE || b & BMCR_ANENABLE == 0
}

/// What `config_aneg` does after an advertisement step that ended in `ra`.
pub open spec fn aneg_rest(addr: u32, ra: Result<bool, PhyError>, u: Seq<BusOp>, r: Result<(), PhyError>) -> bool {
    match ra {
        Err(e) => u.len() == 0 && r == Err::<(), PhyError>(e),
        Ok(true) => restart_trace(addr, u) && r == Ok::<(), PhyError>(()),
        Ok(false) => {
            &&& u.len() >= 1
            &&& u[0] == rd(addr, MII_BMCR, u[0].data())
            &&& if aneg_stale(u[0].data()) {
                restart_trace(addr, u.skip(1))
            } else {
                u.len() == 1
            }
            &&& r == Ok::<(), PhyError>(())
        },
    }
}

/// `t` is what `config_aneg` does: the advertisement step, then a restart of
/// negotiation where it changed something or the control register is stale.
pub open spec fn aneg_trace(addr: u32, s: Supported, t: Seq<BusOp>, r: Result<(), PhyError>) -> bool {
    exists|n: int, ra: Result<bool, PhyError>|
        0 <= n <= t.len() && #[trigger] advert_trace(addr, s, t.take(n), ra) && aneg_rest(addr, ra, t.skip(n), r)
}

impl<'a, T: PhyReadWrite> GenPhy<'a, T> {
    /// Enables and restarts auto-negotiation.
    pub fn restart_aneg(&mut self)
        ensures
            final(self).same_phy(old(self)),
            extends(old(self).ops(), final(self).ops()),
            restart_trace(old(self).phy_addr(), since(old(self).ops(), final(self).ops())),
    {
        let ghost o = self.ops();
        let mut bmcr = Reg::from_read(self, RegNum::Mii(Mii::Bmcr));
        // Do not isolate the PHY while negotiating.
        bmcr.modify(BMCR_ANENABLE | BMCR_ANRESTART | BMCR_ISOLATE, BMCR_ANENABLE | BMCR_ANRESTART);
        bmcr.phy_write(self);
        assert(self.ops().take(o.len() as int) =~= o);
        assert(self.ops().skip(o.len() as int) =~= seq![self.ops()[o.len() as int], self.ops()[o.len() + 1int]]);
    }

    /// Writes the advertisement and gigabit control registers where they differ
    /// from what the capability set asks; reports whether it wrote.
    #[verifier::rlimit(40)]
    pub fn config_advert(&mut self) -> (r: Result<bool, PhyError>)
        ensures
            final(self).same_phy(old(self)),
            extends(old(self).ops(), final(self).ops()),
            advert_trace(old(self).phy_addr(), old(self).caps(), since(old(self).ops(), final(self).ops()), r),
    {
        let ghost o = self.ops();
        let ghost addr = self.addr;
        let mut changed = false;
        let h10 = self.supported.base10_t_half || self.supported.base1000_x_full;
        let f10 = self.supported.base10_t_full || self.supported.base1000_x_half;
        let h100 = self.supported.base100_t_half;
        let f100 = self.supported.base100_t_full;
        let pause = self.supported.pause;
        let asym = self.supported.asym_pause;
        let h1000 = self.supported.base1000_t_half;
        let f1000 = self.supported.base1000_t_full;

        // Standard advertisement.
        let mut adv = Reg::from_read(self, RegNum::Mii(Mii::Advertise));
        let init_adv = adv.get();
        let bits: u16 = (if h10 { ADVERTISE_10HALF } else { 0 }) | (if f10 { ADVERTISE_10FULL } else { 0 }) | (
        if h100 { ADVERTISE_100HALF } else { 0 }) | (if f100 { ADVERTISE_100FULL } else { 0 }) | (if pause {
            ADVERTISE_PAUSE_CAP
        } else {
            0
        }) | (if asym { ADVERTISE_PAUSE_ASYM } else { 0 });
        adv.modify(ADVERTISE_MASK, bits);
        if adv.get() != init_adv {
            adv.phy_write(self);
            changed = true;
        }
        let ghost t1 = self.ops().skip(o.len() as int);
        assert(t1.len() == if changed { 2int } else { 1int });

        // Per 802.3-2008, section 22.2.4.2.16, every 1000 Mbit/s capable PHY
        // sets the extended status bit.
        let bmsr = Reg::from_read(self, RegNum::Mii(Mii::Bmsr));
        if !bmsr.is_set(BMSR_ESTATEN) {
            assert(self.ops().take(o.len() as int) =~= o);
            assert(self.ops().skip(o.len() as int) =~= t1.push(rd(addr, MII_BMSR, bmsr.value)));
            return Err(PhyError::CapabilityMismatch);
        }
        let ghost t2 = self.ops().skip(o.len() as int);
        assert(t2 =~= t1.push(rd(addr, MII_BMSR, bmsr.value)));

        // Gigabit control, where gigabit is supported.
        let mut ctrl = Reg::from_read(self, RegNum::Mii(Mii::Ctrl1000));
        let init_ctrl = ctrl.get();
        let cbits: u16 = (if h1000 { CTRL1000_HALF } else { 0 }) | (if f1000 { CTRL1000_FULL } else { 0 });
        ctrl.modify(CTRL1000_HALF | CTRL1000_FULL, cbits);
        let ghost t3 = t2.push(rd(addr, MII_CTRL1000, init_ctrl));
        assert(self.ops().skip(o.len() as int) =~= t3);
        if ctrl.get() != init_ctrl {
            ctrl.phy_write(self);
            changed = true;
            assert(self.ops().skip(o.len() as int) =~= t3.push(wr(addr, MII_CTRL1000, ctrl.value)));
        }
        assert(self.ops().take(o.len() as int) =~= o);
        Ok(changed)
    }

    /// Sets up the advertisement, then restarts negotiation where that changed
    /// something or the control register shows it isolated or not negotiating.
    pub fn config_aneg(&mut self) -> (r: Result<(), PhyError>)
        ensures
            final(self).same_phy(old(self)),
            extends(old(self).ops(), final(self).ops()),
            aneg_trace(old(self).phy_addr(), old(self).caps(), since(old(self).ops(), final(self).ops()), r),
    {
        let ghost o = self.ops();
        let ghost addr = self.addr;
        let ghost s = self.supported;
        let ra = self.config_advert();
        let ghost o1 = self.ops();
        let ghost n = o1.len() - o.len();
        let mut changed = match ra {
            Ok(c) => c,
            Err(e) => {
                assert(self.ops().skip(o.len() as int).take(n) =~= self.ops().skip(o.len() as int));
                assert(aneg_rest(addr, ra, self.ops().skip(o.len() as int).skip(n), Err(e)));
                return Err(e);
            },
        };
        if !changed {
            // The advertisement did not change, but negotiation may never have
            // been on, or the PHY may be isolated.
            let bmcr = Reg::from_read(self, RegNum::Mii(Mii::Bmcr));
            if bmcr.matches_all(BMCR_ISOLATE, BMCR_ISOLATE) || bmcr.matches_all(BMCR_ANENABLE, 0) {
                changed = true;
            }
            assert(self.ops().take(o1.len() as int) =~= o1);
        }
        let ghost o2 = self.ops();
        assert(o2.take(o1.len() as int) =~= o1);
        if changed {
            self.restart_aneg();
            proof { lemma_extends_trans(o1, o2, self.ops()); }
        }
        let ghost t = self.ops().skip(o.len() as int);
        assert(t.take(n) =~= o1.skip(o.len() as int));
        assert(self.ops().take(o.len() as int) =~= o);
        proof {
            if ra == Ok::<bool, PhyError>(false) {
                assert(t.skip(n)[0] == o2[o1.len() as int]);
                if changed {
                    assert(t.skip(n).skip(1) =~= self.ops().skip(o2.len() as int));
                }
            } else {
                assert(t.skip(n) =~= self.ops().skip(o2.len() as int));
            }
            assert(aneg_rest(addr, ra, t.skip(n), Ok(())));
            assert(advert_trace(addr, s, t.take(n), ra));
        }
        Ok(())
    }
}

} // verus!

verus! {

/// `t` is what `update_link` does with at most `max_polls` extra polls: one
/// status read; if the link is down, a second read to clear the latched state
/// where negotiation is complete, else status polls until negotiation
/// completes or the polls run out.
pub open spec fn link_wait_trace(addr: u32, max_polls: u32, t: Seq<BusOp>, r: Result<(), PhyError>) -> bool {
    let s0 = t[0].data();
    &&& t.len() >= 1
    &&& forall|i: int| 0 <= i < t.len() ==> #[trigger] t[i] == rd(addr, MII_BMSR, t[i].data())
    &&& if s0 & BMSR_LSTATUS != 0 {
        t.len() == 1 && r == Ok::<(), PhyError>(())
    } else if s0 & BMSR_ANEGCOMPLETE != 0 {
        t.len() == 2 && r == Ok::<(), PhyError>(())
    } else {
        &&& t.len() <= max_polls + 1
        &&& forall|i: int| 0 <= i < t.len() - 1 ==> (#[trigger] t[i]).data() & BMSR_ANEGCOMPLETE == 0
        &&& if t.last().data() & BMSR_ANEGCOMPLETE != 0 {
            r == Ok::<(), PhyError>(())
        } else {
            t.len() == max_polls + 1 && r == Err::<(), PhyError>(PhyError::Timeout)
        }
    }
}

/// The gigabit abilities common to both ends: the 1000BASE-T status masked by
/// the control register's advertised bits shifted into the status layout.
pub open spec fn gigabit_common(stat: u16, ctrl: u16) -> u16 {
    stat & (ctrl << 2u16)
}

/// The duplex of a gigabit link with common abilities `c`, if there is one.
pub open spec fn gigabit_duplex(c: u16) -> Option<Duplex> {
    if c & (STAT1000_FULL | STAT1000_HALF) != 0 {
        Some(if c & STAT1000_FULL != 0 { Duplex::Full } else { Duplex::Half })
    } else {
        None
    }
}

/// The 10/100 link that advertisement `adv` and partner abilities `lpa` agree on.
pub open spec fn base_link(adv: u16, lpa: u16) -> (Speed, Duplex) {
    let m = adv & lpa;
    if m & (ADVERTISE_100FULL | ADVERTISE_100HALF) != 0 {
        (Speed::S100, if m & ADVERTISE_100FULL != 0 { Duplex::Full } else { Duplex::Half })
    } else if m & ADVERTISE_10FULL != 0 {
        (Speed::S10, Duplex::Full)
    } else {
        (Speed::S10, Duplex::Half)
    }
}

/// The status register shows extended status but no extended registers.
pub open spec fn estatus_only(bmsr: u16) -> bool {
    bmsr & (BMSR_ESTATEN | BMSR_ERCAP) == BMSR_ESTATEN
}

/// The link after consulting extended status `est`, starting from `prev`.
pub open spec fn extended_link(prev: (Speed, Duplex), est: u16) -> (Speed, Duplex) {
    if est & (ESTATUS_1000_TFULL | ESTATUS_1000_THALF | ESTATUS_1000_XFULL | ESTATUS_1000_XHALF) != 0 {
        (Speed::S1000, if est & (ESTATUS_1000_TFULL | ESTATUS_1000_XFULL) != 0 { Duplex::Full } else { Duplex::Half })
    } else {
        prev
    }
}

/// `t` is what `parse_link` does for capabilities `s`, resolving to `r`: with
/// gigabit capability, the gigabit status and control reads, which decide
/// alone when they share a gigabit ability; then the advertisement, partner
/// and status reads, and the extended status where the status register shows
/// it without the extended registers.
pub open spec fn parse_trace(addr: u32, s: Supported, t: Seq<BusOp>, r: (Speed, Duplex)) -> bool {
    let gig = s.base1000_t_full || s.base1000_t_half;
    let k: int = if gig { 2 } else { 0 };
    let g = gigabit_duplex(gigabit_common(t[0].data(), t[1].data()));
    let base = base_link(t[k].data(), t[k + 1].data());
    let st = t[k + 2].data();
    &&& gig ==> {
        &&& t.len() >= 2
        &&& t[0] == rd(addr, MII_STAT1000, t[0].data())
        &&& t[1] == rd(addr, MII_CTRL1000, t[1].data())
    }
    &&& if gig && g is Some {
        t.len() == 2 && r == (Speed::S1000, g.unwrap())
    } else {
        &&& t.len() >= k + 3
        &&& t[k] == rd(addr, MII_ADVERTISE, t[k].data())
        &&& t[k + 1] == rd(addr, MII_LPA, t[k + 1].data())
        &&& t[k + 2] == rd(addr, MII_BMSR, st)
        &&& if estatus_only(st) {
            &&& t.len() == k + 4
            &&& t[k + 3] == rd(addr, MII_ESTATUS, t[k + 3].data())
            &&& r == extended_link(base, t[k + 3].data())
        } else {
            t.len() == k + 3 && r == base
        }
    }
}

impl<'a, T: PhyReadWrite> GenPhy<'a, T> {
    /// Waits, for at most `max_polls` extra status reads, until the link is up
    /// or negotiation has completed.
    pub fn update_link(&mut self, max_polls: u32) -> (r: Result<(), PhyError>)
        ensures
            final(self).same_phy(old(self)),
            extends(old(self).ops(), final(self).ops()),
            link_wait_trace(old(self).phy_addr(), max_polls, since(old(self).ops(), final(self).ops()), r),
    {
        let ghost o = self.ops();
        let ghost addr = self.addr;
        let mut bmsr = Reg::from_read(self, RegNum::Mii(Mii::Bmsr));
        // With the link seen up and still up, there is no need to wait.
        if !bmsr.is_set(BMSR_LSTATUS) {
            if bmsr.is_set(BMSR_ANEGCOMPLETE) {
                // Read a second time to clear the latched state.
                bmsr.phy_read(self);
            } else {
                let mut n: u32 = 0;
                assert(self.ops().take(o.len() as int) =~= o);
                while !bmsr.is_set(BMSR_ANEGCOMPLETE)
                    invariant
                        n <= max_polls,
                        o == old(self).ops(),
                        bmsr.num == RegNum::Mii(Mii::Bmsr),
                        self.same_phy(old(self)),
                        self.phy_addr() == addr,
                        extends(o, self.ops()),
                        since(o, self.ops()).len() == n + 1,
                        since(o, self.ops())[0].data() & BMSR_LSTATUS == 0,
                        since(o, self.ops())[0].data() & BMSR_ANEGCOMPLETE == 0,
                        since(o, self.ops()).last().data() == bmsr.value,
                        forall|i: int| 0 <= i < n + 1 ==> #[trigger] since(o, self.ops())[i] == rd(addr, MII_BMSR, since(o, self.ops())[i].data()),
                        forall|i: int| 0 <= i < n ==> (#[trigger] since(o, self.ops())[i]).data() & BMSR_ANEGCOMPLETE == 0,
                    decreases max_polls - n,
                {
                    if n == max_polls {
                        return Err(PhyError::Timeout);
                    }
                    let ghost before = self.ops();
                    bmsr.phy_read(self);
                    n = n + 1;
                    assert(since(o, self.ops()) =~= since(o, before).push(rd(addr, MII_BMSR, bmsr.value)));
                    assert(self.ops().take(o.len() as int) =~= before.take(o.len() as int));
                }
            }
        }
        assert(self.ops().take(o.len() as int) =~= o);
        Ok(())
    }

    /// Resolves speed and duplex from the link registers.
    pub fn parse_link(&mut self) -> (r: (Speed, Duplex))
        ensures
            final(self).same_phy(old(self)),
            extends(old(self).ops(), final(self).ops()),
            parse_trace(old(self).phy_addr(), old(self).caps(), since(old(self).ops(), final(self).ops()), r),
    {
        let ghost o = self.ops();
        let ghost addr = self.addr;
        let mut speed = Speed::S10;
        let mut duplex = Duplex::Half;
        let mut k: usize = 0;

        // Gigabit first: the abilities that both ends of the link share.
        if self.supported.base1000_t_full || self.supported.base1000_t_half {
            let mut gblpa = Reg::from_read(self, RegNum::Mii(Mii::Stat1000));
            // The control register's bits sit two below the status register's.
            let ctrl = self.read(RegNum::Mii(Mii::Ctrl1000));
            let val = gblpa.get() & (ctrl << 2u16);
            gblpa.set(val);
            assert(since(o, self.ops()) =~= seq![rd(addr, MII_STAT1000, since(o, self.ops())[0].data()), rd(addr, MII_CTRL1000, ctrl)]);
            if gblpa.is_set(STAT1000_FULL | STAT1000_HALF) {
                speed = Speed::S1000;
                if gblpa.is_set(STAT1000_FULL) {
                    duplex = Duplex::Full;
                }
                assert(self.ops().take(o.len() as int) =~= o);
                return (speed, duplex);
            }
            k = 2;
        }
        let ghost o1 = self.ops();
        assert(o1.take(o.len() as int) =~= o);

        let mut adv = Reg::from_read(self, RegNum::Mii(Mii::Advertise));
        let lpa = Reg::from_read(self, RegNum::Mii(Mii::Lpa));
        let ghost a = adv.value;
        adv.bitand_assign(lpa);
        if adv.is_set(ADVERTISE_100FULL | ADVERTISE_100HALF) {
            speed = Speed::S100;
            if adv.is_set(ADVERTISE_100FULL) {
                duplex = Duplex::Full;
            }
        } else if adv.is_set(ADVERTISE_10FULL) {
            duplex = Duplex::Full;
        }
        assert((speed, duplex) == base_link(a, lpa.value));

        // Extended status may show 1000BASE-T/X although the 1000BASE-T
        // registers are missing. Whether the partner supports it cannot be told
        // then, so it is consulted only where those registers are missing.
        let bmsr = Reg::from_read(self, RegNum::Mii(Mii::Bmsr));
        let ghost o2 = self.ops();
        assert(since(o, o2) =~= since(o, o1) + seq![rd(addr, MII_ADVERTISE, a), rd(addr, MII_LPA, lpa.value), rd(addr, MII_BMSR, bmsr.value)]);
        if bmsr.matches_all(BMSR_ESTATEN | BMSR_ERCAP, BMSR_ESTATEN) {
            let estatus = Reg::from_read(self, RegNum::Mii(Mii::EStatus));
            if estatus.is_set(ESTATUS_1000_TFULL | ESTATUS_1000_THALF | ESTATUS_1000_XFULL | ESTATUS_1000_XHALF) {
                speed = Speed::S1000;
                duplex = if estatus.is_set(ESTATUS_1000_TFULL | ESTATUS_1000_XFULL) {
                    Duplex::Full
                } else {
                    Duplex::Half
                };
            }
            assert(since(o, self.ops()) =~= since(o, o2).push(rd(addr, MII_ESTATUS, estatus.value)));
        }
        assert(self.ops().take(o.len() as int) =~= o);
        (speed, duplex)
    }

    /// Waits for the link (at most `max_polls` extra status polls), then
    /// resolves its speed and duplex.
    pub fn startup(&mut self, max_polls: u32) -> (r: Result<(Speed, Duplex), PhyError>)
        ensures
            final(self).same_phy(old(self)),
            extends(old(self).ops(), final(self).ops()),
            startup_trace(old(self).phy_addr(), old(self).caps(), max_polls, since(old(self).ops(), final(self).ops()), r),
    {
        let ghost o = self.ops();
        let w = self.update_link(max_polls);
        let ghost o1 = self.ops();
        match w {
            Err(e) => {
                assert(since(o, o1).take(since(o, o1).len() as int) =~= since(o, o1));
                assert(since(o, o1).skip(since(o, o1).len() as int) =~= Seq::<BusOp>::empty());
                Err(e)
            },
            Ok(()) => {
                let r = self.parse_link();
                proof {
                    lemma_extends_trans(o, o1, self.ops());
                    assert(since(o, self.ops()).take(since(o, o1).len() as int) =~= since(o, o1));
                    assert(since(o, self.ops()).skip(since(o, o1).len() as int) =~= since(o1, self.ops()));
                }
                Ok(r)
            },
        }
    }
}

/// `t` is what `startup` does: the link wait, then, where it succeeded, the
/// link resolution.
pub open spec fn startup_trace(addr: u32, s: Supported, max_polls: u32, t: Seq<BusOp>, r: Result<(Speed, Duplex), PhyError>) -> bool {
    exists|n: int, w: Result<(), PhyError>|
        0 <= n <= t.len() && #[trigger] link_wait_trace(addr, max_polls, t.take(n), w) && match w {
            Err(e) => n == t.len() && r == Err::<(Speed, Duplex), PhyError>(e),
            Ok(_) => exists|l: (Speed, Duplex)| #[trigger] parse_trace(addr, s, t.skip(n), l) && r == Ok::<(Speed, Duplex), PhyError>(l),
        }
}

} // verus!

verus! {

/// Setting up the advertisement twice against an unchanged register file (one
/// that returns what was last written to it): the second call writes nothing,
/// reports no change where the first succeeded, and fails as the first did
/// otherwise.
pub proof fn lemma_advert_idempotent(
    addr: u32,
    s: Supported,
    bank: spec_fn(u32) -> u16,
    t1: Seq<BusOp>,
    r1: Result<bool, PhyError>,
    t2: Seq<BusOp>,
    r2: Result<bool, PhyError>,
)
    requires
        advert_trace(addr, s, t1, r1),
        bank_consistent(bank, t1),
        advert_trace(addr, s, t2, r2),
        bank_consistent(bank_after(bank, t1), t2),
    ensures
        forall|i: int| 0 <= i < t2.len() ==> !(#[trigger] t2[i]).is_write(),
        r1 is Ok ==> r2 == Ok::<bool, PhyError>(false),
        r1 is Err ==> r2 == r1,
{
    reveal_with_fuel(reg_before, 6);
    let a0 = t1[0].data();
    let a1 = advert_value(s, a0);
    lemma_modify_idempotent(a0, ADVERTISE_MASK, advert_bits(s));
    let k: int = if a1 != a0 { 1 } else { 0 };
    assert(!t1[0].is_write());
    assert(!t1[1 + k].is_write());
    let st = t1[1 + k].data();
    let after = bank_after(bank, t1);
    assert(!t2[0].is_write());
    assert(t2[0].data() == after(MII_ADVERTISE as u32));
    assert(t2[0].data() == a1);
    assert(advert_value(s, t2[0].data()) == t2[0].data());
    assert(!t2[1].is_write());
    assert(t2[1].data() == after(MII_BMSR as u32));
    assert(t2[1].data() == st);
    if st & BMSR_ESTATEN != 0 {
        let c0 = t1[2 + k].data();
        let c1 = ctrl1000_value(s, c0);
        assert(!t1[2 + k].is_write());
        lemma_modify_idempotent(c0, CTRL1000_HALF | CTRL1000_FULL, flag(s.base1000_t_half, CTRL1000_HALF) | flag(s.base1000_t_full, CTRL1000_FULL));
        assert(!t2[2].is_write());
        assert(t2[2].data() == after(MII_CTRL1000 as u32));
        assert(t2[2].data() == c1);
    }
}

} // verus!

verus! {

/// Without the extended-status bit in the status register, the advertisement
/// set-up fails with `CapabilityMismatch`, whatever the capability set.
pub proof fn lemma_capability_gate(addr: u32, s: Supported, t: Seq<BusOp>, r: Result<bool, PhyError>)
    requires
        advert_trace(addr, s, t, r),
        forall|i: int| 0 <= i < t.len() && (#[trigger] t[i]) == rd(addr, MII_BMSR, t[i].data()) ==> t[i].data() & BMSR_ESTATEN == 0,
    ensures
        r == Err::<bool, PhyError>(PhyError::CapabilityMismatch),
        forall|i: int| 0 <= i < t.len() ==> (#[trigger] t[i]).reg() != MII_CTRL1000 as u32,
{
    let a0 = t[0].data();
    let k: int = if advert_value(s, a0) != a0 { 1 } else { 0 };
    assert(t[1 + k] == rd(addr, MII_BMSR, t[1 + k].data()));
}

/// With gigabit capability, a gigabit ability shared by both ends decides the
/// link: 1000 Mbps, full duplex iff the shared ability is full duplex, whatever
/// the 10/100 registers hold (they are not even read).
pub proof fn lemma_gigabit_precedence(addr: u32, s: Supported, t: Seq<BusOp>, r: (Speed, Duplex))
    requires
        parse_trace(addr, s, t, r),
        s.base1000_t_full || s.base1000_t_half,
        gigabit_common(t[0].data(), t[1].data()) & (STAT1000_FULL | STAT1000_HALF) != 0,
    ensures
        t.len() == 2,
        r.0 == Speed::S1000,
        r.1 == (if gigabit_common(t[0].data(), t[1].data()) & STAT1000_FULL != 0 { Duplex::Full } else { Duplex::Half }),
{
}

/// Without gigabit, a shared 100 Mbps ability gives 100 Mbps, full duplex iff
/// the shared abilities include 100 Mbps full duplex (where the status register
/// does not send the resolution on to extended status).
pub proof fn lemma_hundred_tie_break(addr: u32, s: Supported, t: Seq<BusOp>, r: (Speed, Duplex))
    requires
        parse_trace(addr, s, t, r),
        !s.base1000_t_full && !s.base1000_t_half,
        (t[0].data() & t[1].data()) & (ADVERTISE_100FULL | ADVERTISE_100HALF) != 0,
        !estatus_only(t[2].data()),
    ensures
        r.0 == Speed::S100,
        r.1 == (if (t[0].data() & t[1].data()) & ADVERTISE_100FULL != 0 { Duplex::Full } else { Duplex::Half }),
{
}

} // verus!

verus! {

/// The link wait that `t` starts with is determined by `t`: two readings of it
/// as such a wait have the same length and outcome.
pub proof fn lemma_link_wait_unique(
    addr: u32,
    max_polls: u32,
    t: Seq<BusOp>,
    n1: int,
    w1: Result<(), PhyError>,
    n2: int,
    w2: Result<(), PhyError>,
)
    requires
        0 <= n1 <= t.len(),
        0 <= n2 <= t.len(),
        link_wait_trace(addr, max_polls, t.take(n1), w1),
        link_wait_trace(addr, max_polls, t.take(n2), w2),
    ensures
        n1 == n2,
        w1 == w2,
{
    let u1 = t.take(n1);
    let u2 = t.take(n2);
    assert(u1[0] == t[0] && u2[0] == t[0]);
    if n1 < n2 {
        assert(u1.last() == u2[n1 - 1]);
        assert(u2[n1 - 1] == t[n1 - 1]);
    } else if n2 < n1 {
        assert(u2.last() == u1[n2 - 1]);
        assert(u1[n2 - 1] == t[n2 - 1]);
    }
    assert(u1 =~= u2);
}

/// `startup` is deterministic: the accesses it made, with the values read,
/// decide its result.
pub proof fn lemma_startup_deterministic(
    addr: u32,
    s: Supported,
    max_polls: u32,
    t: Seq<BusOp>,
    r1: Result<(Speed, Duplex), PhyError>,
    r2: Result<(Speed, Duplex), PhyError>,
)
    requires
        startup_trace(addr, s, max_polls, t, r1),
        startup_trace(addr, s, max_polls, t, r2),
    ensures
        r1 == r2,
{
    let (n1, w1) = choose|n: int, w: Result<(), PhyError>|
        0 <= n <= t.len() && #[trigger] link_wait_trace(addr, max_polls, t.take(n), w) && match w {
            Err(e) => n == t.len() && r1 == Err::<(Speed, Duplex), PhyError>(e),
            Ok(_) => exists|l: (Speed, Duplex)| #[trigger] parse_trace(addr, s, t.skip(n), l) && r1 == Ok::<(Speed, Duplex), PhyError>(l),
        };
    let (n2, w2) = choose|n: int, w: Result<(), PhyError>|
        0 <= n <= t.len() && #[trigger] link_wait_trace(addr, max_polls, t.take(n), w) && match w {
            Err(e) => n == t.len() && r2 == Err::<(Speed, Duplex), PhyError>(e),
            Ok(_) => exists|l: (Speed, Duplex)| #[trigger] parse_trace(addr, s, t.skip(n), l) && r2 == Ok::<(Speed, Duplex), PhyError>(l),
        };
    lemma_link_wait_unique(addr, max_polls, t, n1, w1, n2, w2);
}

} // verus!

verus! {

/// The auto-negotiation set-up touches only the standard control, status,
/// advertisement and gigabit control registers: never the MMD proxy.
pub proof fn lemma_aneg_direct_only(addr: u32, s: Supported, t: Seq<BusOp>, r: Result<(), PhyError>)
    requires
        aneg_trace(addr, s, t, r),
    ensures
        forall|i: int| 0 <= i < t.len() ==> (#[trigger] t[i]).reg() != MII_MMD_CTRL as u32,
{
    let (n, ra) = choose|n: int, ra: Result<bool, PhyError>|
        0 <= n <= t.len() && #[trigger] advert_trace(addr, s, t.take(n), ra) && aneg_rest(addr, ra, t.skip(n), r);
    let u = t.take(n);
    let v = t.skip(n);
    let a0 = u[0].data();
    let k: int = if advert_value(s, a0) != a0 { 1 } else { 0 };
    assert forall|i: int| 0 <= i < u.len() implies (#[trigger] u[i]).reg() != MII_MMD_CTRL as u32 by {
        if i == 0 {
        } else if i == 1 && k == 1 {
        } else if i == 1 + k {
        } else if i == 2 + k {
        } else {
            assert(i == 3 + k);
        }
    }
    assert forall|i: int| 0 <= i < v.len() implies (#[trigger] v[i]).reg() != MII_MMD_CTRL as u32 by {
        if ra == Ok::<bool, PhyError>(false) && i > 0 {
            assert(v.skip(1)[i - 1] == v[i]);
        }
    }
    assert forall|i: int| 0 <= i < t.len() implies (#[trigger] t[i]).reg() != MII_MMD_CTRL as u32 by {
        if i < n {
            assert(u[i] == t[i]);
        } else {
            assert(v[i - n] == t[i]);
        }
    }
}

} // verus!
