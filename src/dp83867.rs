//! Configuration sequence of the TI DP83867 Gigabit PHY.
use vstd::prelude::*;
use crate::bus::{
    extends, lemma_since_concat, rd, since, wr, BusOp, Mii, RegNum, BMCR_ANENABLE, BMCR_FULLDPLX,
    BMCR_SPEED1000, MII_BMCR, MII_MMD_CTRL, MII_MMD_DATA,
};
use crate::genphy::{aneg_trace, flag, lemma_aneg_direct_only, mmd_rd, mmd_wr, GenPhy, MmdReg, Reg};
use crate::{PhyError, PhyInterface, PhyReadWrite};

verus! {

/// The DP83867's vendor MMD device address.
pub const DP83867_DEVADDR: u16 = 0x1f;

pub const DP83867_PHYCTRL: u16 = 0x10;
pub const DP83867_CFG2: u16 = 0x14;
pub const DP83867_BISCR: u16 = 0x16;
pub const DP83867_CTRL: u16 = 0x1f;
pub const DP83867_CFG4: u16 = 0x0031;
pub const DP83867_RGMIICTL: u16 = 0x0032;
pub const DP83867_STRAP_STS1: u16 = 0x006e;
pub const DP83867_RGMIIDCTL: u16 = 0x0086;
pub const DP83867_IO_MUX_CFG: u16 = 0x0170;
pub const DP83867_SGMIICTL: u16 = 0x00d3;

/// DP83867 registers; the MMD ones (from `Cfg4` on) are reached indirectly.
#[derive(Clone, Copy)]
pub enum Dp83867Reg {
    PhyCtrl,
    Cfg2,
    Biscr,
    Ctrl,
    Cfg4,
    RgmiiCtl,
    StrapSts1,
    RgmiiDCtl,
    IoMuxCfg,
    SgmiiCtl,
}

impl Dp83867Reg {
    pub open spec fn value(self) -> u16 {
        match self {
            Dp83867Reg::PhyCtrl => DP83867_PHYCTRL,
            Dp83867Reg::Cfg2 => DP83867_CFG2,
            Dp83867Reg::Biscr => DP83867_BISCR,
            Dp83867Reg::Ctrl => DP83867_CTRL,
            Dp83867Reg::Cfg4 => DP83867_CFG4,
            Dp83867Reg::RgmiiCtl => DP83867_RGMIICTL,
            Dp83867Reg::StrapSts1 => DP83867_STRAP_STS1,
            Dp83867Reg::RgmiiDCtl => DP83867_RGMIIDCTL,
            Dp83867Reg::IoMuxCfg => DP83867_IO_MUX_CFG,
            Dp83867Reg::SgmiiCtl => DP83867_SGMIICTL,
        }
    }

    pub fn num(self) -> (r: u16)
        ensures
            r == self.value(),
    {
        match self {
            Dp83867Reg::PhyCtrl => DP83867_PHYCTRL,
            Dp83867Reg::Cfg2 => DP83867_CFG2,
            Dp83867Reg::Biscr => DP83867_BISCR,
            Dp83867Reg::Ctrl => DP83867_CTRL,
            Dp83867Reg::Cfg4 => DP83867_CFG4,
            Dp83867Reg::RgmiiCtl => DP83867_RGMIICTL,
            Dp83867Reg::StrapSts1 => DP83867_STRAP_STS1,
            Dp83867Reg::RgmiiDCtl => DP83867_RGMIIDCTL,
            Dp83867Reg::IoMuxCfg => DP83867_IO_MUX_CFG,
            Dp83867Reg::SgmiiCtl => DP83867_SGMIICTL,
        }
    }
}

} // verus!

verus! {

pub const CTRL_SW_RESTART: u16 = 0x4000;

pub const CFG4_PORT_MIRROR_EN: u16 = 0x0001;
pub const CFG4_INT_TST_MODE_1: u16 = 0x0080;

pub const PHYCR_MDI_CROSSOVER_AUTO: u16 = 0x0040;
pub const PHYCR_FORCE_LINK_GOOD: u16 = 0x0400;
pub const PHYCR_SGMIIEN: u16 = 0x0800;
pub const PHYCR_TX_FIFO_DEPTH: u16 = 0xc000;

pub const STRAP_STS1_RESERVED: u16 = 0x0800;

pub const RGMIICTL_RX_CLK_DELAY: u16 = 0x0001;
pub const RGMIICTL_TX_CLK_DELAY: u16 = 0x0002;

pub const SGMIICTL_REF_CLK_EN: u16 = 0x4000;

pub const IO_MUX_CFG_IO_IMPEDANCE: u16 = 0x001f;
pub const IO_MUX_CFG_CLK_O_DISABLE: u16 = 0x0040;
pub const IO_MUX_CFG_CLK_O_SEL: u16 = 0x1f00;

/// Configuration 2 fields set for SGMII: 10M speed optimisation, SGMII
/// auto-negotiation, enhanced speed optimisation, four attempts, low interrupt
/// polarity.
pub const CFG2_SGMII_MASK: u16 = 0x2dc0;
pub const CFG2_SGMII_BITS: u16 = 0x29c0;

/// The vendor configuration of a DP83867. Delays are 4-bit codes (see
/// `delay_code`), the FIFO depth a 2-bit code (3, 4, 6 or 8 bytes/nibbles).
pub struct DP83867Conf {
    pub rx_id_delay: u16,
    pub tx_id_delay: u16,
    pub fifo_depth: u16,
    pub io_impedance: Option<u16>,
    pub rxctrl_strap_quirk: bool,
    pub port_mirroring: PortMirroring,
    pub set_clk_output: bool,
    pub clk_output_sel: Option<u16>,
    pub sgmii_ref_clk_en: bool,
    pub interface: PhyInterface,
}

/// What to do with port mirroring: keep the current setting, enable or disable it.
#[derive(Debug, Clone, Copy, PartialEq, Eq, Structural)]
pub enum PortMirroring {
    KEEP,
    ENABLE,
    DISABLE,
}

/// The software-restart step: control register read and written back with
/// the restart bit set.
pub open spec fn restart_ops(addr: u32, c: u16) -> Seq<BusOp> {
    seq![rd(addr, DP83867_CTRL, c), wr(addr, DP83867_CTRL, (c & !CTRL_SW_RESTART) | CTRL_SW_RESTART)]
}

/// The strap-quirk step: the internal test mode bit cleared in CFG4.
pub open spec fn quirk_ops(addr: u32, v: u16) -> Seq<BusOp> {
    mmd_rd(addr, DP83867_DEVADDR, DP83867_CFG4, v) + mmd_wr(addr, DP83867_DEVADDR, DP83867_CFG4, v & !CFG4_INT_TST_MODE_1)
}

/// The FIFO depth code as a field at `shift`.
pub open spec fn fifo_field(fifo: u16, shift: u16) -> u16 {
    (fifo & 3) << shift
}

/// PHY control for RGMII from the value read `p` and strap status `s`: the TX
/// FIFO depth, no forced link, and SGMII off where the reserved strap bit shows
/// the erroneous test mode.
pub open spec fn rgmii_phyctrl(p: u16, fifo: u16, s: u16) -> u16 {
    let p1 = (p & !(PHYCR_TX_FIFO_DEPTH | PHYCR_FORCE_LINK_GOOD)) | fifo_field(fifo, 14);
    if s & STRAP_STS1_RESERVED != 0 {
        p1 & !PHYCR_SGMIIEN
    } else {
        p1
    }
}

/// The clock-delay enables of an RGMII variant.
pub open spec fn rgmii_delay_bits(i: PhyInterface) -> u16 {
    match i {
        PhyInterface::RgmiiId => RGMIICTL_TX_CLK_DELAY | RGMIICTL_RX_CLK_DELAY,
        PhyInterface::RgmiiTxid => RGMIICTL_TX_CLK_DELAY,
        PhyInterface::RgmiiRxid => RGMIICTL_RX_CLK_DELAY,
        _ => 0,
    }
}

/// The RGMII delay control word: RX code in bits 0-3, TX code in bits 4-7.
pub open spec fn rgmii_dctl(rx: u16, tx: u16) -> u16 {
    (rx & 0xf) | ((tx & 0xf) << 4u16)
}

/// The RGMII step, given the PHY control `p`, strap status `s` and RGMII
/// control `g` that it reads.
pub open spec fn rgmii_ops(addr: u32, c: DP83867Conf, p: u16, s: u16, g: u16) -> Seq<BusOp> {
    seq![rd(addr, DP83867_PHYCTRL, p)] + mmd_rd(addr, DP83867_DEVADDR, DP83867_STRAP_STS1, s) + seq![
        wr(addr, DP83867_PHYCTRL, rgmii_phyctrl(p, c.fifo_depth, s)),
    ] + mmd_rd(addr, DP83867_DEVADDR, DP83867_RGMIICTL, g) + mmd_wr(
        addr,
        DP83867_DEVADDR,
        DP83867_RGMIICTL,
        (g & !(RGMIICTL_TX_CLK_DELAY | RGMIICTL_RX_CLK_DELAY)) | rgmii_delay_bits(c.interface),
    ) + mmd_wr(addr, DP83867_DEVADDR, DP83867_RGMIIDCTL, rgmii_dctl(c.rx_id_delay, c.tx_id_delay))
}

/// PHY control for SGMII: SGMII on, automatic crossover, both FIFO depths.
pub open spec fn sgmii_phyctrl(fifo: u16) -> u16 {
    PHYCR_SGMIIEN | PHYCR_MDI_CROSSOVER_AUTO | fifo_field(fifo, 12) | fifo_field(fifo, 14)
}

/// The SGMII step, given the CFG2 value `c2` that it reads.
pub open spec fn sgmii_ops(addr: u32, c: DP83867Conf, c2: u16) -> Seq<BusOp> {
    (if c.sgmii_ref_clk_en {
        mmd_wr(addr, DP83867_DEVADDR, DP83867_SGMIICTL, SGMIICTL_REF_CLK_EN)
    } else {
        Seq::empty()
    }) + seq![
        wr(addr, MII_BMCR, BMCR_ANENABLE | BMCR_FULLDPLX | BMCR_SPEED1000),
        rd(addr, DP83867_CFG2, c2),
        wr(addr, DP83867_CFG2, (c2 & !CFG2_SGMII_MASK) | CFG2_SGMII_BITS),
    ] + mmd_wr(addr, DP83867_DEVADDR, DP83867_RGMIICTL, 0) + seq![
        wr(addr, DP83867_PHYCTRL, sgmii_phyctrl(c.fifo_depth)),
        wr(addr, DP83867_BISCR, 0),
    ]
}

/// `t` is the interface-mode step for `c`.
pub open spec fn mode_trace(addr: u32, c: DP83867Conf, t: Seq<BusOp>) -> bool {
    if c.interface.spec_is_rgmii() {
        t == rgmii_ops(addr, c, t[0].data(), t[4].data(), t[9].data())
    } else if c.interface == PhyInterface::Sgmii {
        t == sgmii_ops(addr, c, t[if c.sgmii_ref_clk_en { 5int } else { 1int }].data())
    } else {
        t.len() == 0
    }
}

/// `t` is the port-mirroring step for directive `m`: nothing for `KEEP`, else
/// CFG4 read and written back with the mirror bit set or cleared.
pub open spec fn mirror_trace(addr: u32, m: PortMirroring, t: Seq<BusOp>) -> bool {
    match m {
        PortMirroring::KEEP => t.len() == 0,
        _ => t == mmd_rd(addr, DP83867_DEVADDR, DP83867_CFG4, t[3].data()) + mmd_wr(
            addr,
            DP83867_DEVADDR,
            DP83867_CFG4,
            (t[3].data() & !CFG4_PORT_MIRROR_EN) | flag(m == PortMirroring::ENABLE, CFG4_PORT_MIRROR_EN),
        ),
    }
}

/// The I/O mux value `m` with the clock output set up for `sel`.
pub open spec fn clk_out_value(m: u16, sel: Option<u16>) -> u16 {
    match sel {
        None => (m & !IO_MUX_CFG_CLK_O_DISABLE) | IO_MUX_CFG_CLK_O_DISABLE,
        Some(v) => (m & !(IO_MUX_CFG_CLK_O_DISABLE | IO_MUX_CFG_CLK_O_SEL)) | ((v & 0x1f) << 8u16),
    }
}

/// `t` is a read of the I/O mux register and a write of `f` of what was read.
pub open spec fn io_mux_trace(addr: u32, t: Seq<BusOp>, f: spec_fn(u16) -> u16) -> bool {
    t == mmd_rd(addr, DP83867_DEVADDR, DP83867_IO_MUX_CFG, t[3].data()) + mmd_wr(
        addr,
        DP83867_DEVADDR,
        DP83867_IO_MUX_CFG,
        f(t[3].data()),
    )
}

/// `t` is the strap-quirk step for `c`.
pub open spec fn quirk_trace(addr: u32, c: DP83867Conf, t: Seq<BusOp>) -> bool {
    if c.rxctrl_strap_quirk {
        t == quirk_ops(addr, t[3].data())
    } else {
        t.len() == 0
    }
}

/// `t` is the I/O impedance step for `c`.
pub open spec fn impedance_trace(addr: u32, c: DP83867Conf, t: Seq<BusOp>) -> bool {
    match c.io_impedance {
        None => t.len() == 0,
        Some(imp) => io_mux_trace(addr, t, |m: u16| (m & !IO_MUX_CFG_IO_IMPEDANCE) | (imp & IO_MUX_CFG_IO_IMPEDANCE)),
    }
}

/// `t` is the clock-output step for `c`.
pub open spec fn clk_out_trace(addr: u32, c: DP83867Conf, t: Seq<BusOp>) -> bool {
    if c.set_clk_output {
        io_mux_trace(addr, t, |m: u16| clk_out_value(m, c.clk_output_sel))
    } else {
        t.len() == 0
    }
}

/// `t` is what `configure` does with `c` at `addr` for capabilities `s`, in
/// order: software restart, strap quirk, interface mode, I/O impedance, port
/// mirroring, clock output, then auto-negotiation set-up ending in `r`.
pub open spec fn configure_trace(addr: u32, c: DP83867Conf, s: crate::Supported, t: Seq<BusOp>, r: Result<(), PhyError>) -> bool {
    exists|t1: Seq<BusOp>, t2: Seq<BusOp>, t3: Seq<BusOp>, t4: Seq<BusOp>, t5: Seq<BusOp>, t6: Seq<BusOp>, t7: Seq<BusOp>|
        #[trigger] (t1 + t2 + t3 + t4 + t5 + t6 + t7) == t && {
            &&& t1 == restart_ops(addr, t1[0].data())
            &&& quirk_trace(addr, c, t2)
            &&& mode_trace(addr, c, t3)
            &&& impedance_trace(addr, c, t4)
            &&& mirror_trace(addr, c.port_mirroring, t5)
            &&& clk_out_trace(addr, c, t6)
            &&& aneg_trace(addr, s, t7, r)
        }
}

} // verus!

verus! {

/// A DP83867 with its vendor configuration.
pub struct Phy {
    conf: DP83867Conf,
}

impl Phy {
    /// The vendor configuration.
    pub closed spec fn conf(&self) -> DP83867Conf {
        self.conf
    }

    pub fn new(conf: DP83867Conf) -> (r: Phy)
        ensures
            r.conf() == conf,
    {
        Phy { conf }
    }

    /// The RGMII step: FIFO depth, no forced link, the strap-status
    /// correction, the clock-delay enables of the variant, the delay codes.
    pub fn rgmii_config<'a, T: PhyReadWrite>(&self, genphy: &mut GenPhy<'a, T>)
        requires
            self.conf().interface.spec_is_rgmii(),
        ensures
            final(genphy).same_phy(old(genphy)),
            extends(old(genphy).ops(), final(genphy).ops()),
            mode_trace(old(genphy).phy_addr(), self.conf(), since(old(genphy).ops(), final(genphy).ops())),
    {
        let ghost o = genphy.ops();
        let ghost addr = genphy.phy_addr();
        let mut phy_ctrl = Reg::from_read(genphy, RegNum::Dp83867(Dp83867Reg::PhyCtrl));
        let ghost p = phy_ctrl.value;
        // Do not force link good.
        phy_ctrl.modify(PHYCR_TX_FIFO_DEPTH | PHYCR_FORCE_LINK_GOOD, (self.conf.fifo_depth & 3) << 14u16);

        // A "port mirroring" N/A mode 4 enabled by mistake during power-on
        // bootstrap puts the PHY in an internal test mode that disables RGMII
        // transmission. Bit 11 of STRAP_STS1 (marked reserved) shows it.
        let strap_sts1 = MmdReg::from_read(genphy, RegNum::Dp83867(Dp83867Reg::StrapSts1), DP83867_DEVADDR);
        if strap_sts1.is_set(STRAP_STS1_RESERVED) {
            phy_ctrl.clear(PHYCR_SGMIIEN);
        }
        phy_ctrl.phy_write(genphy);

        let mut rgmii_ctl = MmdReg::from_read(genphy, RegNum::Dp83867(Dp83867Reg::RgmiiCtl), DP83867_DEVADDR);
        let ghost g = rgmii_ctl.value;
        let val: u16 = match self.conf.interface {
            PhyInterface::RgmiiId => RGMIICTL_TX_CLK_DELAY | RGMIICTL_RX_CLK_DELAY,
            PhyInterface::RgmiiTxid => RGMIICTL_TX_CLK_DELAY,
            PhyInterface::RgmiiRxid => RGMIICTL_RX_CLK_DELAY,
            _ => 0,
        };
        rgmii_ctl.modify(RGMIICTL_TX_CLK_DELAY | RGMIICTL_RX_CLK_DELAY, val);
        rgmii_ctl.phy_write(genphy);

        let mut rgmiid_ctl = MmdReg::new(RegNum::Dp83867(Dp83867Reg::RgmiiDCtl), DP83867_DEVADDR);
        rgmiid_ctl.value = (self.conf.rx_id_delay & 0xf) | ((self.conf.tx_id_delay & 0xf) << 4u16);
        rgmiid_ctl.phy_write(genphy);

        assert(genphy.ops().take(o.len() as int) =~= o);
        assert(since(o, genphy.ops()) =~= rgmii_ops(addr, self.conf, p, strap_sts1.value, g));
    }

    /// The SGMII step: optional reference clock, forced 1000 Mbps full duplex
    /// negotiation, speed optimisation, RGMII off, SGMII and automatic
    /// crossover on, built-in self test off.
    pub fn sgmii_config<'a, T: PhyReadWrite>(&self, genphy: &mut GenPhy<'a, T>)
        requires
            self.conf().interface == PhyInterface::Sgmii,
        ensures
            final(genphy).same_phy(old(genphy)),
            extends(old(genphy).ops(), final(genphy).ops()),
            mode_trace(old(genphy).phy_addr(), self.conf(), since(old(genphy).ops(), final(genphy).ops())),
    {
        let ghost o = genphy.ops();
        let ghost addr = genphy.phy_addr();
        if self.conf.sgmii_ref_clk_en {
            let mut sgmii_ctl = MmdReg::new(RegNum::Dp83867(Dp83867Reg::SgmiiCtl), DP83867_DEVADDR);
            sgmii_ctl.value = SGMIICTL_REF_CLK_EN;
            sgmii_ctl.phy_write(genphy);
        }
        let ghost o1 = genphy.ops();

        let mut bmcr = Reg::new(RegNum::Mii(Mii::Bmcr));
        bmcr.set(BMCR_ANENABLE | BMCR_FULLDPLX | BMCR_SPEED1000);
        bmcr.phy_write(genphy);

        let mut cfg2 = Reg::from_read(genphy, RegNum::Dp83867(Dp83867Reg::Cfg2));
        let ghost c2 = cfg2.value;
        cfg2.modify(CFG2_SGMII_MASK, CFG2_SGMII_BITS);
        cfg2.phy_write(genphy);

        // RGMII is not used in SGMII mode.
        let rgmii_ctl = MmdReg::new(RegNum::Dp83867(Dp83867Reg::RgmiiCtl), DP83867_DEVADDR);
        rgmii_ctl.phy_write(genphy);

        let fifo = self.conf.fifo_depth & 3;
        let mut phy_ctrl = Reg::new(RegNum::Dp83867(Dp83867Reg::PhyCtrl));
        phy_ctrl.set(PHYCR_SGMIIEN | PHYCR_MDI_CROSSOVER_AUTO | (fifo << 12u16) | (fifo << 14u16));
        phy_ctrl.phy_write(genphy);

        genphy.write(RegNum::Dp83867(Dp83867Reg::Biscr), 0x0);

        assert(genphy.ops().take(o.len() as int) =~= o);
        assert(since(o, genphy.ops()) =~= sgmii_ops(addr, self.conf, c2));
    }

    /// The port-mirroring step; `KEEP` makes no access at all.
    pub fn config_port_mirroring<'a, T: PhyReadWrite>(&self, genphy: &mut GenPhy<'a, T>)
        ensures
            final(genphy).same_phy(old(genphy)),
            extends(old(genphy).ops(), final(genphy).ops()),
            mirror_trace(old(genphy).phy_addr(), self.conf().port_mirroring, since(old(genphy).ops(), final(genphy).ops())),
            self.conf().port_mirroring == PortMirroring::KEEP ==> final(genphy).ops() == old(genphy).ops(),
    {
        let ghost o = genphy.ops();
        let val: u16 = match self.conf.port_mirroring {
            PortMirroring::ENABLE => CFG4_PORT_MIRROR_EN,
            PortMirroring::DISABLE => 0,
            PortMirroring::KEEP => {
                assert(genphy.ops().take(o.len() as int) =~= o);
                assert(since(o, genphy.ops()) =~= Seq::<BusOp>::empty());
                return;
            },
        };
        let mut cfg4 = MmdReg::from_read(genphy, RegNum::Dp83867(Dp83867Reg::Cfg4), DP83867_DEVADDR);
        let ghost v = cfg4.value;
        cfg4.modify(CFG4_PORT_MIRROR_EN, val);
        cfg4.phy_write(genphy);
        assert(genphy.ops().take(o.len() as int) =~= o);
        assert(since(o, genphy.ops()) =~= mmd_rd(genphy.phy_addr(), DP83867_DEVADDR, DP83867_CFG4, v) + mmd_wr(
            genphy.phy_addr(),
            DP83867_DEVADDR,
            DP83867_CFG4,
            (v & !CFG4_PORT_MIRROR_EN) | flag(self.conf.port_mirroring == PortMirroring::ENABLE, CFG4_PORT_MIRROR_EN),
        ));
    }
}


impl Phy {
    fn sw_restart<'a, T: PhyReadWrite>(&self, genphy: &mut GenPhy<'a, T>)
        ensures
            final(genphy).same_phy(old(genphy)),
            extends(old(genphy).ops(), final(genphy).ops()),
            since(old(genphy).ops(), final(genphy).ops()) == restart_ops(
                old(genphy).phy_addr(),
                since(old(genphy).ops(), final(genphy).ops())[0].data(),
            ),
    {
        let ghost o = genphy.ops();
        let mut ctrl = Reg::from_read(genphy, RegNum::Dp83867(Dp83867Reg::Ctrl));
        let ghost c = ctrl.value;
        ctrl.modify(CTRL_SW_RESTART, CTRL_SW_RESTART);
        ctrl.phy_write(genphy);
        assert(genphy.ops().take(o.len() as int) =~= o);
        assert(since(o, genphy.ops()) =~= restart_ops(genphy.phy_addr(), c));
    }

    fn strap_quirk<'a, T: PhyReadWrite>(&self, genphy: &mut GenPhy<'a, T>)
        ensures
            final(genphy).same_phy(old(genphy)),
            extends(old(genphy).ops(), final(genphy).ops()),
            quirk_trace(old(genphy).phy_addr(), self.conf(), since(old(genphy).ops(), final(genphy).ops())),
    {
        let ghost o = genphy.ops();
        // Mode 1 or 2 strap workaround.
        if self.conf.rxctrl_strap_quirk {
            let mut cfg4 = MmdReg::from_read(genphy, RegNum::Dp83867(Dp83867Reg::Cfg4), DP83867_DEVADDR);
            let ghost v = cfg4.value;
            cfg4.clear(CFG4_INT_TST_MODE_1);
            cfg4.phy_write(genphy);
            assert(since(o, genphy.ops()) =~= quirk_ops(genphy.phy_addr(), v));
        }
        assert(genphy.ops().take(o.len() as int) =~= o);
        assert(!self.conf.rxctrl_strap_quirk ==> since(o, genphy.ops()) =~= Seq::<BusOp>::empty());
    }

    fn config_mode<'a, T: PhyReadWrite>(&self, genphy: &mut GenPhy<'a, T>)
        ensures
            final(genphy).same_phy(old(genphy)),
            extends(old(genphy).ops(), final(genphy).ops()),
            mode_trace(old(genphy).phy_addr(), self.conf(), since(old(genphy).ops(), final(genphy).ops())),
    {
        let ghost o = genphy.ops();
        if self.conf.interface.is_rgmii() {
            self.rgmii_config(genphy);
        } else if self.conf.interface == PhyInterface::Sgmii {
            self.sgmii_config(genphy);
        } else {
            assert(genphy.ops().take(o.len() as int) =~= o);
            assert(since(o, genphy.ops()) =~= Seq::<BusOp>::empty());
        }
    }

    fn config_impedance<'a, T: PhyReadWrite>(&self, genphy: &mut GenPhy<'a, T>)
        ensures
            final(genphy).same_phy(old(genphy)),
            extends(old(genphy).ops(), final(genphy).ops()),
            impedance_trace(old(genphy).phy_addr(), self.conf(), since(old(genphy).ops(), final(genphy).ops())),
    {
        let ghost o = genphy.ops();
        let ghost addr = genphy.phy_addr();
        if let Some(impedance) = self.conf.io_impedance {
            let mut io_mux = MmdReg::from_read(genphy, RegNum::Dp83867(Dp83867Reg::IoMuxCfg), DP83867_DEVADDR);
            let ghost m = io_mux.value;
            io_mux.modify(IO_MUX_CFG_IO_IMPEDANCE, impedance & IO_MUX_CFG_IO_IMPEDANCE);
            io_mux.phy_write(genphy);
            assert(since(o, genphy.ops()) =~= mmd_rd(addr, DP83867_DEVADDR, DP83867_IO_MUX_CFG, m) + mmd_wr(
                addr,
                DP83867_DEVADDR,
                DP83867_IO_MUX_CFG,
                (m & !IO_MUX_CFG_IO_IMPEDANCE) | (impedance & IO_MUX_CFG_IO_IMPEDANCE),
            ));
        }
        assert(genphy.ops().take(o.len() as int) =~= o);
        assert(self.conf.io_impedance is None ==> since(o, genphy.ops()) =~= Seq::<BusOp>::empty());
    }

    fn config_clk_output<'a, T: PhyReadWrite>(&self, genphy: &mut GenPhy<'a, T>)
        ensures
            final(genphy).same_phy(old(genphy)),
            extends(old(genphy).ops(), final(genphy).ops()),
            clk_out_trace(old(genphy).phy_addr(), self.conf(), since(old(genphy).ops(), final(genphy).ops())),
    {
        let ghost o = genphy.ops();
        let ghost addr = genphy.phy_addr();
        // Clock output selection.
        if self.conf.set_clk_output {
            let mut io_mux = MmdReg::from_read(genphy, RegNum::Dp83867(Dp83867Reg::IoMuxCfg), DP83867_DEVADDR);
            let ghost m = io_mux.value;
            match self.conf.clk_output_sel {
                None => io_mux.modify(IO_MUX_CFG_CLK_O_DISABLE, IO_MUX_CFG_CLK_O_DISABLE),
                Some(sel) => io_mux.modify(IO_MUX_CFG_CLK_O_DISABLE | IO_MUX_CFG_CLK_O_SEL, (sel & 0x1f) << 8u16),
            }
            io_mux.phy_write(genphy);
            assert(since(o, genphy.ops()) =~= mmd_rd(addr, DP83867_DEVADDR, DP83867_IO_MUX_CFG, m) + mmd_wr(
                addr,
                DP83867_DEVADDR,
                DP83867_IO_MUX_CFG,
                clk_out_value(m, self.conf.clk_output_sel),
            ));
        }
        assert(genphy.ops().take(o.len() as int) =~= o);
        assert(!self.conf.set_clk_output ==> since(o, genphy.ops()) =~= Seq::<BusOp>::empty());
    }

    /// Runs the DP83867 configuration sequence on `genphy`: software restart,
    /// the strap quirk, the interface mode, I/O impedance, port mirroring and
    /// clock output, then the generic auto-negotiation set-up, whose failure it
    /// returns.
    pub fn configure<'a, T: PhyReadWrite>(&self, genphy: &mut GenPhy<'a, T>) -> (r: Result<(), PhyError>)
        ensures
            final(genphy).same_phy(old(genphy)),
            extends(old(genphy).ops(), final(genphy).ops()),
            configure_trace(old(genphy).phy_addr(), self.conf(), old(genphy).caps(), since(old(genphy).ops(), final(genphy).ops()), r),
    {
        let ghost o0 = genphy.ops();
        self.sw_restart(genphy);
        let ghost o1 = genphy.ops();
        self.strap_quirk(genphy);
        let ghost o2 = genphy.ops();
        self.config_mode(genphy);
        let ghost o3 = genphy.ops();
        self.config_impedance(genphy);
        let ghost o4 = genphy.ops();
        self.config_port_mirroring(genphy);
        let ghost o5 = genphy.ops();
        self.config_clk_output(genphy);
        let ghost o6 = genphy.ops();
        let r = genphy.config_aneg();
        let ghost o7 = genphy.ops();
        proof {
            lemma_since_concat(o0, o1, o2);
            lemma_since_concat(o0, o2, o3);
            lemma_since_concat(o0, o3, o4);
            lemma_since_concat(o0, o4, o5);
            lemma_since_concat(o0, o5, o6);
            lemma_since_concat(o0, o6, o7);
            let t1 = since(o0, o1);
            let t2 = since(o1, o2);
            let t3 = since(o2, o3);
            let t4 = since(o3, o4);
            let t5 = since(o4, o5);
            let t6 = since(o5, o6);
            let t7 = since(o6, o7);
            assert(t1 + t2 + t3 + t4 + t5 + t6 + t7 == since(o0, o7));
        }
        r
    }
}


/// The delay code of `quarter_ns` quarter nanoseconds: codes 0 to 15 stand for
/// 0.25 ns to 4.00 ns in steps of 0.25 ns; a delay of 0 ns has no code.
pub open spec fn spec_delay_code(quarter_ns: u16) -> Option<u16> {
    if 1 <= quarter_ns <= 16 {
        Some((quarter_ns - 1) as u16)
    } else {
        None
    }
}

/// The delay, in quarter nanoseconds, that code `code` stands for.
pub open spec fn spec_delay_quarter_ns(code: u16) -> u16 {
    (code + 1) as u16
}

/// The RGMII delay code for `quarter_ns` quarter nanoseconds.
pub fn delay_code(quarter_ns: u16) -> (r: Option<u16>)
    ensures
        r == spec_delay_code(quarter_ns),
{
    if 1 <= quarter_ns && quarter_ns <= 16 {
        Some(quarter_ns - 1)
    } else {
        None
    }
}

/// The delay, in quarter nanoseconds, of RGMII delay code `code`.
pub fn delay_quarter_ns(code: u16) -> (r: u16)
    requires
        code < 16,
    ensures
        r == spec_delay_quarter_ns(code),
{
    code + 1
}

/// Every delay from 0.25 ns to 4.00 ns has a 4-bit code, and the delay control
/// word written for RX and TX delays holds codes that decode back to the same
/// delays. A delay of 0 ns has no code.
pub proof fn lemma_delay_round_trip(rx_qns: u16, tx_qns: u16)
    requires
        1 <= rx_qns <= 16,
        1 <= tx_qns <= 16,
    ensures
        spec_delay_code(rx_qns) matches Some(rx) && spec_delay_code(tx_qns) matches Some(tx) && {
            let w = rgmii_dctl(rx, tx);
            &&& rx < 16 && tx < 16
            &&& spec_delay_quarter_ns(w & 0xf) == rx_qns
            &&& spec_delay_quarter_ns((w >> 4u16) & 0xf) == tx_qns
        },
        spec_delay_code(0) is None,
{
    let rx = (rx_qns - 1) as u16;
    let tx = (tx_qns - 1) as u16;
    assert(rx < 16 && tx < 16 ==> ((rx & 0xf) | ((tx & 0xf) << 4u16)) & 0xf == rx && ((((rx & 0xf) | ((tx & 0xf) << 4u16)) >> 4u16) & 0xf) == tx) by (bit_vector);
}

/// The `KEEP` directive makes no access at all in the port-mirroring step.
pub proof fn lemma_keep_mirroring(addr: u32, t: Seq<BusOp>)
    requires
        mirror_trace(addr, PortMirroring::KEEP, t),
    ensures
        t.len() == 0,
{
}


/// `t` at `i` selects MMD register CFG4 of the DP83867 for access.
pub open spec fn selects_cfg4(addr: u32, t: Seq<BusOp>, i: int) -> bool {
    &&& t[i] == wr(addr, MII_MMD_CTRL, DP83867_DEVADDR)
    &&& t[i + 1] == wr(addr, MII_MMD_DATA, DP83867_CFG4)
}

/// Every selection of a DP83867 MMD register in `t` is followed, within `t`,
/// by a register number other than CFG4.
pub open spec fn cfg4_safe(addr: u32, t: Seq<BusOp>) -> bool {
    forall|i: int|
        0 <= i < t.len() && #[trigger] t[i] == wr(addr, MII_MMD_CTRL, DP83867_DEVADDR) ==> i + 1 < t.len() && t[i + 1]
            != wr(addr, MII_MMD_DATA, DP83867_CFG4)
}

proof fn lemma_cfg4_safe_concat(addr: u32, a: Seq<BusOp>, b: Seq<BusOp>)
    requires
        cfg4_safe(addr, a),
        cfg4_safe(addr, b),
    ensures
        cfg4_safe(addr, a + b),
{
    let t = a + b;
    assert forall|i: int| 0 <= i < t.len() && #[trigger] t[i] == wr(addr, MII_MMD_CTRL, DP83867_DEVADDR) implies i + 1 < t.len()
        && t[i + 1] != wr(addr, MII_MMD_DATA, DP83867_CFG4) by {
        if i < a.len() {
            assert(a[i] == t[i]);
            assert(a[i + 1] == t[i + 1]);
        } else {
            assert(b[i - a.len()] == t[i]);
            assert(b[i - a.len() + 1] == t[i + 1]);
        }
    }
}

proof fn lemma_cfg4_safe_direct(addr: u32, t: Seq<BusOp>)
    requires
        forall|i: int| 0 <= i < t.len() ==> (#[trigger] t[i]).reg() != MII_MMD_CTRL as u32,
    ensures
        cfg4_safe(addr, t),
{
    assert forall|i: int| 0 <= i < t.len() && #[trigger] t[i] == wr(addr, MII_MMD_CTRL, DP83867_DEVADDR) implies i + 1 < t.len()
        && t[i + 1] != wr(addr, MII_MMD_DATA, DP83867_CFG4) by {
        assert(t[i].reg() != MII_MMD_CTRL as u32);
    }
}

proof fn lemma_cfg4_safe_mmd(addr: u32, reg: u16, v: u16)
    requires
        reg != DP83867_CFG4,
    ensures
        cfg4_safe(addr, mmd_rd(addr, DP83867_DEVADDR, reg, v)),
        cfg4_safe(addr, mmd_wr(addr, DP83867_DEVADDR, reg, v)),
{
    assert(DP83867_DEVADDR | 0x4000 != DP83867_DEVADDR) by (bit_vector);
    let r = mmd_rd(addr, DP83867_DEVADDR, reg, v);
    let w = mmd_wr(addr, DP83867_DEVADDR, reg, v);
    assert(r[0] == wr(addr, MII_MMD_CTRL, DP83867_DEVADDR));
    assert(r[2] != wr(addr, MII_MMD_CTRL, DP83867_DEVADDR));
    assert(w[2] != wr(addr, MII_MMD_CTRL, DP83867_DEVADDR));
}

/// With the `KEEP` directive and no strap quirk, configuration never selects
/// the CFG4 register (which holds the mirroring bit): it is neither read nor
/// written.
pub proof fn lemma_keep_never_selects_cfg4(addr: u32, c: DP83867Conf, s: crate::Supported, t: Seq<BusOp>, r: Result<(), PhyError>)
    requires
        configure_trace(addr, c, s, t, r),
        c.port_mirroring == PortMirroring::KEEP,
        !c.rxctrl_strap_quirk,
    ensures
        forall|i: int| 0 <= i < t.len() - 1 ==> !selects_cfg4(addr, t, i),
{
    let (t1, t2, t3, t4, t5, t6, t7) = choose|t1: Seq<BusOp>, t2: Seq<BusOp>, t3: Seq<BusOp>, t4: Seq<BusOp>, t5: Seq<BusOp>, t6: Seq<BusOp>, t7: Seq<BusOp>|
        #[trigger] (t1 + t2 + t3 + t4 + t5 + t6 + t7) == t && {
            &&& t1 == restart_ops(addr, t1[0].data())
            &&& quirk_trace(addr, c, t2)
            &&& mode_trace(addr, c, t3)
            &&& impedance_trace(addr, c, t4)
            &&& mirror_trace(addr, c.port_mirroring, t5)
            &&& clk_out_trace(addr, c, t6)
            &&& aneg_trace(addr, s, t7, r)
        };
    // Software restart.
    lemma_cfg4_safe_direct(addr, t1);
    // No quirk, no mirroring step.
    lemma_cfg4_safe_direct(addr, t2);
    lemma_cfg4_safe_direct(addr, t5);
    // Interface mode.
    if c.interface.spec_is_rgmii() {
        let p = t3[0].data();
        let st = t3[4].data();
        let g = t3[9].data();
        lemma_cfg4_safe_direct(addr, seq![rd(addr, DP83867_PHYCTRL, p)]);
        lemma_cfg4_safe_mmd(addr, DP83867_STRAP_STS1, st);
        lemma_cfg4_safe_direct(addr, seq![wr(addr, DP83867_PHYCTRL, rgmii_phyctrl(p, c.fifo_depth, st))]);
        lemma_cfg4_safe_mmd(addr, DP83867_RGMIICTL, g);
        lemma_cfg4_safe_mmd(addr, DP83867_RGMIICTL, (g & !(RGMIICTL_TX_CLK_DELAY | RGMIICTL_RX_CLK_DELAY)) | rgmii_delay_bits(c.interface));
        lemma_cfg4_safe_mmd(addr, DP83867_RGMIIDCTL, rgmii_dctl(c.rx_id_delay, c.tx_id_delay));
        let a = seq![rd(addr, DP83867_PHYCTRL, p)];
        let b = mmd_rd(addr, DP83867_DEVADDR, DP83867_STRAP_STS1, st);
        let cc = seq![wr(addr, DP83867_PHYCTRL, rgmii_phyctrl(p, c.fifo_depth, st))];
        let d = mmd_rd(addr, DP83867_DEVADDR, DP83867_RGMIICTL, g);
        let e = mmd_wr(addr, DP83867_DEVADDR, DP83867_RGMIICTL, (g & !(RGMIICTL_TX_CLK_DELAY | RGMIICTL_RX_CLK_DELAY)) | rgmii_delay_bits(c.interface));
        let f = mmd_wr(addr, DP83867_DEVADDR, DP83867_RGMIIDCTL, rgmii_dctl(c.rx_id_delay, c.tx_id_delay));
        lemma_cfg4_safe_concat(addr, a, b);
        lemma_cfg4_safe_concat(addr, a + b, cc);
        lemma_cfg4_safe_concat(addr, a + b + cc, d);
        lemma_cfg4_safe_concat(addr, a + b + cc + d, e);
        lemma_cfg4_safe_concat(addr, a + b + cc + d + e, f);
    } else if c.interface == PhyInterface::Sgmii {
        let c2 = t3[if c.sgmii_ref_clk_en { 5int } else { 1int }].data();
        let a: Seq<BusOp> = if c.sgmii_ref_clk_en {
            mmd_wr(addr, DP83867_DEVADDR, DP83867_SGMIICTL, SGMIICTL_REF_CLK_EN)
        } else {
            Seq::empty()
        };
        let b = seq![
            wr(addr, MII_BMCR, BMCR_ANENABLE | BMCR_FULLDPLX | BMCR_SPEED1000),
            rd(addr, DP83867_CFG2, c2),
            wr(addr, DP83867_CFG2, (c2 & !CFG2_SGMII_MASK) | CFG2_SGMII_BITS),
        ];
        let cc = mmd_wr(addr, DP83867_DEVADDR, DP83867_RGMIICTL, 0);
        let d = seq![wr(addr, DP83867_PHYCTRL, sgmii_phyctrl(c.fifo_depth)), wr(addr, DP83867_BISCR, 0)];
        lemma_cfg4_safe_mmd(addr, DP83867_SGMIICTL, SGMIICTL_REF_CLK_EN);
        lemma_cfg4_safe_direct(addr, a.take(0));
        assert(a.take(0) =~= Seq::<BusOp>::empty());
        lemma_cfg4_safe_direct(addr, b);
        lemma_cfg4_safe_mmd(addr, DP83867_RGMIICTL, 0);
        lemma_cfg4_safe_direct(addr, d);
        lemma_cfg4_safe_concat(addr, a, b);
        lemma_cfg4_safe_concat(addr, a + b, cc);
        lemma_cfg4_safe_concat(addr, a + b + cc, d);
        assert(t3 == a + b + cc + d);
    } else {
        lemma_cfg4_safe_direct(addr, t3);
    }
    // I/O impedance and clock output.
    if let Some(imp) = c.io_impedance {
        let m = t4[3].data();
        lemma_cfg4_safe_mmd(addr, DP83867_IO_MUX_CFG, m);
        lemma_cfg4_safe_mmd(addr, DP83867_IO_MUX_CFG, (m & !IO_MUX_CFG_IO_IMPEDANCE) | (imp & IO_MUX_CFG_IO_IMPEDANCE));
        lemma_cfg4_safe_concat(addr, mmd_rd(addr, DP83867_DEVADDR, DP83867_IO_MUX_CFG, m), mmd_wr(addr, DP83867_DEVADDR, DP83867_IO_MUX_CFG, (m & !IO_MUX_CFG_IO_IMPEDANCE) | (imp & IO_MUX_CFG_IO_IMPEDANCE)));
    } else {
        lemma_cfg4_safe_direct(addr, t4);
    }
    if c.set_clk_output {
        let m = t6[3].data();
        lemma_cfg4_safe_mmd(addr, DP83867_IO_MUX_CFG, m);
        lemma_cfg4_safe_mmd(addr, DP83867_IO_MUX_CFG, clk_out_value(m, c.clk_output_sel));
        lemma_cfg4_safe_concat(addr, mmd_rd(addr, DP83867_DEVADDR, DP83867_IO_MUX_CFG, m), mmd_wr(addr, DP83867_DEVADDR, DP83867_IO_MUX_CFG, clk_out_value(m, c.clk_output_sel)));
    } else {
        lemma_cfg4_safe_direct(addr, t6);
    }
    // Auto-negotiation.
    lemma_aneg_direct_only(addr, s, t7, r);
    lemma_cfg4_safe_direct(addr, t7);
    lemma_cfg4_safe_concat(addr, t1, t2);
    lemma_cfg4_safe_concat(addr, t1 + t2, t3);
    lemma_cfg4_safe_concat(addr, t1 + t2 + t3, t4);
    lemma_cfg4_safe_concat(addr, t1 + t2 + t3 + t4, t5);
    lemma_cfg4_safe_concat(addr, t1 + t2 + t3 + t4 + t5, t6);
    lemma_cfg4_safe_concat(addr, t1 + t2 + t3 + t4 + t5 + t6, t7);
    assert forall|i: int| 0 <= i < t.len() - 1 implies !selects_cfg4(addr, t, i) by {
        if t[i] == wr(addr, MII_MMD_CTRL, DP83867_DEVADDR) {
        }
    }
}

} // verus!
