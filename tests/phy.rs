use std::cell::RefCell;
use std::collections::HashMap;

use eth_phy::dp83867::{delay_code, delay_quarter_ns, DP83867Conf, Phy, PortMirroring};
use eth_phy::{configure_phy, Duplex, GenPhy, PhyError, PhyInterface, PhyReadWrite, Speed, Supported};

const BMCR: u32 = 0x00;
const BMSR: u32 = 0x01;
const ADVERTISE: u32 = 0x04;
const LPA: u32 = 0x05;
const CTRL1000: u32 = 0x09;
const STAT1000: u32 = 0x0a;
const MMD_CTRL: u32 = 0x0d;
const MMD_DATA: u32 = 0x0e;
const ESTATUS: u32 = 0x0f;
const PHYCTRL: u32 = 0x10;
const CFG2: u32 = 0x14;
const BISCR: u32 = 0x16;
const CTRL: u32 = 0x1f;
const CFG4: u16 = 0x31;
const RGMIICTL: u16 = 0x32;
const RGMIIDCTL: u16 = 0x86;
const IO_MUX_CFG: u16 = 0x170;
const SGMIICTL: u16 = 0xd3;

/// A link that is up with negotiation complete; the identifier bits of a
/// present PHY; extended status and extended registers.
const BMSR_UP: u16 = 0x796d;

#[derive(Clone, Copy, Debug, PartialEq)]
enum Access {
    Read(u32, u32),
    Write(u32, u32, u16),
    MmdRead(u16),
    MmdWrite(u16, u16),
}

/// A register file of PHYs on one bus: a plain value per register, reads of a
/// missing PHY give all ones, and the MMD proxy registers reach a second file.
#[derive(Default)]
struct SimBus {
    present: Vec<u32>,
    regs: RefCell<HashMap<(u32, u32), u16>>,
    mmd: RefCell<HashMap<u16, u16>>,
    mmd_reg: RefCell<u16>,
    mmd_data_mode: RefCell<bool>,
    log: RefCell<Vec<Access>>,
}

impl SimBus {
    fn with_phy(addr: u32) -> SimBus {
        let bus = SimBus { present: vec![addr], ..Default::default() };
        bus.set(addr, BMSR, BMSR_UP);
        bus
    }

    fn set(&self, addr: u32, reg: u32, v: u16) {
        self.regs.borrow_mut().insert((addr, reg), v);
    }

    fn get(&self, addr: u32, reg: u32) -> u16 {
        *self.regs.borrow().get(&(addr, reg)).unwrap_or(&0)
    }

    fn set_mmd(&self, reg: u16, v: u16) {
        self.mmd.borrow_mut().insert(reg, v);
    }

    fn get_mmd(&self, reg: u16) -> u16 {
        *self.mmd.borrow().get(&reg).unwrap_or(&0)
    }

    fn log(&self) -> Vec<Access> {
        self.log.borrow().clone()
    }

    fn clear_log(&self) {
        self.log.borrow_mut().clear();
    }

    fn writes_to(&self, reg: u32) -> usize {
        self.log().iter().filter(|a| matches!(a, Access::Write(_, r, _) if *r == reg)).count()
    }

    fn mmd_accesses(&self, reg: u16) -> usize {
        self.log()
            .iter()
            .filter(|a| matches!(a, Access::MmdRead(r) | Access::MmdWrite(r, _) if *r == reg))
            .count()
    }
}

impl PhyReadWrite for SimBus {
    fn phy_write(&self, phy_addr: u32, regnum: u32, data: u16) {
        self.log.borrow_mut().push(Access::Write(phy_addr, regnum, data));
        if regnum == MMD_CTRL {
            *self.mmd_data_mode.borrow_mut() = data & 0xc000 != 0;
        } else if regnum == MMD_DATA {
            if *self.mmd_data_mode.borrow() {
                let reg = *self.mmd_reg.borrow();
                self.log.borrow_mut().push(Access::MmdWrite(reg, data));
                self.set_mmd(reg, data);
            } else {
                *self.mmd_reg.borrow_mut() = data;
            }
        } else {
            self.set(phy_addr, regnum, data);
        }
    }

    fn phy_read(&self, phy_addr: u32, regnum: u32) -> u16 {
        self.log.borrow_mut().push(Access::Read(phy_addr, regnum));
        if !self.present.contains(&phy_addr) {
            return 0xffff;
        }
        if regnum == MMD_DATA && *self.mmd_data_mode.borrow() {
            let reg = *self.mmd_reg.borrow();
            self.log.borrow_mut().push(Access::MmdRead(reg));
            return self.get_mmd(reg);
        }
        self.get(phy_addr, regnum)
    }
}

fn conf(interface: PhyInterface) -> DP83867Conf {
    DP83867Conf {
        rx_id_delay: 7,
        tx_id_delay: 7,
        fifo_depth: 1,
        io_impedance: None,
        rxctrl_strap_quirk: false,
        port_mirroring: PortMirroring::KEEP,
        set_clk_output: false,
        clk_output_sel: None,
        sgmii_ref_clk_en: false,
        interface,
    }
}

fn caps_100() -> Supported {
    Supported { base100_t_full: true, base100_t_half: true, ..Default::default() }
}

#[test]
fn it_works() {
    let result = 2 + 2;
    assert_eq!(result, 4);
}

#[test]
fn detect_finds_the_only_answering_address() {
    for requested in [0u32, 5, 17, 31, 40] {
        let bus = SimBus::with_phy(17);
        let phy = GenPhy::new(requested, &bus, Supported::default()).unwrap();
        assert_eq!(phy.addr(), 17);
    }
}

#[test]
fn detect_keeps_a_valid_requested_address() {
    let bus = SimBus::with_phy(3);
    let phy = GenPhy::new(3, &bus, Supported::default()).unwrap();
    assert_eq!(phy.addr(), 3);
    assert_eq!(bus.log(), vec![Access::Read(3, BMSR)]);
}

#[test]
fn detect_scans_downwards_and_takes_the_first_valid() {
    let bus = SimBus { present: vec![4, 20], ..Default::default() };
    bus.set(4, BMSR, BMSR_UP);
    bus.set(20, BMSR, BMSR_UP);
    let phy = GenPhy::new(0, &bus, Supported::default()).unwrap();
    assert_eq!(phy.addr(), 20);
    let scanned: Vec<u32> = bus.log().iter().map(|a| match a { Access::Read(p, _) => *p, _ => 99 }).collect();
    assert_eq!(scanned, vec![0, 31, 30, 29, 28, 27, 26, 25, 24, 23, 22, 21, 20]);
}

#[test]
fn detect_fails_without_a_phy() {
    let bus = SimBus::default();
    assert!(matches!(GenPhy::new(0, &bus, Supported::default()), Err(PhyError::NoPhyFound)));
    assert_eq!(bus.log().len(), 33);

    // Present but with the identifier bits missing.
    let bus = SimBus { present: (0..32).collect(), ..Default::default() };
    for a in 0..32 {
        bus.set(a, BMSR, 0x0808);
    }
    assert!(matches!(GenPhy::new(9, &bus, Supported::default()), Err(PhyError::NoPhyFound)));
}

#[test]
fn advertisement_is_written_once() {
    let bus = SimBus::with_phy(1);
    bus.set(1, ADVERTISE, 0x0001);
    let mut gp = GenPhy::new(1, &bus, caps_100()).unwrap();
    let phy = Phy::new(conf(PhyInterface::Na));
    assert_eq!(phy.configure(&mut gp), Ok(()));
    assert_eq!(bus.writes_to(ADVERTISE), 1);
    assert_eq!(bus.get(1, ADVERTISE), 0x0181);
    bus.clear_log();
    assert_eq!(phy.configure(&mut gp), Ok(()));
    assert_eq!(bus.writes_to(ADVERTISE), 0);
    assert_eq!(bus.writes_to(CTRL1000), 0);
}

#[test]
fn advertisement_quirk_maps_1000base_x_onto_10_bits() {
    let bus = SimBus::with_phy(1);
    let caps = Supported { base1000_x_full: true, pause: true, ..Default::default() };
    let mut gp = GenPhy::new(1, &bus, caps).unwrap();
    Phy::new(conf(PhyInterface::Na)).configure(&mut gp).unwrap();
    assert_eq!(bus.get(1, ADVERTISE), 0x0020 | 0x0400);
}

#[test]
fn negotiation_restarts_only_when_needed() {
    // Unchanged advertisement, negotiation on, not isolated: no restart.
    let bus = SimBus::with_phy(1);
    bus.set(1, ADVERTISE, 0x0181);
    bus.set(1, BMCR, 0x1000);
    let mut gp = GenPhy::new(1, &bus, caps_100()).unwrap();
    Phy::new(conf(PhyInterface::Na)).configure(&mut gp).unwrap();
    assert_eq!(bus.writes_to(BMCR), 0);

    // Isolated: restart with negotiation on and isolation cleared.
    let bus = SimBus::with_phy(1);
    bus.set(1, ADVERTISE, 0x0181);
    bus.set(1, BMCR, 0x1400);
    let mut gp = GenPhy::new(1, &bus, caps_100()).unwrap();
    Phy::new(conf(PhyInterface::Na)).configure(&mut gp).unwrap();
    assert_eq!(bus.writes_to(BMCR), 1);
    assert_eq!(bus.get(1, BMCR), 0x1200);
}

#[test]
fn missing_extended_status_is_a_capability_mismatch() {
    for caps in [Supported::default(), caps_100(), Supported { base1000_t_full: true, ..Default::default() }] {
        let bus = SimBus::with_phy(2);
        bus.set(2, BMSR, BMSR_UP & !0x0100);
        let mut gp = GenPhy::new(2, &bus, caps).unwrap();
        let phy = Phy::new(conf(PhyInterface::Na));
        assert_eq!(phy.configure(&mut gp), Err(PhyError::CapabilityMismatch));
        assert_eq!(configure_phy(&mut gp, &phy, 10), Err(PhyError::CapabilityMismatch));
    }
}

#[test]
fn gigabit_wins_over_10_100() {
    let caps = Supported { base1000_t_full: true, base1000_t_half: true, base100_t_full: true, ..Default::default() };
    let bus = SimBus::with_phy(1);
    bus.set(1, STAT1000, 0x0800);
    bus.set(1, CTRL1000, 0x0200);
    bus.set(1, ADVERTISE, 0x0100);
    bus.set(1, LPA, 0x0100);
    let mut gp = GenPhy::new(1, &bus, caps).unwrap();
    assert_eq!(gp.startup(10), Ok((Speed::S1000, Duplex::Full)));

    let bus = SimBus::with_phy(1);
    bus.set(1, STAT1000, 0x0400);
    bus.set(1, CTRL1000, 0x0300);
    bus.set(1, ADVERTISE, 0x0100);
    bus.set(1, LPA, 0x0100);
    let mut gp = GenPhy::new(1, &bus, caps).unwrap();
    assert_eq!(gp.startup(10), Ok((Speed::S1000, Duplex::Half)));
    // The 10/100 registers are not read.
    assert!(!bus.log().contains(&Access::Read(1, LPA)));
}

#[test]
fn gigabit_needs_both_ends() {
    // The partner reports full duplex but it is not advertised: no gigabit.
    let caps = Supported { base1000_t_full: true, ..Default::default() };
    let bus = SimBus::with_phy(1);
    bus.set(1, STAT1000, 0x0800);
    bus.set(1, CTRL1000, 0x0100);
    bus.set(1, ADVERTISE, 0x0100);
    bus.set(1, LPA, 0x0100);
    let mut gp = GenPhy::new(1, &bus, caps).unwrap();
    assert_eq!(gp.startup(10), Ok((Speed::S100, Duplex::Full)));
}

#[test]
fn hundred_megabit_tie_break() {
    let bus = SimBus::with_phy(1);
    bus.set(1, ADVERTISE, 0x01e1);
    bus.set(1, LPA, 0x0100);
    let mut gp = GenPhy::new(1, &bus, caps_100()).unwrap();
    assert_eq!(gp.startup(10), Ok((Speed::S100, Duplex::Full)));

    let bus = SimBus::with_phy(1);
    bus.set(1, ADVERTISE, 0x01e1);
    bus.set(1, LPA, 0x0080);
    let mut gp = GenPhy::new(1, &bus, caps_100()).unwrap();
    assert_eq!(gp.startup(10), Ok((Speed::S100, Duplex::Half)));
}

#[test]
fn ten_megabit_results() {
    let bus = SimBus::with_phy(1);
    bus.set(1, ADVERTISE, 0x0061);
    bus.set(1, LPA, 0x0040);
    let mut gp = GenPhy::new(1, &bus, Supported::default()).unwrap();
    assert_eq!(gp.startup(10), Ok((Speed::S10, Duplex::Full)));

    let bus = SimBus::with_phy(1);
    let mut gp = GenPhy::new(1, &bus, Supported::default()).unwrap();
    assert_eq!(gp.startup(10), Ok((Speed::S10, Duplex::Half)));
}

#[test]
fn extended_status_fallback() {
    // Extended status without the extended registers.
    let bus = SimBus::with_phy(1);
    bus.set(1, BMSR, BMSR_UP & !0x0001);
    bus.set(1, ESTATUS, 0x2000);
    let mut gp = GenPhy::new(1, &bus, Supported::default()).unwrap();
    assert_eq!(gp.startup(10), Ok((Speed::S1000, Duplex::Full)));

    let bus = SimBus::with_phy(1);
    bus.set(1, BMSR, BMSR_UP & !0x0001);
    bus.set(1, ESTATUS, 0x4000);
    let mut gp = GenPhy::new(1, &bus, Supported::default()).unwrap();
    assert_eq!(gp.startup(10), Ok((Speed::S1000, Duplex::Half)));

    // With the extended registers the extended status is not read.
    let bus = SimBus::with_phy(1);
    bus.set(1, ESTATUS, 0x2000);
    let mut gp = GenPhy::new(1, &bus, Supported::default()).unwrap();
    assert_eq!(gp.startup(10), Ok((Speed::S10, Duplex::Half)));
    assert!(!bus.log().contains(&Access::Read(1, ESTATUS)));
}

#[test]
fn link_wait_times_out() {
    let bus = SimBus::with_phy(1);
    bus.set(1, BMSR, 0x1808);
    let mut gp = GenPhy::new(1, &bus, Supported::default()).unwrap();
    bus.clear_log();
    assert_eq!(gp.startup(5), Err(PhyError::Timeout));
    assert_eq!(bus.log(), vec![Access::Read(1, BMSR); 6]);
}

#[test]
fn link_down_but_negotiated_reads_status_twice() {
    let bus = SimBus::with_phy(1);
    bus.set(1, BMSR, 0x1828);
    let mut gp = GenPhy::new(1, &bus, Supported::default()).unwrap();
    bus.clear_log();
    assert_eq!(gp.startup(0), Ok((Speed::S10, Duplex::Half)));
    let status_reads = bus.log().iter().filter(|a| **a == Access::Read(1, BMSR)).count();
    // Two in the wait, one in the resolution.
    assert_eq!(status_reads, 3);
}

#[test]
fn delay_codes_round_trip() {
    for q in 1u16..=16 {
        let code = delay_code(q).unwrap();
        assert!(code < 16);
        assert_eq!(delay_quarter_ns(code), q);
    }
    assert_eq!(delay_code(0), None);
    assert_eq!(delay_code(17), None);
    // 2.00 ns is code 0b0111, 4.00 ns code 0b1111, 0.25 ns code 0.
    assert_eq!(delay_code(8), Some(7));
    assert_eq!(delay_code(16), Some(15));
    assert_eq!(delay_code(1), Some(0));
}

#[test]
fn delay_word_decodes_back() {
    for rx in 1u16..=16 {
        for tx in [1u16, 8, 16] {
            let bus = SimBus::with_phy(1);
            let mut gp = GenPhy::new(1, &bus, caps_100()).unwrap();
            let mut c = conf(PhyInterface::RgmiiId);
            c.rx_id_delay = delay_code(rx).unwrap();
            c.tx_id_delay = delay_code(tx).unwrap();
            Phy::new(c).configure(&mut gp).unwrap();
            let w = bus.get_mmd(RGMIIDCTL);
            assert_eq!(delay_quarter_ns(w & 0xf), rx);
            assert_eq!(delay_quarter_ns((w >> 4) & 0xf), tx);
        }
    }
}

#[test]
fn keep_mirroring_leaves_cfg4_alone() {
    let bus = SimBus::with_phy(1);
    bus.set_mmd(CFG4, 0x0081);
    let mut gp = GenPhy::new(1, &bus, caps_100()).unwrap();
    Phy::new(conf(PhyInterface::RgmiiId)).configure(&mut gp).unwrap();
    assert_eq!(bus.mmd_accesses(CFG4), 0);
    assert_eq!(bus.get_mmd(CFG4), 0x0081);
}

#[test]
fn mirroring_enable_and_disable() {
    let bus = SimBus::with_phy(1);
    bus.set_mmd(CFG4, 0x0080);
    let mut gp = GenPhy::new(1, &bus, caps_100()).unwrap();
    let mut c = conf(PhyInterface::Na);
    c.port_mirroring = PortMirroring::ENABLE;
    Phy::new(c).configure(&mut gp).unwrap();
    assert_eq!(bus.get_mmd(CFG4), 0x0081);

    let mut c = conf(PhyInterface::Na);
    c.port_mirroring = PortMirroring::DISABLE;
    Phy::new(c).configure(&mut gp).unwrap();
    assert_eq!(bus.get_mmd(CFG4), 0x0080);
}

#[test]
fn strap_quirk_clears_test_mode() {
    let bus = SimBus::with_phy(1);
    bus.set_mmd(CFG4, 0x0081);
    let mut gp = GenPhy::new(1, &bus, caps_100()).unwrap();
    let mut c = conf(PhyInterface::Na);
    c.rxctrl_strap_quirk = true;
    Phy::new(c).configure(&mut gp).unwrap();
    assert_eq!(bus.get_mmd(CFG4), 0x0001);
}

#[test]
fn rgmii_id_end_to_end() {
    let bus = SimBus::with_phy(12);
    bus.set(12, PHYCTRL, 0x0c00);
    bus.set(12, ADVERTISE, 0x01e1);
    bus.set(12, LPA, 0x01e1);
    bus.set(12, CTRL, 0x0000);
    let mut gp = GenPhy::new(0, &bus, caps_100()).unwrap();
    let phy = Phy::new(conf(PhyInterface::RgmiiId));
    assert_eq!(configure_phy(&mut gp, &phy, 10), Ok((Speed::S100, Duplex::Full)));
    // Software restart.
    assert_eq!(bus.get(12, CTRL), 0x4000);
    // TX FIFO depth 4, no forced link, SGMII left on without the strap bit.
    assert_eq!(bus.get(12, PHYCTRL), 0x4800);
    // Both clock delays on, 2.00 ns each.
    assert_eq!(bus.get_mmd(RGMIICTL), 0x0003);
    assert_eq!(bus.get_mmd(RGMIIDCTL), 0x0077);
    assert_eq!(bus.mmd_accesses(IO_MUX_CFG), 0);
    assert_eq!(bus.mmd_accesses(CFG4), 0);
    // The same registers give the same result again.
    assert_eq!(gp.startup(10), Ok((Speed::S100, Duplex::Full)));
}

#[test]
fn rgmii_strap_status_turns_sgmii_off() {
    let bus = SimBus::with_phy(1);
    bus.set(1, PHYCTRL, 0x0800);
    bus.set_mmd(0x6e, 0x0800);
    bus.set_mmd(RGMIICTL, 0x00d3);
    let mut gp = GenPhy::new(1, &bus, caps_100()).unwrap();
    let mut c = conf(PhyInterface::RgmiiTxid);
    c.fifo_depth = 3;
    Phy::new(c).configure(&mut gp).unwrap();
    assert_eq!(bus.get(1, PHYCTRL), 0xc000);
    assert_eq!(bus.get_mmd(RGMIICTL), 0x00d2);
}

#[test]
fn rgmii_rx_delay_only() {
    let bus = SimBus::with_phy(1);
    bus.set_mmd(RGMIICTL, 0x0002);
    let mut gp = GenPhy::new(1, &bus, caps_100()).unwrap();
    Phy::new(conf(PhyInterface::RgmiiRxid)).configure(&mut gp).unwrap();
    assert_eq!(bus.get_mmd(RGMIICTL), 0x0001);
}

#[test]
fn sgmii_configuration() {
    let bus = SimBus::with_phy(1);
    bus.set(1, CFG2, 0x0400);
    bus.set_mmd(RGMIICTL, 0x00ff);
    bus.set(1, BISCR, 0x1234);
    let mut gp = GenPhy::new(1, &bus, caps_100()).unwrap();
    let mut c = conf(PhyInterface::Sgmii);
    c.sgmii_ref_clk_en = true;
    c.fifo_depth = 2;
    Phy::new(c).configure(&mut gp).unwrap();
    assert_eq!(bus.get_mmd(SGMIICTL), 0x4000);
    assert!(bus.log().contains(&Access::Write(1, BMCR, 0x1140)));
    assert_eq!(bus.get(1, CFG2), 0x29c0);
    assert_eq!(bus.get_mmd(RGMIICTL), 0);
    assert_eq!(bus.get(1, PHYCTRL), 0x0800 | 0x0040 | 0x2000 | 0x8000);
    assert_eq!(bus.get(1, BISCR), 0);
}

#[test]
fn other_interfaces_skip_mode_setup() {
    let bus = SimBus::with_phy(1);
    let mut gp = GenPhy::new(1, &bus, caps_100()).unwrap();
    Phy::new(conf(PhyInterface::Mii)).configure(&mut gp).unwrap();
    assert_eq!(bus.writes_to(PHYCTRL), 0);
    assert_eq!(bus.mmd_accesses(RGMIICTL), 0);
}

#[test]
fn impedance_and_clock_output() {
    let bus = SimBus::with_phy(1);
    bus.set_mmd(IO_MUX_CFG, 0x0c5f);
    let mut gp = GenPhy::new(1, &bus, caps_100()).unwrap();
    let mut c = conf(PhyInterface::Na);
    c.io_impedance = Some(0x2a);
    c.set_clk_output = true;
    c.clk_output_sel = Some(0x0b);
    Phy::new(c).configure(&mut gp).unwrap();
    assert_eq!(bus.get_mmd(IO_MUX_CFG), 0x0b0a);

    let bus = SimBus::with_phy(1);
    bus.set_mmd(IO_MUX_CFG, 0x0c00);
    let mut gp = GenPhy::new(1, &bus, caps_100()).unwrap();
    let mut c = conf(PhyInterface::Na);
    c.set_clk_output = true;
    Phy::new(c).configure(&mut gp).unwrap();
    assert_eq!(bus.get_mmd(IO_MUX_CFG), 0x0c40);
}

#[test]
fn configure_phy_stops_on_configuration_error() {
    let bus = SimBus::with_phy(1);
    bus.set(1, BMSR, 0x1808);
    let mut gp = GenPhy::new(1, &bus, caps_100()).unwrap();
    bus.clear_log();
    let phy = Phy::new(conf(PhyInterface::Na));
    assert_eq!(configure_phy(&mut gp, &phy, 10), Err(PhyError::CapabilityMismatch));
    // No link wait after the failure: the status register is read once.
    let status_reads = bus.log().iter().filter(|a| **a == Access::Read(1, BMSR)).count();
    assert_eq!(status_reads, 1);
}

#[test]
fn is_rgmii_variants() {
    assert!(PhyInterface::Rgmii.is_rgmii());
    assert!(PhyInterface::RgmiiId.is_rgmii());
    assert!(PhyInterface::RgmiiRxid.is_rgmii());
    assert!(PhyInterface::RgmiiTxid.is_rgmii());
    assert!(!PhyInterface::Sgmii.is_rgmii());
    assert!(!PhyInterface::Rmii.is_rgmii());
}

#[test]
fn probe_takes_the_found_address_or_keeps_its_own() {
    let bus = SimBus::with_phy(17);
    let mut gp = GenPhy::with_address(2, &bus, Supported::default());
    assert!(bus.log().is_empty());
    assert_eq!(gp.probe(), Ok(()));
    assert_eq!(gp.addr(), 17);

    let empty = SimBus::default();
    let mut gp = GenPhy::with_address(2, &empty, Supported::default());
    assert_eq!(gp.probe(), Err(PhyError::NoPhyFound));
    assert_eq!(gp.addr(), 2);
    // Only the 33 identifier reads, no write.
    let log = empty.log();
    assert_eq!(log.len(), 33);
    assert!(log.iter().all(|a| matches!(a, Access::Read(_, BMSR))));
}

#[test]
fn detect_reports_without_changing_the_address() {
    let bus = SimBus::with_phy(9);
    let mut gp = GenPhy::with_address(0, &bus, Supported::default());
    assert_eq!(gp.detect(30), Ok(9));
    assert_eq!(gp.addr(), 0);
    assert_eq!(gp.detect(9), Ok(9));
}
