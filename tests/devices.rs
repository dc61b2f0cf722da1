use std::cell::RefCell;
use std::collections::HashMap;

use eth_phy::gem::MacAddress;
use eth_phy::mmio::Mmio;
use eth_phy::uart::Device;

#[derive(Default)]
struct SimRegs {
    regs: RefCell<HashMap<usize, u32>>,
    fifo_in: RefCell<Vec<u8>>,
    fifo_out: RefCell<Vec<u8>>,
    writes: RefCell<Vec<(usize, u32)>>,
    status_reads: RefCell<usize>,
}

impl Mmio for &SimRegs {
    fn read32(&self, offset: usize) -> u32 {
        if offset == 0x2c {
            *self.status_reads.borrow_mut() += 1;
        }
        *self.regs.borrow().get(&offset).unwrap_or(&0)
    }

    fn write32(&self, offset: usize, value: u32) {
        self.writes.borrow_mut().push((offset, value));
        self.regs.borrow_mut().insert(offset, value);
    }

    fn read8(&self, _offset: usize) -> u8 {
        self.fifo_in.borrow_mut().remove(0)
    }

    fn write8(&self, _offset: usize, value: u8) {
        self.fifo_out.borrow_mut().push(value);
    }
}

#[test]
fn mac_address_words() {
    let mac = MacAddress::new([0x00, 0x0a, 0x35, 0x01, 0x02, 0x03]);
    assert_eq!(mac.get_bottom(), 0x0135_0a00);
    assert_eq!(mac.get_top(), 0x0302);
    assert_eq!(mac.inner(), [0x00, 0x0a, 0x35, 0x01, 0x02, 0x03]);
}

#[test]
fn mac_address_from_words() {
    let mac = MacAddress::from((0x0135_0a00u32, 0x0302u16));
    assert_eq!(mac.inner(), [0x00, 0x0a, 0x35, 0x01, 0x02, 0x03]);
    let back = MacAddress::from((mac.get_bottom(), mac.get_top()));
    assert_eq!(back.inner(), mac.inner());
    let all = MacAddress::from((u32::MAX, u16::MAX));
    assert_eq!(all.inner(), [0xff; 6]);
}

#[test]
fn uart_init_sequence() {
    let regs = SimRegs::default();
    regs.regs.borrow_mut().insert(0x00, 0x0128);
    regs.regs.borrow_mut().insert(0x0c, 0x0001);
    let mut dev = Device::new(&regs);
    dev.init();
    let w = regs.writes.borrow().clone();
    assert_eq!(w.len(), 13);
    assert_eq!(w[0], (0x20, 1));
    assert_eq!(w[1], (0x08, 1));
    assert_eq!(w[2], (0x0c, 0));
    assert_eq!(w[12], (0x1c, 0));
    // Resets and enables set, disables and start-break cleared, stop-break set.
    assert_eq!(*regs.regs.borrow().get(&0x00).unwrap(), 0x0001 | 0x0002 | 0x0004 | 0x0010 | 0x0040 | 0x0100);
}

#[test]
fn uart_put_char_adds_carriage_return() {
    let regs = SimRegs::default();
    regs.regs.borrow_mut().insert(0x2c, 0x0008);
    let mut dev = Device::new(&regs);
    assert!(dev.put_char(b'a', 3));
    assert!(dev.put_char(b'\n', 3));
    assert_eq!(*regs.fifo_out.borrow(), vec![b'a', b'\n', b'\r']);
}

#[test]
fn uart_put_char_gives_up_after_polls() {
    let regs = SimRegs::default();
    let mut dev = Device::new(&regs);
    assert!(!dev.put_char(b'x', 4));
    assert_eq!(*regs.status_reads.borrow(), 5);
}

#[test]
fn uart_get_char() {
    let regs = SimRegs::default();
    regs.fifo_in.borrow_mut().push(b'q');
    let mut dev = Device::new(&regs);
    assert_eq!(dev.get_char(), Some(b'q'));
    regs.regs.borrow_mut().insert(0x2c, 0x0002);
    assert_eq!(dev.get_char(), None);
}

#[test]
fn uart_clear_all_interrupts() {
    let regs = SimRegs::default();
    let mut dev = Device::new(&regs);
    dev.clear_all_interrupts();
    assert_eq!(*regs.writes.borrow(), vec![(0x14, 0xffff_ffff)]);
}

use eth_phy::gem::{man_frame, recv_status, RecvStatus, PHY_MANAGEMENT_OP_READ, PHY_MANAGEMENT_OP_WRITE};
use eth_phy::{Duplex, PhyReadWrite, Speed};

type Gem<'a, S> = eth_phy::gem::Device<S, &'a SimRegs>;

fn gem_regs() -> SimRegs {
    let regs = SimRegs::default();
    // Management bus idle.
    regs.regs.borrow_mut().insert(0x008, 0x0004);
    regs
}

#[test]
fn gem_init_sequence() {
    let regs = gem_regs();
    regs.regs.borrow_mut().insert(0x004, 0x0008_0000 | 0x0000_2020);
    let dev: Gem<eth_phy::gem::Reset> = eth_phy::gem::Device::new(&regs);
    let _ready = dev.init();
    let w = regs.writes.borrow().clone();
    assert_eq!(w.len(), 16);
    assert_eq!(w[0], (0x02c, 0xffff_ffff));
    assert_eq!(w[2], (0x000, 0x0020));
    // Defaults: 64-bit bus and checksum offload set, broadcasts and pause
    // cleared, the MDC divisor kept.
    assert_eq!(w[12], (0x004, 0x0008_0000 | 0x0120_0000));
    assert_eq!(w[13], (0x010, 0x0019_0704));
    assert_eq!(w[14], (0x000, 0x0030));
    assert_eq!(w[15], (0x028, 0x0082));
}

#[test]
fn gem_management_frames() {
    assert_eq!(man_frame(PHY_MANAGEMENT_OP_WRITE, 17, 4, 0x01e1), 0x5892_01e1);
    assert_eq!(man_frame(PHY_MANAGEMENT_OP_READ, 3, 1, 0), 0x6186_0000);
    let regs = gem_regs();
    let ready = eth_phy::gem::Device::new(&regs).init();
    regs.writes.borrow_mut().clear();
    ready.phy_write(17, 4, 0x01e1);
    assert_eq!(*regs.writes.borrow(), vec![(0x034, 0x5892_01e1)]);
    // The simulated management register keeps the last frame: a read returns
    // its low half.
    regs.regs.borrow_mut().insert(0x034, 0x1234_796d);
    assert_eq!(ready.phy_read(3, 1), 0x0000);
    assert_eq!(regs.writes.borrow().last(), Some(&(0x034, 0x6186_0000)));
}

#[test]
fn gem_configuration_and_lifecycle() {
    let regs = gem_regs();
    let mut cfg = eth_phy::gem::Device::new(&regs).init().phy_complete();
    regs.regs.borrow_mut().insert(0x004, 0x0000_0401);
    cfg.set_speed(Speed::S100);
    assert_eq!(*regs.regs.borrow().get(&0x004).unwrap(), 0x0000_0001);
    cfg.set_speed(Speed::S1000);
    assert_eq!(*regs.regs.borrow().get(&0x004).unwrap(), 0x0000_0401);
    cfg.set_speed(Speed::S10);
    assert_eq!(*regs.regs.borrow().get(&0x004).unwrap(), 0x0000_0000);
    cfg.set_duplex(Duplex::Full);
    assert_eq!(*regs.regs.borrow().get(&0x004).unwrap(), 0x0000_0002);
    cfg.enable_promiscuous_mode();
    assert_eq!(*regs.regs.borrow().get(&0x004).unwrap(), 0x0000_0012);
    cfg.disable_promiscuous_mode();
    cfg.set_duplex(Duplex::Half);
    assert_eq!(*regs.regs.borrow().get(&0x004).unwrap(), 0x0000_0000);

    cfg.set_mac_address(MacAddress::new([0x00, 0x0a, 0x35, 0x01, 0x02, 0x03]));
    assert_eq!(cfg.split_mac_address(), (0x0135_0a00, 0x0302));
    cfg.set_tx_desc(0x1000);
    cfg.set_rx_desc(0x2000);
    cfg.set_tx_q1_desc(0x3000);
    assert_eq!(*regs.regs.borrow().get(&0x440).unwrap(), 0x3000);

    regs.regs.borrow_mut().insert(0x000, 0x0010);
    let mut run = cfg.run();
    assert_eq!(*regs.regs.borrow().get(&0x000).unwrap(), 0x001c);
    assert_eq!(run.get_tx_desc(), 0x1000);
    assert_eq!(run.get_rx_desc(), 0x2000);
    assert_eq!(run.mac_address().inner(), [0x00, 0x0a, 0x35, 0x01, 0x02, 0x03]);

    regs.regs.borrow_mut().insert(0x024, 0x0082);
    assert_eq!(run.int_status(), 0x0082);
    assert!(run.tx_is_complete());
    assert!(run.rx_is_complete());
    run.clear_all_interrupts();
    assert_eq!(*regs.regs.borrow().get(&0x024).unwrap(), 0xffff_ffff);

    regs.regs.borrow_mut().insert(0x014, 0x0020);
    assert_eq!(run.get_transmit_status(), 0x0020);

    regs.regs.borrow_mut().insert(0x020, 0x0006);
    assert_eq!(run.get_receive_status(), RecvStatus::FrameReceived);

    regs.regs.borrow_mut().insert(0x014, 0x0000);
    assert!(run.transmit(3));
    assert_eq!(*regs.regs.borrow().get(&0x000).unwrap(), 0x021c);
    regs.regs.borrow_mut().insert(0x014, 0x0008);
    assert!(!run.transmit(3));

    let _cfg = run.stop();
    assert_eq!(*regs.regs.borrow().get(&0x000).unwrap(), 0x0210);
}

#[test]
fn receive_status_priorities() {
    assert_eq!(recv_status(0x000f), RecvStatus::FrameReceived);
    assert_eq!(recv_status(0x000d), RecvStatus::RespNotOk);
    assert_eq!(recv_status(0x0005), RecvStatus::FifoOverflow);
    assert_eq!(recv_status(0x0001), RecvStatus::UnavailableBuffer);
    assert_eq!(recv_status(0x0000), RecvStatus::Unknown);
    assert_eq!(recv_status(0x0010), RecvStatus::Unknown);
}
