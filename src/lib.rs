//! Ethernet PHY bring-up over a management (MDIO) bus: PHY detection,
//! advertisement and auto-negotiation, link resolution, and a configuration
//! sequence for the TI DP83867 family.
//!
//! Every register access the engine makes is recorded in a ghost trace of
//! [`BusOp`]s, and the contracts state that trace exactly, as a function of the
//! values the bus returned. Every wait on hardware status is bounded by a
//! number of polls.
//!
//! Beside the PHY layer: drivers for the ZynqMP's GEM Ethernet MAC (`gem`) and
//! UART (`uart`) over a memory-mapped register block (`mmio`), traced the same
//! way.
use vstd::prelude::*;

pub mod bus;
pub mod dp83867;
pub mod gem;
pub mod genphy;
pub mod mmio;
pub mod uart;
pub use genphy::GenPhy;
use crate::bus::{extends, since};
use crate::genphy::startup_trace;

verus! {

pub use crate::bus::BusOp;

/// The management-bus transport: one 16-bit register read or write at a
/// PHY address. The transport has no error channel.
pub trait PhyReadWrite {
    fn phy_write(&self, phy_addr: u32, regnum: u32, data: u16);

    fn phy_read(&self, phy_addr: u32, regnum: u32) -> u16;
}

/// Errors of PHY detection and link bring-up.
#[derive(Debug, Clone, Copy, PartialEq, Eq, Structural)]
pub enum PhyError {
    /// No address of the bus answered with a valid PHY identifier.
    NoPhyFound,
    /// The status register lacks the extended-status capability bit.
    CapabilityMismatch,
    /// Auto-negotiation did not complete within the allowed number of polls.
    Timeout,
}

#[derive(Debug, Clone, Copy, PartialEq, Eq, Structural)]
pub enum Speed {
    S10,
    S100,
    S1000,
}

#[derive(Debug, Clone, Copy, PartialEq, Eq, Structural)]
pub enum Duplex {
    Half,
    Full,
}

} // verus!

verus! {

/// The media capabilities of a PHY, fixed when the engine is built. They decide
/// the advertised abilities and which link registers are consulted.
#[derive(Clone, Copy)]
pub struct Supported {
    pub base10_t_half: bool,
    pub base10_t_full: bool,
    pub base100_t_half: bool,
    pub base100_t_full: bool,
    pub base1000_t_half: bool,
    pub base1000_t_full: bool,
    pub autoneg: bool,
    pub tp: bool,
    pub aui: bool,
    pub mii: bool,
    pub fibre: bool,
    pub bnc: bool,
    pub base10000_t_full: bool,
    pub pause: bool,
    pub asym_pause: bool,
    pub base2500_x_full: bool,
    pub backplane: bool,
    pub base1000_kx_full: bool,
    pub base10000_kx4_full: bool,
    pub base10000_kr_full: bool,
    pub base10000_r_fec: bool,
    pub base1000_x_half: bool,
    pub base1000_x_full: bool,
}

impl Default for Supported {
    /// No capability.
    fn default() -> (r: Supported)
        ensures
            !r.base10_t_half,
            !r.base10_t_full,
            !r.base100_t_half,
            !r.base100_t_full,
            !r.base1000_t_half,
            !r.base1000_t_full,
            !r.autoneg,
            !r.tp,
            !r.aui,
            !r.mii,
            !r.fibre,
            !r.bnc,
            !r.base10000_t_full,
            !r.pause,
            !r.asym_pause,
            !r.base2500_x_full,
            !r.backplane,
            !r.base1000_kx_full,
            !r.base10000_kx4_full,
            !r.base10000_kr_full,
            !r.base10000_r_fec,
            !r.base1000_x_half,
            !r.base1000_x_full,
    {
        Supported {
            base10_t_half: false,
            base10_t_full: false,
            base100_t_half: false,
            base100_t_full: false,
            base1000_t_half: false,
            base1000_t_full: false,
            autoneg: false,
            tp: false,
            aui: false,
            mii: false,
            fibre: false,
            bnc: false,
            base10000_t_full: false,
            pause: false,
            asym_pause: false,
            base2500_x_full: false,
            backplane: false,
            base1000_kx_full: false,
            base10000_kx4_full: false,
            base10000_kr_full: false,
            base10000_r_fec: false,
            base1000_x_half: false,
            base1000_x_full: false,
        }
    }
}

/// The electrical interface between MAC and PHY.
#[derive(Debug, Clone, Copy, PartialEq, Eq, Structural)]
pub enum PhyInterface {
    Na,
    Internal,
    Mii,
    Gmii,
    Sgmii,
    Tbi,
    Revmii,
    Rmii,
    Revrmii,
    Rgmii,
    RgmiiId,
    RgmiiRxid,
    RgmiiTxid,
    Rtbi,
    Smii,
    Xgmii,
    Xlgmii,
    Moca,
    Qsgmii,
    Trgmii,
}

impl PhyInterface {
    /// One of the four RGMII variants (plain, internal delay, rx delay, tx delay).
    pub open spec fn spec_is_rgmii(self) -> bool {
        self is Rgmii || self is RgmiiId || self is RgmiiRxid || self is RgmiiTxid
    }

    pub fn is_rgmii(&self) -> (r: bool)
        ensures
            r == self.spec_is_rgmii(),
    {
        match self {
            PhyInterface::Rgmii | PhyInterface::RgmiiId | PhyInterface::RgmiiRxid
            | PhyInterface::RgmiiTxid => true,
            _ => false,
        }
    }
}

} // verus!

verus! {

/// A vendor configuration engine: a model-specific register sequence that ends
/// by setting up auto-negotiation through the generic engine.
pub trait SpecPhy<'a, T: PhyReadWrite> {
    /// `t` is what `config` does on the PHY at `addr` with capabilities `caps`,
    /// ending in `r`.
    spec fn config_trace(&self, addr: u32, caps: Supported, t: Seq<BusOp>, r: Result<(), PhyError>) -> bool;

    fn config(&self, genphy: &mut GenPhy<'a, T>) -> (r: Result<(), PhyError>)
        ensures
            final(genphy).same_phy(old(genphy)),
            extends(old(genphy).ops(), final(genphy).ops()),
            self.config_trace(old(genphy).phy_addr(), old(genphy).caps(), since(old(genphy).ops(), final(genphy).ops()), r),
    ;
}

impl<'a, T: PhyReadWrite> SpecPhy<'a, T> for dp83867::Phy {
    open spec fn config_trace(&self, addr: u32, caps: Supported, t: Seq<BusOp>, r: Result<(), PhyError>) -> bool {
        dp83867::configure_trace(addr, self.conf(), caps, t, r)
    }

    fn config(&self, genphy: &mut GenPhy<'a, T>) -> (r: Result<(), PhyError>) {
        self.configure(genphy)
    }
}

/// `t` is what `configure_phy` does: the vendor configuration, ending in
/// `rc`; its error is the result, with nothing after it; on success the link
/// wait and resolution of `startup` follow and give the result.
pub open spec fn configure_phy_trace<'a, T: PhyReadWrite, P: SpecPhy<'a, T>>(
    phy: &P,
    addr: u32,
    caps: Supported,
    max_polls: u32,
    t: Seq<BusOp>,
    r: Result<(Speed, Duplex), PhyError>,
) -> bool {
    exists|n: int, rc: Result<(), PhyError>|
        0 <= n <= t.len() && #[trigger] phy.config_trace(addr, caps, t.take(n), rc) && match rc {
            Err(e) => n == t.len() && r == Err::<(Speed, Duplex), PhyError>(e),
            Ok(_) => startup_trace(addr, caps, max_polls, t.skip(n), r),
        }
}

/// Runs the vendor configuration, then waits for the link (at most
/// `max_polls` extra status polls) and resolves its speed and duplex. A
/// configuration failure is returned as it is, with nothing further done.
pub fn configure_phy<'a, T: PhyReadWrite, P: SpecPhy<'a, T>>(gen_phy: &mut GenPhy<'a, T>, phy: &P, max_polls: u32) -> (r: Result<(Speed, Duplex), PhyError>)
    ensures
        final(gen_phy).same_phy(old(gen_phy)),
        extends(old(gen_phy).ops(), final(gen_phy).ops()),
        configure_phy_trace(phy, old(gen_phy).phy_addr(), old(gen_phy).caps(), max_polls, since(old(gen_phy).ops(), final(gen_phy).ops()), r),
{
    let ghost o0 = gen_phy.ops();
    let ghost addr = gen_phy.phy_addr();
    let ghost caps = gen_phy.caps();
    let rc = phy.config(gen_phy);
    let ghost o1 = gen_phy.ops();
    proof {
        assert(since(o0, o1).take(since(o0, o1).len() as int) =~= since(o0, o1));
    }
    match rc {
        Err(e) => {
            assert(phy.config_trace(addr, caps, since(o0, o1).take(since(o0, o1).len() as int), rc));
            Err(e)
        },
        Ok(()) => {
            let r = gen_phy.startup(max_polls);
            proof {
                crate::bus::lemma_since_concat(o0, o1, gen_phy.ops());
                assert(since(o0, gen_phy.ops()).take(since(o0, o1).len() as int) =~= since(o0, o1));
                assert(since(o0, gen_phy.ops()).skip(since(o0, o1).len() as int) =~= since(o1, gen_phy.ops()));
                assert(phy.config_trace(addr, caps, since(o0, gen_phy.ops()).take(since(o0, o1).len() as int), rc));
            }
            r
        },
    }
}

} // verus!
