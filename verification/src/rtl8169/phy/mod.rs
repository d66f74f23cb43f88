//! PHY management of the RTL8169 over MDIO (the PHYAR register):
//! register access, auto-negotiation and link status.
pub mod anar;
pub mod bmcr;
pub mod bmsr;
pub mod gbcr;
pub mod phy_reg;

use vstd::prelude::*;

use super::regs::phy_status::{FULL_DUP, LINK_STATUS, _1000BPSF, _100BPS, _10BPS};
use super::regs::{group_regs, regs_at, Reg, Rtl8169Regs};

verus! {

broadcast use group_regs;

/// Number of PHYAR polls of an MDIO access.
pub const MDIO_POLLS: u32 = 2000;
/// Number of status polls while waiting for auto-negotiation.
pub const AN_POLLS: u32 = 10000;
/// PHYAR flag: write access / read data valid.
pub const PHYAR_FLAG: u32 = 0x8000_0000;

/// The PHYAR value that starts a read of PHY register `reg_addr`.
pub open spec fn phyar_read_cmd(reg_addr: u8) -> u32 {
    (reg_addr as u32) << 16u32
}

/// The PHYAR value that writes `value` to PHY register `reg_addr`.
pub open spec fn phyar_write_cmd(reg_addr: u8, value: u16) -> u32 {
    PHYAR_FLAG | ((reg_addr as u32) << 16u32) | (value as u32)
}

/// The auto-negotiation advertisement written: all 10/100 modes, with
/// the selector bits of the current advertisement kept.
pub open spec fn advertised(current: u16) -> u16 {
    anar::_10BASE_T_HALF | anar::_10BASE_T_FULL | anar::_100BASE_TX_HALF | anar::_100BASE_TX_FULL
        | (current & 0x1F)
}

/// Link speed read from the PHY status register.
#[derive(Debug, Clone, Copy, PartialEq, Eq, Structural)]
pub enum LinkSpeed {
    Mbps1000,
    Mbps100,
    Mbps10,
    Unknown,
}

/// Link state read from the PHY status register.
#[derive(Debug, Clone, Copy, PartialEq, Eq, Structural)]
pub enum LinkStatus {
    /// Link up with the given speed and duplex (`true`: full duplex).
    Up(LinkSpeed, bool),
    Down,
}

/// What the PHY status register `s` says of the link.
pub open spec fn link_of(s: u8) -> LinkStatus {
    if s & LINK_STATUS != 0 {
        let speed = if s & _1000BPSF != 0 {
            LinkSpeed::Mbps1000
        } else if s & _100BPS != 0 {
            LinkSpeed::Mbps100
        } else if s & _10BPS != 0 {
            LinkSpeed::Mbps10
        } else {
            LinkSpeed::Unknown
        };
        LinkStatus::Up(speed, s & FULL_DUP != 0)
    } else {
        LinkStatus::Down
    }
}

/// Access `k` of the window at `base` was a PHYAR read through `read32`
/// that returned `x`.
pub open spec fn phyar_read_at<R: Fn(&Rtl8169Regs, Reg) -> u32>(read32: &R, base: usize, k: int, x: u32) -> bool {
    read32.ensures((&regs_at(base, k), Reg::PhyAr), x)
}

/// Access `k` of the window at `base` was the PHYAR write of `cmd`.
pub open spec fn phyar_wrote_at<W: Fn(&Rtl8169Regs, Reg, u32)>(write32: &W, base: usize, k: int, cmd: u32) -> bool {
    write32.ensures((&regs_at(base, k), Reg::PhyAr, cmd), ())
}

/// Access `k + j` of the window at `base` was a PHYAR read that found the
/// flag set (`flag`) or clear.
pub open spec fn phyar_poll<R: Fn(&Rtl8169Regs, Reg) -> u32>(read32: &R, base: usize, k: int, j: int, flag: bool) -> bool {
    exists|x: u32| #[trigger] phyar_read_at(read32, base, k + j, x) && (x & PHYAR_FLAG != 0) == flag
}

/// Accesses `k` to `k + n - 1` of the window at `base` were PHYAR reads
/// that found the flag set (`flag`) or clear.
pub open spec fn phyar_polls<R: Fn(&Rtl8169Regs, Reg) -> u32>(read32: &R, base: usize, k: int, n: int, flag: bool) -> bool {
    forall|j: int| 0 <= j < n ==> #[trigger] phyar_poll(read32, base, k, j, flag)
}

/// An MDIO read of PHY register `reg` from access `k` of the window at
/// `base` on: the read command, then `n` PHYAR reads (at most 2000), all
/// but the last without the data-valid flag. The result `v` is the data of
/// the last one if it has the flag, `0xFFFF` after 2000 reads without it.
pub open spec fn mdio_read_from<R: Fn(&Rtl8169Regs, Reg) -> u32, W: Fn(&Rtl8169Regs, Reg, u32)>(
    read32: &R,
    write32: &W,
    base: usize,
    k: int,
    reg: u8,
    n: int,
    v: u16,
) -> bool {
    &&& phyar_wrote_at(write32, base, k, phyar_read_cmd(reg))
    &&& 1 <= n <= MDIO_POLLS
    &&& phyar_polls(read32, base, k + 1, n - 1, false)
    &&& exists|x: u32| #[trigger] phyar_read_at(read32, base, k + n, x)
        && if x & PHYAR_FLAG != 0 { v == (x & 0xFFFF) as u16 } else { n == MDIO_POLLS && v == 0xFFFF }
}

/// An MDIO write of `value` to PHY register `reg` from access `k` of the
/// window at `base` on: the write command, then `n` PHYAR reads (at most
/// 2000), all but the last with the busy flag set, the last one finding it
/// clear or being the 2000th.
pub open spec fn mdio_write_from<R: Fn(&Rtl8169Regs, Reg) -> u32, W: Fn(&Rtl8169Regs, Reg, u32)>(
    read32: &R,
    write32: &W,
    base: usize,
    k: int,
    reg: u8,
    value: u16,
    n: int,
) -> bool {
    &&& phyar_wrote_at(write32, base, k, phyar_write_cmd(reg, value))
    &&& 1 <= n <= MDIO_POLLS
    &&& phyar_polls(read32, base, k + 1, n - 1, true)
    &&& exists|x: u32| #[trigger] phyar_read_at(read32, base, k + n, x) && (x & PHYAR_FLAG == 0 || n == MDIO_POLLS)
}

/// From access `k` of the window at `base` on, the wait for
/// auto-negotiation, with `m` status polls left, ended at access `e`: an
/// MDIO read of the status register; unless it shows auto-negotiation
/// complete or it was the last poll allowed, the wait goes on.
pub open spec fn an_wait<R: Fn(&Rtl8169Regs, Reg) -> u32, W: Fn(&Rtl8169Regs, Reg, u32)>(
    read32: &R,
    write32: &W,
    base: usize,
    k: int,
    m: nat,
    e: int,
) -> bool
    decreases m,
{
    m > 0 && exists|n: int, v: u16| #[trigger] mdio_read_from(read32, write32, base, k, phy_reg::BMSR, n, v)
        && if v & bmsr::AN_COMPLETE != 0 || m == 1 {
            e == k + 1 + n
        } else {
            an_wait(read32, write32, base, k + 1 + n, (m - 1) as nat, e)
        }
}

/// From access `k` of the window at `base` on, in order: the advertisement
/// read, the new advertisement (from the value read), 1000BASE-T full
/// duplex, auto-negotiation enabled and restarted, the wait for it, and a
/// read of the PHY status register, which is access `e`.
pub open spec fn negotiated<R8, R, W>(read8: &R8, read32: &R, write32: &W, base: usize, k: int, e: int) -> bool
    where R8: Fn(&Rtl8169Regs, Reg) -> u8, R: Fn(&Rtl8169Regs, Reg) -> u32, W: Fn(&Rtl8169Regs, Reg, u32),
{
    exists|n1: int, a: u16| #[trigger] mdio_read_from(read32, write32, base, k, phy_reg::ANAR, n1, a)
    && exists|n2: int| #[trigger] mdio_write_from(read32, write32, base, k + 1 + n1, phy_reg::ANAR, advertised(a), n2)
    && exists|n3: int| #[trigger] mdio_write_from(read32, write32, base, k + 2 + n1 + n2, phy_reg::GBCR,
        gbcr::_1000BASE_T_FULL, n3)
    && exists|n4: int| #[trigger] mdio_write_from(read32, write32, base, k + 3 + n1 + n2 + n3, phy_reg::BMCR,
        bmcr::AN_ENABLE | bmcr::AN_RESTART, n4)
    && an_wait(read32, write32, base, k + 4 + n1 + n2 + n3 + n4, AN_POLLS as nat, e)
    && exists|st: u8| #[trigger] read8.ensures((&regs_at(base, e), Reg::PhyStatus), st)
}

/// PHY manager.
pub struct PhyManager<'a> {
    regs: &'a Rtl8169Regs,
}

impl<'a> PhyManager<'a> {
    /// The register window the PHY is reached through.
    pub closed spec fn window(&self) -> &'a Rtl8169Regs {
        self.regs
    }

    /// Create new PHY manager.
    pub fn new(regs: &'a Rtl8169Regs) -> (p: Self)
        ensures
            p.window() == regs,
    {
        Self { regs }
    }

    /// The PHYAR value that starts a read of PHY register `reg_addr`.
    pub fn read_cmd(reg_addr: u8) -> (v: u32)
        ensures
            v == phyar_read_cmd(reg_addr),
    {
        (reg_addr as u32) << 16
    }

    /// The PHYAR value that writes `value` to PHY register `reg_addr`.
    pub fn write_cmd(reg_addr: u8, value: u16) -> (v: u32)
        ensures
            v == phyar_write_cmd(reg_addr, value),
    {
        PHYAR_FLAG | ((reg_addr as u32) << 16) | (value as u32)
    }

    /// Small delay between two polls.
    fn delay<S: Fn()>(spin: &S)
        requires
            spin.requires(()),
    {
        let mut k: u32 = 0;
        while k < 100
            invariant
                spin.requires(()),
            decreases 100 - k,
        {
            spin();
            k = k + 1;
        }
    }

    /// MDIO read through the window `w` (see `mdio_read`); `w` counts the
    /// accesses made.
    fn mdio_read_at<R, W, S>(w: &mut Rtl8169Regs, reg_addr: u8, read32: &R, write32: &W, spin: &S) -> (v: u16)
        where R: Fn(&Rtl8169Regs, Reg) -> u32, W: Fn(&Rtl8169Regs, Reg, u32), S: Fn(),
        requires
            forall|r: &Rtl8169Regs, g: Reg| #[trigger] read32.requires((r, g)),
            forall|r: &Rtl8169Regs, g: Reg, x: u32| #[trigger] write32.requires((r, g, x)),
            spin.requires(()),
        ensures
            exists|n: int| #[trigger] mdio_read_from(read32, write32, old(w).base_addr(), old(w).step(), reg_addr, n, v)
                && *final(w) == regs_at(old(w).base_addr(), old(w).step() + 1 + n),
    {
        let ghost b = w.base_addr();
        let ghost k = w.step();
        write32(&*w, Reg::PhyAr, Self::read_cmd(reg_addr));
        assert(phyar_wrote_at(write32, b, k, phyar_read_cmd(reg_addr)));
        *w = w.next();
        let mut n: u32 = 0;
        loop
            invariant
                n < MDIO_POLLS,
                b == old(w).base_addr() && k == old(w).step(),
                *w == regs_at(b, k + 1 + n),
                forall|r: &Rtl8169Regs, g: Reg| #[trigger] read32.requires((r, g)),
                spin.requires(()),
                phyar_wrote_at(write32, b, k, phyar_read_cmd(reg_addr)),
                phyar_polls(read32, b, k + 1, n as int, false),
            decreases MDIO_POLLS - n,
        {
            let val = read32(&*w, Reg::PhyAr);
            assert(phyar_read_at(read32, b, k + 1 + n, val));
            *w = w.next();
            if (val & PHYAR_FLAG) != 0 {
                let v = (val & 0xFFFF) as u16;
                assert(phyar_read_at(read32, b, k + (n + 1), val));
                assert(mdio_read_from(read32, write32, b, k, reg_addr, n + 1, v));
                return v;
            }
            assert(phyar_poll(read32, b, k + 1, n as int, false));
            Self::delay(spin);
            n = n + 1;
            if n == MDIO_POLLS {
                assert(phyar_read_at(read32, b, k + n, val));
                assert(mdio_read_from(read32, write32, b, k, reg_addr, n as int, 0xFFFF));
                return 0xFFFF;
            }
        }
    }

    /// MDIO write through the window `w` (see `mdio_write`); `w` counts the
    /// accesses made.
    fn mdio_write_at<R, W, S>(w: &mut Rtl8169Regs, reg_addr: u8, value: u16, read32: &R, write32: &W, spin: &S)
        where R: Fn(&Rtl8169Regs, Reg) -> u32, W: Fn(&Rtl8169Regs, Reg, u32), S: Fn(),
        requires
            forall|r: &Rtl8169Regs, g: Reg| #[trigger] read32.requires((r, g)),
            forall|r: &Rtl8169Regs, g: Reg, x: u32| #[trigger] write32.requires((r, g, x)),
            spin.requires(()),
        ensures
            exists|n: int| #[trigger] mdio_write_from(read32, write32, old(w).base_addr(), old(w).step(), reg_addr, value, n)
                && *final(w) == regs_at(old(w).base_addr(), old(w).step() + 1 + n),
    {
        let ghost b = w.base_addr();
        let ghost k = w.step();
        write32(&*w, Reg::PhyAr, Self::write_cmd(reg_addr, value));
        assert(phyar_wrote_at(write32, b, k, phyar_write_cmd(reg_addr, value)));
        *w = w.next();
        let mut n: u32 = 0;
        loop
            invariant
                n < MDIO_POLLS,
                b == old(w).base_addr() && k == old(w).step(),
                *w == regs_at(b, k + 1 + n),
                forall|r: &Rtl8169Regs, g: Reg| #[trigger] read32.requires((r, g)),
                spin.requires(()),
                phyar_wrote_at(write32, b, k, phyar_write_cmd(reg_addr, value)),
                phyar_polls(read32, b, k + 1, n as int, true),
            decreases MDIO_POLLS - n,
        {
            let val = read32(&*w, Reg::PhyAr);
            assert(phyar_read_at(read32, b, k + 1 + n, val));
            *w = w.next();
            if (val & PHYAR_FLAG) == 0 {
                assert(phyar_read_at(read32, b, k + (n + 1), val));
                assert(mdio_write_from(read32, write32, b, k, reg_addr, value, n + 1));
                return;
            }
            assert(phyar_poll(read32, b, k + 1, n as int, true));
            Self::delay(spin);
            n = n + 1;
            if n == MDIO_POLLS {
                assert(phyar_read_at(read32, b, k + n, val));
                assert(mdio_write_from(read32, write32, b, k, reg_addr, value, n as int));
                return;
            }
        }
    }

    /// Read PHY register `reg_addr` via MDIO: write the read command, then
    /// poll PHYAR (at most 2000 times) until the data-valid flag is set;
    /// `0xFFFF` after 2000 polls without it. Accesses are counted from the
    /// window's count.
    pub fn mdio_read<R, W, S>(&self, reg_addr: u8, read32: &R, write32: &W, spin: &S) -> (v: u16)
        where R: Fn(&Rtl8169Regs, Reg) -> u32, W: Fn(&Rtl8169Regs, Reg, u32), S: Fn(),
        requires
            forall|r: &Rtl8169Regs, g: Reg| #[trigger] read32.requires((r, g)),
            forall|r: &Rtl8169Regs, g: Reg, x: u32| #[trigger] write32.requires((r, g, x)),
            spin.requires(()),
        ensures
            exists|n: int| #[trigger] mdio_read_from(read32, write32, self.window().base_addr(), self.window().step(), reg_addr, n, v),
    {
        let mut w = *self.regs;
        assert(w.base_addr() == self.window().base_addr() && w.step() == self.window().step());
        let v = Self::mdio_read_at(&mut w, reg_addr, read32, write32, spin);
        let ghost n = choose|n: int| #[trigger] mdio_read_from(read32, write32, self.regs.base_addr(), self.regs.step(), reg_addr, n, v)
            && w == regs_at(self.regs.base_addr(), self.regs.step() + 1 + n);
        assert(mdio_read_from(read32, write32, self.window().base_addr(), self.window().step(), reg_addr, n, v));
        v
    }

    /// Write `value` to PHY register `reg_addr` via MDIO: write the command,
    /// then poll PHYAR (at most 2000 times) until the device clears the
    /// flag. Accesses are counted from the window's count.
    pub fn mdio_write<R, W, S>(&self, reg_addr: u8, value: u16, read32: &R, write32: &W, spin: &S)
        where R: Fn(&Rtl8169Regs, Reg) -> u32, W: Fn(&Rtl8169Regs, Reg, u32), S: Fn(),
        requires
            forall|r: &Rtl8169Regs, g: Reg| #[trigger] read32.requires((r, g)),
            forall|r: &Rtl8169Regs, g: Reg, x: u32| #[trigger] write32.requires((r, g, x)),
            spin.requires(()),
        ensures
            exists|n: int| #[trigger] mdio_write_from(read32, write32, self.window().base_addr(), self.window().step(), reg_addr, value, n),
    {
        let mut w = *self.regs;
        assert(w.base_addr() == self.window().base_addr() && w.step() == self.window().step());
        Self::mdio_write_at(&mut w, reg_addr, value, read32, write32, spin);
        let ghost n = choose|n: int| #[trigger] mdio_write_from(read32, write32, self.regs.base_addr(), self.regs.step(), reg_addr, value, n)
            && w == regs_at(self.regs.base_addr(), self.regs.step() + 1 + n);
        assert(mdio_write_from(read32, write32, self.window().base_addr(), self.window().step(), reg_addr, value, n));
    }

    /// The auto-negotiation advertisement to write for the current one.
    pub fn advertisement(current: u16) -> (v: u16)
        ensures
            v == advertised(current),
    {
        anar::_10BASE_T_HALF | anar::_10BASE_T_FULL | anar::_100BASE_TX_HALF | anar::_100BASE_TX_FULL
            | (current & 0x1F)
    }

    /// The negotiation of `init_and_negotiate`, through the window `regs`;
    /// returns the number of its last access (the PHY status read).
    fn negotiate<R8, R, W, S>(regs: &Rtl8169Regs, read8: &R8, read32: &R, write32: &W, spin: &S) -> (e: Ghost<int>)
        where R8: Fn(&Rtl8169Regs, Reg) -> u8, R: Fn(&Rtl8169Regs, Reg) -> u32, W: Fn(&Rtl8169Regs, Reg, u32), S: Fn(),
        requires
            forall|r: &Rtl8169Regs, g: Reg| #[trigger] read8.requires((r, g)),
            forall|r: &Rtl8169Regs, g: Reg| #[trigger] read32.requires((r, g)),
            forall|r: &Rtl8169Regs, g: Reg, x: u32| #[trigger] write32.requires((r, g, x)),
            spin.requires(()),
        ensures
            negotiated(read8, read32, write32, regs.base_addr(), regs.step(), e@),
    {
        let ghost b = regs.base_addr();
        let ghost k = regs.step();
        let mut w = *regs;
        // Current auto-negotiation advertisement
        let current = Self::mdio_read_at(&mut w, phy_reg::ANAR, read32, write32, spin);
        let ghost n1 = choose|n: int| #[trigger] mdio_read_from(read32, write32, b, k, phy_reg::ANAR, n, current)
            && w == regs_at(b, k + 1 + n);
        // Advertise all speeds, keep the selector bits
        let adv = Self::advertisement(current);
        Self::mdio_write_at(&mut w, phy_reg::ANAR, adv, read32, write32, spin);
        let ghost n2 = choose|n: int| #[trigger] mdio_write_from(read32, write32, b, k + 1 + n1, phy_reg::ANAR, adv, n)
            && w == regs_at(b, k + 1 + n1 + 1 + n);
        // Enable 1000BASE-T full duplex
        Self::mdio_write_at(&mut w, phy_reg::GBCR, gbcr::_1000BASE_T_FULL, read32, write32, spin);
        let ghost n3 = choose|n: int| #[trigger] mdio_write_from(read32, write32, b, k + 2 + n1 + n2, phy_reg::GBCR,
            gbcr::_1000BASE_T_FULL, n) && w == regs_at(b, k + 2 + n1 + n2 + 1 + n);
        // Enable and restart auto-negotiation
        Self::mdio_write_at(&mut w, phy_reg::BMCR, bmcr::AN_ENABLE | bmcr::AN_RESTART, read32, write32, spin);
        let ghost n4 = choose|n: int| #[trigger] mdio_write_from(read32, write32, b, k + 3 + n1 + n2 + n3, phy_reg::BMCR,
            bmcr::AN_ENABLE | bmcr::AN_RESTART, n) && w == regs_at(b, k + 3 + n1 + n2 + n3 + 1 + n);
        let ghost start = k + 4 + n1 + n2 + n3 + n4;
        assert(w.step() == start);
        // Wait for auto-negotiation to complete
        let mut timeout: u32 = AN_POLLS;
        loop
            invariant_except_break
                0 < timeout <= AN_POLLS,
                forall|e: int| #[trigger] an_wait(read32, write32, b, w.step(), timeout as nat, e)
                    ==> an_wait(read32, write32, b, start, AN_POLLS as nat, e),
            invariant
                w.base_addr() == b,
                forall|r: &Rtl8169Regs, g: Reg| #[trigger] read8.requires((r, g)),
                forall|r: &Rtl8169Regs, g: Reg| #[trigger] read32.requires((r, g)),
                forall|r: &Rtl8169Regs, g: Reg, x: u32| #[trigger] write32.requires((r, g, x)),
                spin.requires(()),
            ensures
                an_wait(read32, write32, b, start, AN_POLLS as nat, w.step()),
                w.base_addr() == b,
            decreases timeout,
        {
            let ghost p = w.step();
            let ghost t = timeout;
            let status = Self::mdio_read_at(&mut w, phy_reg::BMSR, read32, write32, spin);
            let ghost n = choose|n: int| #[trigger] mdio_read_from(read32, write32, b, p, phy_reg::BMSR, n, status)
                && w == regs_at(b, p + 1 + n);
            if (status & bmsr::AN_COMPLETE) != 0 || timeout == 1 {
                assert(an_wait(read32, write32, b, p, timeout as nat, w.step()));
                if (status & bmsr::AN_COMPLETE) == 0 {
                    Self::delay(spin);
                }
                break;
            }
            timeout = timeout - 1;
            proof {
                assert(w.step() == p + 1 + n);
                assert(timeout as nat == (t - 1) as nat);
                assert forall|e: int| #[trigger] an_wait(read32, write32, b, w.step(), timeout as nat, e)
                    implies an_wait(read32, write32, b, start, AN_POLLS as nat, e) by {
                    assert(an_wait(read32, write32, b, p + 1 + n, (t - 1) as nat, e));
                    assert(mdio_read_from(read32, write32, b, p, phy_reg::BMSR, n, status));
                    assert(an_wait(read32, write32, b, p, t as nat, e));
                }
            }
            Self::delay(spin);
        }
        let ghost e = w.step();
        let phy_status = read8(&w, Reg::PhyStatus);
        assert(read8.ensures((&regs_at(b, e), Reg::PhyStatus), phy_status));
        assert(mdio_read_from(read32, write32, b, k, phy_reg::ANAR, n1, current));
        assert(mdio_write_from(read32, write32, b, k + 1 + n1, phy_reg::ANAR, advertised(current), n2));
        assert(mdio_write_from(read32, write32, b, k + 2 + n1 + n2, phy_reg::GBCR, gbcr::_1000BASE_T_FULL, n3));
        assert(mdio_write_from(read32, write32, b, k + 3 + n1 + n2 + n3, phy_reg::BMCR, bmcr::AN_ENABLE | bmcr::AN_RESTART, n4));
        assert(an_wait(read32, write32, b, k + 4 + n1 + n2 + n3 + n4, AN_POLLS as nat, e));
        assert(negotiated(read8, read32, write32, b, k, e));
        Ghost(e)
    }

    /// Initialize the PHY and auto-negotiate: advertise all 10/100 modes
    /// and 1000BASE-T full duplex, enable and restart auto-negotiation and
    /// wait for it to complete. A timeout is not an error: the link is
    /// checked anyway. Accesses are counted from the window's count.
    pub fn init_and_negotiate<R8, R, W, S>(&self, read8: &R8, read32: &R, write32: &W, spin: &S) -> (r: Result<(), &'static str>)
        where R8: Fn(&Rtl8169Regs, Reg) -> u8, R: Fn(&Rtl8169Regs, Reg) -> u32, W: Fn(&Rtl8169Regs, Reg, u32), S: Fn(),
        requires
            forall|r: &Rtl8169Regs, g: Reg| #[trigger] read8.requires((r, g)),
            forall|r: &Rtl8169Regs, g: Reg| #[trigger] read32.requires((r, g)),
            forall|r: &Rtl8169Regs, g: Reg, x: u32| #[trigger] write32.requires((r, g, x)),
            spin.requires(()),
        ensures
            r is Ok,
            exists|e: int| #[trigger] negotiated(read8, read32, write32, self.window().base_addr(), self.window().step(), e),
    {
        let e = Self::negotiate(self.regs, read8, read32, write32, spin);
        assert(negotiated(read8, read32, write32, self.window().base_addr(), self.window().step(), e@));
        Ok(())
    }

    /// Negotiate as `init_and_negotiate`, then read the PHY status register
    /// (the access after the negotiation's last one): whether the link is up.
    pub fn negotiate_and_check_link<R8, R, W, S>(&self, read8: &R8, read32: &R, write32: &W, spin: &S) -> (up: bool)
        where R8: Fn(&Rtl8169Regs, Reg) -> u8, R: Fn(&Rtl8169Regs, Reg) -> u32, W: Fn(&Rtl8169Regs, Reg, u32), S: Fn(),
        requires
            forall|r: &Rtl8169Regs, g: Reg| #[trigger] read8.requires((r, g)),
            forall|r: &Rtl8169Regs, g: Reg| #[trigger] read32.requires((r, g)),
            forall|r: &Rtl8169Regs, g: Reg, x: u32| #[trigger] write32.requires((r, g, x)),
            spin.requires(()),
        ensures
            exists|e: int| #[trigger] negotiated(read8, read32, write32, self.window().base_addr(), self.window().step(), e)
                && exists|s: u8| #[trigger] read8.ensures((&regs_at(self.window().base_addr(), e + 1), Reg::PhyStatus), s)
                    && up == (s & LINK_STATUS != 0),
    {
        let e = Self::negotiate(self.regs, read8, read32, write32, spin);
        let w = Rtl8169Regs::at_access(self.regs.base(), Ghost(e@ + 1));
        let phy_status = read8(&w, Reg::PhyStatus);
        assert(read8.ensures((&regs_at(self.window().base_addr(), e@ + 1), Reg::PhyStatus), phy_status));
        assert(negotiated(read8, read32, write32, self.window().base_addr(), self.window().step(), e@));
        (phy_status & LINK_STATUS) != 0
    }

    /// The link state that a PHY status register value reports.
    pub fn link_status(phy_status: u8) -> (s: LinkStatus)
        ensures
            s == link_of(phy_status),
    {
        if (phy_status & LINK_STATUS) != 0 {
            let speed = if (phy_status & _1000BPSF) != 0 {
                LinkSpeed::Mbps1000
            } else if (phy_status & _100BPS) != 0 {
                LinkSpeed::Mbps100
            } else if (phy_status & _10BPS) != 0 {
                LinkSpeed::Mbps10
            } else {
                LinkSpeed::Unknown
            };
            LinkStatus::Up(speed, (phy_status & FULL_DUP) != 0)
        } else {
            LinkStatus::Down
        }
    }

    /// Check if the link is up.
    pub fn is_link_up<R8: Fn(&Rtl8169Regs, Reg) -> u8>(&self, read8: &R8) -> (up: bool)
        requires
            forall|r: &Rtl8169Regs, g: Reg| #[trigger] read8.requires((r, g)),
        ensures
            exists|s: u8| #[trigger] read8.ensures((self.window(), Reg::PhyStatus), s) && up == (s & LINK_STATUS != 0),
    {
        let phy_status = read8(self.regs, Reg::PhyStatus);
        (phy_status & LINK_STATUS) != 0
    }
}

/// An MDIO write ends at the first PHYAR read that finds the busy flag
/// clear, or gives up after 2000 reads that all found it set: the write
/// command, then reads that all found the flag set but the last, which
/// found it clear unless it was the 2000th.
pub proof fn lemma_mdio_write_waits<R: Fn(&Rtl8169Regs, Reg) -> u32, W: Fn(&Rtl8169Regs, Reg, u32)>(
    read32: &R,
    write32: &W,
    base: usize,
    k: int,
    reg: u8,
    value: u16,
    n: int,
)
    requires
        mdio_write_from(read32, write32, base, k, reg, value, n),
    ensures
        write32.ensures((&regs_at(base, k), Reg::PhyAr, 0x8000_0000u32 | ((reg as u32) << 16u32) | (value as u32)), ()),
        1 <= n <= 2000,
        forall|a: int| k + 1 <= a < k + n ==> #[trigger] phyar_busy_at(read32, base, a),
        exists|x: u32| #[trigger] read32.ensures((&regs_at(base, k + n), Reg::PhyAr), x)
            && (x & 0x8000_0000 == 0 || n == 2000),
{
    assert forall|a: int| k + 1 <= a < k + n implies #[trigger] phyar_busy_at(read32, base, a) by {
        assert(phyar_poll(read32, base, k + 1, a - (k + 1), true));
        assert(k + 1 + (a - (k + 1)) == a);
    }
}

/// Access `a` of the window at `base` was a PHYAR read that found the busy
/// flag (bit 31) set.
pub open spec fn phyar_busy_at<R: Fn(&Rtl8169Regs, Reg) -> u32>(read32: &R, base: usize, a: int) -> bool {
    exists|x: u32| #[trigger] read32.ensures((&regs_at(base, a), Reg::PhyAr), x) && x & 0x8000_0000 != 0
}

/// The wait for auto-negotiation ends at the first status read that shows
/// it complete: a status read that shows it complete ends the wait, and
/// one that does not, with polls left after it, does not end it (the wait
/// goes on past it, to a later access).
pub proof fn lemma_an_wait_ends_on_complete<R: Fn(&Rtl8169Regs, Reg) -> u32, W: Fn(&Rtl8169Regs, Reg, u32)>(
    read32: &R,
    write32: &W,
    base: usize,
    k: int,
    m: nat,
    e: int,
)
    requires
        an_wait(read32, write32, base, k, m, e),
    ensures
        m >= 1,
        exists|n: int, v: u16| #[trigger] mdio_read_from(read32, write32, base, k, phy_reg::BMSR, n, v)
            && (v & 0x0020 != 0 ==> e == k + 1 + n)
            && (v & 0x0020 == 0 && m > 1 ==> e > k + 1 + n),
    decreases m,
{
    let (n, v) = choose|n: int, v: u16| #[trigger] mdio_read_from(read32, write32, base, k, phy_reg::BMSR, n, v)
        && if (v & 0x0020) != 0 || m == 1 {
            e == k + 1 + n
        } else {
            an_wait(read32, write32, base, k + 1 + n, (m - 1) as nat, e)
        };
    if !((v & 0x0020) != 0 || m == 1) {
        lemma_an_wait_ends_on_complete(read32, write32, base, k + 1 + n, (m - 1) as nat, e);
        let (n2, v2) = choose|n2: int, v2: u16| #[trigger] mdio_read_from(read32, write32, base, k + 1 + n, phy_reg::BMSR, n2, v2)
            && (v2 & 0x0020 != 0 ==> e == k + 1 + n + 1 + n2)
            && (v2 & 0x0020 == 0 && m - 1 > 1 ==> e > k + 1 + n + 1 + n2);
        lemma_an_wait_after(read32, write32, base, k + 1 + n, (m - 1) as nat, e);
    }
}

/// A wait for auto-negotiation from access `k` ends after its first status
/// read.
proof fn lemma_an_wait_after<R: Fn(&Rtl8169Regs, Reg) -> u32, W: Fn(&Rtl8169Regs, Reg, u32)>(
    read32: &R,
    write32: &W,
    base: usize,
    k: int,
    m: nat,
    e: int,
)
    requires
        an_wait(read32, write32, base, k, m, e),
    ensures
        e >= k + 2,
    decreases m,
{
    let (n, v) = choose|n: int, v: u16| #[trigger] mdio_read_from(read32, write32, base, k, phy_reg::BMSR, n, v)
        && if (v & 0x0020) != 0 || m == 1 {
            e == k + 1 + n
        } else {
            an_wait(read32, write32, base, k + 1 + n, (m - 1) as nat, e)
        };
    if !((v & 0x0020) != 0 || m == 1) {
        lemma_an_wait_after(read32, write32, base, k + 1 + n, (m - 1) as nat, e);
    }
}

/// An MDIO read ends at the first PHYAR read that finds the data-valid flag
/// set, whose low 16 bits are the value read, or gives `0xFFFF` after 2000
/// reads that all found it clear.
pub proof fn lemma_mdio_read_waits<R: Fn(&Rtl8169Regs, Reg) -> u32, W: Fn(&Rtl8169Regs, Reg, u32)>(
    read32: &R,
    write32: &W,
    base: usize,
    k: int,
    reg: u8,
    n: int,
    v: u16,
)
    requires
        mdio_read_from(read32, write32, base, k, reg, n, v),
    ensures
        write32.ensures((&regs_at(base, k), Reg::PhyAr, ((reg as u32) << 16u32)), ()),
        1 <= n <= 2000,
        forall|a: int| k + 1 <= a < k + n ==> #[trigger] phyar_idle_at(read32, base, a),
        exists|x: u32| #[trigger] read32.ensures((&regs_at(base, k + n), Reg::PhyAr), x)
            && if x & 0x8000_0000 != 0 { v == (x & 0xFFFF) as u16 } else { n == 2000 && v == 0xFFFF },
{
    assert forall|a: int| k + 1 <= a < k + n implies #[trigger] phyar_idle_at(read32, base, a) by {
        assert(phyar_poll(read32, base, k + 1, a - (k + 1), false));
        assert(k + 1 + (a - (k + 1)) == a);
    }
}

/// Access `a` of the window at `base` was a PHYAR read that found the
/// flag (bit 31) clear.
pub open spec fn phyar_idle_at<R: Fn(&Rtl8169Regs, Reg) -> u32>(read32: &R, base: usize, a: int) -> bool {
    exists|x: u32| #[trigger] read32.ensures((&regs_at(base, a), Reg::PhyAr), x) && x & 0x8000_0000 == 0
}

} // verus!
