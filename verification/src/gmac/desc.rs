//! Enhanced-mode DMA descriptors of the GMAC.
//!
//! Both TX and RX descriptors are 32 bytes (8 x u32) with 8-byte alignment.
use vstd::prelude::*;

use crate::bits::{lemma_u32_clear_bits, lemma_u32_replace_field, lemma_u32_set_bits};

verus! {

/// TX DMA descriptor (enhanced mode, 32 bytes).
#[derive(Debug, Clone, Copy, PartialEq, Eq, Structural)]
pub struct TxDesc {
    /// Status / control.
    pub tdes0: u32,
    /// Control and buffer sizes.
    pub tdes1: u32,
    /// Buffer 1 address.
    pub tdes2: u32,
    /// Buffer 2 address or next descriptor.
    pub tdes3: u32,
    /// Reserved.
    pub tdes4: u32,
    /// Reserved.
    pub tdes5: u32,
    /// Timestamp low.
    pub tdes6: u32,
    /// Timestamp high.
    pub tdes7: u32,
}

/// RX DMA descriptor (enhanced mode, 32 bytes).
#[derive(Debug, Clone, Copy, PartialEq, Eq, Structural)]
pub struct RxDesc {
    /// Status.
    pub rdes0: u32,
    /// Control and buffer sizes.
    pub rdes1: u32,
    /// Buffer 1 address.
    pub rdes2: u32,
    /// Buffer 2 address or next descriptor.
    pub rdes3: u32,
    /// Extended status.
    pub rdes4: u32,
    /// Reserved.
    pub rdes5: u32,
    /// Timestamp low.
    pub rdes6: u32,
    /// Timestamp high.
    pub rdes7: u32,
}

/// Facts about the descriptor bit layout used by the methods below.
proof fn lemma_desc_bit_facts(r: u32, s: u32)
    by (bit_vector)
    ensures
        (0x1000_0000u32 | 0x2000_0000u32 | 0x0010_0000u32) & 0x8000_0000u32 == 0,
        (0x1000_0000u32 | 0x2000_0000u32 | 0x0010_0000u32 | 0x4000_0000u32) & 0x8000_0000u32 == 0,
        (s & 0x1FFFu32) & 0x1FFFu32 == s & 0x1FFFu32,
        (r & 0x3FFF_0000u32) >> 16u32 < 0x4000u32,
        0x8000_0000u32 & 0x8000_0000u32 != 0,
        0x8000_0000u32 & 0x8000u32 == 0,
        (0x4000u32 | (s & 0x1FFFu32)) & 0x1FFFu32 == s & 0x1FFFu32,
{
}

impl TxDesc {
    // TDES0 bit definitions - status/control
    /// Descriptor owned by DMA.
    pub const OWN: u32 = 0x80000000;
    /// Interrupt on completion.
    pub const IC: u32 = 0x40000000;
    /// Last segment.
    pub const LS: u32 = 0x20000000;
    /// First segment.
    pub const FS: u32 = 0x10000000;
    /// Disable CRC.
    pub const DC: u32 = 0x08000000;
    /// Disable padding.
    pub const DP: u32 = 0x04000000;
    /// Transmit timestamp enable.
    pub const TTSE: u32 = 0x02000000;
    /// Checksum insertion control (2 bits).
    pub const CIC_SHIFT: u32 = 22;
    pub const CIC_DISABLED: u32 = 0;
    pub const CIC_IP_ONLY: u32 = 0x00400000;
    pub const CIC_IP_PAYLOAD: u32 = 0x00800000;
    pub const CIC_IP_PSEUDO: u32 = 0x00C00000;
    /// Transmit end of ring.
    pub const TER: u32 = 0x00200000;
    /// Second address chained.
    pub const TCH: u32 = 0x00100000;
    /// VLAN insertion control (2 bits).
    pub const VLIC_SHIFT: u32 = 18;
    /// Transmit timestamp status.
    pub const TTSS: u32 = 0x00020000;
    /// IP header error.
    pub const IHE: u32 = 0x00010000;
    /// Error summary.
    pub const ES: u32 = 0x00008000;
    /// Jabber timeout.
    pub const JT: u32 = 0x00004000;
    /// Frame flushed.
    pub const FF: u32 = 0x00002000;
    /// IP payload error.
    pub const IPE: u32 = 0x00001000;
    /// Loss of carrier.
    pub const LOC: u32 = 0x00000800;
    /// No carrier.
    pub const NC: u32 = 0x00000400;
    /// Late collision.
    pub const LC: u32 = 0x00000200;
    /// Excessive collision.
    pub const EC: u32 = 0x00000100;
    /// VLAN frame.
    pub const VF: u32 = 0x00000080;
    /// Collision count (4 bits).
    pub const CC_SHIFT: u32 = 3;
    pub const CC_MASK: u32 = 0x00000078;
    /// Excessive deferral.
    pub const ED: u32 = 4;
    /// Underflow error.
    pub const UF: u32 = 2;
    /// Deferred bit.
    pub const DB: u32 = 1;

    // TDES1 bit definitions - buffer sizes
    /// Transmit buffer 2 size (13 bits).
    pub const TBS2_SHIFT: u32 = 16;
    pub const TBS2_MASK: u32 = 0x1FFF0000;
    /// Transmit buffer 1 size (13 bits).
    pub const TBS1_SHIFT: u32 = 0;
    pub const TBS1_MASK: u32 = 0x1FFF;

    /// The all-zero descriptor.
    pub open spec fn zeroed() -> TxDesc {
        TxDesc { tdes0: 0, tdes1: 0, tdes2: 0, tdes3: 0, tdes4: 0, tdes5: 0, tdes6: 0, tdes7: 0 }
    }

    /// Whether the DMA engine owns this descriptor.
    pub open spec fn owned_by_dma(self) -> bool {
        self.tdes0 & Self::OWN != 0
    }

    /// Buffer 1 size held in TDES1.
    pub open spec fn buf1_size(self) -> u32 {
        self.tdes1 & Self::TBS1_MASK
    }

    /// The descriptor handed to the DMA engine.
    pub open spec fn dma_owned(self) -> TxDesc {
        TxDesc { tdes0: self.tdes0 | Self::OWN, ..self }
    }

    /// The descriptor given back to the CPU.
    pub open spec fn cpu_owned(self) -> TxDesc {
        TxDesc { tdes0: self.tdes0 & !Self::OWN, ..self }
    }

    /// The descriptor with buffer 1 size `size`.
    pub open spec fn with_buf1_size(self, size: u32) -> TxDesc {
        TxDesc { tdes1: (self.tdes1 & !Self::TBS1_MASK) | (size & Self::TBS1_MASK), ..self }
    }

    /// What `setup_tx` makes of any descriptor.
    pub open spec fn tx_setup(buf_addr: u32, buf_size: u32, next_desc: u32, is_last: bool) -> TxDesc {
        TxDesc {
            tdes0: if is_last {
                Self::FS | Self::LS | Self::TCH | Self::IC
            } else {
                Self::FS | Self::LS | Self::TCH
            },
            tdes1: buf_size & Self::TBS1_MASK,
            tdes2: buf_addr,
            tdes3: next_desc,
            tdes4: 0,
            tdes5: 0,
            tdes6: 0,
            tdes7: 0,
        }
    }

    /// Create a new empty TX descriptor.
    pub fn new() -> (d: Self)
        ensures
            d == Self::zeroed(),
    {
        TxDesc { tdes0: 0, tdes1: 0, tdes2: 0, tdes3: 0, tdes4: 0, tdes5: 0, tdes6: 0, tdes7: 0 }
    }

    /// Set buffer 1 address.
    pub fn set_buf1_addr(&mut self, addr: u32)
        ensures
            *final(self) == (TxDesc { tdes2: addr, ..*old(self) }),
    {
        self.tdes2 = addr;
    }

    /// Set buffer 1 size; the other bits of TDES1 are kept.
    pub fn set_buf1_size(&mut self, size: u32)
        ensures
            *final(self) == old(self).with_buf1_size(size),
            final(self).buf1_size() == size & Self::TBS1_MASK,
            final(self).tdes1 & !Self::TBS1_MASK == old(self).tdes1 & !Self::TBS1_MASK,
    {
        let t = self.tdes1;
        self.tdes1 = (t & !Self::TBS1_MASK) | (size & Self::TBS1_MASK);
        proof {
            lemma_u32_replace_field(t, size, Self::TBS1_MASK);
        }
    }

    /// Set next descriptor address (chained mode).
    pub fn set_next_desc(&mut self, addr: u32)
        ensures
            *final(self) == (TxDesc { tdes3: addr, ..*old(self) }),
    {
        self.tdes3 = addr;
    }

    /// Check whether the descriptor is owned by DMA.
    pub fn is_owned_by_dma(&self) -> (r: bool)
        ensures
            r == self.owned_by_dma(),
    {
        (self.tdes0 & Self::OWN) != 0
    }

    /// Hand the descriptor to the DMA engine.
    pub fn set_owned_by_dma(&mut self)
        ensures
            *final(self) == old(self).dma_owned(),
            final(self).owned_by_dma(),
            final(self).tdes0 & !Self::OWN == old(self).tdes0 & !Self::OWN,
    {
        let t = self.tdes0;
        self.tdes0 = t | Self::OWN;
        proof {
            lemma_u32_set_bits(t, Self::OWN);
        }
    }

    /// Give the descriptor back to the CPU.
    pub fn clear_owned(&mut self)
        ensures
            *final(self) == old(self).cpu_owned(),
            !final(self).owned_by_dma(),
            final(self).tdes0 & !Self::OWN == old(self).tdes0 & !Self::OWN,
    {
        let t = self.tdes0;
        self.tdes0 = t & !Self::OWN;
        proof {
            lemma_u32_clear_bits(t, Self::OWN);
        }
    }

    /// Set up the descriptor for transmission (chained mode, single buffer).
    /// The descriptor is left with the CPU; interrupt on completion is
    /// requested for the last descriptor only.
    pub fn setup_tx(&mut self, buf_addr: u32, buf_size: u32, next_desc: u32, is_last: bool)
        ensures
            *final(self) == Self::tx_setup(buf_addr, buf_size, next_desc, is_last),
            !final(self).owned_by_dma(),
            final(self).buf1_size() == buf_size & Self::TBS1_MASK,
    {
        self.tdes0 = Self::FS | Self::LS | Self::TCH;
        if is_last {
            self.tdes0 = self.tdes0 | Self::IC;
        }
        self.tdes1 = buf_size & Self::TBS1_MASK;
        self.tdes2 = buf_addr;
        self.tdes3 = next_desc;
        self.tdes4 = 0;
        self.tdes5 = 0;
        self.tdes6 = 0;
        self.tdes7 = 0;
        proof {
            lemma_desc_bit_facts(0, buf_size);
        }
    }
}

impl RxDesc {
    // RDES0 bit definitions - status
    /// Descriptor owned by DMA.
    pub const OWN: u32 = 0x80000000;
    /// Destination address filter fail.
    pub const AFM: u32 = 0x40000000;
    /// Frame length (14 bits).
    pub const FL_SHIFT: u32 = 16;
    pub const FL_MASK: u32 = 0x3FFF0000;
    /// Error summary.
    pub const ES: u32 = 0x00008000;
    /// Descriptor error.
    pub const DE: u32 = 0x00004000;
    /// Source address filter fail.
    pub const SAF: u32 = 0x00002000;
    /// Length error.
    pub const LE: u32 = 0x00001000;
    /// Overflow error.
    pub const OE: u32 = 0x00000800;
    /// VLAN tag.
    pub const VLAN: u32 = 0x00000400;
    /// First descriptor.
    pub const FS: u32 = 0x00000200;
    /// Last descriptor.
    pub const LS: u32 = 0x00000100;
    /// Timestamp available.
    pub const TSTAMP: u32 = 0x00000080;
    /// Late collision.
    pub const LC: u32 = 0x00000040;
    /// Frame type.
    pub const FT: u32 = 0x00000020;
    /// Receive watchdog timeout.
    pub const RWT: u32 = 0x00000010;
    /// Receive error.
    pub const RE: u32 = 8;
    /// Dribble bit error.
    pub const DBE: u32 = 4;
    /// CRC error.
    pub const CE: u32 = 2;
    /// Extended status available.
    pub const ESA: u32 = 1;

    // RDES1 bit definitions - control and buffer sizes
    /// Disable interrupt on completion.
    pub const DIC: u32 = 0x80000000;
    /// Receive buffer 2 size (13 bits).
    pub const RBS2_SHIFT: u32 = 16;
    pub const RBS2_MASK: u32 = 0x1FFF0000;
    /// Receive end of ring.
    pub const RER: u32 = 0x00008000;
    /// Second address chained.
    pub const RCH: u32 = 0x00004000;
    /// Receive buffer 1 size (13 bits).
    pub const RBS1_SHIFT: u32 = 0;
    pub const RBS1_MASK: u32 = 0x1FFF;

    // RDES4 bit definitions - extended status
    /// IP payload error.
    pub const IP_PAYLOAD_ERR: u32 = 0x00000080;
    /// IP header error.
    pub const IP_HEADER_ERR: u32 = 8;
    /// IP payload type (3 bits).
    pub const IP_PAYLOAD_TYPE_SHIFT: u32 = 5;

    /// The all-zero descriptor.
    pub open spec fn zeroed() -> RxDesc {
        RxDesc { rdes0: 0, rdes1: 0, rdes2: 0, rdes3: 0, rdes4: 0, rdes5: 0, rdes6: 0, rdes7: 0 }
    }

    /// Whether the DMA engine owns this descriptor.
    pub open spec fn owned_by_dma(self) -> bool {
        self.rdes0 & Self::OWN != 0
    }

    /// Whether the error summary bit is set.
    pub open spec fn error_summary(self) -> bool {
        self.rdes0 & Self::ES != 0
    }

    /// Frame length field of RDES0.
    pub open spec fn frame_len(self) -> u32 {
        (self.rdes0 & Self::FL_MASK) >> Self::FL_SHIFT
    }

    /// Whether both the first- and last-descriptor bits are set.
    pub open spec fn single_buffer_frame(self) -> bool {
        self.rdes0 & (Self::FS | Self::LS) == (Self::FS | Self::LS)
    }

    /// Buffer 1 size held in RDES1.
    pub open spec fn buf1_size(self) -> u32 {
        self.rdes1 & Self::RBS1_MASK
    }

    /// The descriptor handed to the DMA engine.
    pub open spec fn dma_owned(self) -> RxDesc {
        RxDesc { rdes0: self.rdes0 | Self::OWN, ..self }
    }

    /// The descriptor given back to the CPU.
    pub open spec fn cpu_owned(self) -> RxDesc {
        RxDesc { rdes0: self.rdes0 & !Self::OWN, ..self }
    }

    /// The descriptor with buffer 1 size `size`.
    pub open spec fn with_buf1_size(self, size: u32) -> RxDesc {
        RxDesc { rdes1: (self.rdes1 & !Self::RBS1_MASK) | (size & Self::RBS1_MASK), ..self }
    }

    /// What `setup_rx` makes of any descriptor.
    pub open spec fn rx_setup(buf_addr: u32, buf_size: u32, next_desc: u32) -> RxDesc {
        RxDesc {
            rdes0: Self::OWN,
            rdes1: Self::RCH | (buf_size & Self::RBS1_MASK),
            rdes2: buf_addr,
            rdes3: next_desc,
            rdes4: 0,
            rdes5: 0,
            rdes6: 0,
            rdes7: 0,
        }
    }

    /// Create a new empty RX descriptor.
    pub fn new() -> (d: Self)
        ensures
            d == Self::zeroed(),
    {
        RxDesc { rdes0: 0, rdes1: 0, rdes2: 0, rdes3: 0, rdes4: 0, rdes5: 0, rdes6: 0, rdes7: 0 }
    }

    /// Set buffer 1 address.
    pub fn set_buf1_addr(&mut self, addr: u32)
        ensures
            *final(self) == (RxDesc { rdes2: addr, ..*old(self) }),
    {
        self.rdes2 = addr;
    }

    /// Set buffer 1 size; the other bits of RDES1 are kept.
    pub fn set_buf1_size(&mut self, size: u32)
        ensures
            *final(self) == old(self).with_buf1_size(size),
            final(self).buf1_size() == size & Self::RBS1_MASK,
            final(self).rdes1 & !Self::RBS1_MASK == old(self).rdes1 & !Self::RBS1_MASK,
    {
        let t = self.rdes1;
        self.rdes1 = (t & !Self::RBS1_MASK) | (size & Self::RBS1_MASK);
        proof {
            lemma_u32_replace_field(t, size, Self::RBS1_MASK);
        }
    }

    /// Set next descriptor address (chained mode).
    pub fn set_next_desc(&mut self, addr: u32)
        ensures
            *final(self) == (RxDesc { rdes3: addr, ..*old(self) }),
    {
        self.rdes3 = addr;
    }

    /// Check whether the descriptor is owned by DMA.
    pub fn is_owned_by_dma(&self) -> (r: bool)
        ensures
            r == self.owned_by_dma(),
    {
        (self.rdes0 & Self::OWN) != 0
    }

    /// Hand the descriptor to the DMA engine.
    pub fn set_owned_by_dma(&mut self)
        ensures
            *final(self) == old(self).dma_owned(),
            final(self).owned_by_dma(),
            final(self).rdes0 & !Self::OWN == old(self).rdes0 & !Self::OWN,
    {
        let t = self.rdes0;
        self.rdes0 = t | Self::OWN;
        proof {
            lemma_u32_set_bits(t, Self::OWN);
        }
    }

    /// Give the descriptor back to the CPU.
    pub fn clear_owned(&mut self)
        ensures
            *final(self) == old(self).cpu_owned(),
            !final(self).owned_by_dma(),
            final(self).rdes0 & !Self::OWN == old(self).rdes0 & !Self::OWN,
    {
        let t = self.rdes0;
        self.rdes0 = t & !Self::OWN;
        proof {
            lemma_u32_clear_bits(t, Self::OWN);
        }
    }

    /// Check whether the received frame has errors.
    pub fn has_error(&self) -> (r: bool)
        ensures
            r == self.error_summary(),
    {
        (self.rdes0 & Self::ES) != 0
    }

    /// Frame length in bytes, as reported by the DMA engine.
    pub fn frame_length(&self) -> (len: usize)
        ensures
            len == self.frame_len(),
            len < 0x4000,
    {
        let r = self.rdes0;
        proof {
            lemma_desc_bit_facts(r, 0);
        }
        ((self.rdes0 & Self::FL_MASK) >> Self::FL_SHIFT) as usize
    }

    /// Check whether this descriptor holds a whole frame (first and last).
    pub fn is_complete_frame(&self) -> (r: bool)
        ensures
            r == self.single_buffer_frame(),
    {
        (self.rdes0 & (Self::FS | Self::LS)) == (Self::FS | Self::LS)
    }

    /// Set up the descriptor for reception (chained mode, single buffer) and
    /// hand it to the DMA engine.
    pub fn setup_rx(&mut self, buf_addr: u32, buf_size: u32, next_desc: u32)
        ensures
            *final(self) == Self::rx_setup(buf_addr, buf_size, next_desc),
            final(self).owned_by_dma(),
            !final(self).error_summary(),
            final(self).buf1_size() == buf_size & Self::RBS1_MASK,
    {
        self.rdes0 = Self::OWN;
        self.rdes1 = Self::RCH | (buf_size & Self::RBS1_MASK);
        self.rdes2 = buf_addr;
        self.rdes3 = next_desc;
        self.rdes4 = 0;
        self.rdes5 = 0;
        self.rdes6 = 0;
        self.rdes7 = 0;
        proof {
            lemma_desc_bit_facts(0, buf_size);
        }
    }
}

/// Ownership hand-over touches the ownership bit only: handing a TX
/// descriptor to the DMA engine and back gives the descriptor given back
/// directly, and each hand-over sets the ownership it names.
pub proof fn lemma_tx_ownership_round_trip(d: TxDesc)
    ensures
        d.dma_owned().cpu_owned() == d.cpu_owned(),
        d.cpu_owned().dma_owned() == d.dma_owned(),
        d.dma_owned().owned_by_dma(),
        !d.cpu_owned().owned_by_dma(),
{
    lemma_u32_set_bits(d.tdes0, TxDesc::OWN);
    lemma_u32_clear_bits(d.tdes0, TxDesc::OWN);
    lemma_ownership_words(d.tdes0);
}

/// Ownership hand-over touches the ownership bit only: handing an RX
/// descriptor to the DMA engine and back gives the descriptor given back
/// directly, and each hand-over sets the ownership it names.
pub proof fn lemma_rx_ownership_round_trip(d: RxDesc)
    ensures
        d.dma_owned().cpu_owned() == d.cpu_owned(),
        d.cpu_owned().dma_owned() == d.dma_owned(),
        d.dma_owned().owned_by_dma(),
        !d.cpu_owned().owned_by_dma(),
{
    lemma_u32_set_bits(d.rdes0, RxDesc::OWN);
    lemma_u32_clear_bits(d.rdes0, RxDesc::OWN);
    lemma_ownership_words(d.rdes0);
}

/// Setting and clearing the ownership bit of a status word.
proof fn lemma_ownership_words(t: u32)
    by (bit_vector)
    ensures
        (t | 0x8000_0000u32) & !0x8000_0000u32 == t & !0x8000_0000u32,
        (t & !0x8000_0000u32) | 0x8000_0000u32 == t | 0x8000_0000u32,
{
}

/// The buffer 1 size field holds the last size written: writing it twice
/// is writing the second size, and it reads back as written.
pub proof fn lemma_buf1_size_last_write_wins(d: TxDesc, a: u32, b: u32)
    ensures
        d.with_buf1_size(a).with_buf1_size(b) == d.with_buf1_size(b),
        d.with_buf1_size(b).buf1_size() == b & TxDesc::TBS1_MASK,
{
    lemma_u32_replace_field(d.tdes1, a, TxDesc::TBS1_MASK);
    lemma_u32_replace_field(d.tdes1, b, TxDesc::TBS1_MASK);
    lemma_field_overwrite(d.tdes1, a, b, TxDesc::TBS1_MASK);
}

/// Writing a field twice keeps the second value.
proof fn lemma_field_overwrite(t: u32, a: u32, b: u32, m: u32)
    by (bit_vector)
    ensures
        (((t & !m) | (a & m)) & !m) | (b & m) == (t & !m) | (b & m),
{
}

} // verus!
