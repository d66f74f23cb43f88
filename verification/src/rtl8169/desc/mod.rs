//! RTL8169 DMA descriptors (16 bytes each).
pub mod desc_status;
pub mod rx_status;

use vstd::prelude::*;

verus! {

/// Facts about the descriptor status layout.
proof fn lemma_status_bits(len: u32)
    by (bit_vector)
    ensures
        (0x8000_0000u32 | 0x2000_0000u32 | 0x1000_0000u32 | (len & 0xFFFFu32)) & 0x8000_0000u32 != 0,
        (0x8000_0000u32 | 0x2000_0000u32 | 0x1000_0000u32 | 0x4000_0000u32 | (len & 0xFFFFu32)) & 0x8000_0000u32 != 0,
        (0x8000_0000u32 | (len & 0xFFFFu32)) & 0x8000_0000u32 != 0,
        (0x8000_0000u32 | 0x4000_0000u32 | (len & 0xFFFFu32)) & 0x8000_0000u32 != 0,
        (0x8000_0000u32 | 0x2000_0000u32 | 0x1000_0000u32 | (len & 0xFFFFu32)) & 0xFFFFu32 == len & 0xFFFFu32,
        (0x8000_0000u32 | 0x2000_0000u32 | 0x1000_0000u32 | 0x4000_0000u32 | (len & 0xFFFFu32)) & 0xFFFFu32 == len & 0xFFFFu32,
        len & 0x1FFFu32 < 0x2000,
{
}

/// TX descriptor (16 bytes).
#[derive(Debug, Clone, Copy, PartialEq, Eq, Structural)]
pub struct TxDesc {
    pub status: u32,
    pub vlan_tag: u32,
    pub buf_addr_low: u32,
    pub buf_addr_high: u32,
}

/// The status word of a transmit descriptor handed to the NIC for a frame
/// of `len` bytes.
pub open spec fn tx_status(len: u32, is_last: bool) -> u32 {
    if is_last {
        desc_status::OWN | desc_status::FS | desc_status::LS | desc_status::EOR | (len & 0xFFFF)
    } else {
        desc_status::OWN | desc_status::FS | desc_status::LS | (len & 0xFFFF)
    }
}

/// The status word of a receive descriptor handed to the NIC with a buffer
/// of `buf_size` bytes.
pub open spec fn rx_status_ready(buf_size: u32, is_last: bool) -> u32 {
    if is_last {
        desc_status::OWN | desc_status::EOR | (buf_size & 0xFFFF)
    } else {
        desc_status::OWN | (buf_size & 0xFFFF)
    }
}

impl TxDesc {
    /// Whether the NIC owns the descriptor.
    pub open spec fn owned(self) -> bool {
        self.status & desc_status::OWN != 0
    }

    /// The all-zero descriptor.
    pub open spec fn zeroed() -> TxDesc {
        TxDesc { status: 0, vlan_tag: 0, buf_addr_low: 0, buf_addr_high: 0 }
    }

    /// Create new zeroed TX descriptor.
    pub fn new() -> (d: Self)
        ensures
            d == Self::zeroed(),
    {
        TxDesc { status: 0, vlan_tag: 0, buf_addr_low: 0, buf_addr_high: 0 }
    }

    /// Check if descriptor is owned by DMA.
    pub fn is_owned(&self) -> (r: bool)
        ensures
            r == self.owned(),
    {
        (self.status & desc_status::OWN) != 0
    }

    /// Set the descriptor up to send `len` bytes from `buf_paddr` and hand
    /// it to the NIC.
    pub fn setup_tx(&mut self, buf_paddr: u32, len: u32, is_last: bool)
        ensures
            *final(self) == (TxDesc {
                status: tx_status(len, is_last),
                vlan_tag: 0,
                buf_addr_low: buf_paddr,
                buf_addr_high: 0,
            }),
            final(self).owned(),
            final(self).status & 0xFFFF == len & 0xFFFF,
    {
        self.buf_addr_low = buf_paddr;
        self.buf_addr_high = 0;
        self.vlan_tag = 0;

        let mut status = desc_status::OWN | desc_status::FS | desc_status::LS;
        if is_last {
            status = status | desc_status::EOR;
        }
        status = status | (len & 0xFFFF);
        self.status = status;
        proof {
            lemma_status_bits(len);
        }
    }

    /// Clear the descriptor.
    pub fn clear(&mut self)
        ensures
            *final(self) == Self::zeroed(),
            !final(self).owned(),
    {
        self.status = 0;
        self.vlan_tag = 0;
        self.buf_addr_low = 0;
        self.buf_addr_high = 0;
        assert(0u32 & 0x8000_0000u32 == 0) by (bit_vector);
    }
}

/// RX descriptor (16 bytes).
#[derive(Debug, Clone, Copy, PartialEq, Eq, Structural)]
pub struct RxDesc {
    pub status: u32,
    pub vlan_tag: u32,
    pub buf_addr_low: u32,
    pub buf_addr_high: u32,
}

/// The receive errors that make a received frame unusable.
pub open spec fn rx_error_bits() -> u32 {
    rx_status::RX_RES | rx_status::RX_CRC | rx_status::RX_RUNT | rx_status::RX_RWT
}

impl RxDesc {
    /// Whether the NIC owns the descriptor.
    pub open spec fn owned(self) -> bool {
        self.status & desc_status::OWN != 0
    }

    /// The all-zero descriptor.
    pub open spec fn zeroed() -> RxDesc {
        RxDesc { status: 0, vlan_tag: 0, buf_addr_low: 0, buf_addr_high: 0 }
    }

    /// The length of a frame received without error (CRC excluded), if
    /// the CPU owns the descriptor and it holds at least the CRC.
    pub open spec fn rx_length(self) -> Option<usize> {
        if self.owned() {
            None
        } else if self.status & rx_error_bits() != 0 {
            None
        } else if self.status & 0x1FFF >= 4 {
            Some(((self.status & 0x1FFF) - 4) as usize)
        } else {
            None
        }
    }

    /// Create new zeroed RX descriptor.
    pub fn new() -> (d: Self)
        ensures
            d == Self::zeroed(),
    {
        RxDesc { status: 0, vlan_tag: 0, buf_addr_low: 0, buf_addr_high: 0 }
    }

    /// Check if descriptor is owned by DMA.
    pub fn is_owned(&self) -> (r: bool)
        ensures
            r == self.owned(),
    {
        (self.status & desc_status::OWN) != 0
    }

    /// Set the descriptor up to receive into `buf_paddr` (`buf_size`
    /// bytes) and hand it to the NIC.
    pub fn setup_rx(&mut self, buf_paddr: u32, buf_size: u32, is_last: bool)
        ensures
            *final(self) == (RxDesc {
                status: rx_status_ready(buf_size, is_last),
                vlan_tag: 0,
                buf_addr_low: buf_paddr,
                buf_addr_high: 0,
            }),
            final(self).owned(),
            final(self).rx_length() is None,
    {
        self.buf_addr_low = buf_paddr;
        self.buf_addr_high = 0;
        self.vlan_tag = 0;

        let mut status = desc_status::OWN;
        if is_last {
            status = status | desc_status::EOR;
        }
        status = status | (buf_size & 0xFFFF);
        self.status = status;
        proof {
            lemma_status_bits(buf_size);
        }
    }

    /// Received packet length (CRC excluded): only when the CPU owns the
    /// descriptor and no error is reported.
    pub fn get_rx_length(&self) -> (r: Option<usize>)
        ensures
            r == self.rx_length(),
            r matches Some(n) ==> n < 0x2000 - 4,
    {
        if self.is_owned() {
            return None;
        }
        // Check for errors
        if (self.status & (rx_status::RX_RES | rx_status::RX_CRC | rx_status::RX_RUNT | rx_status::RX_RWT)) != 0 {
            return None;
        }
        // Length (bits 0-12), minus 4 for the CRC
        let len = (self.status & 0x1FFF) as usize;
        proof {
            lemma_status_bits(self.status);
        }
        if len >= 4 {
            Some(len - 4)
        } else {
            None
        }
    }

    /// Clear the descriptor.
    pub fn clear(&mut self)
        ensures
            *final(self) == Self::zeroed(),
            !final(self).owned(),
    {
        self.status = 0;
        self.vlan_tag = 0;
        self.buf_addr_low = 0;
        self.buf_addr_high = 0;
        assert(0u32 & 0x8000_0000u32 == 0) by (bit_vector);
    }
}

} // verus!
