//! Network interface controller drivers: DMA descriptor formats, register
//! programming values, descriptor-ring bookkeeping and a minimal ICMP echo
//! stack, with their behaviour stated as contracts.
pub mod bits;
pub mod calls;
pub mod gmac;
pub mod netstack;
pub mod ping_test;
pub mod realtek;
pub mod ring;
pub mod rtl8169;
pub mod types;

pub use types::{DevError, DevResult, EthernetAddress};
