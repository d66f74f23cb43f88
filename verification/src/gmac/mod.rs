//! Synopsys DesignWare Ethernet MAC (GMAC) as found in the RK3588 SoC.
pub mod desc;
pub mod regs;
pub mod nic;

pub use desc::{RxDesc, TxDesc};
pub use nic::{GmacNic, KernelFunc};
pub use regs::GmacRegs;
