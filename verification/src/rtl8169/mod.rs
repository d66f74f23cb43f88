//! RTL8169 PCI Gigabit Ethernet driver (RTL8169/8110, RTL8168/8111,
//! RTL8101E, RTL8100E): polling-mode descriptor rings, MDIO PHY management.
pub mod desc;
pub mod regs;
pub mod phy;
pub mod nic;

pub use desc::{RxDesc, TxDesc};
pub use nic::{KernelFunc, RegWrite, Rtl8169Nic};
pub use phy::PhyManager;
pub use regs::{ChipInfo, Reg, Rtl8169Regs};
