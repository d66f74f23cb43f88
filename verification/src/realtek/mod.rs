//! RealTek Ethernet drivers: RTL8139 (Fast Ethernet) and the
//! RTL8169/RTL8168/RTL8111 (Gigabit Ethernet) series.
pub mod common;
pub mod device_info;
pub mod kernel_func;
pub mod lookup;
pub mod nic;
pub mod regs;
pub mod rtl8139;
pub mod rtl8169;

pub use common::{DeviceIo, DmaBuffer, DmaBufferArray, MmioOps, RealtekCommon};
pub use device_info::{realtek_device_table, realtek_devices, RealtekDeviceInfo, RealtekSeries};
pub use kernel_func::KernelFunc;
pub use lookup::{get_device_info, is_realtek_device};
pub use nic::{create_driver, RealtekDriverNic, RxFrame};
pub use rtl8139::Rtl8139Driver;
pub use rtl8169::{Descriptor, Rtl8169Driver};
