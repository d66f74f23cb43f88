//! RealTek register definitions.
pub mod descriptor;
pub mod rtl8139;
pub mod rtl8169;
