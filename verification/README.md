# axdriver_net

Network interface drivers for ArceOS, verified with Verus:

- `gmac`: the Synopsys DesignWare GMAC of the RK3588 (chained descriptor
  rings, polling mode);
- `rtl8169`: the RTL8169 family in polling mode, with MDIO PHY management;
- `realtek`: the RTL8139 and the RTL8169/8168/8111 series behind one driver
  type, with the table of supported PCI devices;
- `netstack`: the Internet checksum, ICMP echo requests and replies for a
  ping test;
- `ring`: the bookkeeping of a ring of descriptors in flight.

The library (`src/`) holds the drivers' logic: descriptor layouts, ring
indices and buffer ownership, register values and write sequences, reset
and polling loops, packet parsing and construction. Register and DMA
memory accesses reach it through closures or the `DeviceIo` trait, kernel
services through the `KernelFunc` traits; nothing is assumed of what they
return.

Each register window (`MmioOps`, `GmacRegs`, `Rtl8169Regs`) carries, for the
proofs only, the number of accesses made through it; every access goes
through the window with its current count. The contracts can so say which
access had which place in the sequence of a reset, an initialization or an
MDIO transfer: that access number `k` was a given read or write. They do
not say that no other access was made through another window value.

The calls to the kernel services (allocations, frees, waits) are numbered
in the same way (`CallNo`): each is handed its number, so that the
contracts can say that two buffers came from two allocations, or that a
wait followed each poll of a reset.

`app/` is the platform side: volatile MMIO, the kernel services interface
(`crate_interface`), the device objects that own descriptor rings in DMA
memory, and the ping test on the RTL8125.
