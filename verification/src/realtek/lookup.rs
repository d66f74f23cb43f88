//! Lookup of RealTek controllers by PCI vendor and device ID.
use vstd::prelude::*;

use super::device_info::{realtek_device_table, RealtekDeviceInfo};

verus! {

/// Whether `info` describes the device with these IDs.
pub open spec fn describes(info: RealtekDeviceInfo, vendor_id: u16, device_id: u16) -> bool {
    info.vendor_id == vendor_id && info.device_id == device_id
}

/// The first entry of `table` from index `i` on that describes the device.
pub open spec fn find_from(table: Seq<RealtekDeviceInfo>, i: int, vendor_id: u16, device_id: u16) -> Option<RealtekDeviceInfo>
    decreases table.len() - i,
{
    if i < 0 || i >= table.len() {
        None
    } else if describes(table[i], vendor_id, device_id) {
        Some(table[i])
    } else {
        find_from(table, i + 1, vendor_id, device_id)
    }
}

/// The entry of the device database for the device with these IDs.
pub open spec fn device_entry(vendor_id: u16, device_id: u16) -> Option<RealtekDeviceInfo> {
    find_from(realtek_device_table(), 0, vendor_id, device_id)
}

/// A search from `i` finds an entry exactly when some entry from `i` on
/// describes the device, and what it finds describes it.
pub proof fn lemma_find_from(table: Seq<RealtekDeviceInfo>, i: int, vendor_id: u16, device_id: u16)
    requires
        0 <= i,
    ensures
        find_from(table, i, vendor_id, device_id) is Some <==> exists|j: int|
            i <= j < table.len() && describes(#[trigger] table[j], vendor_id, device_id),
        find_from(table, i, vendor_id, device_id) matches Some(info) ==> describes(info, vendor_id, device_id)
            && table.contains(info),
    decreases table.len() - i,
{
    if i < table.len() {
        lemma_find_from(table, i + 1, vendor_id, device_id);
        if describes(table[i], vendor_id, device_id) {
            assert(table.contains(table[i]));
        }
    }
}

/// Check if a PCI device is a RealTek controller.
pub fn is_realtek_device(vendor_id: u16, device_id: u16) -> (r: bool)
    ensures
        r == device_entry(vendor_id, device_id) is Some,
        r <==> exists|j: int| 0 <= j < realtek_device_table().len()
            && describes(#[trigger] realtek_device_table()[j], vendor_id, device_id),
{
    proof {
        lemma_find_from(realtek_device_table(), 0, vendor_id, device_id);
    }
    super::nic::RealtekDriverNic::find_device_info(vendor_id, device_id).is_some()
}

/// Get RealTek device information.
pub fn get_device_info(vendor_id: u16, device_id: u16) -> (r: Option<RealtekDeviceInfo>)
    ensures
        r == device_entry(vendor_id, device_id),
        r matches Some(info) ==> describes(info, vendor_id, device_id) && realtek_device_table().contains(info),
{
    proof {
        lemma_find_from(realtek_device_table(), 0, vendor_id, device_id);
    }
    super::nic::RealtekDriverNic::find_device_info(vendor_id, device_id)
}

/// The device database holds at most one entry per vendor/device pair,
/// so the entry found is the one entry of the device.
pub proof fn lemma_device_ids_distinct()
    ensures
        forall|i: int, j: int|
            0 <= i < j < realtek_device_table().len() ==> !describes(
                #[trigger] realtek_device_table()[i],
                #[trigger] realtek_device_table()[j].vendor_id,
                realtek_device_table()[j].device_id,
            ),
{
    let t = realtek_device_table();
    assert(t.len() == 14);
}

} // verus!
