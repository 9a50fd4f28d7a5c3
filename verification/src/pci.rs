//! The hardware-ID lookup: numeric PCI vendor and device identifiers are
//! resolved to human-readable names through the bundled PCI ID database of
//! the `pci_ids` crate.
//!
//! The database is static data compiled into the crate, so each lookup is a
//! pure function of the identifiers; the names below stand for its entries.

use vstd::prelude::*;

verus! {

/// The name the PCI ID database holds for a vendor, if any.
pub uninterp spec fn pci_vendor_name_of(vendor_id: u16) -> Option<Seq<char>>;

/// The name the PCI ID database holds for a device of a vendor, if any.
pub uninterp spec fn pci_device_name_of(vendor_id: u16, device_id: u16) -> Option<Seq<char>>;

/// Relies on `pci_ids::Vendor::from_id` and `Vendor::name`: the static
/// database maps a vendor identifier to its name, or to nothing when the
/// identifier is absent.
#[verifier::external_body]
pub fn pci_vendor_name(vendor_id: u16) -> (r: Option<String>)
    ensures
        r.deep_view() == pci_vendor_name_of(vendor_id),
{
    match <pci_ids::Vendor as pci_ids::FromId<u16>>::from_id(vendor_id) {
        Some(v) => Some(v.name().to_string()),
        None => None,
    }
}

/// Relies on `pci_ids::Device::from_vid_pid` and `Device::name`: the static
/// database maps a vendor/device identifier pair to the device's name, or to
/// nothing when the pair is absent.
#[verifier::external_body]
pub fn pci_device_name(vendor_id: u16, device_id: u16) -> (r: Option<String>)
    ensures
        r.deep_view() == pci_device_name_of(vendor_id, device_id),
{
    match pci_ids::Device::from_vid_pid(vendor_id, device_id) {
        Some(d) => Some(d.name().to_string()),
        None => None,
    }
}

} // verus!
