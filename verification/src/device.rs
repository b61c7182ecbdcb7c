//! The model of one enumerated host device and the derivation of its
//! textual identifier from its bus-location metadata.

use vstd::prelude::*;

verus! {

/// Bus-location metadata of one device, one variant per bus kind. The
/// location fields hold the textual form in which the device subsystem
/// reports them (a PCI domain such as `"0000"`, a USB bus number such as
/// `"1"`).
pub enum DeviceInfo {
    Pci { domain: String, bus: String, dev: String, func: String },
    Usb { bus: String, dev: String },
    Platform { fullname: String },
    Host1x { fullname: String },
}

/// The device nodes discovered for one device. The designated primary node
/// may be absent.
pub struct DeviceNodes {
    pub primary: Option<String>,
}

/// One enumerated host device: its bus metadata and its device nodes. A
/// device is produced fresh on each enumeration; no identity persists
/// across calls.
pub struct Device {
    pub info: DeviceInfo,
    pub nodes: DeviceNodes,
}

/// The identifier derived from bus metadata:
/// - PCI: `"{domain}:{bus}:{dev}.{func}"`
/// - USB: `"{bus}:{dev}"`
/// - Platform and Host1x: the bus's full name, as-is.
pub open spec fn spec_device_id(info: DeviceInfo) -> Seq<char> {
    match info {
        DeviceInfo::Pci { domain, bus, dev, func } => domain@ + ":"@ + bus@ + ":"@ + dev@
            + "."@ + func@,
        DeviceInfo::Usb { bus, dev } => bus@ + ":"@ + dev@,
        DeviceInfo::Platform { fullname } => fullname@,
        DeviceInfo::Host1x { fullname } => fullname@,
    }
}

/// Law: identifier derivation is deterministic. It is a pure function of the
/// bus metadata, so equal metadata always yields the identical identifier.
pub proof fn lemma_device_id_deterministic(a: DeviceInfo, b: DeviceInfo)
    requires
        a == b,
    ensures
        spec_device_id(a) == spec_device_id(b),
{
}

/// Derives the device's identifier, exactly as [`spec_device_id`] states it.
pub fn get_device_id(d: &Device) -> (r: String)
    ensures
        r@ == spec_device_id(d.info),
{
    match &d.info {
        DeviceInfo::Pci { domain, bus, dev, func } => {
            let mut s = domain.clone();
            s.append(":");
            s.append(bus.as_str());
            s.append(":");
            s.append(dev.as_str());
            s.append(".");
            s.append(func.as_str());
            assert(s@ =~= spec_device_id(d.info));
            s
        },
        DeviceInfo::Usb { bus, dev } => {
            let mut s = bus.clone();
            s.append(":");
            s.append(dev.as_str());
            assert(s@ =~= spec_device_id(d.info));
            s
        },
        DeviceInfo::Platform { fullname } => fullname.clone(),
        DeviceInfo::Host1x { fullname } => fullname.clone(),
    }
}

} // verus!
