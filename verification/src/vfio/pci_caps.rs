//! Walking the capability lists in the configuration space of a PCI device.
//!
//! The functions here work on a copy of the configuration space. The standard list
//! starts at the offset that the byte at 0x34 holds; each entry holds its id in its
//! first byte and the offset of the next entry in its second. The extended list starts
//! at 0x100; each entry is a 32-bit word with the id in its low 16 bits and the offset
//! of the next entry in its high 12.
use vstd::prelude::*;
use crate::vfio::error::VfioError;
use crate::vfio::MsiCap;
use crate::vfio::MsixCap;
use crate::vfio::RegisterMask;
use crate::vfio::VfioIrqInfo;
use crate::wire::read_u16;
use crate::wire::read_u32;
use crate::wire::spec_u16_at;
use crate::wire::spec_u32_at;

verus! {

/// Capability id of power management.
pub const PCI_CAP_ID_POWER_MANAGEMENT: u8 = 0x01;

/// Capability id of message signalled interrupts.
pub const PCI_CAP_ID_MSI: u8 = 0x05;

/// Capability id of PCI Express.
pub const PCI_CAP_ID_PCI_EXPRESS: u8 = 0x10;

/// Capability id of MSI-X.
pub const PCI_CAP_ID_MSIX: u8 = 0x11;

/// Extended capability id of alternative routing id interpretation.
pub const PCI_EXT_CAP_ID_ARI: u16 = 0x000e;

/// Extended capability id of single root I/O virtualization.
pub const PCI_EXT_CAP_ID_SRIOV: u16 = 0x0010;

/// Extended capability id of resizable BARs.
pub const PCI_EXT_CAP_ID_RESIZEABLE_BAR: u16 = 0x0015;

/// Most entries a standard list can have without a cycle: its offsets are bytes.
pub const MAX_STANDARD_CAPS: usize = 256;

/// Most entries an extended list can have without a cycle: its offsets have 12 bits.
pub const MAX_EXTENDED_CAPS: usize = 4096;

/// What the walk of the standard list has found so far.
#[derive(Copy, Clone, Debug, PartialEq, Eq, Structural)]
pub struct CapScan {
    /// The MSI capability, if one was found and the device has MSI vectors.
    pub msi_cap: Option<MsiCap>,
    /// The MSI-X capability, if one was found and the device has MSI-X vectors.
    pub msix_cap: Option<MsixCap>,
    /// True if the list holds the PCI Express capability.
    pub has_pci_express: bool,
    /// True if the list holds the power management capability.
    pub has_power_management: bool,
}

/// True if the device reports at least one vector for the interrupt with this index.
pub open spec fn spec_has_vectors(irqs: Seq<VfioIrqInfo>, index: int) -> bool {
    index < irqs.len() && irqs[index].count > 0
}

/// What is known after the entry at `o`, with id `id`, has been looked at.
pub open spec fn spec_visit_cap(
    cfg: Seq<u8>,
    irqs: Seq<VfioIrqInfo>,
    o: int,
    id: u8,
    scan: CapScan,
) -> Result<CapScan, VfioError> {
    if id == PCI_CAP_ID_MSI && spec_has_vectors(irqs, 1) {
        if o + 4 > cfg.len() {
            Err(VfioError::RegionAccessOutOfBounds)
        } else {
            Ok(CapScan { msi_cap: Some(MsiCap { msg_ctl: spec_u16_at(cfg, o + 2) as u16 }), ..scan })
        }
    } else if id == PCI_CAP_ID_MSIX && spec_has_vectors(irqs, 2) {
        if o + 12 > cfg.len() {
            Err(VfioError::RegionAccessOutOfBounds)
        } else {
            Ok(
                CapScan {
                    msix_cap: Some(
                        MsixCap {
                            msg_ctl: spec_u16_at(cfg, o + 2) as u16,
                            table_offset: spec_u32_at(cfg, o + 4) as u32,
                            pba_offset: spec_u32_at(cfg, o + 8) as u32,
                        },
                    ),
                    ..scan
                },
            )
        }
    } else if id == PCI_CAP_ID_PCI_EXPRESS {
        Ok(CapScan { has_pci_express: true, ..scan })
    } else if id == PCI_CAP_ID_POWER_MANAGEMENT {
        Ok(CapScan { has_power_management: true, ..scan })
    } else {
        Ok(scan)
    }
}

/// What is known at the end of the standard list that goes on at `o`, `scan` being
/// what is known before. Offset 0 ends the list. An entry outside the configuration
/// space is an error, and so is a list of more than `fuel` entries.
pub open spec fn spec_scan_caps(
    cfg: Seq<u8>,
    irqs: Seq<VfioIrqInfo>,
    o: int,
    scan: CapScan,
    fuel: nat,
) -> Result<CapScan, VfioError>
    decreases fuel,
{
    if o == 0 {
        Ok(scan)
    } else if fuel == 0 {
        Err(VfioError::InvalidCapabilityChain)
    } else if o + 2 > cfg.len() {
        Err(VfioError::RegionAccessOutOfBounds)
    } else {
        match spec_visit_cap(cfg, irqs, o, cfg[o], scan) {
            Err(e) => Err(e),
            Ok(next) => spec_scan_caps(cfg, irqs, cfg[o + 1] as int, next, (fuel - 1) as nat),
        }
    }
}

/// True if the guest must not see the extended capability with this id.
pub open spec fn spec_ext_cap_hidden(id: int) -> bool {
    id == PCI_EXT_CAP_ID_ARI || id == PCI_EXT_CAP_ID_RESIZEABLE_BAR || id
        == PCI_EXT_CAP_ID_SRIOV
}

/// The mask that hides the extended capability at `o`: the guest reads its id and
/// version as zero.
pub open spec fn spec_hiding_mask(o: int) -> RegisterMask {
    RegisterMask { register: (o / 4) as u16, mask: 0xffff_0000, value: 0 }
}

/// The masks at the end of the extended list that goes on at `o`, `masks` being those
/// found before.
pub open spec fn spec_scan_ext_caps(cfg: Seq<u8>, o: int, masks: Seq<RegisterMask>, fuel: nat) -> Result<
    Seq<RegisterMask>,
    VfioError,
>
    decreases fuel,
{
    if o == 0 {
        Ok(masks)
    } else if fuel == 0 {
        Err(VfioError::InvalidCapabilityChain)
    } else if o + 4 > cfg.len() {
        Err(VfioError::RegionAccessOutOfBounds)
    } else {
        let word = spec_u32_at(cfg, o);
        let found = if spec_ext_cap_hidden(word % 65536) {
            masks.push(spec_hiding_mask(o))
        } else {
            masks
        };
        spec_scan_ext_caps(cfg, word / 0x10_0000, found, (fuel - 1) as nat)
    }
}

/// Nothing found yet.
pub open spec fn spec_empty_scan() -> CapScan {
    CapScan { msi_cap: None, msix_cap: None, has_pci_express: false, has_power_management: false }
}

/// The capabilities of a device: the MSI and MSI-X capabilities of the standard list,
/// and, where that list holds both PCI Express and power management, the masks that
/// hide extended capabilities from the guest.
pub open spec fn spec_pci_capabilities(cfg: Seq<u8>, irqs: Seq<VfioIrqInfo>) -> Result<
    (Option<MsiCap>, Option<MsixCap>, Option<Seq<RegisterMask>>),
    VfioError,
> {
    if cfg.len() < 0x35 {
        Err(VfioError::RegionAccessOutOfBounds)
    } else {
        match spec_scan_caps(cfg, irqs, cfg[0x34] as int, spec_empty_scan(), 256) {
            Err(e) => Err(e),
            Ok(scan) => if scan.has_pci_express && scan.has_power_management {
                match spec_scan_ext_caps(cfg, 0x100, Seq::<RegisterMask>::empty(), 4096) {
                    Err(e) => Err(e),
                    Ok(masks) => Ok((scan.msi_cap, scan.msix_cap, Some(masks))),
                }
            } else {
                Ok((scan.msi_cap, scan.msix_cap, None))
            },
        }
    }
}

/// True if the device reports at least one vector for the interrupt with this index.
fn has_vectors(irq_infos: &[VfioIrqInfo], index: usize) -> (b: bool)
    ensures
        b == spec_has_vectors(irq_infos@, index as int),
{
    index < irq_infos.len() && irq_infos[index].count > 0
}

/// Looks at the entry at `o`.
fn visit_cap(cfg: &[u8], irq_infos: &[VfioIrqInfo], o: usize, id: u8, scan: CapScan) -> (r: Result<
    CapScan,
    VfioError,
>)
    requires
        o <= 255,
    ensures
        r == spec_visit_cap(cfg@, irq_infos@, o as int, id, scan),
{
    let len: usize = cfg.len();
    if id == PCI_CAP_ID_MSI && has_vectors(irq_infos, 1) {
        if o + 4 > len {
            return Err(VfioError::RegionAccessOutOfBounds);
        }
        Ok(
            CapScan {
                msi_cap: Some(MsiCap { msg_ctl: read_u16(cfg, o + 2) }),
                msix_cap: scan.msix_cap,
                has_pci_express: scan.has_pci_express,
                has_power_management: scan.has_power_management,
            },
        )
    } else if id == PCI_CAP_ID_MSIX && has_vectors(irq_infos, 2) {
        if o + 12 > len {
            return Err(VfioError::RegionAccessOutOfBounds);
        }
        Ok(
            CapScan {
                msi_cap: scan.msi_cap,
                msix_cap: Some(
                    MsixCap {
                        msg_ctl: read_u16(cfg, o + 2),
                        table_offset: read_u32(cfg, o + 4),
                        pba_offset: read_u32(cfg, o + 8),
                    },
                ),
                has_pci_express: scan.has_pci_express,
                has_power_management: scan.has_power_management,
            },
        )
    } else if id == PCI_CAP_ID_PCI_EXPRESS {
        Ok(
            CapScan {
                msi_cap: scan.msi_cap,
                msix_cap: scan.msix_cap,
                has_pci_express: true,
                has_power_management: scan.has_power_management,
            },
        )
    } else if id == PCI_CAP_ID_POWER_MANAGEMENT {
        Ok(
            CapScan {
                msi_cap: scan.msi_cap,
                msix_cap: scan.msix_cap,
                has_pci_express: scan.has_pci_express,
                has_power_management: true,
            },
        )
    } else {
        Ok(scan)
    }
}

/// Walks the standard list from `start`.
fn scan_caps(cfg: &[u8], irq_infos: &[VfioIrqInfo], start: u8) -> (r: Result<CapScan, VfioError>)
    ensures
        r == spec_scan_caps(cfg@, irq_infos@, start as int, spec_empty_scan(), 256),
{
    let len: usize = cfg.len();
    let mut scan = CapScan {
        msi_cap: None,
        msix_cap: None,
        has_pci_express: false,
        has_power_management: false,
    };
    let mut o: u8 = start;
    let mut fuel: usize = MAX_STANDARD_CAPS;
    while o != 0
        invariant
            len == cfg@.len(),
            spec_scan_caps(cfg@, irq_infos@, start as int, spec_empty_scan(), 256)
                == spec_scan_caps(cfg@, irq_infos@, o as int, scan, fuel as nat),
        decreases fuel,
    {
        if fuel == 0 {
            return Err(VfioError::InvalidCapabilityChain);
        }
        let at: usize = o as usize;
        if at + 2 > len {
            return Err(VfioError::RegionAccessOutOfBounds);
        }
        let id: u8 = cfg[at];
        let next: u8 = cfg[at + 1];
        match visit_cap(cfg, irq_infos, at, id, scan) {
            Err(e) => {
                return Err(e);
            },
            Ok(found) => {
                scan = found;
            },
        }
        o = next;
        fuel = fuel - 1;
    }
    Ok(scan)
}

/// Walks the extended list from 0x100.
fn scan_ext_caps(cfg: &[u8]) -> (r: Result<Vec<RegisterMask>, VfioError>)
    ensures
        match spec_scan_ext_caps(cfg@, 0x100, Seq::<RegisterMask>::empty(), 4096) {
            Ok(masks) => r is Ok && r->Ok_0@ == masks,
            Err(e) => r == Err::<Vec<RegisterMask>, VfioError>(e),
        },
{
    let len: usize = cfg.len();
    let mut masks: Vec<RegisterMask> = Vec::new();
    let mut o: u16 = 0x100;
    let mut fuel: usize = MAX_EXTENDED_CAPS;
    while o != 0
        invariant
            len == cfg@.len(),
            o < 4096,
            spec_scan_ext_caps(cfg@, 0x100, Seq::<RegisterMask>::empty(), 4096)
                == spec_scan_ext_caps(cfg@, o as int, masks@, fuel as nat),
        decreases fuel,
    {
        if fuel == 0 {
            return Err(VfioError::InvalidCapabilityChain);
        }
        let at: usize = o as usize;
        if at + 4 > len {
            return Err(VfioError::RegionAccessOutOfBounds);
        }
        let word: u32 = read_u32(cfg, at);
        let id: u16 = (word % 65536) as u16;
        if id == PCI_EXT_CAP_ID_ARI || id == PCI_EXT_CAP_ID_RESIZEABLE_BAR || id
            == PCI_EXT_CAP_ID_SRIOV {
            masks.push(RegisterMask { register: o / 4, mask: 0xffff_0000, value: 0 });
        }
        o = (word / 0x10_0000) as u16;
        fuel = fuel - 1;
    }
    Ok(masks)
}

/// Finds the capabilities of a device in a copy of its configuration space.
///
/// The MSI capability is recorded only if the device reports MSI vectors, the MSI-X
/// capability only if it reports MSI-X vectors. Where the standard list holds both
/// PCI Express and power management, the extended list is walked too, and each of
/// alternative routing id interpretation, resizable BARs and single root I/O
/// virtualization gets a mask that hides it from the guest. A list that leaves the
/// configuration space, or that has more entries than it has offsets, is an error.
pub fn vfio_device_get_pci_capabilities(cfg: &[u8], irq_infos: &[VfioIrqInfo]) -> (r: Result<
    (Option<MsiCap>, Option<MsixCap>, Option<Vec<RegisterMask>>),
    VfioError,
>)
    ensures
        match spec_pci_capabilities(cfg@, irq_infos@) {
            Ok((msi, msix, masks)) => r is Ok && r->Ok_0.0 == msi && r->Ok_0.1 == msix && match masks {
                Some(m) => r->Ok_0.2 is Some && r->Ok_0.2->Some_0@ == m,
                None => r->Ok_0.2 is None,
            },
            Err(e) => r == Err::<
                (Option<MsiCap>, Option<MsixCap>, Option<Vec<RegisterMask>>),
                VfioError,
            >(e),
        },
{
    if cfg.len() < 0x35 {
        return Err(VfioError::RegionAccessOutOfBounds);
    }
    let scan = match scan_caps(cfg, irq_infos, cfg[0x34]) {
        Ok(scan) => scan,
        Err(e) => {
            return Err(e);
        },
    };
    if scan.has_pci_express && scan.has_power_management {
        match scan_ext_caps(cfg) {
            Ok(masks) => Ok((scan.msi_cap, scan.msix_cap, Some(masks))),
            Err(e) => Err(e),
        }
    } else {
        Ok((scan.msi_cap, scan.msix_cap, None))
    }
}

/// Vendor, device, class and revision of a device.
#[derive(Copy, Clone, Debug, PartialEq, Eq, Structural)]
pub struct ConfigSpaceInfo {
    /// Vendor id.
    pub vendor_id: u16,
    /// Device id.
    pub device_id: u16,
    /// Class code.
    pub class_code: u32,
    /// Revision id.
    pub revision_id: u8,
}

/// What the first registers of configuration space say of the device. Register 0
/// holds the device id in its upper half and the vendor id, of which the low byte is
/// kept, in its lower half. Register 2 holds the class code in its upper three bytes
/// and the revision, of which the low four bits are kept, in its lowest byte.
pub open spec fn spec_config_space_info(cfg: Seq<u8>) -> ConfigSpaceInfo {
    ConfigSpaceInfo {
        vendor_id: (spec_u32_at(cfg, 0) % 256) as u16,
        device_id: (spec_u32_at(cfg, 0) / 65536) as u16,
        class_code: (spec_u32_at(cfg, 8) / 256) as u32,
        revision_id: (spec_u32_at(cfg, 8) % 16) as u8,
    }
}

/// Reads vendor, device, class and revision from a copy of the configuration space.
pub fn device_get_config_space_info(cfg: &[u8]) -> (r: Result<ConfigSpaceInfo, VfioError>)
    ensures
        cfg@.len() < 12 ==> r == Err::<ConfigSpaceInfo, VfioError>(
            VfioError::RegionAccessOutOfBounds,
        ),
        cfg@.len() >= 12 ==> r == Ok::<ConfigSpaceInfo, VfioError>(spec_config_space_info(cfg@)),
{
    if cfg.len() < 12 {
        return Err(VfioError::RegionAccessOutOfBounds);
    }
    let ids: u32 = read_u32(cfg, 0);
    let class: u32 = read_u32(cfg, 8);
    Ok(
        ConfigSpaceInfo {
            vendor_id: (ids % 256) as u16,
            device_id: (ids / 65536) as u16,
            class_code: class / 256,
            revision_id: (class % 16) as u8,
        },
    )
}

} // verus!
