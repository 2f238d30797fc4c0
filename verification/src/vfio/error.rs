//! What can go wrong while a passthrough device is attached.
use vstd::prelude::*;

verus! {

/// Errors of VFIO operations. Where the host kernel refused a request, the variant
/// carries the error number it gave.
#[derive(Copy, Clone, Debug, PartialEq, Eq, Structural)]
pub enum VfioError {
    /// The container could not be opened.
    OpenContainer(i32),
    /// The group with the given id could not be opened.
    OpenGroup(i32, u32),
    /// The group status could not be read.
    GetGroupStatus,
    /// Not every device of the group is bound to a VFIO driver.
    GroupViable,
    /// The kernel speaks another version of the interface.
    VfioApiVersion,
    /// The extension check failed.
    VfioExtension,
    /// The IOMMU type asked for is not one this crate knows.
    VfioInvalidType,
    /// The container does not support the type 1 version 2 IOMMU driver.
    VfioType1V2,
    /// The group could not be added to the container.
    GroupSetContainer,
    /// The group could not be removed from the container.
    UnsetContainer,
    /// The IOMMU driver of the container could not be set.
    ContainerSetIOMMU(i32),
    /// The device could not be opened through its group.
    GroupGetDeviceFD(i32),
    /// The device information could not be read.
    VfioDeviceGetInfo(i32),
    /// The information of a region could not be read.
    VfioDeviceGetRegionInfo(i32),
    /// The information of an interrupt could not be read.
    VfioDeviceGetIrqInfo(i32),
    /// The device path does not name a device.
    InvalidPath,
    /// Guest memory could not be mapped for the device.
    IommuDmaMap(i32),
    /// Guest memory could not be unmapped.
    IommuDmaUnmap(i32),
    /// The interrupts of the device could not be configured.
    VfioDeviceSetIrq,
    /// A region index does not name a region the device reported.
    InvalidRegionIndex(u32),
    /// An access reaches beyond the end of a region.
    RegionAccessOutOfBounds,
    /// A mappable area of the BAR with the given index is empty, not page aligned,
    /// or not inside its region and its BAR.
    InvalidMmapArea(u32),
    /// An address computed for the BAR with the given index does not fit in 64 bits.
    AddressOverflow(u32),
    /// The MSI-X table or the pending bit array does not lie inside the BAR with the
    /// given index, which is to hold it.
    MsixOutsideBar(u32),
    /// The capability chain of a region is malformed.
    InvalidCapabilityChain,
    /// No guest address range is left for a resource of the device.
    ResourceExhausted,
}

impl VfioError {
    /// The error number the host kernel gave, where the error carries one.
    pub open spec fn spec_errno(&self) -> Option<i32> {
        match *self {
            VfioError::OpenContainer(e) => Some(e),
            VfioError::OpenGroup(e, _) => Some(e),
            VfioError::ContainerSetIOMMU(e) => Some(e),
            VfioError::GroupGetDeviceFD(e) => Some(e),
            VfioError::VfioDeviceGetInfo(e) => Some(e),
            VfioError::VfioDeviceGetRegionInfo(e) => Some(e),
            VfioError::VfioDeviceGetIrqInfo(e) => Some(e),
            VfioError::IommuDmaMap(e) => Some(e),
            VfioError::IommuDmaUnmap(e) => Some(e),
            _ => None,
        }
    }

    /// What the error says, without the error number that it may carry.
    pub open spec fn spec_message(&self) -> Seq<char> {
        match *self {
            VfioError::OpenContainer(_) => "failed to open /dev/vfio/vfio container"@,
            VfioError::OpenGroup(_, _) => "failed to open /dev/vfio group"@,
            VfioError::GetGroupStatus => "failed to get Group Status"@,
            VfioError::GroupViable => "group is not viable"@,
            VfioError::VfioApiVersion => "vfio API version doesn't match"@,
            VfioError::VfioExtension => "failed to check VFIO extension"@,
            VfioError::VfioInvalidType => "invalid VFIO type"@,
            VfioError::VfioType1V2 => "container doesn't support VfioType1V2 IOMMU driver type"@,
            VfioError::GroupSetContainer => "failed to add vfio group into vfio container"@,
            VfioError::UnsetContainer => "failed to unset vfio container"@,
            VfioError::ContainerSetIOMMU(_) => "failed to set container's IOMMU driver type as VfioType1V2"@,
            VfioError::GroupGetDeviceFD(_) => "failed to get vfio device fd"@,
            VfioError::VfioDeviceGetInfo(_) => "failed to get vfio device's info"@,
            VfioError::VfioDeviceGetRegionInfo(_) => "failed to get vfio device's region info"@,
            VfioError::VfioDeviceGetIrqInfo(_) => "failed to get vfio device's irq info"@,
            VfioError::InvalidPath => "invalid file path"@,
            VfioError::IommuDmaMap(_) => "failed to add guest memory map into iommu table"@,
            VfioError::IommuDmaUnmap(_) => "failed to remove guest memory map from iommu table"@,
            VfioError::VfioDeviceSetIrq => "failed to set vfio device irq"@,
            VfioError::InvalidRegionIndex(_) => "region index names no region of the device"@,
            VfioError::RegionAccessOutOfBounds => "access beyond region memory"@,
            VfioError::InvalidMmapArea(_) => "mappable area is empty, unaligned or outside its region"@,
            VfioError::AddressOverflow(_) => "address does not fit in 64 bits"@,
            VfioError::MsixOutsideBar(_) => "MSI-X structure lies outside its BAR"@,
            VfioError::InvalidCapabilityChain => "malformed capability chain"@,
            VfioError::ResourceExhausted => "no guest address range left"@,
        }
    }

    /// What the error says, without the error number that it may carry.
    pub fn to_string(&self) -> (s: String)
        ensures
            s@ == self.spec_message(),
    {
        match self {
            VfioError::OpenContainer(_) => "failed to open /dev/vfio/vfio container".to_owned(),
            VfioError::OpenGroup(_, _) => "failed to open /dev/vfio group".to_owned(),
            VfioError::GetGroupStatus => "failed to get Group Status".to_owned(),
            VfioError::GroupViable => "group is not viable".to_owned(),
            VfioError::VfioApiVersion => "vfio API version doesn't match".to_owned(),
            VfioError::VfioExtension => "failed to check VFIO extension".to_owned(),
            VfioError::VfioInvalidType => "invalid VFIO type".to_owned(),
            VfioError::VfioType1V2 => "container doesn't support VfioType1V2 IOMMU driver type".to_owned(),
            VfioError::GroupSetContainer => "failed to add vfio group into vfio container".to_owned(),
            VfioError::UnsetContainer => "failed to unset vfio container".to_owned(),
            VfioError::ContainerSetIOMMU(_) => "failed to set container's IOMMU driver type as VfioType1V2".to_owned(),
            VfioError::GroupGetDeviceFD(_) => "failed to get vfio device fd".to_owned(),
            VfioError::VfioDeviceGetInfo(_) => "failed to get vfio device's info".to_owned(),
            VfioError::VfioDeviceGetRegionInfo(_) => "failed to get vfio device's region info".to_owned(),
            VfioError::VfioDeviceGetIrqInfo(_) => "failed to get vfio device's irq info".to_owned(),
            VfioError::InvalidPath => "invalid file path".to_owned(),
            VfioError::IommuDmaMap(_) => "failed to add guest memory map into iommu table".to_owned(),
            VfioError::IommuDmaUnmap(_) => "failed to remove guest memory map from iommu table".to_owned(),
            VfioError::VfioDeviceSetIrq => "failed to set vfio device irq".to_owned(),
            VfioError::InvalidRegionIndex(_) => "region index names no region of the device".to_owned(),
            VfioError::RegionAccessOutOfBounds => "access beyond region memory".to_owned(),
            VfioError::InvalidMmapArea(_) => "mappable area is empty, unaligned or outside its region".to_owned(),
            VfioError::AddressOverflow(_) => "address does not fit in 64 bits".to_owned(),
            VfioError::MsixOutsideBar(_) => "MSI-X structure lies outside its BAR".to_owned(),
            VfioError::InvalidCapabilityChain => "malformed capability chain".to_owned(),
            VfioError::ResourceExhausted => "no guest address range left".to_owned(),
        }
    }

    /// The error number the host kernel gave, where the error carries one.
    pub fn errno(&self) -> (e: Option<i32>)
        ensures
            e == self.spec_errno(),
    {
        match *self {
            VfioError::OpenContainer(e) => Some(e),
            VfioError::OpenGroup(e, _) => Some(e),
            VfioError::ContainerSetIOMMU(e) => Some(e),
            VfioError::GroupGetDeviceFD(e) => Some(e),
            VfioError::VfioDeviceGetInfo(e) => Some(e),
            VfioError::VfioDeviceGetRegionInfo(e) => Some(e),
            VfioError::VfioDeviceGetIrqInfo(e) => Some(e),
            VfioError::IommuDmaMap(e) => Some(e),
            VfioError::IommuDmaUnmap(e) => Some(e),
            _ => None,
        }
    }
}

} // verus!
