//! What the answers of the kernel to VFIO requests mean.
//!
//! The caller makes the request and hands over what came back: the return value, and
//! the error number where the request failed.
use vstd::prelude::*;
use crate::vfio::error::VfioError;
use crate::vfio::VFIO_API_VERSION;
use crate::vfio::VFIO_GROUP_FLAGS_VIABLE;
use crate::vfio::VFIO_TYPE1V2_IOMMU;
use crate::vfio::VFIO_TYPE1_IOMMU;

verus! {

/// Size in bytes of the fixed part of an interrupt set request.
pub const IRQ_SET_SIZE: usize = 20;

/// The answer to an extension check: the value the kernel gave, or an error if it is
/// negative.
pub fn check_extension(ret: i32) -> (r: Result<u32, VfioError>)
    ensures
        ret < 0 ==> r == Err::<u32, VfioError>(VfioError::VfioExtension),
        ret >= 0 ==> r == Ok::<u32, VfioError>(ret as u32),
{
    if ret < 0 {
        Err(VfioError::VfioExtension)
    } else {
        Ok(ret as u32)
    }
}

/// The answer to setting the IOMMU driver: it failed if the return value is negative.
pub fn set_iommu(ret: i32, errno: i32) -> (r: Result<(), VfioError>)
    ensures
        ret < 0 ==> r == Err::<(), VfioError>(VfioError::ContainerSetIOMMU(errno)),
        ret >= 0 ==> r is Ok,
{
    if ret < 0 {
        Err(VfioError::ContainerSetIOMMU(errno))
    } else {
        Ok(())
    }
}

/// The answer to mapping memory for a device: it failed unless the return value is
/// zero.
pub fn map_dma(ret: i32, errno: i32) -> (r: Result<(), VfioError>)
    ensures
        ret != 0 ==> r == Err::<(), VfioError>(VfioError::IommuDmaMap(errno)),
        ret == 0 ==> r is Ok,
{
    if ret != 0 {
        Err(VfioError::IommuDmaMap(errno))
    } else {
        Ok(())
    }
}

/// The answer to unmapping memory: it failed unless the return value is zero.
pub fn unmap_dma(ret: i32, errno: i32) -> (r: Result<(), VfioError>)
    ensures
        ret != 0 ==> r == Err::<(), VfioError>(VfioError::IommuDmaUnmap(errno)),
        ret == 0 ==> r is Ok,
{
    if ret != 0 {
        Err(VfioError::IommuDmaUnmap(errno))
    } else {
        Ok(())
    }
}

/// The answer to a group status query: it failed if the return value is negative.
pub fn group_get_status(ret: i32) -> (r: Result<(), VfioError>)
    ensures
        ret < 0 ==> r == Err::<(), VfioError>(VfioError::GetGroupStatus),
        ret >= 0 ==> r is Ok,
{
    if ret < 0 {
        Err(VfioError::GetGroupStatus)
    } else {
        Ok(())
    }
}

/// The answer to opening a device through its group: the descriptor the kernel gave,
/// or an error if it is negative.
pub fn group_get_device_fd(fd: i32, errno: i32) -> (r: Result<i32, VfioError>)
    ensures
        fd < 0 ==> r == Err::<i32, VfioError>(VfioError::GroupGetDeviceFD(errno)),
        fd >= 0 ==> r == Ok::<i32, VfioError>(fd),
{
    if fd < 0 {
        Err(VfioError::GroupGetDeviceFD(errno))
    } else {
        Ok(fd)
    }
}

/// The answer to adding a group to a container: it failed if the return value is
/// negative.
pub fn group_set_container(ret: i32) -> (r: Result<(), VfioError>)
    ensures
        ret < 0 ==> r == Err::<(), VfioError>(VfioError::GroupSetContainer),
        ret >= 0 ==> r is Ok,
{
    if ret < 0 {
        Err(VfioError::GroupSetContainer)
    } else {
        Ok(())
    }
}

/// The answer to removing a group from its container: it failed if the return value is
/// negative.
pub fn group_unset_container(ret: i32) -> (r: Result<(), VfioError>)
    ensures
        ret < 0 ==> r == Err::<(), VfioError>(VfioError::UnsetContainer),
        ret >= 0 ==> r is Ok,
{
    if ret < 0 {
        Err(VfioError::UnsetContainer)
    } else {
        Ok(())
    }
}

/// The answer to a device information query: it failed if the return value is
/// negative.
pub fn device_get_info(ret: i32, errno: i32) -> (r: Result<(), VfioError>)
    ensures
        ret < 0 ==> r == Err::<(), VfioError>(VfioError::VfioDeviceGetInfo(errno)),
        ret >= 0 ==> r is Ok,
{
    if ret < 0 {
        Err(VfioError::VfioDeviceGetInfo(errno))
    } else {
        Ok(())
    }
}

/// True if an interrupt set request can be made: there is at least one record, and the
/// size that the first record gives for the request is not more than the `len`
/// records take.
pub open spec fn spec_irq_set_valid(len: usize, first_argsz: u32) -> bool {
    len > 0 && first_argsz <= len * IRQ_SET_SIZE
}

/// Says whether an interrupt set request of `len` records can be made, `first_argsz`
/// being the size that the first record gives for the request.
pub fn irq_set_valid(len: usize, first_argsz: u32) -> (b: bool)
    ensures
        b == spec_irq_set_valid(len, first_argsz),
{
    len > 0 && first_argsz as usize / IRQ_SET_SIZE <= len && (first_argsz as usize / IRQ_SET_SIZE
        < len || first_argsz as usize % IRQ_SET_SIZE == 0)
}

/// The answer to an interrupt set request of `len` records. A request that cannot be
/// made fails without being made: `ret` is then not looked at. One that was made
/// failed if the return value is negative.
pub fn device_set_irqs(len: usize, first_argsz: u32, ret: i32) -> (r: Result<(), VfioError>)
    ensures
        (!spec_irq_set_valid(len, first_argsz) || ret < 0) ==> r == Err::<(), VfioError>(
            VfioError::VfioDeviceSetIrq,
        ),
        spec_irq_set_valid(len, first_argsz) && ret >= 0 ==> r is Ok,
{
    if !irq_set_valid(len, first_argsz) || ret < 0 {
        Err(VfioError::VfioDeviceSetIrq)
    } else {
        Ok(())
    }
}

/// The answer to an interrupt information query: it failed if the return value is
/// negative.
pub fn device_get_irq_info(ret: i32, errno: i32) -> (r: Result<(), VfioError>)
    ensures
        ret < 0 ==> r == Err::<(), VfioError>(VfioError::VfioDeviceGetIrqInfo(errno)),
        ret >= 0 ==> r is Ok,
{
    if ret < 0 {
        Err(VfioError::VfioDeviceGetIrqInfo(errno))
    } else {
        Ok(())
    }
}

/// The answer to a region information query: it failed if the return value is
/// negative.
pub fn device_get_region_info(ret: i32, errno: i32) -> (r: Result<(), VfioError>)
    ensures
        ret < 0 ==> r == Err::<(), VfioError>(VfioError::VfioDeviceGetRegionInfo(errno)),
        ret >= 0 ==> r is Ok,
{
    if ret < 0 {
        Err(VfioError::VfioDeviceGetRegionInfo(errno))
    } else {
        Ok(())
    }
}

/// Checks the version that the kernel reports against the one this crate speaks.
pub fn vfio_check_api_version(version: i32) -> (r: Result<(), VfioError>)
    ensures
        version == VFIO_API_VERSION ==> r is Ok,
        version != VFIO_API_VERSION ==> r == Err::<(), VfioError>(VfioError::VfioApiVersion),
{
    if version >= 0 && version as u32 == VFIO_API_VERSION {
        Ok(())
    } else {
        Err(VfioError::VfioApiVersion)
    }
}

/// True if `val` names an IOMMU driver type this crate knows.
pub open spec fn spec_iommu_type_known(val: u32) -> bool {
    val == VFIO_TYPE1_IOMMU || val == VFIO_TYPE1V2_IOMMU
}

/// Checks the answer of the kernel to the question whether it supports the IOMMU
/// driver type `val`: the type must be one this crate knows, the check must not have
/// failed, and the answer must be 1.
pub fn vfio_check_extension(val: u32, ret: i32) -> (r: Result<(), VfioError>)
    ensures
        !spec_iommu_type_known(val) ==> r == Err::<(), VfioError>(VfioError::VfioInvalidType),
        spec_iommu_type_known(val) && ret < 0 ==> r == Err::<(), VfioError>(
            VfioError::VfioExtension,
        ),
        spec_iommu_type_known(val) && ret >= 0 && ret != 1 ==> r == Err::<(), VfioError>(
            VfioError::VfioType1V2,
        ),
        spec_iommu_type_known(val) && ret == 1 ==> r is Ok,
{
    if val != VFIO_TYPE1_IOMMU && val != VFIO_TYPE1V2_IOMMU {
        return Err(VfioError::VfioInvalidType);
    }
    match check_extension(ret) {
        Err(e) => Err(e),
        Ok(answer) => if answer != 1 {
            Err(VfioError::VfioType1V2)
        } else {
            Ok(())
        },
    }
}

/// Checks the status flags of a group: they must say that the group is viable, and
/// nothing else.
pub fn vfio_group_check_status(flags: u32) -> (r: Result<(), VfioError>)
    ensures
        flags == VFIO_GROUP_FLAGS_VIABLE ==> r is Ok,
        flags != VFIO_GROUP_FLAGS_VIABLE ==> r == Err::<(), VfioError>(VfioError::GroupViable),
{
    if flags != VFIO_GROUP_FLAGS_VIABLE {
        Err(VfioError::GroupViable)
    } else {
        Ok(())
    }
}

} // verus!
