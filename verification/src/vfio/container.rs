//! The order in which a passthrough device is attached, and what a container must
//! have seen before its IOMMU driver can be set.
use vstd::prelude::*;
use crate::vfio::device::VfioDevice;
use crate::vfio::device::VfioDeviceInfo;
use crate::vfio::error::VfioError;
use crate::vfio::ioctls::spec_iommu_type_known;
use crate::vfio::region::spec_irq_infos;
use crate::vfio::region::spec_region_infos;
use crate::vfio::region::spec_regions_view;
use crate::vfio::region::vfio_device_get_irq_infos;
use crate::vfio::region::vfio_device_get_region_infos;
use crate::vfio::region::IrqReply;
use crate::vfio::region::RegionReply;
use crate::vfio::region::EINVAL;
use crate::vfio::VFIO_DEVICE_FLAGS_RESET;
use crate::vfio::VFIO_TYPE1V2_IOMMU;
use crate::vfio::VFIO_TYPE1_IOMMU;

verus! {

/// A container as a mathematical value.
pub struct VfioContainerView {
    /// The groups that were added, in the order in which they were added.
    pub groups: Seq<u32>,
    /// The IOMMU driver type, once it is set.
    pub iommu_type: Option<u32>,
}

/// A container: the groups that were added to it and the IOMMU driver type it was
/// given.
#[derive(Clone, Debug)]
pub struct VfioContainer {
    groups: Vec<u32>,
    iommu_type: Option<u32>,
}

impl View for VfioContainer {
    type V = VfioContainerView;

    closed spec fn view(&self) -> VfioContainerView {
        VfioContainerView { groups: self.groups@, iommu_type: self.iommu_type }
    }
}

impl VfioContainer {
    /// A container without groups and without an IOMMU driver.
    pub fn new() -> (c: Self)
        ensures
            c@.groups == Seq::<u32>::empty(),
            c@.iommu_type is None,
    {
        VfioContainer { groups: Vec::new(), iommu_type: None }
    }

    /// True if the group was added to the container.
    pub fn has_group(&self, group_id: u32) -> (b: bool)
        ensures
            b == self@.groups.contains(group_id),
    {
        let mut i: usize = 0;
        while i < self.groups.len()
            invariant
                i <= self.groups@.len(),
                forall|k: int| 0 <= k < i ==> self.groups@[k] != group_id,
            decreases self.groups@.len() - i,
        {
            if self.groups[i] == group_id {
                return true;
            }
            i = i + 1;
        }
        false
    }

    /// The number of groups of the container.
    pub fn num_groups(&self) -> (n: usize)
        ensures
            n == self@.groups.len(),
    {
        self.groups.len()
    }

    /// The IOMMU driver type of the container, once it is set.
    pub fn iommu_type(&self) -> (t: Option<u32>)
        ensures
            t == self@.iommu_type,
    {
        self.iommu_type
    }

    /// Takes note that a group was added to the container. Says whether the IOMMU
    /// driver is to be set now: that is so after the first group, and only then.
    pub fn group_set_container(&mut self, group_id: u32) -> (set_iommu_now: bool)
        ensures
            final(self)@.iommu_type == old(self)@.iommu_type,
            final(self)@.groups == (if old(self)@.groups.contains(group_id) {
                old(self)@.groups
            } else {
                old(self)@.groups.push(group_id)
            }),
            set_iommu_now == (old(self)@.groups.len() == 0 && old(self)@.iommu_type is None),
    {
        let first = self.groups.len() == 0 && self.iommu_type.is_none();
        if !self.has_group(group_id) {
            self.groups.push(group_id);
        }
        first
    }

    /// Takes note that a group was removed from the container. A container that
    /// loses its last group loses its IOMMU driver too.
    pub fn group_unset_container(&mut self, group_id: u32)
        ensures
            final(self)@.groups == old(self)@.groups.filter(|g: u32| g != group_id),
            final(self)@.iommu_type == (if final(self)@.groups.len() == 0 {
                None
            } else {
                old(self)@.iommu_type
            }),
    {
        let mut kept: Vec<u32> = Vec::new();
        let mut i: usize = 0;
        let ghost keep = |g: u32| g != group_id;
        proof {
            assert(self.groups@.take(0) =~= Seq::<u32>::empty());
            reveal(Seq::filter);
        }
        while i < self.groups.len()
            invariant
                i <= self.groups@.len(),
                keep == (|g: u32| g != group_id),
                kept@ == self.groups@.take(i as int).filter(keep),
                self.groups == old(self).groups,
                self.iommu_type == old(self).iommu_type,
            decreases self.groups@.len() - i,
        {
            let g = self.groups[i];
            proof {
                assert(self.groups@.take(i as int + 1).drop_last() == self.groups@.take(i as int));
                assert(self.groups@.take(i as int + 1).last() == g);
                reveal(Seq::filter);
            }
            if g != group_id {
                kept.push(g);
            }
            i = i + 1;
        }
        proof {
            assert(self.groups@.take(self.groups@.len() as int) == self.groups@);
        }
        if kept.len() == 0 {
            self.iommu_type = None;
        }
        self.groups = kept;
    }

    /// What setting the IOMMU driver type `val` gives on this container: a type that
    /// is not known is refused; the kernel refuses the request on a container
    /// without groups and on one that has a driver already.
    pub open spec fn spec_set_iommu(self, val: u32) -> Result<(), VfioError> {
        if !spec_iommu_type_known(val) {
            Err(VfioError::VfioInvalidType)
        } else if self@.groups.len() == 0 || self@.iommu_type is Some {
            Err(VfioError::ContainerSetIOMMU(EINVAL))
        } else {
            Ok(())
        }
    }

    /// Sets the IOMMU driver type of the container. This succeeds once, after the
    /// first group was added; the container is left as it was when it fails.
    pub fn set_iommu(&mut self, val: u32) -> (r: Result<(), VfioError>)
        ensures
            r == old(self).spec_set_iommu(val),
            final(self)@.groups == old(self)@.groups,
            r is Ok ==> final(self)@.iommu_type == Some(val),
            r is Err ==> final(self)@.iommu_type == old(self)@.iommu_type,
    {
        if val != VFIO_TYPE1_IOMMU && val != VFIO_TYPE1V2_IOMMU {
            return Err(VfioError::VfioInvalidType);
        }
        if self.groups.len() == 0 || self.iommu_type.is_some() {
            return Err(VfioError::ContainerSetIOMMU(EINVAL));
        }
        self.iommu_type = Some(val);
        Ok(())
    }
}

/// Sets the IOMMU driver type `val` of a container: see `VfioContainer::set_iommu`.
pub fn vfio_container_set_iommu(container: &mut VfioContainer, val: u32) -> (r: Result<
    (),
    VfioError,
>)
    ensures
        r == old(container).spec_set_iommu(val),
        final(container)@.groups == old(container)@.groups,
        r is Ok ==> final(container)@.iommu_type == Some(val),
        r is Err ==> final(container)@.iommu_type == old(container)@.iommu_type,
{
    container.set_iommu(val)
}

/// Setting the IOMMU driver fails before any group is added; after the first group is
/// added it succeeds; and it fails when it is asked for a second time.
pub proof fn lemma_set_iommu_once(before: VfioContainer, with_group: VfioContainer, done: VfioContainer)
    requires
        before@.groups.len() == 0,
        with_group@.groups.len() > 0,
        with_group@.iommu_type is None,
        done@.groups == with_group@.groups,
        done@.iommu_type == Some(VFIO_TYPE1V2_IOMMU),
    ensures
        before.spec_set_iommu(VFIO_TYPE1V2_IOMMU) is Err,
        with_group.spec_set_iommu(VFIO_TYPE1V2_IOMMU) is Ok,
        done.spec_set_iommu(VFIO_TYPE1V2_IOMMU) is Err,
{
}

/// The value of a decimal digit, if the byte is one.
pub open spec fn spec_digit(b: u8) -> Option<int> {
    if 0x30 <= b <= 0x39 {
        Some(b - 0x30)
    } else {
        None
    }
}

/// The number that the bytes spell in decimal digits, if they are digits, at least
/// one, and spell a number that fits in 32 bits.
pub open spec fn spec_decimal(s: Seq<u8>) -> Option<int>
    decreases s.len(),
{
    if s.len() == 0 {
        None
    } else {
        match spec_digit(s.last()) {
            None => None,
            Some(d) => if s.len() == 1 {
                Some(d)
            } else {
                match spec_decimal(s.drop_last()) {
                    None => None,
                    Some(n) => if 10 * n + d <= u32::MAX {
                        Some(10 * n + d)
                    } else {
                        None
                    },
                }
            },
        }
    }
}

/// Where the last component of a path starts: behind its last slash, or at 0 if it
/// has none.
pub open spec fn spec_last_component_start(path: Seq<u8>) -> int
    decreases path.len(),
{
    if path.len() == 0 {
        0
    } else if path.last() == 0x2f {
        path.len() as int
    } else {
        spec_last_component_start(path.drop_last())
    }
}

/// The last component of a path: what follows its last slash.
pub open spec fn spec_last_component(path: Seq<u8>) -> Seq<u8> {
    path.subrange(spec_last_component_start(path), path.len() as int)
}

/// The number of the IOMMU group that the target of the group link of a device
/// names: the last component of the target, read as a decimal number.
pub open spec fn spec_group_id(link_target: Seq<u8>) -> Option<int> {
    spec_decimal(spec_last_component(link_target))
}

/// Finds where the last component of a path starts.
fn last_component_start(path: &[u8]) -> (start: usize)
    ensures
        start == spec_last_component_start(path@),
        start <= path@.len(),
{
    let mut i: usize = path.len();
    proof {
        assert(path@.take(i as int) == path@);
    }
    while i > 0
        invariant
            i <= path@.len(),
            spec_last_component_start(path@) == spec_last_component_start(path@.take(i as int)),
        decreases i,
    {
        proof {
            assert(path@.take(i as int).drop_last() == path@.take(i as int - 1));
            assert(path@.take(i as int).last() == path@[i as int - 1]);
        }
        if path[i - 1] == 0x2f {
            return i;
        }
        i = i - 1;
    }
    proof {
        assert(path@.take(0).len() == 0);
    }
    0
}

/// Reads the number of the IOMMU group of a device from the target of its group
/// link.
///
/// The target must end in a component of decimal digits that spell a number of 32
/// bits; any other target is an invalid path.
pub fn group_id_from_device_path(link_target: &[u8]) -> (r: Result<u32, VfioError>)
    ensures
        match spec_group_id(link_target@) {
            Some(id) => r == Ok::<u32, VfioError>(id as u32),
            None => r == Err::<u32, VfioError>(VfioError::InvalidPath),
        },
{
    let start = last_component_start(link_target);
    let len = link_target.len();
    let ghost name = spec_last_component(link_target@);
    if start == len {
        return Err(VfioError::InvalidPath);
    }
    let mut value: u32 = 0;
    let mut i: usize = start;
    while i < len
        invariant
            start <= i <= len,
            start < len,
            len == link_target@.len(),
            name == link_target@.subrange(start as int, len as int),
            name == spec_last_component(link_target@),
            i > start ==> spec_decimal(name.take(i - start)) == Some(value as int),
        decreases len - i,
    {
        let b = link_target[i];
        proof {
            assert(name.take(i - start + 1).drop_last() == name.take(i - start));
            assert(name.take(i - start + 1).last() == b);
            lemma_decimal_prefix(name, (i - start + 1) as nat);
        }
        if b < 0x30 || b > 0x39 {
            return Err(VfioError::InvalidPath);
        }
        let d: u32 = (b - 0x30) as u32;
        if i > start && (value > u32::MAX / 10 || value * 10 > u32::MAX - d) {
            return Err(VfioError::InvalidPath);
        }
        value = if i > start {
            value * 10 + d
        } else {
            d
        };
        i = i + 1;
    }
    proof {
        assert(name.take(len - start) == name);
    }
    Ok(value)
}

/// If a prefix of the bytes spells no number, neither do the bytes.
pub proof fn lemma_decimal_prefix(s: Seq<u8>, n: nat)
    requires
        0 < n <= s.len(),
    ensures
        spec_decimal(s.take(n as int)) is None ==> spec_decimal(s) is None,
    decreases s.len(),
{
    if n < s.len() {
        assert(s.drop_last().take(n as int) == s.take(n as int));
        lemma_decimal_prefix(s.drop_last(), n);
    } else {
        assert(s.take(n as int) == s);
    }
}

/// Puts together what a device reports: its information, its regions and its
/// interrupts. The first query that failed without being passed over, the regions
/// before the interrupts, gives the error.
pub fn get_device(
    info: VfioDeviceInfo,
    region_replies: &Vec<RegionReply>,
    irq_replies: &Vec<IrqReply>,
) -> (r: Result<VfioDevice, VfioError>)
    ensures
        match spec_region_infos(region_replies@, region_replies@.len()) {
            Err(e) => r == Err::<VfioDevice, VfioError>(e),
            Ok(regions) => match spec_irq_infos(irq_replies@, irq_replies@.len()) {
                Err(e) => r == Err::<VfioDevice, VfioError>(e),
                Ok(irqs) => r is Ok && r->Ok_0.info == info && spec_regions_view(
                    r->Ok_0.region_infos@,
                ) == regions && r->Ok_0.irq_infos@ == irqs,
            },
        },
{
    let region_infos = match vfio_device_get_region_infos(region_replies) {
        Ok(regions) => regions,
        Err(e) => {
            return Err(e);
        },
    };
    let irq_infos = match vfio_device_get_irq_infos(irq_replies) {
        Ok(irqs) => irqs,
        Err(e) => {
            return Err(e);
        },
    };
    Ok(VfioDevice { info, region_infos, irq_infos })
}

/// A step of attaching a device, in the order in which the steps are taken.
#[derive(Copy, Clone, Debug, PartialEq, Eq, Structural)]
pub enum AttachStep {
    /// Open the container, check the version of the interface and the support for
    /// the IOMMU driver.
    OpenContainer,
    /// Find the group of the device, open it and check that it is viable.
    OpenGroup,
    /// Add the group to the container.
    SetContainer,
    /// Set the IOMMU driver of the container.
    SetIommu,
    /// Open the device through its group.
    GetDevice,
    /// Ask the device for its information.
    GetDeviceInfo,
    /// Reset the device.
    ResetDevice,
    /// Ask for the regions of the device.
    GetRegionInfos,
    /// Ask for the interrupts of the device.
    GetIrqInfos,
    /// Walk the capability lists of the device.
    GetPciCapabilities,
    /// Size the BARs and place them in the guest.
    SizeBars,
    /// Size the expansion ROM and place it in the guest.
    SizeExpansionRom,
    /// Map the BARs into the guest.
    MapBars,
    /// Let the device reach the memory of the guest.
    MapGuestMemory,
    /// The device is attached.
    Attached,
}

/// The place of a step in the order of the steps.
pub open spec fn spec_step_rank(step: AttachStep) -> int {
    match step {
        AttachStep::OpenContainer => 1,
        AttachStep::OpenGroup => 2,
        AttachStep::SetContainer => 3,
        AttachStep::SetIommu => 4,
        AttachStep::GetDevice => 5,
        AttachStep::GetDeviceInfo => 6,
        AttachStep::ResetDevice => 7,
        AttachStep::GetRegionInfos => 8,
        AttachStep::GetIrqInfos => 9,
        AttachStep::GetPciCapabilities => 10,
        AttachStep::SizeBars => 11,
        AttachStep::SizeExpansionRom => 12,
        AttachStep::MapBars => 13,
        AttachStep::MapGuestMemory => 14,
        AttachStep::Attached => 15,
    }
}

/// The step that follows `step`. The IOMMU driver is set only if the group that was
/// added is the first of its container, and the device is reset only if its flags say
/// that it can be.
pub open spec fn spec_next_step(step: AttachStep, first_group: bool, device_flags: u32) -> AttachStep {
    match step {
        AttachStep::OpenContainer => AttachStep::OpenGroup,
        AttachStep::OpenGroup => AttachStep::SetContainer,
        AttachStep::SetContainer => if first_group {
            AttachStep::SetIommu
        } else {
            AttachStep::GetDevice
        },
        AttachStep::SetIommu => AttachStep::GetDevice,
        AttachStep::GetDevice => AttachStep::GetDeviceInfo,
        AttachStep::GetDeviceInfo => if device_flags & VFIO_DEVICE_FLAGS_RESET != 0 {
            AttachStep::ResetDevice
        } else {
            AttachStep::GetRegionInfos
        },
        AttachStep::ResetDevice => AttachStep::GetRegionInfos,
        AttachStep::GetRegionInfos => AttachStep::GetIrqInfos,
        AttachStep::GetIrqInfos => AttachStep::GetPciCapabilities,
        AttachStep::GetPciCapabilities => AttachStep::SizeBars,
        AttachStep::SizeBars => AttachStep::SizeExpansionRom,
        AttachStep::SizeExpansionRom => AttachStep::MapBars,
        AttachStep::MapBars => AttachStep::MapGuestMemory,
        AttachStep::MapGuestMemory => AttachStep::Attached,
        AttachStep::Attached => AttachStep::Attached,
    }
}

/// Says which step of attaching a device follows `step`, once `step` has succeeded.
///
/// `first_group` says whether the group that was added is the first of its container;
/// it is looked at after `SetContainer`. `device_flags` are the flags of the device;
/// they are looked at after `GetDeviceInfo`. A step that fails ends the attach: no
/// step follows it.
pub fn do_vfio_magic(step: AttachStep, first_group: bool, device_flags: u32) -> (next: AttachStep)
    ensures
        next == spec_next_step(step, first_group, device_flags),
        step != AttachStep::Attached ==> spec_step_rank(next) > spec_step_rank(step),
        next == AttachStep::SetIommu <==> step == AttachStep::SetContainer && first_group,
{
    match step {
        AttachStep::OpenContainer => AttachStep::OpenGroup,
        AttachStep::OpenGroup => AttachStep::SetContainer,
        AttachStep::SetContainer => if first_group {
            AttachStep::SetIommu
        } else {
            AttachStep::GetDevice
        },
        AttachStep::SetIommu => AttachStep::GetDevice,
        AttachStep::GetDevice => AttachStep::GetDeviceInfo,
        AttachStep::GetDeviceInfo => if device_flags & VFIO_DEVICE_FLAGS_RESET != 0 {
            AttachStep::ResetDevice
        } else {
            AttachStep::GetRegionInfos
        },
        AttachStep::ResetDevice => AttachStep::GetRegionInfos,
        AttachStep::GetRegionInfos => AttachStep::GetIrqInfos,
        AttachStep::GetIrqInfos => AttachStep::GetPciCapabilities,
        AttachStep::GetPciCapabilities => AttachStep::SizeBars,
        AttachStep::SizeBars => AttachStep::SizeExpansionRom,
        AttachStep::SizeExpansionRom => AttachStep::MapBars,
        AttachStep::MapBars => AttachStep::MapGuestMemory,
        AttachStep::MapGuestMemory => AttachStep::Attached,
        AttachStep::Attached => AttachStep::Attached,
    }
}

/// What is taken back when attaching a device is given up.
#[derive(Copy, Clone, Debug, PartialEq, Eq, Structural)]
pub enum UndoAction {
    /// Take back the mappings of guest memory that the IOMMU was given.
    UnmapGuestMemory,
    /// Take the mapped parts of the BARs out of the guest.
    RemoveMemorySlots,
    /// Take the group out of its container.
    RemoveGroup,
}

/// What has to be taken back when `failed` fails, the latest first: the mappings of
/// guest memory if mapping it had begun, the mapped parts of the BARs if mapping them
/// had begun, and the group if it had been added to its container.
pub open spec fn spec_unwind(failed: AttachStep) -> Seq<UndoAction> {
    let rank = spec_step_rank(failed);
    let maps: Seq<UndoAction> = if rank >= spec_step_rank(AttachStep::MapGuestMemory) {
        seq![UndoAction::UnmapGuestMemory]
    } else {
        seq![]
    };
    let slots: Seq<UndoAction> = if rank >= spec_step_rank(AttachStep::MapBars) {
        seq![UndoAction::RemoveMemorySlots]
    } else {
        seq![]
    };
    let group: Seq<UndoAction> = if rank > spec_step_rank(AttachStep::SetContainer) {
        seq![UndoAction::RemoveGroup]
    } else {
        seq![]
    };
    maps + slots + group
}

/// Says what to take back when the step `failed` of attaching a device has failed.
///
/// A step that maps something in parts may fail after some of the parts, so its own
/// work is taken back too. Handed `Attached`, this gives what detaching the device
/// takes back.
pub fn unwind_attach(failed: AttachStep) -> (actions: Vec<UndoAction>)
    ensures
        actions@ == spec_unwind(failed),
        actions@.contains(UndoAction::RemoveGroup) <==> spec_step_rank(failed) > spec_step_rank(
            AttachStep::SetContainer,
        ),
{
    let mut actions: Vec<UndoAction> = Vec::new();
    let (maps, slots, group) = match failed {
        AttachStep::OpenContainer | AttachStep::OpenGroup | AttachStep::SetContainer => (
            false,
            false,
            false,
        ),
        AttachStep::MapBars => (false, true, true),
        AttachStep::MapGuestMemory | AttachStep::Attached => (true, true, true),
        _ => (false, false, true),
    };
    if maps {
        actions.push(UndoAction::UnmapGuestMemory);
    }
    if slots {
        actions.push(UndoAction::RemoveMemorySlots);
    }
    if group {
        actions.push(UndoAction::RemoveGroup);
    }
    proof {
        assert(actions@ =~= spec_unwind(failed));
        if group {
            assert(actions@[actions@.len() - 1] == UndoAction::RemoveGroup);
        }
    }
    actions
}

/// A request that attaching a device makes to the host kernel.
#[derive(Copy, Clone, Debug, PartialEq, Eq, Structural)]
pub enum VfioRequest {
    /// Ask the container for the version of the interface.
    GetApiVersion,
    /// Ask the container whether it supports the IOMMU driver of this type.
    CheckExtension(u32),
    /// Ask the group for its status.
    GroupGetStatus,
    /// Add the group to the container.
    GroupSetContainer,
    /// Set the IOMMU driver of the container to this type.
    SetIommu(u32),
    /// Ask the group for the device.
    GroupGetDeviceFd,
    /// Ask the device what it is.
    DeviceGetInfo,
    /// Reset the device.
    DeviceReset,
    /// Ask the device for its regions.
    DeviceGetRegionInfo,
    /// Ask the device for its interrupts.
    DeviceGetIrqInfo,
    /// Map memory for the device.
    IommuMapDma,
}

/// The requests that a step of attaching a device makes, in order. The driver that
/// is asked for and set is always the type 1 driver in its second version. The steps
/// that only read and write the configuration space of the device make no request.
pub open spec fn spec_requests(step: AttachStep) -> Seq<VfioRequest> {
    match step {
        AttachStep::OpenContainer => seq![
            VfioRequest::GetApiVersion,
            VfioRequest::CheckExtension(VFIO_TYPE1V2_IOMMU),
        ],
        AttachStep::OpenGroup => seq![VfioRequest::GroupGetStatus],
        AttachStep::SetContainer => seq![VfioRequest::GroupSetContainer],
        AttachStep::SetIommu => seq![VfioRequest::SetIommu(VFIO_TYPE1V2_IOMMU)],
        AttachStep::GetDevice => seq![VfioRequest::GroupGetDeviceFd],
        AttachStep::GetDeviceInfo => seq![VfioRequest::DeviceGetInfo],
        AttachStep::ResetDevice => seq![VfioRequest::DeviceReset],
        AttachStep::GetRegionInfos => seq![VfioRequest::DeviceGetRegionInfo],
        AttachStep::GetIrqInfos => seq![VfioRequest::DeviceGetIrqInfo],
        AttachStep::MapBars => seq![VfioRequest::IommuMapDma],
        AttachStep::MapGuestMemory => seq![VfioRequest::IommuMapDma],
        _ => Seq::<VfioRequest>::empty(),
    }
}

/// Says which requests a step of attaching a device makes, in order. A request that
/// is made once for each of several things, regions or mappings, is named once.
pub fn attach_requests(step: AttachStep) -> (requests: Vec<VfioRequest>)
    ensures
        requests@ == spec_requests(step),
{
    let mut requests: Vec<VfioRequest> = Vec::new();
    match step {
        AttachStep::OpenContainer => {
            requests.push(VfioRequest::GetApiVersion);
            requests.push(VfioRequest::CheckExtension(VFIO_TYPE1V2_IOMMU));
        },
        AttachStep::OpenGroup => {
            requests.push(VfioRequest::GroupGetStatus);
        },
        AttachStep::SetContainer => {
            requests.push(VfioRequest::GroupSetContainer);
        },
        AttachStep::SetIommu => {
            requests.push(VfioRequest::SetIommu(VFIO_TYPE1V2_IOMMU));
        },
        AttachStep::GetDevice => {
            requests.push(VfioRequest::GroupGetDeviceFd);
        },
        AttachStep::GetDeviceInfo => {
            requests.push(VfioRequest::DeviceGetInfo);
        },
        AttachStep::ResetDevice => {
            requests.push(VfioRequest::DeviceReset);
        },
        AttachStep::GetRegionInfos => {
            requests.push(VfioRequest::DeviceGetRegionInfo);
        },
        AttachStep::GetIrqInfos => {
            requests.push(VfioRequest::DeviceGetIrqInfo);
        },
        AttachStep::MapBars => {
            requests.push(VfioRequest::IommuMapDma);
        },
        AttachStep::MapGuestMemory => {
            requests.push(VfioRequest::IommuMapDma);
        },
        _ => {},
    }
    proof {
        assert(requests@ =~= spec_requests(step));
    }
    requests
}

/// The requests of an attach from `step` on, in order.
pub open spec fn spec_trace(step: AttachStep, first_group: bool, device_flags: u32) -> Seq<
    VfioRequest,
>
    decreases 15 - spec_step_rank(step),
{
    if step == AttachStep::Attached {
        Seq::<VfioRequest>::empty()
    } else {
        spec_requests(step) + spec_trace(
            spec_next_step(step, first_group, device_flags),
            first_group,
            device_flags,
        )
    }
}

/// The requests of an attach in which every request succeeds: the version and the
/// driver of type 1 in its second version are asked for first; the group is added to
/// the container; then, if the group is the first of its container and only then,
/// the driver is set, once, to that type; only then is the device asked for.
pub proof fn lemma_attach_order(first_group: bool, device_flags: u32)
    ensures
        spec_trace(AttachStep::OpenContainer, first_group, device_flags) == seq![
            VfioRequest::GetApiVersion,
            VfioRequest::CheckExtension(VFIO_TYPE1V2_IOMMU),
            VfioRequest::GroupGetStatus,
            VfioRequest::GroupSetContainer,
        ] + (if first_group {
            seq![VfioRequest::SetIommu(VFIO_TYPE1V2_IOMMU)]
        } else {
            Seq::<VfioRequest>::empty()
        }) + seq![VfioRequest::GroupGetDeviceFd, VfioRequest::DeviceGetInfo] + (if device_flags
            & VFIO_DEVICE_FLAGS_RESET != 0 {
            seq![VfioRequest::DeviceReset]
        } else {
            Seq::<VfioRequest>::empty()
        }) + seq![
            VfioRequest::DeviceGetRegionInfo,
            VfioRequest::DeviceGetIrqInfo,
            VfioRequest::IommuMapDma,
            VfioRequest::IommuMapDma,
        ],
{
    let f = first_group;
    let d = device_flags;
    let map = seq![VfioRequest::IommuMapDma];
    let tail = seq![
        VfioRequest::DeviceGetRegionInfo,
        VfioRequest::DeviceGetIrqInfo,
        VfioRequest::IommuMapDma,
        VfioRequest::IommuMapDma,
    ];
    let reset = if d & VFIO_DEVICE_FLAGS_RESET != 0 {
        seq![VfioRequest::DeviceReset]
    } else {
        Seq::<VfioRequest>::empty()
    };
    let iommu = if f {
        seq![VfioRequest::SetIommu(VFIO_TYPE1V2_IOMMU)]
    } else {
        Seq::<VfioRequest>::empty()
    };
    assert(spec_trace(AttachStep::Attached, f, d) =~= Seq::<VfioRequest>::empty());
    assert(spec_trace(AttachStep::MapGuestMemory, f, d) =~= map);
    assert(spec_trace(AttachStep::MapBars, f, d) =~= map + map);
    assert(spec_trace(AttachStep::SizeExpansionRom, f, d) =~= map + map);
    assert(spec_trace(AttachStep::SizeBars, f, d) =~= map + map);
    assert(spec_trace(AttachStep::GetPciCapabilities, f, d) =~= map + map);
    assert(spec_trace(AttachStep::GetIrqInfos, f, d) =~= seq![VfioRequest::DeviceGetIrqInfo] + (map
        + map));
    assert(spec_trace(AttachStep::GetRegionInfos, f, d) =~= tail);
    assert(spec_trace(AttachStep::ResetDevice, f, d) =~= seq![VfioRequest::DeviceReset] + tail);
    assert(spec_trace(AttachStep::GetDeviceInfo, f, d) =~= seq![VfioRequest::DeviceGetInfo] + reset
        + tail);
    let from_device = seq![VfioRequest::GroupGetDeviceFd, VfioRequest::DeviceGetInfo] + reset + tail;
    assert(spec_trace(AttachStep::GetDevice, f, d) =~= from_device);
    assert(spec_trace(AttachStep::SetIommu, f, d) =~= seq![
        VfioRequest::SetIommu(VFIO_TYPE1V2_IOMMU),
    ] + from_device);
    assert(spec_trace(AttachStep::SetContainer, f, d) =~= seq![VfioRequest::GroupSetContainer]
        + iommu + from_device);
    assert(spec_trace(AttachStep::OpenGroup, f, d) =~= seq![
        VfioRequest::GroupGetStatus,
        VfioRequest::GroupSetContainer,
    ] + iommu + from_device);
    assert(spec_trace(AttachStep::OpenContainer, f, d) =~= seq![
        VfioRequest::GetApiVersion,
        VfioRequest::CheckExtension(VFIO_TYPE1V2_IOMMU),
        VfioRequest::GroupGetStatus,
        VfioRequest::GroupSetContainer,
    ] + iommu + seq![VfioRequest::GroupGetDeviceFd, VfioRequest::DeviceGetInfo] + reset + tail);
}

} // verus!
