use vmm::memory::GuestMemoryLayout;
use vmm::memory::GuestRegion;
use vmm::memory::GuestRegionType;
use vmm::pci::msix::MsixConfig;
use vmm::resources::MmioWindow;
use vmm::resources::ResourceError;
use vmm::resources::ResourceAllocator;
use vmm::resources::MMIO32_MEM_START;
use vmm::resources::MMIO64_MEM_START;
use vmm::vfio::bars::bar_shape;
use vmm::vfio::bars::device_get_bar_infos;
use vmm::vfio::bars::place_bar;
use vmm::vfio::bars::BarProbe;
use vmm::vfio::bars::BarProber;
use vmm::vfio::bars::ConfigAction;
use vmm::vfio::container::do_vfio_magic;
use vmm::vfio::container::get_device;
use vmm::vfio::container::group_id_from_device_path;
use vmm::vfio::container::vfio_container_set_iommu;
use vmm::vfio::bar_io::bars_apart;
use vmm::vfio::container::attach_requests;
use vmm::vfio::container::unwind_attach;
use vmm::vfio::container::VfioRequest;
use vmm::vfio::container::AttachStep;
use vmm::vfio::container::UndoAction;
use vmm::vfio::container::VfioContainer;
use vmm::vfio::device::apply_mask;
use vmm::vfio::device::device_get_expansion_rom_info;
use vmm::vfio::device::place_expansion_rom;
use vmm::vfio::device::vfio_device_reset;
use vmm::vfio::device::BarAccess;
use vmm::vfio::device::ConfigRead;
use vmm::vfio::device::ConfigWrite;
use vmm::vfio::device::ExpansionRomInfo;
use vmm::vfio::device::VfioDevice;
use vmm::vfio::device::VfioDeviceBundle;
use vmm::vfio::device::VfioDeviceInfo;
use vmm::vfio::dma::dma_map_guest_memory;
use vmm::vfio::error::VfioError;
use vmm::vfio::ioctls::check_extension;
use vmm::vfio::ioctls::device_get_info;
use vmm::vfio::ioctls::device_get_irq_info;
use vmm::vfio::ioctls::device_get_region_info;
use vmm::vfio::ioctls::device_set_irqs;
use vmm::vfio::ioctls::group_get_device_fd;
use vmm::vfio::ioctls::group_get_status;
use vmm::vfio::ioctls::group_set_container;
use vmm::vfio::ioctls::group_unset_container;
use vmm::vfio::ioctls::map_dma;
use vmm::vfio::ioctls::set_iommu;
use vmm::vfio::ioctls::unmap_dma;
use vmm::vfio::ioctls::vfio_check_api_version;
use vmm::vfio::ioctls::vfio_check_extension;
use vmm::vfio::ioctls::vfio_group_check_status;
use vmm::vfio::mmap::align_page_size_down;
use vmm::vfio::mmap::align_page_size_up;
use vmm::vfio::mmap::mmap_bars;
use vmm::vfio::pci_caps::device_get_config_space_info;
use vmm::vfio::pci_caps::vfio_device_get_pci_capabilities;
use vmm::vfio::region::parse_region_info;
use vmm::vfio::region::vfio_device_region_read;
use vmm::vfio::region::vfio_device_region_write;
use vmm::vfio::rom::mmap_expansion_rom;
use vmm::vfio::region::region_info_has_caps;
use vmm::vfio::region::vfio_device_get_irq_infos;
use vmm::vfio::region::vfio_device_get_region_infos;
use vmm::vfio::region::IrqReply;
use vmm::vfio::region::RegionReply;
use vmm::vfio::BarHoleInfo;
use vmm::vfio::BarHoleInfoUsage;
use vmm::vfio::BarInfo;
use vmm::vfio::MsiCap;
use vmm::vfio::MsixCap;
use vmm::vfio::RegisterMask;
use vmm::vfio::VfioIrqInfo;
use vmm::vfio::VfioRegionCap;
use vmm::vfio::VfioRegionCapSparseMmap;
use vmm::vfio::VfioRegionCapType;
use vmm::vfio::VfioRegionInfo;
use vmm::vfio::VfioRegionSparseMmapArea;
use vmm::vfio::VFIO_TYPE1V2_IOMMU;
use vmm::vfio::VFIO_TYPE1_IOMMU;
use vmm::vmm_config::vfio::VfioConfig;

fn bundle(bars: Vec<BarInfo>, holes: Vec<BarHoleInfo>, regions: Vec<VfioRegionInfo>) -> VfioDeviceBundle {
    VfioDeviceBundle {
        id: String::from("0000:01:00.0"),
        group_id: 7,
        device: VfioDevice {
            info: VfioDeviceInfo { flags: 0, num_regions: 9, num_irqs: 5 },
            region_infos: regions,
            irq_infos: Vec::new(),
        },
        bar_infos: bars,
        expansion_rom_info: None,
        msi_cap: None,
        msix_cap: None,
        bar_hole_infos: holes,
        masks: None,
        msix_config: None,
    }
}

fn region(index: u32, flags: u32, size: u64, offset: u64, caps: Vec<VfioRegionCap>) -> VfioRegionInfo {
    VfioRegionInfo { flags, index, size, offset, caps }
}

fn le32(v: u32) -> [u8; 4] {
    v.to_le_bytes()
}

fn region_reply(argsz: u32, flags: u32, index: u32, cap_offset: u32, size: u64, offset: u64) -> Vec<u8> {
    let mut b = Vec::new();
    b.extend_from_slice(&argsz.to_le_bytes());
    b.extend_from_slice(&flags.to_le_bytes());
    b.extend_from_slice(&index.to_le_bytes());
    b.extend_from_slice(&cap_offset.to_le_bytes());
    b.extend_from_slice(&size.to_le_bytes());
    b.extend_from_slice(&offset.to_le_bytes());
    b
}

#[test]
fn msix_cap_fields() {
    let cap = MsixCap { msg_ctl: 0xc007, table_offset: 0x2003, pba_offset: 0x3004 };
    assert!(cap.masked());
    assert!(cap.enabled());
    assert_eq!(cap.table_size(), 8);
    assert_eq!(cap.table_bir(), 3);
    assert_eq!(cap.pba_bir(), 4);
    assert_eq!(cap.table_offset(), 0x2000);
    assert_eq!(cap.pba_offset(), 0x3000);
    assert_eq!(cap.table_range(), (0x2000, 128));
    assert_eq!(cap.pba_range(), (0x3000, 8));
    let plain = MsixCap { msg_ctl: 0x0000, table_offset: 0, pba_offset: 0 };
    assert!(!plain.masked());
    assert!(!plain.enabled());
    assert_eq!(plain.table_size(), 1);
}

#[test]
fn msix_cap_table_size_bounds() {
    let largest = MsixCap { msg_ctl: 0x07ff, table_offset: 0, pba_offset: 0 };
    assert_eq!(largest.table_size(), 2048);
    assert_eq!(largest.table_range().1, 16 * 2048);
    assert_eq!(largest.pba_range().1, (2048 / 64 + 1) * 8);
    let all_bits = MsixCap { msg_ctl: 0xffff, table_offset: 0xffff_ffff, pba_offset: 0xffff_ffff };
    assert_eq!(all_bits.table_size(), 2048);
    assert_eq!(all_bits.table_bir(), 7);
    assert_eq!(all_bits.table_offset(), 0xffff_fff8);
}

#[test]
fn msix_cap_set_offset_keeps_bir() {
    let mut cap = MsixCap { msg_ctl: 0, table_offset: 0x1002, pba_offset: 0x2005 };
    cap.table_set_offset(0x4000);
    cap.pba_set_offset(0x8000);
    assert_eq!(cap.table_offset, 0x4002);
    assert_eq!(cap.table_bir(), 2);
    assert_eq!(cap.table_offset(), 0x4000);
    assert_eq!(cap.pba_offset, 0x8005);
    assert_eq!(cap.pba_bir(), 5);
}

#[test]
fn bar_sizing_64_bit() {
    let mut dev = bundle(
        vec![BarInfo {
            idx: 0,
            gpa: 0xC000_0000_0000,
            size: 0x4000,
            is_64_bits: true,
            is_prefetchable: false,
            about_to_read_size: false,
        }],
        Vec::new(),
        Vec::new(),
    );
    assert_eq!(dev.read_config_register(4), ConfigRead::Value(0x0000_0004));
    assert_eq!(dev.read_config_register(5), ConfigRead::Value(0x0000_C000));
    assert_eq!(dev.write_config_register(4, 0, &le32(0xFFFF_FFFF)), ConfigWrite::Emulated);
    assert_eq!(dev.read_config_register(4), ConfigRead::Value(0xFFFF_C004));
    assert_eq!(dev.write_config_register(5, 0, &le32(0xFFFF_FFFF)), ConfigWrite::Emulated);
    assert_eq!(dev.read_config_register(5), ConfigRead::Value(0xFFFF_FFFF));
}

#[test]
fn bar_sizing_32_bit_plain() {
    let mut dev = bundle(
        vec![BarInfo {
            idx: 2,
            gpa: 0xd000_1000,
            size: 0x1000,
            is_64_bits: false,
            is_prefetchable: false,
            about_to_read_size: false,
        }],
        Vec::new(),
        Vec::new(),
    );
    assert_eq!(dev.read_config_register(6), ConfigRead::Value(0xd000_1000));
    // A write that is not the sizing pattern changes nothing.
    dev.write_config_register(6, 0, &le32(0x1234_5678));
    assert_eq!(dev.read_config_register(6), ConfigRead::Value(0xd000_1000));
    // Neither does a sizing write of the wrong width.
    dev.write_config_register(6, 0, &[0xff, 0xff]);
    assert_eq!(dev.read_config_register(6), ConfigRead::Value(0xd000_1000));
    dev.write_config_register(6, 0, &le32(0xFFFF_FFFF));
    assert_eq!(dev.read_config_register(6), ConfigRead::Value(!(0x1000u32 - 1)));
    // The register of a BAR that does not exist reads as zero.
    assert_eq!(dev.read_config_register(7), ConfigRead::Value(0));
}

#[test]
fn bar_sizing_prefetchable_flag() {
    let mut dev = bundle(
        vec![BarInfo {
            idx: 1,
            gpa: 0x40_0000_0000,
            size: 0x1_0000_0000,
            is_64_bits: true,
            is_prefetchable: true,
            about_to_read_size: false,
        }],
        Vec::new(),
        Vec::new(),
    );
    assert_eq!(dev.read_config_register(5), ConfigRead::Value(0x0000_000c));
    assert_eq!(dev.read_config_register(6), ConfigRead::Value(0x40));
    dev.write_config_register(6, 0, &le32(0xFFFF_FFFF));
    assert_eq!(dev.read_config_register(5), ConfigRead::Value(0x0000_000c));
    assert_eq!(dev.read_config_register(6), ConfigRead::Value(0xFFFF_FFFF));
}

#[test]
fn expansion_rom_register() {
    let mut dev = bundle(Vec::new(), Vec::new(), Vec::new());
    assert_eq!(dev.read_config_register(12), ConfigRead::Value(0));
    dev.expansion_rom_info =
        Some(ExpansionRomInfo { gpa: 0xd123_4000, size: 0x1_0000, extra: 0x001, about_to_read_size: false });
    assert_eq!(dev.read_config_register(12), ConfigRead::Value(0xd123_4001));
    assert_eq!(dev.write_config_register(12, 0, &le32(0xFFFF_FFFF)), ConfigWrite::Emulated);
    assert_eq!(dev.read_config_register(12), ConfigRead::Value(0xFFFF_0000));
}

#[test]
fn config_register_forwarding_and_masks() {
    let mut dev = bundle(Vec::new(), Vec::new(), Vec::new());
    assert_eq!(dev.read_config_register(1), ConfigRead::Forward(4, None));
    assert_eq!(dev.write_config_register(1, 2, &[0x06, 0x00]), ConfigWrite::Forward(6));
    let mask = RegisterMask { register: 0x40, mask: 0xffff_0000, value: 0 };
    let other = RegisterMask { register: 0x40, mask: 0, value: 7 };
    dev.masks = Some(vec![RegisterMask { register: 0x50, mask: 1, value: 2 }, mask, other]);
    assert_eq!(dev.read_config_register(0x40), ConfigRead::Forward(0x100, Some(mask)));
    assert_eq!(dev.read_config_register(0x41), ConfigRead::Forward(0x104, None));
    assert_eq!(apply_mask(0x1234_000e, &mask), 0x1234_0000);
    assert_eq!(apply_mask(apply_mask(0x1234_000e, &mask), &mask), 0x1234_0000);
    assert_eq!(apply_mask(0xffff_ffff, &RegisterMask { register: 0, mask: 0x0f, value: 0x30 }), 0x3f);
}

#[test]
fn msix_hole_dispatch() {
    let bar2 = 0xd000_0000u64;
    let mut dev = bundle(
        vec![BarInfo {
            idx: 2,
            gpa: bar2,
            size: 0x4000,
            is_64_bits: false,
            is_prefetchable: false,
            about_to_read_size: false,
        }],
        vec![BarHoleInfo {
            gpa: bar2 + 0x1000,
            size: 0x1000,
            offset_in_hole: 0,
            usage: BarHoleInfoUsage::Table,
        }],
        vec![
            region(0, 7, 0, 0, Vec::new()),
            region(1, 7, 0, 0x100_0000_0000, Vec::new()),
            region(2, 7, 0x4000, 0x200_0000_0000, Vec::new()),
        ],
    );
    dev.msix_cap = Some(MsixCap { msg_ctl: 7, table_offset: 0x1002, pba_offset: 0x0803 });
    let mut config = MsixConfig::new(8);
    config.write_table(0, &le32(0xfee0_0000));
    config.write_table(4, &le32(0x1));
    dev.msix_config = Some(config);

    // Sixteen bytes at the start of the table: served by the table with its first
    // entry, the address, the data and the control word, in which the vector is
    // masked.
    let mut wide = [0xaau8; 16];
    assert_eq!(dev.read(bar2, 0x1000, &mut wide), BarAccess::Table(0x1000));
    assert_eq!(wide, [0, 0, 0xe0, 0xfe, 1, 0, 0, 0, 0, 0, 0, 0, 1, 0, 0, 0]);
    // A read of no whole number of words is not answered.
    let mut odd = [0xaau8; 3];
    assert_eq!(dev.read(bar2, 0x1000, &mut odd), BarAccess::Table(0x1000));
    assert_eq!(odd, [0xaau8; 3]);
    let mut word = [0u8; 4];
    assert_eq!(dev.read(bar2, 0x1000, &mut word), BarAccess::Table(0x1000));
    assert_eq!(u32::from_le_bytes(word), 0xfee0_0000);
    let mut pair = [0u8; 8];
    assert_eq!(dev.read(bar2 + 0x1000, 0, &mut pair), BarAccess::Table(0x1000));
    assert_eq!(u64::from_le_bytes(pair), 0x1_fee0_0000);

    // Outside the hole: forwarded to the region of the BAR.
    let mut outside = [0x55u8; 4];
    assert_eq!(
        dev.read(bar2, 0x2000, &mut outside),
        BarAccess::Region(2, 0x200_0000_0000 + 0x2000)
    );
    assert_eq!(outside, [0x55u8; 4]);
    assert_eq!(dev.bar_access(bar2, 0), BarAccess::Region(2, 0x200_0000_0000));
    // Outside every BAR.
    assert_eq!(dev.bar_access(bar2, 0x4000), BarAccess::Unclaimed);
    assert_eq!(dev.bar_access(0x1000, 0), BarAccess::Unclaimed);

    // A write into the table changes the table that the guest sees.
    assert_eq!(dev.write(bar2, 0x1000 + 8, &le32(0x4021)), BarAccess::Table(0x1008));
    let mut data = [0u8; 4];
    dev.read(bar2, 0x1008, &mut data);
    assert_eq!(u32::from_le_bytes(data), 0x4021);
    assert_eq!(dev.write(bar2, 0x3000, &le32(1)), BarAccess::Region(2, 0x200_0000_0000 + 0x3000));
}

#[test]
fn table_and_pending_bits_in_one_page() {
    // The table of 8 entries takes 0x80 bytes from 0x800, the pending bits follow at
    // 0xc00 in the same page.
    let bar = 0xd000_0000u64;
    let cap = MsixCap { msg_ctl: 7, table_offset: 0x0800, pba_offset: 0x0c00 };
    let regions = vec![region(0, 7, 0x2000, 0x10_0000, vec![VfioRegionCap::MsixMappable])];
    let bars = vec![BarInfo {
        idx: 0,
        gpa: bar,
        size: 0x2000,
        is_64_bits: false,
        is_prefetchable: false,
        about_to_read_size: false,
    }];
    let plan = mmap_bars(&bars, &regions, Some(&cap)).unwrap();
    assert_eq!(
        plan.holes,
        vec![
            BarHoleInfo { gpa: bar, size: 0x1000, offset_in_hole: 0x800, usage: BarHoleInfoUsage::Table },
            BarHoleInfo { gpa: bar, size: 0x1000, offset_in_hole: 0xc00, usage: BarHoleInfoUsage::Pba },
        ]
    );
    let mut dev = bundle(bars, plan.holes, regions);
    dev.msix_cap = Some(cap);
    dev.msix_config = Some(MsixConfig::new(8));
    assert_eq!(dev.bar_access(bar, 0x7ff), BarAccess::Region(0, 0x10_0000 + 0x7ff));
    assert_eq!(dev.bar_access(bar, 0x800), BarAccess::Table(0x800));
    assert_eq!(dev.bar_access(bar, 0x87f), BarAccess::Table(0x87f));
    assert_eq!(dev.bar_access(bar, 0x880), BarAccess::Region(0, 0x10_0000 + 0x880));
    assert_eq!(dev.bar_access(bar, 0xbff), BarAccess::Region(0, 0x10_0000 + 0xbff));
    assert_eq!(dev.bar_access(bar, 0xc00), BarAccess::Pba(0xc00));
    assert_eq!(dev.bar_access(bar, 0xc07), BarAccess::Pba(0xc07));
    assert_eq!(dev.bar_access(bar, 0xc08), BarAccess::Region(0, 0x10_0000 + 0xc08));
    // A write to the second entry of the table arrives there.
    assert_eq!(dev.write(bar, 0x810, &le32(0xfee0_1000)), BarAccess::Table(0x810));
    let mut word = [0u8; 4];
    assert_eq!(dev.read(bar, 0x810, &mut word), BarAccess::Table(0x810));
    assert_eq!(u32::from_le_bytes(word), 0xfee0_1000);
}

#[test]
fn bundle_validity() {
    let bar = |idx: u32, gpa: u64, size: u64, wide: bool| BarInfo {
        idx,
        gpa,
        size,
        is_64_bits: wide,
        is_prefetchable: false,
        about_to_read_size: false,
    };
    assert!(bars_apart(&vec![bar(0, 0x1000, 0x1000, true), bar(2, 0x2000, 0x1000, false)]));
    // Two BARs that share an address, and two that share a register.
    assert!(!bars_apart(&vec![bar(0, 0x1000, 0x1000, false), bar(1, 0x1fff, 0x1000, false)]));
    assert!(!bars_apart(&vec![bar(0, 0x1000, 0x1000, true), bar(1, 0x2000, 0x1000, false)]));
    assert!(!bars_apart(&vec![bar(3, 0x1000, 0x1000, false), bar(3, 0x2000, 0x1000, false)]));
    assert!(!bars_apart(&vec![bar(0, 0x1000, 0, false)]));
    assert!(!bars_apart(&vec![bar(0, u64::MAX, 2, false)]));

    let cap = MsixCap { msg_ctl: 7, table_offset: 0x1000, pba_offset: 0x2000 };
    let regions = vec![region(0, 7, 0x4000, 0x10_0000, vec![VfioRegionCap::MsixMappable])];
    let bars = vec![bar(0, 0xd000_0000, 0x4000, false)];
    let plan = mmap_bars(&bars, &regions, Some(&cap)).unwrap();
    let mut dev = bundle(bars, plan.holes.clone(), regions);
    dev.msix_cap = Some(cap);
    assert!(dev.is_wf());
    // Holes that are not those of the plan.
    let mut other = dev.clone();
    other.bar_hole_infos[0].size = 0x2000;
    assert!(!other.is_wf());
    let mut other = dev.clone();
    other.bar_hole_infos.pop();
    assert!(!other.is_wf());
    // The table and the pending bits in the same bytes.
    let mut other = dev.clone();
    other.msix_cap = Some(MsixCap { msg_ctl: 7, table_offset: 0x1000, pba_offset: 0x1040 });
    other.bar_hole_infos = mmap_bars(&other.bar_infos, &other.device.region_infos, other.msix_cap.as_ref())
        .unwrap()
        .holes;
    assert!(!other.is_wf());
    // A BAR without its region.
    let mut other = dev.clone();
    other.bar_infos[0].idx = 1;
    assert!(!other.is_wf());
}

#[test]
fn holes_end_with_their_bar() {
    // A BAR of 0x800 bytes holds the table; the next BAR follows at once.
    let small = BarInfo {
        idx: 0,
        gpa: 0xc000_0000,
        size: 0x800,
        is_64_bits: false,
        is_prefetchable: false,
        about_to_read_size: false,
    };
    let next = BarInfo { idx: 1, gpa: 0xc000_0800, size: 0x800, ..small };
    let cap = MsixCap { msg_ctl: 7, table_offset: 0x0000, pba_offset: 0x0400 };
    let regions = vec![
        region(0, 7, 0x800, 0, vec![VfioRegionCap::MsixMappable]),
        region(1, 3, 0x800, 0x100_0000_0000, Vec::new()),
    ];
    let plan = mmap_bars(&vec![small, next], &regions, Some(&cap)).unwrap();
    assert_eq!(
        plan.holes,
        vec![
            BarHoleInfo { gpa: 0xc000_0000, size: 0x800, offset_in_hole: 0, usage: BarHoleInfoUsage::Table },
            BarHoleInfo { gpa: 0xc000_0000, size: 0x800, offset_in_hole: 0x400, usage: BarHoleInfoUsage::Pba },
        ]
    );
    assert!(plan.mappings.is_empty());
    let mut dev = bundle(vec![small, next], plan.holes, regions.clone());
    dev.msix_cap = Some(cap);
    assert_eq!(dev.bar_access(0xc000_0000, 0x10), BarAccess::Table(0x10));
    // The second BAR is its own.
    assert_eq!(dev.bar_access(0xc000_0800, 0), BarAccess::Region(1, 0x100_0000_0000));
    assert_eq!(dev.bar_access(0xc000_0800, 0x7ff), BarAccess::Region(1, 0x100_0000_07ff));

    // A table that ends with its BAR is in order; one that passes the end is refused.
    let far = MsixCap { msg_ctl: 7, table_offset: 0x0780, pba_offset: 0x0400 };
    assert_eq!(mmap_bars(&vec![small, next], &regions, Some(&far)).unwrap().holes.len(), 2);
    let beyond = MsixCap { msg_ctl: 7, table_offset: 0x0788, pba_offset: 0x0400 };
    assert_eq!(
        mmap_bars(&vec![small, next], &regions, Some(&beyond)).unwrap_err(),
        VfioError::MsixOutsideBar(0)
    );
    let pba_beyond = MsixCap { msg_ctl: 7, table_offset: 0x0000, pba_offset: 0x0801 };
    assert_eq!(
        mmap_bars(&vec![small, next], &regions, Some(&pba_beyond)).unwrap_err(),
        VfioError::MsixOutsideBar(1)
    );
    // A mapping cannot pass the end of its BAR either.
    let wide = vec![region(0, 7, 0x2000, 0, Vec::new())];
    let page = BarInfo { size: 0x1000, ..small };
    assert_eq!(mmap_bars(&vec![page], &wide, None).unwrap_err(), VfioError::InvalidMmapArea(0));
}

#[test]
fn pba_hole_dispatch() {
    let bar = 0xd000_0000u64;
    let mut dev = bundle(
        vec![BarInfo {
            idx: 0,
            gpa: bar,
            size: 0x2000,
            is_64_bits: false,
            is_prefetchable: false,
            about_to_read_size: false,
        }],
        vec![BarHoleInfo { gpa: bar + 0x1000, size: 0x1000, offset_in_hole: 0x800, usage: BarHoleInfoUsage::Pba }],
        vec![region(0, 7, 0x2000, 0x10_0000, Vec::new())],
    );
    // Eight vectors: the array has eight bytes. The table lies in another BAR.
    dev.msix_cap = Some(MsixCap { msg_ctl: 7, table_offset: 0x0001, pba_offset: 0x1800 });
    dev.msix_config = Some(MsixConfig::new(8));
    // In the page of the hole, before the array starts: forwarded.
    assert_eq!(dev.bar_access(bar, 0x1000), BarAccess::Region(0, 0x10_0000 + 0x1000));
    let mut word = [0x11u8; 4];
    assert_eq!(dev.read(bar, 0x1800, &mut word), BarAccess::Pba(0x1800));
    assert_eq!(word, [0, 0, 0, 0]);
    assert_eq!(dev.bar_access(bar, 0x1807), BarAccess::Pba(0x1807));
    // In the page of the hole, behind the array: forwarded as well.
    let mut beyond = [0x22u8; 8];
    assert_eq!(dev.read(bar, 0x1808, &mut beyond), BarAccess::Region(0, 0x10_0000 + 0x1808));
    assert_eq!(beyond, [0x22; 8]);
    // Without the capability nothing is served here.
    let cap = dev.msix_cap.take();
    assert_eq!(dev.bar_access(bar, 0x1800), BarAccess::Region(0, 0x10_0000 + 0x1800));
    dev.msix_cap = cap;
    // The guest cannot write the array.
    assert_eq!(dev.write(bar, 0x1800, &le32(0xffff_ffff)), BarAccess::Pba(0x1800));
    dev.read(bar, 0x1800, &mut word);
    assert_eq!(word, [0, 0, 0, 0]);
}

#[test]
fn msix_config_words() {
    let mut config = MsixConfig::new(2);
    assert!(config.is_masked(0));
    assert!(config.is_masked(1));
    assert!(config.is_masked(2));
    let mut word = [0u8; 4];
    config.read_table(12, &mut word);
    assert_eq!(u32::from_le_bytes(word), 1);
    config.write_table(12, &le32(0));
    assert!(!config.is_masked(0));
    // Not aligned: reads zero, writes nothing.
    let mut pair = [0x77u8; 8];
    config.read_table(4, &mut pair);
    assert_eq!(pair, [0u8; 8]);
    config.write_table(2, &le32(0xdead_beef));
    config.read_table(0, &mut word);
    assert_eq!(u32::from_le_bytes(word), 0);
    // Eight bytes at once.
    config.write_table(16, &0x0000_0002_fee0_1000u64.to_le_bytes());
    config.read_table(16, &mut pair);
    assert_eq!(u64::from_le_bytes(pair), 0x0000_0002_fee0_1000);
    // Beyond the table.
    config.read_table(32, &mut word);
    assert_eq!(word, [0xff; 4]);
    let mut odd = [1u8, 2, 3];
    config.read_table(0, &mut odd);
    assert_eq!(odd, [1, 2, 3]);
}

#[test]
fn vfio_attach_ordering() {
    let mut container = VfioContainer::new();
    // Before any group is attached, the IOMMU driver cannot be set.
    assert_eq!(
        vfio_container_set_iommu(&mut container, VFIO_TYPE1V2_IOMMU),
        Err(VfioError::ContainerSetIOMMU(22))
    );
    assert_eq!(container.iommu_type(), None);
    assert_eq!(container.set_iommu(2), Err(VfioError::VfioInvalidType));
    // The first group asks for the driver to be set, and then it succeeds once.
    assert!(container.group_set_container(12));
    assert_eq!(container.set_iommu(VFIO_TYPE1V2_IOMMU), Ok(()));
    assert_eq!(container.iommu_type(), Some(VFIO_TYPE1V2_IOMMU));
    assert_eq!(container.set_iommu(VFIO_TYPE1V2_IOMMU), Err(VfioError::ContainerSetIOMMU(22)));
    assert_eq!(container.set_iommu(VFIO_TYPE1_IOMMU), Err(VfioError::ContainerSetIOMMU(22)));
    // A second group does not ask for it again.
    assert!(!container.group_set_container(13));
    assert!(!container.group_set_container(12));
    assert_eq!(container.num_groups(), 2);
    assert!(container.has_group(13));
    // A container that loses its last group loses its driver.
    container.group_unset_container(12);
    assert_eq!(container.iommu_type(), Some(VFIO_TYPE1V2_IOMMU));
    container.group_unset_container(13);
    assert_eq!(container.iommu_type(), None);
    assert_eq!(container.num_groups(), 0);
    assert!(container.group_set_container(13));
}

#[test]
fn attach_requests_name_the_driver_type() {
    let mut step = AttachStep::OpenContainer;
    let mut trace = Vec::new();
    while step != AttachStep::Attached {
        trace.extend(attach_requests(step));
        step = do_vfio_magic(step, true, 0);
    }
    assert_eq!(
        trace,
        vec![
            VfioRequest::GetApiVersion,
            VfioRequest::CheckExtension(VFIO_TYPE1V2_IOMMU),
            VfioRequest::GroupGetStatus,
            VfioRequest::GroupSetContainer,
            VfioRequest::SetIommu(VFIO_TYPE1V2_IOMMU),
            VfioRequest::GroupGetDeviceFd,
            VfioRequest::DeviceGetInfo,
            VfioRequest::DeviceGetRegionInfo,
            VfioRequest::DeviceGetIrqInfo,
            VfioRequest::IommuMapDma,
            VfioRequest::IommuMapDma,
        ]
    );
    assert_eq!(VFIO_TYPE1V2_IOMMU, 3);
    assert!(attach_requests(AttachStep::SizeBars).is_empty());
    assert_eq!(attach_requests(AttachStep::ResetDevice), vec![VfioRequest::DeviceReset]);
}

#[test]
fn attach_unwinding() {
    // Before the group is in its container there is nothing to take back.
    assert_eq!(unwind_attach(AttachStep::OpenContainer), vec![]);
    assert_eq!(unwind_attach(AttachStep::OpenGroup), vec![]);
    assert_eq!(unwind_attach(AttachStep::SetContainer), vec![]);
    // From then on the group is removed.
    for step in [
        AttachStep::SetIommu,
        AttachStep::GetDevice,
        AttachStep::GetDeviceInfo,
        AttachStep::ResetDevice,
        AttachStep::GetRegionInfos,
        AttachStep::GetIrqInfos,
        AttachStep::GetPciCapabilities,
        AttachStep::SizeBars,
        AttachStep::SizeExpansionRom,
    ] {
        assert_eq!(unwind_attach(step), vec![UndoAction::RemoveGroup], "{:?}", step);
    }
    // Mappings are taken back before the group, the latest first.
    assert_eq!(unwind_attach(AttachStep::MapBars), vec![UndoAction::RemoveMemorySlots, UndoAction::RemoveGroup]);
    let all = vec![UndoAction::UnmapGuestMemory, UndoAction::RemoveMemorySlots, UndoAction::RemoveGroup];
    assert_eq!(unwind_attach(AttachStep::MapGuestMemory), all);
    assert_eq!(unwind_attach(AttachStep::Attached), all);
}

#[test]
fn attach_steps_in_order() {
    let mut step = AttachStep::OpenContainer;
    let mut seen = Vec::new();
    while step != AttachStep::Attached {
        seen.push(step);
        step = do_vfio_magic(step, true, 1);
    }
    assert_eq!(
        seen,
        vec![
            AttachStep::OpenContainer,
            AttachStep::OpenGroup,
            AttachStep::SetContainer,
            AttachStep::SetIommu,
            AttachStep::GetDevice,
            AttachStep::GetDeviceInfo,
            AttachStep::ResetDevice,
            AttachStep::GetRegionInfos,
            AttachStep::GetIrqInfos,
            AttachStep::GetPciCapabilities,
            AttachStep::SizeBars,
            AttachStep::SizeExpansionRom,
            AttachStep::MapBars,
            AttachStep::MapGuestMemory,
        ]
    );
    assert_eq!(do_vfio_magic(AttachStep::SetContainer, false, 0), AttachStep::GetDevice);
    assert_eq!(do_vfio_magic(AttachStep::GetDeviceInfo, true, 0), AttachStep::GetRegionInfos);
    assert_eq!(do_vfio_magic(AttachStep::GetDeviceInfo, true, 3), AttachStep::ResetDevice);
    assert_eq!(do_vfio_magic(AttachStep::Attached, true, 1), AttachStep::Attached);
    assert!(vfio_device_reset(&VfioDeviceInfo { flags: 1, num_regions: 0, num_irqs: 0 }));
    assert!(!vfio_device_reset(&VfioDeviceInfo { flags: 2, num_regions: 0, num_irqs: 0 }));
}

#[test]
fn group_id_parsing() {
    assert_eq!(group_id_from_device_path(b"../../../kernel/iommu_groups/42"), Ok(42));
    assert_eq!(group_id_from_device_path(b"7"), Ok(7));
    assert_eq!(group_id_from_device_path(b"/sys/kernel/iommu_groups/007"), Ok(7));
    assert_eq!(group_id_from_device_path(b"/a/4294967295"), Ok(u32::MAX));
    assert_eq!(group_id_from_device_path(b"/a/4294967296"), Err(VfioError::InvalidPath));
    assert_eq!(group_id_from_device_path(b"/a/"), Err(VfioError::InvalidPath));
    assert_eq!(group_id_from_device_path(b""), Err(VfioError::InvalidPath));
    assert_eq!(group_id_from_device_path(b"/a/12x"), Err(VfioError::InvalidPath));
    assert_eq!(group_id_from_device_path(b"/a/-1"), Err(VfioError::InvalidPath));
}

#[test]
fn ioctl_answers() {
    assert_eq!(check_extension(-1), Err(VfioError::VfioExtension));
    assert_eq!(check_extension(1), Ok(1));
    assert_eq!(set_iommu(-1, 16), Err(VfioError::ContainerSetIOMMU(16)));
    assert_eq!(set_iommu(0, 16), Ok(()));
    assert_eq!(map_dma(5, 12), Err(VfioError::IommuDmaMap(12)));
    assert_eq!(map_dma(0, 12), Ok(()));
    assert_eq!(unmap_dma(-1, 2), Err(VfioError::IommuDmaUnmap(2)));
    assert_eq!(unmap_dma(0, 2), Ok(()));
    assert_eq!(group_get_status(-1), Err(VfioError::GetGroupStatus));
    assert_eq!(group_get_status(0), Ok(()));
    assert_eq!(group_get_device_fd(-1, 19), Err(VfioError::GroupGetDeviceFD(19)));
    assert_eq!(group_get_device_fd(9, 0), Ok(9));
    assert_eq!(group_set_container(-1), Err(VfioError::GroupSetContainer));
    assert_eq!(group_set_container(0), Ok(()));
    assert_eq!(group_unset_container(-1), Err(VfioError::UnsetContainer));
    assert_eq!(group_unset_container(0), Ok(()));
    assert_eq!(device_get_info(-1, 25), Err(VfioError::VfioDeviceGetInfo(25)));
    assert_eq!(device_get_info(0, 25), Ok(()));
    assert_eq!(device_get_irq_info(-1, 22), Err(VfioError::VfioDeviceGetIrqInfo(22)));
    assert_eq!(device_get_irq_info(0, 22), Ok(()));
    assert_eq!(device_get_region_info(-1, 22), Err(VfioError::VfioDeviceGetRegionInfo(22)));
    assert_eq!(device_get_region_info(0, 22), Ok(()));
    assert_eq!(device_set_irqs(0, 20, 0), Err(VfioError::VfioDeviceSetIrq));
    assert_eq!(device_set_irqs(1, 21, 0), Err(VfioError::VfioDeviceSetIrq));
    assert_eq!(device_set_irqs(1, 20, -1), Err(VfioError::VfioDeviceSetIrq));
    assert_eq!(device_set_irqs(1, 20, 0), Ok(()));
    assert_eq!(device_set_irqs(2, 24, 0), Ok(()));
    assert_eq!(vfio_check_api_version(0), Ok(()));
    assert_eq!(vfio_check_api_version(1), Err(VfioError::VfioApiVersion));
    assert_eq!(vfio_check_api_version(-1), Err(VfioError::VfioApiVersion));
    assert_eq!(vfio_check_extension(2, 1), Err(VfioError::VfioInvalidType));
    assert_eq!(vfio_check_extension(3, -1), Err(VfioError::VfioExtension));
    assert_eq!(vfio_check_extension(3, 0), Err(VfioError::VfioType1V2));
    assert_eq!(vfio_check_extension(3, 1), Ok(()));
    assert_eq!(vfio_check_extension(1, 1), Ok(()));
    assert_eq!(vfio_group_check_status(1), Ok(()));
    assert_eq!(vfio_group_check_status(0), Err(VfioError::GroupViable));
    assert_eq!(vfio_group_check_status(3), Err(VfioError::GroupViable));
}

#[test]
fn test_vfio_error_fmt() {
    let e = VfioError::GetGroupStatus;
    let e2 = VfioError::OpenContainer(5);
    let str = e.to_string();

    assert_eq!(&str, "failed to get Group Status");
    assert!(e2.errno().is_some());
    assert!(e.errno().is_none());
}

#[test]
fn vfio_error_numbers() {
    assert_eq!(VfioError::OpenGroup(13, 4).errno(), Some(13));
    assert_eq!(VfioError::IommuDmaMap(12).errno(), Some(12));
    assert_eq!(VfioError::ResourceExhausted.errno(), None);
    assert_eq!(VfioError::InvalidMmapArea(2).errno(), None);
    assert_eq!(VfioError::GroupViable.to_string(), "group is not viable");
}

#[test]
fn region_info_without_caps() {
    let reply = region_reply(32, 7, 2, 0, 0x4000, 0x200_0000_0000);
    let info = parse_region_info(&reply).unwrap();
    assert_eq!(info.flags, 7);
    assert_eq!(info.index, 2);
    assert_eq!(info.size, 0x4000);
    assert_eq!(info.offset, 0x200_0000_0000);
    assert!(info.caps.is_empty());
    assert!(!region_info_has_caps(7, 64));
    assert!(!region_info_has_caps(8, 32));
    assert!(region_info_has_caps(8 | 7, 33));
    assert_eq!(parse_region_info(&reply[..31]).unwrap_err(), VfioError::InvalidCapabilityChain);
}

#[test]
fn region_info_capability_chain() {
    // Header, then: msix mappable at 32, sparse mmap with two areas at 40, an unknown
    // capability at 88, type at 96.
    let mut reply = region_reply(112, 8 | 4 | 3, 1, 32, 0x10000, 0x100_0000_0000);
    // 32: MSIX_MAPPABLE
    reply.extend_from_slice(&3u16.to_le_bytes());
    reply.extend_from_slice(&1u16.to_le_bytes());
    reply.extend_from_slice(&40u32.to_le_bytes());
    // 40: SPARSE_MMAP, two areas
    reply.extend_from_slice(&1u16.to_le_bytes());
    reply.extend_from_slice(&1u16.to_le_bytes());
    reply.extend_from_slice(&88u32.to_le_bytes());
    reply.extend_from_slice(&2u32.to_le_bytes());
    reply.extend_from_slice(&0u32.to_le_bytes());
    reply.extend_from_slice(&0u64.to_le_bytes());
    reply.extend_from_slice(&0x1000u64.to_le_bytes());
    reply.extend_from_slice(&0x2000u64.to_le_bytes());
    reply.extend_from_slice(&0xe000u64.to_le_bytes());
    // 88: unknown id
    reply.extend_from_slice(&99u16.to_le_bytes());
    reply.extend_from_slice(&1u16.to_le_bytes());
    reply.extend_from_slice(&96u32.to_le_bytes());
    // 96: TYPE
    reply.extend_from_slice(&2u16.to_le_bytes());
    reply.extend_from_slice(&1u16.to_le_bytes());
    reply.extend_from_slice(&0u32.to_le_bytes());
    reply.extend_from_slice(&0x8086u32.to_le_bytes());
    reply.extend_from_slice(&0x1u32.to_le_bytes());
    assert_eq!(reply.len(), 112);

    let info = parse_region_info(&reply).unwrap();
    assert_eq!(
        info.caps,
        vec![
            VfioRegionCap::MsixMappable,
            VfioRegionCap::SparseMmap(VfioRegionCapSparseMmap {
                areas: vec![
                    VfioRegionSparseMmapArea { offset: 0, size: 0x1000 },
                    VfioRegionSparseMmapArea { offset: 0x2000, size: 0xe000 },
                ],
            }),
            VfioRegionCap::Type(VfioRegionCapType { type_: 0x8086, subtype: 1 }),
        ]
    );

    // A chain that points at itself is refused.
    let mut cycle = region_reply(40, 8, 0, 32, 0, 0);
    cycle.extend_from_slice(&3u16.to_le_bytes());
    cycle.extend_from_slice(&1u16.to_le_bytes());
    cycle.extend_from_slice(&32u32.to_le_bytes());
    assert_eq!(parse_region_info(&cycle).unwrap_err(), VfioError::InvalidCapabilityChain);
    // And so is one that leaves the reply.
    let mut outside = region_reply(40, 8, 0, 36, 0, 0);
    outside.extend_from_slice(&[0u8; 8]);
    assert_eq!(parse_region_info(&outside).unwrap_err(), VfioError::InvalidCapabilityChain);
}

#[test]
fn region_and_irq_infos() {
    let mut replies = Vec::new();
    for i in 0..8u32 {
        replies.push(RegionReply::Info(region_reply(32, 3, i, 0, 0x1000 * i as u64, (i as u64) << 40)));
    }
    // The optional VGA region does not exist.
    replies.push(RegionReply::Failed(22));
    let regions = vfio_device_get_region_infos(&replies).unwrap();
    assert_eq!(regions.len(), 8);
    assert_eq!(regions[7].index, 7);
    assert_eq!(regions[7].offset, 7 << 40);

    // Any other failure ends the attach.
    replies[8] = RegionReply::Failed(5);
    assert_eq!(vfio_device_get_region_infos(&replies).unwrap_err(), VfioError::VfioDeviceGetRegionInfo(5));
    replies[8] = RegionReply::Failed(22);
    replies[3] = RegionReply::Failed(22);
    assert_eq!(vfio_device_get_region_infos(&replies).unwrap_err(), VfioError::VfioDeviceGetRegionInfo(22));

    let irq = VfioIrqInfo { flags: 1, index: 2, count: 8 };
    assert_eq!(vfio_device_get_irq_infos(&vec![IrqReply::Info(irq), IrqReply::Info(irq)]).unwrap(), vec![irq, irq]);
    assert_eq!(
        vfio_device_get_irq_infos(&vec![IrqReply::Info(irq), IrqReply::Failed(14)]).unwrap_err(),
        VfioError::VfioDeviceGetIrqInfo(14)
    );

    let info = VfioDeviceInfo { flags: 3, num_regions: 9, num_irqs: 1 };
    replies[3] = RegionReply::Info(region_reply(32, 3, 3, 0, 0, 0));
    let device = get_device(info, &replies, &vec![IrqReply::Info(irq)]).unwrap();
    assert_eq!(device.info, info);
    assert_eq!(device.region_infos.len(), 8);
    assert_eq!(device.irq_infos, vec![irq]);
    assert_eq!(
        get_device(info, &replies, &vec![IrqReply::Failed(1)]).unwrap_err(),
        VfioError::VfioDeviceGetIrqInfo(1)
    );
}

fn config_space() -> Vec<u8> {
    let mut cfg = vec![0u8; 4096];
    cfg[0..4].copy_from_slice(&0x1572_8086u32.to_le_bytes());
    cfg[8..12].copy_from_slice(&0x0200_0012u32.to_le_bytes());
    // Standard list: 0x40 power management -> 0x50 MSI -> 0x70 MSI-X -> 0xa0 PCIe.
    cfg[0x34] = 0x40;
    cfg[0x40] = 0x01;
    cfg[0x41] = 0x50;
    cfg[0x50] = 0x05;
    cfg[0x51] = 0x70;
    cfg[0x52..0x54].copy_from_slice(&0x0080u16.to_le_bytes());
    cfg[0x70] = 0x11;
    cfg[0x71] = 0xa0;
    cfg[0x72..0x74].copy_from_slice(&0x803fu16.to_le_bytes());
    cfg[0x74..0x78].copy_from_slice(&0x0000_0003u32.to_le_bytes());
    cfg[0x78..0x7c].copy_from_slice(&0x0000_1003u32.to_le_bytes());
    cfg[0xa0] = 0x10;
    cfg[0xa1] = 0x00;
    // Extended list: 0x100 AER -> 0x140 ARI -> 0x160 SR-IOV -> 0x1a0 resizable BAR.
    cfg[0x100..0x104].copy_from_slice(&((0x140u32 << 20) | (1 << 16) | 0x0001).to_le_bytes());
    cfg[0x140..0x144].copy_from_slice(&((0x160u32 << 20) | (1 << 16) | 0x000e).to_le_bytes());
    cfg[0x160..0x164].copy_from_slice(&((0x1a0u32 << 20) | (1 << 16) | 0x0010).to_le_bytes());
    cfg[0x1a0..0x1a4].copy_from_slice(&((1u32 << 16) | 0x0015).to_le_bytes());
    cfg
}

#[test]
fn pci_capability_walk() {
    let cfg = config_space();
    let irqs = vec![
        VfioIrqInfo { flags: 0, index: 0, count: 1 },
        VfioIrqInfo { flags: 0, index: 1, count: 1 },
        VfioIrqInfo { flags: 0, index: 2, count: 64 },
    ];
    let (msi, msix, masks) = vfio_device_get_pci_capabilities(&cfg, &irqs).unwrap();
    assert_eq!(msi, Some(MsiCap { msg_ctl: 0x0080 }));
    assert_eq!(msix, Some(MsixCap { msg_ctl: 0x803f, table_offset: 3, pba_offset: 0x1003 }));
    assert_eq!(
        masks,
        Some(vec![
            RegisterMask { register: 0x140 / 4, mask: 0xffff_0000, value: 0 },
            RegisterMask { register: 0x160 / 4, mask: 0xffff_0000, value: 0 },
            RegisterMask { register: 0x1a0 / 4, mask: 0xffff_0000, value: 0 },
        ])
    );

    // Without vectors the capabilities are not recorded.
    let none = vec![VfioIrqInfo { flags: 0, index: 0, count: 1 }, VfioIrqInfo { flags: 0, index: 1, count: 0 }];
    let (msi, msix, _) = vfio_device_get_pci_capabilities(&cfg, &none).unwrap();
    assert_eq!(msi, None);
    assert_eq!(msix, None);

    // Without power management the extended list is not walked.
    let mut plain = config_space();
    plain[0x34] = 0x50;
    let (_, _, masks) = vfio_device_get_pci_capabilities(&plain, &irqs).unwrap();
    assert_eq!(masks, None);

    // No list at all.
    let mut empty = config_space();
    empty[0x34] = 0;
    assert_eq!(vfio_device_get_pci_capabilities(&empty, &irqs).unwrap(), (None, None, None));
}

#[test]
fn pci_capability_walk_errors() {
    let irqs = vec![VfioIrqInfo { flags: 0, index: 0, count: 1 }; 3];
    // A list that runs in a circle.
    let mut cycle = config_space();
    cycle[0xa1] = 0x40;
    assert_eq!(
        vfio_device_get_pci_capabilities(&cycle, &irqs).unwrap_err(),
        VfioError::InvalidCapabilityChain
    );
    // The extended list lies beyond a configuration space of 256 bytes.
    let short = config_space()[..256].to_vec();
    assert_eq!(
        vfio_device_get_pci_capabilities(&short, &irqs).unwrap_err(),
        VfioError::RegionAccessOutOfBounds
    );
    assert_eq!(
        vfio_device_get_pci_capabilities(&short[..0x34], &irqs).unwrap_err(),
        VfioError::RegionAccessOutOfBounds
    );
    let mut ext_cycle = config_space();
    ext_cycle[0x1a0..0x1a4].copy_from_slice(&((0x100u32 << 20) | 0x0015).to_le_bytes());
    assert_eq!(
        vfio_device_get_pci_capabilities(&ext_cycle, &irqs).unwrap_err(),
        VfioError::InvalidCapabilityChain
    );
}

#[test]
fn config_space_info() {
    let info = device_get_config_space_info(&config_space()).unwrap();
    assert_eq!(info.vendor_id, 0x86);
    assert_eq!(info.device_id, 0x1572);
    assert_eq!(info.class_code, 0x0002_0000);
    assert_eq!(info.revision_id, 0x2);
    assert_eq!(device_get_config_space_info(&[0u8; 11]).unwrap_err(), VfioError::RegionAccessOutOfBounds);
}

#[test]
fn bar_shapes() {
    // 32-bit memory BAR of 16 KiB.
    let s = bar_shape(&BarProbe { idx: 0, raw: 0xfe00_0000, lower: 0xffff_c000, upper: 0 });
    assert_eq!((s.is_io, s.is_64_bits, s.is_prefetchable, s.size), (false, false, false, 0x4000));
    // 64-bit prefetchable BAR of 8 GiB.
    let s = bar_shape(&BarProbe { idx: 2, raw: 0x0000_000c, lower: 0x0000_000c, upper: 0xffff_fffe });
    assert_eq!((s.is_io, s.is_64_bits, s.is_prefetchable, s.size), (false, true, true, 0x2_0000_0000));
    // I/O BAR of 32 bytes.
    let s = bar_shape(&BarProbe { idx: 4, raw: 0x0000_e001, lower: 0xffff_ffe1, upper: 0 });
    assert_eq!((s.is_io, s.size), (true, 0x20));
    // A BAR that is not implemented.
    let s = bar_shape(&BarProbe { idx: 5, raw: 0, lower: 0, upper: 0 });
    assert_eq!(s.size, 0);
    let s = bar_shape(&BarProbe { idx: 5, raw: 0, lower: 0x0000_000f, upper: 0 });
    assert_eq!(s.size, 0);
}

#[test]
fn bar_prober_walk() {
    // BAR0: 64-bit, 16 KiB. BAR2: not implemented. BAR3: I/O. BAR4: 32-bit 4 KiB.
    // BAR5: not implemented.
    let mut registers: [u32; 7] = [0x0000_0004, 0, 0, 0x0000_e001, 0xfe00_0000, 0, 0];
    let sizes: [u32; 7] = [0xffff_c004, 0xffff_ffff, 0, 0xffff_ffe1, 0xffff_f000, 0, 0];
    let mut prober = BarProber::new();
    let mut trace = Vec::new();
    loop {
        match prober.action() {
            ConfigAction::Done => break,
            ConfigAction::Read(offset) => {
                trace.push(('r', offset));
                prober.advance(registers[((offset - 0x10) / 4) as usize]);
            }
            ConfigAction::Write(offset, value) => {
                assert_eq!(value, 0xffff_ffff);
                trace.push(('w', offset));
                let at = ((offset - 0x10) / 4) as usize;
                registers[at] = sizes[at];
                prober.advance(0);
            }
        }
    }
    assert_eq!(
        trace,
        vec![
            ('r', 0x10), ('w', 0x10), ('r', 0x10), ('w', 0x14), ('r', 0x14),
            ('r', 0x18), ('w', 0x18), ('r', 0x18),
            ('r', 0x1c), ('w', 0x1c), ('r', 0x1c),
            ('r', 0x20), ('w', 0x20), ('r', 0x20),
            ('r', 0x24), ('w', 0x24), ('r', 0x24),
        ]
    );
    let probes = prober.finish();
    assert_eq!(
        probes,
        vec![
            BarProbe { idx: 0, raw: 4, lower: 0xffff_c004, upper: 0xffff_ffff },
            BarProbe { idx: 2, raw: 0, lower: 0, upper: 0 },
            BarProbe { idx: 3, raw: 0xe001, lower: 0xffff_ffe1, upper: 0 },
            BarProbe { idx: 4, raw: 0xfe00_0000, lower: 0xffff_f000, upper: 0 },
            BarProbe { idx: 5, raw: 0, lower: 0, upper: 0 },
        ]
    );

    let mut allocator = ResourceAllocator::new();
    let bars = device_get_bar_infos(&probes, &mut allocator).unwrap();
    assert_eq!(bars.len(), 2);
    assert_eq!((bars[0].idx, bars[0].size, bars[0].is_64_bits), (0, 0x4000, true));
    assert_eq!((bars[1].idx, bars[1].size, bars[1].is_64_bits), (4, 0x1000, false));
    assert_eq!(bars[0].gpa, MMIO64_MEM_START);
    assert_eq!(bars[1].gpa, MMIO32_MEM_START);
    assert!(!bars[0].about_to_read_size);
    // The next device gets what follows.
    let more = device_get_bar_infos(&probes, &mut allocator).unwrap();
    assert_eq!(more[0].gpa, MMIO64_MEM_START + 0x4000);
    assert_eq!(more[1].gpa, MMIO32_MEM_START + 0x1000);
}

#[test]
fn bar_allocation_is_disjoint() {
    let mut allocator = ResourceAllocator::with_windows((0x1000, 0x3000), (0x1_0000_0000, 0x10000)).unwrap();
    let first = allocator.allocate(MmioWindow::Mmio32, 0x1000, 64).unwrap();
    let probes = vec![
        BarProbe { idx: 0, raw: 0, lower: 0xffff_f000, upper: 0 },
        BarProbe { idx: 1, raw: 0, lower: 0xffff_f000, upper: 0 },
    ];
    let bars = device_get_bar_infos(&probes, &mut allocator).unwrap();
    assert_eq!(bars.len(), 2);
    // Each range is the lowest that is left.
    assert_eq!((first, bars[0].gpa, bars[1].gpa), (0x1000, 0x2000, 0x3000));
    let mut ranges = vec![(first, 0x1000u64), (bars[0].gpa, bars[0].size), (bars[1].gpa, bars[1].size)];
    ranges.sort();
    assert!(ranges[0].0 >= 0x1000);
    assert!(ranges[0].0 + ranges[0].1 <= ranges[1].0);
    assert!(ranges[1].0 + ranges[1].1 <= ranges[2].0);
    assert!(ranges[2].0 + ranges[2].1 <= 0x4000);
    // The window is full now.
    assert_eq!(allocator.allocate(MmioWindow::Mmio32, 0x1000, 64), Err(ResourceError::Exhausted));
    assert_eq!(
        device_get_bar_infos(&vec![probes[0]], &mut allocator).unwrap_err(),
        VfioError::ResourceExhausted
    );
    // The other window is untouched.
    assert_eq!(allocator.allocate(MmioWindow::Mmio64, 0x10000, 64), Ok(0x1_0000_0000));
    assert_eq!(allocator.allocate(MmioWindow::Mmio64, 1, 1), Err(ResourceError::Exhausted));
    assert_eq!(allocator.allocate(MmioWindow::Mmio64, 0, 64), Err(ResourceError::Exhausted));
}

#[test]
fn allocator_hands_out_the_lowest_free_range() {
    let mut a = ResourceAllocator::with_windows((0x1000, 0x10000), (0x1_0000_0000, 0x10000)).unwrap();
    assert_eq!(a.allocate(MmioWindow::Mmio32, 0x10, 0x1000), Ok(0x1000));
    assert_eq!(a.allocate(MmioWindow::Mmio32, 0x100, 0x100), Ok(0x1100));
    // What the alignment has left free is used by a request that fits into it.
    assert_eq!(a.allocate(MmioWindow::Mmio32, 0x10, 0x10), Ok(0x1010));
    assert_eq!(a.allocate(MmioWindow::Mmio32, 0xe0, 0x20), Ok(0x1020));
    assert_eq!(a.allocate(MmioWindow::Mmio32, 1, 1), Ok(0x1200));
    // A request that is too large for the lowest free part goes behind it.
    assert_eq!(a.allocate(MmioWindow::Mmio32, 0x1000, 0x800), Ok(0x1800));
    assert_eq!(a.allocate(MmioWindow::Mmio32, 0x5ff, 1), Ok(0x1201));
    assert_eq!(a.allocate(MmioWindow::Mmio32, 1, 1), Ok(0x2800));
    // An alignment that is no power of two is refused, and so is an empty range.
    assert_eq!(a.allocate(MmioWindow::Mmio32, 0x10, 3), Err(ResourceError::Exhausted));
    assert_eq!(a.allocate(MmioWindow::Mmio32, 0x10, 0), Err(ResourceError::Exhausted));
    assert_eq!(a.allocate(MmioWindow::Mmio32, 0, 1), Err(ResourceError::Exhausted));
    assert_eq!(a.allocate(MmioWindow::Mmio32, 0x10000, 1), Err(ResourceError::Exhausted));
    // A refused request has taken nothing.
    assert_eq!(a.allocate(MmioWindow::Mmio32, 1, 1), Ok(0x2801));
    // A window can be used up to its last address.
    let mut b = ResourceAllocator::with_windows((0, 0x1000), (u64::MAX - 0x1000, 0x1000)).unwrap();
    assert_eq!(b.allocate(MmioWindow::Mmio64, 0x1000, 1), Ok(u64::MAX - 0x1000));
    assert_eq!(b.allocate(MmioWindow::Mmio64, 1, 1), Err(ResourceError::Exhausted));
    assert_eq!(b.allocate(MmioWindow::Mmio32, 0x1000, 0x1000), Ok(0));
    // A window that reaches the last address of all is refused.
    assert!(ResourceAllocator::with_windows((0, 0x1000), (u64::MAX - 0xfff, 0x1000)).is_none());
}

#[test]
fn allocator_agrees_with_a_search_for_the_lowest_free_range() {
    let (base, len) = (0x1003u64, 0x3000u64);
    let mut allocator = ResourceAllocator::with_windows((base, len), (0x1_0000_0000, 0x1000)).unwrap();
    let mut taken: Vec<(u64, u64)> = Vec::new();
    let mut seed: u64 = 0x2545_f491_4f6c_dd1d;
    let mut served = 0;
    let mut refused = 0;
    for _ in 0..400 {
        seed = seed.wrapping_mul(6364136223846793005).wrapping_add(1442695040888963407);
        let size = 1 + (seed >> 33) % 0x180;
        let alignment = 1u64 << ((seed >> 50) % 9);
        // The lowest aligned address of the window from which `size` addresses are free.
        let expected = (base..base + len).find(|start| {
            start % alignment == 0
                && start + size <= base + len
                && taken.iter().all(|(s, l)| s + l <= *start || start + size <= *s)
        });
        let got = allocator.allocate(MmioWindow::Mmio32, size, alignment);
        match expected {
            Some(start) => {
                assert_eq!(got, Ok(start), "size {:#x} alignment {:#x}", size, alignment);
                taken.push((start, size));
                served += 1;
            }
            None => {
                assert_eq!(got, Err(ResourceError::Exhausted), "size {:#x} alignment {:#x}", size, alignment);
                refused += 1;
            }
        }
    }
    assert!(served > 20 && refused > 20);
}

#[test]
fn resource_allocator_windows_and_slots() {
    assert!(ResourceAllocator::with_windows((0, 0), (0x1000, 0x1000)).is_none());
    assert!(ResourceAllocator::with_windows((0, 0x1000), (0x1000, 0)).is_none());
    assert!(ResourceAllocator::with_windows((0, 0x2000), (0x1000, 0x1000)).is_none());
    assert!(ResourceAllocator::with_windows((0, 0x1000), (u64::MAX, 2)).is_none());
    assert!(ResourceAllocator::with_windows((0, 0x1000), (0x1000, 0x1000)).is_some());
    let mut allocator = ResourceAllocator::new();
    assert_eq!(allocator.next_kvm_slot(1), Some(0));
    assert_eq!(allocator.next_kvm_slot(3), Some(1));
    assert_eq!(allocator.next_kvm_slot(u32::MAX), None);
    assert_eq!(allocator.next_kvm_slot(1), Some(4));
    let a = allocator.allocate(MmioWindow::Mmio32, 0x100, 0x1000).unwrap();
    assert_eq!(a % 0x1000, 0);
    assert!(a >= MMIO32_MEM_START);
}

#[test]
fn bar_placement() {
    let probe = BarProbe { idx: 1, raw: 8, lower: 0xffff_0008, upper: 0 };
    assert_eq!(
        place_bar(&probe, Some(0xd000_0000)),
        Ok(Some(BarInfo {
            idx: 1,
            gpa: 0xd000_0000,
            size: 0x1_0000,
            is_64_bits: false,
            is_prefetchable: true,
            about_to_read_size: false,
        }))
    );
    assert_eq!(place_bar(&probe, None), Err(VfioError::ResourceExhausted));
    let io = BarProbe { idx: 1, raw: 1, lower: 0xffff_ffe1, upper: 0 };
    assert_eq!(place_bar(&io, Some(0x1000)), Ok(None));
    assert_eq!(place_bar(&io, None), Ok(None));
}

#[test]
fn expansion_rom_placement() {
    assert_eq!(place_expansion_rom(0xfff0_0000, 0xffff_0000, Some(0x1000)), Ok(None));
    assert_eq!(place_expansion_rom(0xfff0_0001, 0x0000_07ff, Some(0x1000)), Ok(None));
    assert_eq!(
        place_expansion_rom(0xfff0_0801, 0xffff_0801, Some(0xd000_0040)),
        Ok(Some(ExpansionRomInfo { gpa: 0xd000_0040, size: 0x1_0000, extra: 0x801, about_to_read_size: false }))
    );
    assert_eq!(place_expansion_rom(0xfff0_0001, 0xffff_0001, None), Err(VfioError::ResourceExhausted));
    let mut allocator = ResourceAllocator::with_windows((0x10_0000, 0x2_0000), (0x1_0000_0000, 0x1000)).unwrap();
    let rom = device_get_expansion_rom_info(1, 0xffff_0001, &mut allocator).unwrap().unwrap();
    assert_eq!(rom.size, 0x1_0000);
    assert!(rom.gpa >= 0x10_0000 && rom.gpa + 0x1_0000 <= 0x12_0000);
    assert_eq!(device_get_expansion_rom_info(0, 0xffff_0001, &mut allocator), Ok(None));
    let second = device_get_expansion_rom_info(1, 0xffff_0001, &mut allocator).unwrap().unwrap();
    assert!(second.gpa + 0x1_0000 <= rom.gpa || rom.gpa + 0x1_0000 <= second.gpa);
    assert_eq!(
        device_get_expansion_rom_info(1, 0xffff_0001, &mut allocator),
        Err(VfioError::ResourceExhausted)
    );
}

#[test]
fn page_alignment() {
    assert_eq!(align_page_size_down(0), 0);
    assert_eq!(align_page_size_down(4095), 0);
    assert_eq!(align_page_size_down(4096), 4096);
    assert_eq!(align_page_size_down(0x1fff), 0x1000);
    assert_eq!(align_page_size_up(0), 0);
    assert_eq!(align_page_size_up(1), 4096);
    assert_eq!(align_page_size_up(4096), 4096);
    assert_eq!(align_page_size_up(4097), 8192);
}

fn bar(idx: u32, gpa: u64, size: u64) -> BarInfo {
    BarInfo { idx, gpa, size, is_64_bits: false, is_prefetchable: false, about_to_read_size: false }
}

#[test]
fn mmap_plan_plain_and_holes() {
    let regions = vec![
        region(0, 7, 0x4000, 0x0, Vec::new()),
        region(1, 3, 0x1000, 0x100_0000_0000, Vec::new()),
        region(2, 7, 0x8000, 0x200_0000_0000, vec![VfioRegionCap::MsixMappable]),
    ];
    let bars = vec![bar(0, 0xd000_0000, 0x4000), bar(1, 0xd001_0000, 0x1000), bar(2, 0xd002_0000, 0x8000)];
    // No MSI-X: BAR0 and BAR2 are mapped whole, BAR1 cannot be mapped.
    let plan = mmap_bars(&bars, &regions, None).unwrap();
    assert!(plan.holes.is_empty());
    assert_eq!(plan.mappings.len(), 2);
    assert_eq!(
        (plan.mappings[0].bar_idx, plan.mappings[0].gpa, plan.mappings[0].size, plan.mappings[0].file_offset),
        (0, 0xd000_0000, 0x4000, 0)
    );
    assert!(plan.mappings[0].readable && plan.mappings[0].writable);
    assert_eq!((plan.mappings[1].bar_idx, plan.mappings[1].size), (2, 0x8000));

    // Table of 8 entries at 0x1000 and pending bits at 0x3000 of BAR2.
    let cap = MsixCap { msg_ctl: 7, table_offset: 0x1002, pba_offset: 0x3002 };
    let plan = mmap_bars(&bars, &regions, Some(&cap)).unwrap();
    assert_eq!(
        plan.holes,
        vec![
            BarHoleInfo { gpa: 0xd002_1000, size: 0x1000, offset_in_hole: 0, usage: BarHoleInfoUsage::Table },
            BarHoleInfo { gpa: 0xd002_3000, size: 0x1000, offset_in_hole: 0, usage: BarHoleInfoUsage::Pba },
        ]
    );
    let of_bar2: Vec<(u64, u64, u64)> = plan
        .mappings
        .iter()
        .filter(|m| m.bar_idx == 2)
        .map(|m| (m.gpa, m.size, m.file_offset))
        .collect();
    assert_eq!(
        of_bar2,
        vec![
            (0xd002_0000, 0x1000, 0x200_0000_0000),
            (0xd002_2000, 0x1000, 0x200_0000_2000),
            (0xd002_4000, 0x4000, 0x200_0000_4000),
        ]
    );
}

#[test]
fn mmap_plan_unaligned_table_and_shared_page() {
    // The table starts in the middle of a page and ends in the next one; the pending
    // bits share the second page.
    let cap = MsixCap { msg_ctl: 0xff, table_offset: 0x0800, pba_offset: 0x1800 };
    let regions = vec![region(0, 7, 0x4000, 0x1000_0000, vec![VfioRegionCap::MsixMappable])];
    let plan = mmap_bars(&vec![bar(0, 0xd000_0000, 0x4000)], &regions, Some(&cap)).unwrap();
    assert_eq!(
        plan.holes,
        vec![
            BarHoleInfo { gpa: 0xd000_0000, size: 0x2000, offset_in_hole: 0x800, usage: BarHoleInfoUsage::Table },
            BarHoleInfo { gpa: 0xd000_1000, size: 0x1000, offset_in_hole: 0x800, usage: BarHoleInfoUsage::Pba },
        ]
    );
    assert_eq!(plan.mappings.len(), 1);
    assert_eq!((plan.mappings[0].gpa, plan.mappings[0].size), (0xd000_2000, 0x2000));
}

#[test]
fn mmap_plan_sparse_and_unmappable() {
    let cap = MsixCap { msg_ctl: 7, table_offset: 0x1000, pba_offset: 0x2000 };
    let sparse = VfioRegionCap::SparseMmap(VfioRegionCapSparseMmap {
        areas: vec![
            VfioRegionSparseMmapArea { offset: 0, size: 0x1000 },
            // This one covers the table and is left out.
            VfioRegionSparseMmapArea { offset: 0x1000, size: 0x1000 },
            VfioRegionSparseMmapArea { offset: 0x3000, size: 0x1000 },
        ],
    });
    let regions = vec![region(0, 3, 0x4000, 0x7000, vec![VfioRegionCap::Type(VfioRegionCapType { type_: 1, subtype: 2 }), sparse])];
    let plan = mmap_bars(&vec![bar(0, 0x1_0000_0000, 0x4000)], &regions, Some(&cap)).unwrap();
    assert_eq!(plan.holes.len(), 2);
    let got: Vec<(u64, u64, u64)> = plan.mappings.iter().map(|m| (m.gpa, m.size, m.file_offset)).collect();
    assert_eq!(got, vec![(0x1_0000_0000, 0x1000, 0x7000), (0x1_0000_3000, 0x1000, 0xa000)]);

    // A region that holds the table and says nothing about mapping around it is not
    // mapped at all, but its holes are recorded.
    let silent = vec![region(0, 7, 0x4000, 0, Vec::new())];
    let plan = mmap_bars(&vec![bar(0, 0x1_0000_0000, 0x4000)], &silent, Some(&cap)).unwrap();
    assert_eq!(plan.holes.len(), 2);
    assert!(plan.mappings.is_empty());
}

#[test]
fn mmap_plan_errors() {
    let regions = vec![region(0, 7, 0x4800, 0, Vec::new())];
    assert_eq!(
        mmap_bars(&vec![bar(0, 0xd000_0000, 0x4000)], &regions, None).unwrap_err(),
        VfioError::InvalidMmapArea(0)
    );
    assert_eq!(
        mmap_bars(&vec![bar(3, 0xd000_0000, 0x4000)], &regions, None).unwrap_err(),
        VfioError::InvalidRegionIndex(3)
    );
    let aligned = vec![region(0, 7, 0x4000, 0, Vec::new())];
    assert_eq!(
        mmap_bars(&vec![bar(0, u64::MAX - 0xfff, 0x4000)], &aligned, None).unwrap_err(),
        VfioError::AddressOverflow(0)
    );
    let outside = vec![region(
        0,
        7,
        0x2000,
        0,
        vec![VfioRegionCap::SparseMmap(VfioRegionCapSparseMmap {
            areas: vec![VfioRegionSparseMmapArea { offset: 0x1000, size: 0x2000 }],
        })],
    )];
    assert_eq!(
        mmap_bars(&vec![bar(0, 0xd000_0000, 0x2000)], &outside, None).unwrap_err(),
        VfioError::InvalidMmapArea(0)
    );
    let empty_region = vec![region(0, 7, 0, 0, Vec::new())];
    assert_eq!(
        mmap_bars(&vec![bar(0, 0xd000_0000, 0)], &empty_region, None).unwrap_err(),
        VfioError::InvalidMmapArea(0)
    );
    assert!(mmap_bars(&Vec::new(), &Vec::new(), None).unwrap().mappings.is_empty());
}

#[test]
fn dma_maps_cover_dram() {
    let regions = vec![
        GuestRegion {
            start: 0,
            size: 0xd000_0000,
            region_type: GuestRegionType::Dram,
            host_addr: 0x7f00_0000_0000,
            readable: true,
            writable: true,
        },
        GuestRegion {
            start: 0xd000_0000,
            size: 0x1000,
            region_type: GuestRegionType::Device,
            host_addr: 0x7e00_0000_0000,
            readable: true,
            writable: true,
        },
        GuestRegion {
            start: 0x1_0000_0000,
            size: 0x4000_0000,
            region_type: GuestRegionType::Dram,
            host_addr: 0x7d00_0000_0000,
            readable: true,
            writable: false,
        },
    ];
    let layout = GuestMemoryLayout::new(regions.clone()).unwrap();
    let maps = dma_map_guest_memory(&layout);
    assert_eq!(maps.len(), 2);
    assert_eq!((maps[0].iova, maps[0].size, maps[0].vaddr, maps[0].flags), (0, 0xd000_0000, 0x7f00_0000_0000, 3));
    assert_eq!(
        (maps[1].iova, maps[1].size, maps[1].vaddr, maps[1].flags),
        (0x1_0000_0000, 0x4000_0000, 0x7d00_0000_0000, 1)
    );
    for r in regions.iter().filter(|r| r.region_type == GuestRegionType::Dram) {
        assert!(maps.iter().any(|m| m.iova == r.start && m.size == r.size));
    }
    assert!(dma_map_guest_memory(&GuestMemoryLayout::new(Vec::new()).unwrap()).is_empty());
}

#[test]
fn vfio_config_paths() {
    let config = VfioConfig { paths: vec![String::from("/sys/bus/pci/devices/0000:01:00.0")] };
    assert_eq!(config.clone().paths.len(), 1);
}

#[test]
fn region_access_bounds() {
    let regions = vec![region(0, 7, 0x1000, 0x10_0000, Vec::new()), region(1, 7, 0x100, u64::MAX - 0x7f, Vec::new())];
    assert_eq!(vfio_device_region_read(&regions, 0, 0x34, 1), Ok(0x10_0034));
    assert_eq!(vfio_device_region_read(&regions, 0, 0xffc, 4), Ok(0x10_0ffc));
    assert_eq!(vfio_device_region_read(&regions, 0, 0xffd, 4), Err(VfioError::RegionAccessOutOfBounds));
    assert_eq!(vfio_device_region_write(&regions, 0, 0x1000, 0), Ok(0x10_1000));
    assert_eq!(vfio_device_region_write(&regions, 0, 0x1001, 0), Err(VfioError::RegionAccessOutOfBounds));
    assert_eq!(vfio_device_region_write(&regions, 2, 0, 1), Err(VfioError::InvalidRegionIndex(2)));
    assert_eq!(vfio_device_region_read(&regions, 1, 0x7e, 1), Ok(u64::MAX - 1));
    assert_eq!(vfio_device_region_read(&regions, 1, 0x7f, 1), Err(VfioError::RegionAccessOutOfBounds));
}

#[test]
fn expansion_rom_mapping() {
    let mut regions: Vec<VfioRegionInfo> = (0..6).map(|i| region(i, 7, 0, 0, Vec::new())).collect();
    let rom = ExpansionRomInfo { gpa: 0xd010_0000, size: 0x1_0000, extra: 1, about_to_read_size: false };
    assert_eq!(mmap_expansion_rom(&rom, &regions).unwrap_err(), VfioError::InvalidRegionIndex(6));
    regions.push(region(6, 1, 0x2_0000, 0x600_0000_0000, Vec::new()));
    let mapping = mmap_expansion_rom(&rom, &regions).unwrap();
    assert_eq!(
        (mapping.bar_idx, mapping.gpa, mapping.size, mapping.file_offset, mapping.readable, mapping.writable),
        (6, 0xd010_0000, 0x1_0000, 0x600_0000_0000, true, false)
    );
    let large = ExpansionRomInfo { size: 0x2_0001, ..rom };
    assert_eq!(mmap_expansion_rom(&large, &regions).unwrap_err(), VfioError::InvalidMmapArea(6));
    let empty = ExpansionRomInfo { size: 0, ..rom };
    assert_eq!(mmap_expansion_rom(&empty, &regions).unwrap_err(), VfioError::InvalidMmapArea(6));
    let high = ExpansionRomInfo { gpa: u64::MAX - 0xffff, ..rom };
    assert_eq!(mmap_expansion_rom(&high, &regions).unwrap_err(), VfioError::AddressOverflow(6));
}

#[test]
fn vfio_error_messages() {
    assert_eq!(VfioError::InvalidPath.to_string(), "invalid file path");
    assert_eq!(VfioError::VfioDeviceSetIrq.to_string(), "failed to set vfio device irq");
    assert_eq!(VfioError::IommuDmaMap(5).to_string(), "failed to add guest memory map into iommu table");
    assert_eq!(VfioError::VfioInvalidType.to_string(), "invalid VFIO type");
}
