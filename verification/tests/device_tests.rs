//! Tests for the base device-operation contract, its inert defaults, and the
//! address-range flavors it is generic over.

use std::sync::{Arc, Mutex};

use axdevice_base::{
    AccessWidth, BaseDeviceOps, DeviceAddrRange, DeviceNotifier, DeviceRegion, EmuDeviceType,
    EmulatedDeviceConfig, GuestPhysAddrRange, InterruptConfig, NotificationConfig, NotifyMethod,
    Permissions, PortRange, RegionDescriptor, RegionId, RegionType, SysRegAddrRange, TriggerMode,
    CpuAffinity, DeviceEvent,
};
use axerrno::{AxError, AxErrorKind, AxResult};

#[test]
fn access_width_sizes() {
    assert_eq!(AccessWidth::Byte.size(), 1);
    assert_eq!(AccessWidth::Word.size(), 2);
    assert_eq!(AccessWidth::Dword.size(), 4);
    assert_eq!(AccessWidth::Qword.size(), 8);
}

#[test]
fn access_width_from_size_round_trips() {
    for w in [AccessWidth::Byte, AccessWidth::Word, AccessWidth::Dword, AccessWidth::Qword] {
        assert_eq!(AccessWidth::try_from_size(w.size()), Some(w));
    }
    assert_eq!(AccessWidth::try_from_size(0), None);
    assert_eq!(AccessWidth::try_from_size(3), None);
    assert_eq!(AccessWidth::try_from_size(16), None);
}

#[test]
fn guest_phys_range_is_half_open() {
    let r = GuestPhysAddrRange::new(0x1000, 0x2000);
    assert!(r.contains(0x1000));
    assert!(r.contains(0x1fff));
    assert!(!r.contains(0x2000));
    assert!(!r.contains(0xfff));
    let s = GuestPhysAddrRange::from_start_size(0x1000, 0x1000);
    assert_eq!(s.start, r.start);
    assert_eq!(s.end, r.end);
}

#[test]
fn sys_reg_range_is_inclusive() {
    let r = SysRegAddrRange::new(0x100, 0x1ff);
    assert!(r.contains(0x100));
    assert!(r.contains(0x1ff));
    assert!(!r.contains(0x200));
}

#[test]
fn port_range_is_inclusive() {
    let r = PortRange::new(0x3f8, 0x3ff);
    assert!(r.contains(0x3f8));
    assert!(r.contains(0x3ff));
    assert!(!r.contains(0x400));
}

#[test]
fn emulated_device_config_holds_its_fields() {
    let c = EmulatedDeviceConfig {
        name: "uart0".to_string(),
        base_ipa: 0x900_0000,
        length: 0x1000,
        irq_id: 33,
        emu_type: 2,
        cfg_list: vec![1, 2, 3],
    };
    let d = c.clone();
    assert_eq!(d.name, "uart0");
    assert_eq!(d.base_ipa, 0x900_0000);
    assert_eq!(d.length, 0x1000);
    assert_eq!(d.irq_id, 33);
    assert_eq!(d.emu_type, 2);
    assert_eq!(d.cfg_list, vec![1, 2, 3]);
    let e = EmulatedDeviceConfig::default();
    assert!(e.name.is_empty());
    assert!(e.cfg_list.is_empty());
}

/// A minimal MMIO device: one window of four registers, no optional
/// capability overridden.
struct MinimalDevice {
    ranges: [GuestPhysAddrRange; 1],
    regs: Mutex<[usize; 4]>,
}

const MINIMAL_BASE: usize = 0x4000;

impl MinimalDevice {
    fn new() -> Self {
        Self {
            ranges: [GuestPhysAddrRange::new(MINIMAL_BASE, MINIMAL_BASE + 4 * 8)],
            regs: Mutex::new([0; 4]),
        }
    }

    fn reg_index(&self, addr: usize) -> AxResult<usize> {
        if addr < MINIMAL_BASE || addr >= MINIMAL_BASE + 4 * 8 {
            return Err(AxError::from(AxErrorKind::InvalidInput));
        }
        Ok((addr - MINIMAL_BASE) / 8)
    }
}

fn mask_to_width(val: usize, width: AccessWidth) -> usize {
    match width {
        AccessWidth::Byte => val & 0xff,
        AccessWidth::Word => val & 0xffff,
        AccessWidth::Dword => val & 0xffff_ffff,
        AccessWidth::Qword => val,
    }
}

impl BaseDeviceOps<GuestPhysAddrRange> for MinimalDevice {
    fn emu_type(&self) -> EmuDeviceType {
        EmuDeviceType::Dummy
    }

    fn address_ranges(&self) -> &[GuestPhysAddrRange] {
        &self.ranges
    }

    fn handle_read(&self, addr: usize, width: AccessWidth) -> AxResult<usize> {
        let i = self.reg_index(addr)?;
        Ok(mask_to_width(self.regs.lock().unwrap()[i], width))
    }

    fn handle_write(&self, addr: usize, width: AccessWidth, val: usize) -> AxResult {
        let i = self.reg_index(addr)?;
        self.regs.lock().unwrap()[i] = mask_to_width(val, width);
        Ok(())
    }
}

#[test]
fn minimal_device_reads_and_writes_masked_to_width() {
    let dev = MinimalDevice::new();
    dev.handle_write(MINIMAL_BASE, AccessWidth::Qword, 0x1122_3344_5566_7788).unwrap();
    assert_eq!(dev.handle_read(MINIMAL_BASE, AccessWidth::Qword).unwrap(), 0x1122_3344_5566_7788);
    assert_eq!(dev.handle_read(MINIMAL_BASE, AccessWidth::Dword).unwrap(), 0x5566_7788);
    assert_eq!(dev.handle_read(MINIMAL_BASE, AccessWidth::Word).unwrap(), 0x7788);
    assert_eq!(dev.handle_read(MINIMAL_BASE, AccessWidth::Byte).unwrap(), 0x88);

    // Only the low `width` bits of a written value are meaningful.
    dev.handle_write(MINIMAL_BASE + 8, AccessWidth::Byte, 0xabcd).unwrap();
    assert_eq!(dev.handle_read(MINIMAL_BASE + 8, AccessWidth::Qword).unwrap(), 0xcd);

    // An address outside the window fails with a typed error.
    assert!(dev.handle_read(0x100, AccessWidth::Byte).is_err());
    assert!(dev.handle_write(MINIMAL_BASE + 4 * 8, AccessWidth::Byte, 0).is_err());
}

#[test]
fn minimal_device_defaults_are_inert() {
    let dev = MinimalDevice::new();
    assert!(dev.notification_config().is_none());
    assert!(dev.interrupt_config().is_none());
    assert!(dev.region_descriptor().is_none());
    assert!(dev.region_lookup(MINIMAL_BASE).is_none());
    assert!(!dev.notify_region_change());
    let first = dev.address_range();
    assert_eq!(first.start, MINIMAL_BASE);
    assert_eq!(first.end, MINIMAL_BASE + 4 * 8);
}

#[test]
fn set_notifier_defaults_to_a_no_op() {
    struct NoopNotifier;
    impl DeviceNotifier for NoopNotifier {
        fn notify(&self, _event: DeviceEvent) -> AxResult {
            Ok(())
        }
        fn method(&self) -> NotifyMethod {
            NotifyMethod::Callback
        }
    }
    let dev = MinimalDevice::new();
    let notifier: Arc<dyn DeviceNotifier> = Arc::new(NoopNotifier);
    dev.set_notifier(notifier);
    // The default stores nothing; the device still behaves the same.
    assert!(dev.notification_config().is_none());
}

/// A device still on the legacy interrupt API.
struct LegacyDevice {
    ranges: [GuestPhysAddrRange; 1],
}

impl BaseDeviceOps<GuestPhysAddrRange> for LegacyDevice {
    fn emu_type(&self) -> EmuDeviceType {
        EmuDeviceType::Console
    }

    fn address_ranges(&self) -> &[GuestPhysAddrRange] {
        &self.ranges
    }

    fn handle_read(&self, _addr: usize, _width: AccessWidth) -> AxResult<usize> {
        Ok(0)
    }

    fn handle_write(&self, _addr: usize, _width: AccessWidth, _val: usize) -> AxResult {
        Ok(())
    }

    fn interrupt_config(&self) -> Option<InterruptConfig> {
        Some(InterruptConfig {
            primary_irq: 75,
            additional_irqs: vec![76],
            trigger_mode: TriggerMode::Edge,
            cpu_affinity: CpuAffinity::Fixed(1),
            priority: 50,
        })
    }
}

#[test]
fn legacy_interrupt_config_feeds_the_default_notification_config() {
    let dev = LegacyDevice { ranges: [GuestPhysAddrRange::new(0, 0x1000)] };
    let nc: NotificationConfig = dev.notification_config().expect("converted from the legacy config");
    assert_eq!(nc.method, NotifyMethod::Interrupt);
    assert_eq!(nc.primary_irq, Some(75));
    assert_eq!(nc.additional_irqs, vec![76]);
    assert_eq!(nc.trigger_mode, TriggerMode::Edge);
    assert_eq!(nc.cpu_affinity, CpuAffinity::Fixed(1));
    assert_eq!(nc.priority, 50);
    assert!(!nc.coalesce);
}

/// A multi-region device relying on the default, descriptor-based lookup.
struct MultiRegionDevice {
    ranges: [GuestPhysAddrRange; 1],
}

impl BaseDeviceOps<GuestPhysAddrRange> for MultiRegionDevice {
    fn emu_type(&self) -> EmuDeviceType {
        EmuDeviceType::VirtioBlk
    }

    fn address_ranges(&self) -> &[GuestPhysAddrRange] {
        &self.ranges
    }

    fn handle_read(&self, _addr: usize, _width: AccessWidth) -> AxResult<usize> {
        Ok(0)
    }

    fn handle_write(&self, _addr: usize, _width: AccessWidth, _val: usize) -> AxResult {
        Ok(())
    }

    fn region_descriptor(&self) -> Option<RegionDescriptor> {
        Some(
            RegionDescriptor::new()
                .with_region(
                    DeviceRegion::new(RegionId::control(), "control", 0x1000, 0x100)
                        .with_type(RegionType::Control),
                )
                .with_region(
                    DeviceRegion::new(RegionId::notification(), "notify", 0x2000, 0x4)
                        .with_type(RegionType::Notification)
                        .with_permissions(Permissions::ReadOnly),
                ),
        )
    }
}

#[test]
fn default_region_lookup_delegates_to_the_descriptor() {
    let dev = MultiRegionDevice { ranges: [GuestPhysAddrRange::new(0x1000, 0x3000)] };
    let hit = dev.region_lookup(0x1050).expect("control region resolves");
    assert_eq!(hit.region_id, RegionId::control());
    assert_eq!(hit.offset, 0x50);
    assert_eq!(hit.region_type, RegionType::Control);

    let hit = dev.region_lookup(0x2002).expect("notification region resolves");
    assert_eq!(hit.region_id, RegionId::notification());
    assert_eq!(hit.offset, 2);
    assert_eq!(hit.permissions, Permissions::ReadOnly);

    assert!(dev.region_lookup(0x1100).is_none());
    assert!(!dev.notify_region_change());
}
