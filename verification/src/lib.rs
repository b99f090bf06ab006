//! Basic traits and structures for emulated devices in a hypervisor.
//!
//! This crate defines the contract between a hypervisor's trap-handling path
//! and the emulated devices it dispatches to:
//!
//! - [`DeviceRegion`] / [`RegionDescriptor`]: a fixed-capacity, multi-region
//!   address descriptor and its lookup engine, which map a faulting guest
//!   address to a typed, permissioned sub-region.
//! - [`NotificationConfig`] / [`DeviceNotifier`]: the notification subsystem
//!   a device uses to signal the guest (interrupt, poll, callback or event),
//!   together with the legacy [`InterruptConfig`] / [`InterruptTrigger`] API.
//! - [`BaseDeviceOps`]: the polymorphic operation contract every emulated
//!   device implements, generic over the three address-range flavors
//!   (guest-physical, system-register and port I/O).

pub mod addr;
pub mod ax_types;
pub mod device;
pub mod event;
pub mod notify;
pub mod region;

pub use axvmconfig::EmulatedDeviceType as EmuDeviceType;

pub use addr::{
    spec_fits_width, spec_width_from_size, spec_width_size, AccessWidth, DeviceAddrRange,
    GuestPhysAddrRange, PortRange, SysRegAddrRange,
};
pub use device::{BaseDeviceOps, EmulatedDeviceConfig};
pub use event::{
    lemma_event_flag_aliasing, lemma_event_flag_single_bit, spec_event_bit, spec_event_flag,
    DeviceEvent, IrqType,
};
pub use notify::{
    lemma_interrupt_config_round_trip, spec_default_notification_config,
    spec_from_interrupt_config, spec_to_interrupt_config,
    CpuAffinity, DeviceNotifier, InterruptConfig, InterruptConfigV, InterruptTrigger,
    NotificationConfig, NotificationConfigV, NotifyMethod, TriggerMode,
};
pub use region::{
    lemma_lookup_first_match, spec_lookup, DeviceRegion, Permissions, RegionDescriptor, RegionHit, RegionId, RegionType,
    MAX_REGIONS_PER_DEVICE,
};
