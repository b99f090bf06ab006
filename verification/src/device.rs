//! The polymorphic device operation contract.
//!
//! [`BaseDeviceOps`] is the trait that all emulated devices must implement.
//! Devices must tolerate their handlers being invoked concurrently from
//! multiple vCPUs and must provide their own internal synchronization for any
//! mutable state; this contract only guarantees that the interface methods
//! are safe to share across threads.

use crate::addr::{spec_fits_width, AccessWidth, DeviceAddrRange};
use crate::notify::{DeviceNotifier, InterruptConfig, InterruptTrigger, NotificationConfig};
use crate::region::{RegionDescriptor, RegionHit};
use axerrno::AxResult;
use axvmconfig::EmulatedDeviceType as EmuDeviceType;
use std::sync::Arc;
use vstd::prelude::*;

verus! {

/// Represents the configuration of an emulated device for a virtual machine.
#[derive(Debug, Default, Clone)]
pub struct EmulatedDeviceConfig {
    /// The name of the device.
    pub name: String,
    /// The base IPA (Intermediate Physical Address) of the device.
    pub base_ipa: usize,
    /// The length of the device.
    pub length: usize,
    /// The IRQ (Interrupt Request) ID of the device.
    pub irq_id: usize,
    /// The type of emulated device.
    pub emu_type: usize,
    /// The config list of the device.
    pub cfg_list: Vec<usize>,
}

/// The trait that all emulated devices must implement.
///
/// Only the four identification and access-handling operations are required;
/// the notification and multi-region capabilities default to inert behavior,
/// so a minimal device needs nothing more.
///
/// # Notification support
///
/// Devices that need to notify guests should declare their requirements via
/// [`BaseDeviceOps::notification_config`], store the notifier handed to them
/// through [`BaseDeviceOps::set_notifier`], and use it to send notifications.
///
/// # Multi-region address support
///
/// Devices with multiple address regions (e.g., VirtIO, PCI) should declare
/// them via [`BaseDeviceOps::region_descriptor`] (called once at
/// registration), and may override [`BaseDeviceOps::region_lookup`] with a
/// faster direct computation whose observable results must be identical.
pub trait BaseDeviceOps<R: DeviceAddrRange>: Send + Sync {
    /// Returns the type of the emulated device.
    fn emu_type(&self) -> EmuDeviceType;

    /// Returns all address ranges of the emulated device.
    ///
    /// Most devices have a single contiguous address range, but some devices
    /// (e.g., PCI devices, multi-core interrupt controllers) may have
    /// multiple non-contiguous ranges.
    ///
    /// This method must return at least one address range; a device with zero
    /// ranges violates the contract.
    fn address_ranges(&self) -> (r: &[R])
        ensures
            r@.len() > 0,
    ;

    /// Returns the primary address range of the emulated device: the first
    /// range from [`BaseDeviceOps::address_ranges`].
    ///
    /// This method is provided for backward compatibility with older devices.
    /// New code should use [`BaseDeviceOps::address_ranges`] instead.
    fn address_range(&self) -> R where R: Copy {
        let rs = self.address_ranges();
        rs[0]
    }

    /// Handles a read operation on the emulated device.
    ///
    /// The returned value is zero-extended, and truncated to exactly `width`;
    /// the device fails with a device-defined error if `addr` or `width` is
    /// invalid for it.
    fn handle_read(&self, addr: R::Addr, width: AccessWidth) -> (r: AxResult<usize>)
        ensures
            r matches Ok(v) ==> spec_fits_width(v, width),
    ;

    /// Handles a write operation on the emulated device.
    ///
    /// Only the low `width` bits of `val` are meaningful; the device ignores
    /// the higher bits rather than rejecting them.
    fn handle_write(&self, addr: R::Addr, width: AccessWidth, val: usize) -> AxResult;

    /// Returns the notification configuration for this device.
    ///
    /// Devices that need to notify guests should override this method; the
    /// framework uses it to set up the appropriate notification mechanism.
    /// The default converts the legacy [`BaseDeviceOps::interrupt_config`]
    /// for backward compatibility, so it declares nothing for a device
    /// without one.
    fn notification_config(&self) -> Option<NotificationConfig> {
        match self.interrupt_config() {
            Some(ic) => Some(NotificationConfig::from_interrupt_config(&ic)),
            None => None,
        }
    }

    /// Sets the notifier for this device.
    ///
    /// This method is called by the device framework during device
    /// registration if the device declares notification support via
    /// [`BaseDeviceOps::notification_config`]. Devices with notification
    /// support must override this no-op to store the notifier and use it to
    /// send notifications; the capability is shared with the framework for
    /// the whole registration lifetime.
    fn set_notifier(&self, _notifier: Arc<dyn DeviceNotifier>) {
    }

    /// Returns the interrupt configuration for this device (legacy API).
    ///
    /// Use [`BaseDeviceOps::notification_config`] instead.
    fn interrupt_config(&self) -> Option<InterruptConfig> {
        None
    }

    /// Sets the interrupt trigger for this device (legacy API).
    ///
    /// Use [`BaseDeviceOps::set_notifier`] instead; this method does not
    /// forward to it, so devices using the old API override this method.
    fn set_interrupt_trigger(&self, _trigger: Arc<dyn InterruptTrigger>) {
    }

    /// Returns the region descriptor for this device (called once at
    /// registration).
    ///
    /// Devices with multiple address regions should override this method; the
    /// framework caches the result and uses it for address routing. The
    /// default `None` is for single-region devices, which are covered by
    /// [`BaseDeviceOps::address_ranges`] alone.
    fn region_descriptor(&self) -> Option<RegionDescriptor> {
        None
    }

    /// Fast region lookup for the hot path (zero-allocation).
    ///
    /// Devices can override this method with a more efficient direct offset
    /// computation; the override must give the same observable results. The
    /// default delegates to the lookup of [`BaseDeviceOps::region_descriptor`].
    fn region_lookup(&self, addr: usize) -> Option<RegionHit> {
        match self.region_descriptor() {
            Some(d) => d.lookup(addr),
            None => None,
        }
    }

    /// Notify the framework that regions have changed (e.g., for PCI BAR
    /// remapping).
    ///
    /// A device calls this after modifying its layout; the framework then
    /// re-reads [`BaseDeviceOps::region_descriptor`] and refreshes any cached
    /// layout (a pull-based invalidation). Returns `true` if dynamic region
    /// changes are supported; the default is `false`.
    fn notify_region_change(&self) -> bool {
        false
    }
}

} // verus!
