//! Notification subsystem: how a device signals the guest.
//!
//! A device declares its needs in a [`NotificationConfig`] and is handed a
//! [`DeviceNotifier`] capability by the surrounding framework. The legacy
//! [`InterruptConfig`] / [`InterruptTrigger`] API is kept for backward
//! compatibility and is convertible in both directions.

use crate::event::{DeviceEvent, IrqType};
use axerrno::AxResult;
use vstd::prelude::*;

verus! {

/// Interrupt trigger mode.
#[derive(Debug, Clone, Copy, PartialEq, Eq, Structural)]
pub enum TriggerMode {
    /// Edge-triggered interrupt.
    Edge,
    /// Level-triggered interrupt.
    Level,
    /// Message Signaled Interrupt.
    Msi,
    /// Extended Message Signaled Interrupt.
    MsiX,
}

/// CPU affinity strategy for interrupt routing.
#[derive(Debug, Clone, Copy, PartialEq, Eq, Structural)]
pub enum CpuAffinity {
    /// Always route to a fixed CPU.
    Fixed(usize),
    /// Round-robin across CPUs.
    RoundRobin,
    /// Load balance based on queue length.
    LoadBalance,
    /// Broadcast to all CPUs.
    Broadcast,
}

/// Interrupt configuration for a device.
///
/// This is the legacy, interrupt-only predecessor of [`NotificationConfig`].
#[derive(Debug, Clone)]
pub struct InterruptConfig {
    /// Primary IRQ number.
    pub primary_irq: u32,
    /// Additional IRQ numbers for multi-interrupt devices.
    pub additional_irqs: Vec<u32>,
    /// Trigger mode for the interrupt.
    pub trigger_mode: TriggerMode,
    /// CPU affinity strategy.
    pub cpu_affinity: CpuAffinity,
    /// Interrupt priority (0-255, higher is more important).
    pub priority: u8,
}

/// The mathematical view of an [`InterruptConfig`].
pub ghost struct InterruptConfigV {
    /// Primary IRQ number.
    pub primary_irq: u32,
    /// Additional IRQ numbers, in order.
    pub additional_irqs: Seq<u32>,
    /// Trigger mode for the interrupt.
    pub trigger_mode: TriggerMode,
    /// CPU affinity strategy.
    pub cpu_affinity: CpuAffinity,
    /// Interrupt priority.
    pub priority: u8,
}

impl View for InterruptConfig {
    type V = InterruptConfigV;

    open spec fn view(&self) -> InterruptConfigV {
        InterruptConfigV {
            primary_irq: self.primary_irq,
            additional_irqs: self.additional_irqs@,
            trigger_mode: self.trigger_mode,
            cpu_affinity: self.cpu_affinity,
            priority: self.priority,
        }
    }
}

/// Notification method for devices.
///
/// Devices can choose different notification methods based on their
/// requirements: high-frequency devices may prefer `Poll` to avoid interrupt
/// overhead, low-frequency devices may prefer `Interrupt` for power
/// efficiency, and test scenarios may prefer `Callback` for synchronous
/// verification.
#[derive(Debug, Clone, Copy, PartialEq, Eq, Structural, Default)]
pub enum NotifyMethod {
    /// Hardware interrupt - traditional method via interrupt injection.
    #[default]
    Interrupt,
    /// Polling flag - device sets a flag, a vCPU loop checks periodically.
    Poll,
    /// Synchronous callback - immediate execution (beware of deadlocks).
    Callback,
    /// Event queue - asynchronous events supporting batch processing.
    Event,
}

/// Notification configuration for a device.
///
/// This replaces [`InterruptConfig`], supporting multiple notification
/// methods beyond just interrupts. A configuration with
/// `method == NotifyMethod::Interrupt` is actionable only if `primary_irq`
/// is present.
#[derive(Debug, Clone)]
pub struct NotificationConfig {
    /// Notification method.
    pub method: NotifyMethod,
    /// Primary IRQ number (required for the `Interrupt` method).
    pub primary_irq: Option<u32>,
    /// Additional IRQ numbers for multi-interrupt devices.
    pub additional_irqs: Vec<u32>,
    /// Trigger mode for interrupts.
    pub trigger_mode: TriggerMode,
    /// CPU affinity strategy.
    pub cpu_affinity: CpuAffinity,
    /// Priority (0-255, higher is more important).
    pub priority: u8,
    /// Enable event coalescing to reduce notification frequency.
    pub coalesce: bool,
}

/// The mathematical view of a [`NotificationConfig`].
pub ghost struct NotificationConfigV {
    /// Notification method.
    pub method: NotifyMethod,
    /// Primary IRQ number, if any.
    pub primary_irq: Option<u32>,
    /// Additional IRQ numbers, in order.
    pub additional_irqs: Seq<u32>,
    /// Trigger mode for interrupts.
    pub trigger_mode: TriggerMode,
    /// CPU affinity strategy.
    pub cpu_affinity: CpuAffinity,
    /// Priority.
    pub priority: u8,
    /// Whether event coalescing is enabled.
    pub coalesce: bool,
}

impl View for NotificationConfig {
    type V = NotificationConfigV;

    open spec fn view(&self) -> NotificationConfigV {
        NotificationConfigV {
            method: self.method,
            primary_irq: self.primary_irq,
            additional_irqs: self.additional_irqs@,
            trigger_mode: self.trigger_mode,
            cpu_affinity: self.cpu_affinity,
            priority: self.priority,
            coalesce: self.coalesce,
        }
    }
}

/// The default notification configuration: a level-triggered interrupt with
/// no IRQ assigned yet, fixed to CPU 0, priority 100, no coalescing.
pub open spec fn spec_default_notification_config() -> NotificationConfigV {
    NotificationConfigV {
        method: NotifyMethod::Interrupt,
        primary_irq: None,
        additional_irqs: Seq::empty(),
        trigger_mode: TriggerMode::Level,
        cpu_affinity: CpuAffinity::Fixed(0),
        priority: 100,
        coalesce: false,
    }
}

/// What converting a legacy [`InterruptConfig`] yields: the same interrupt
/// data under the `Interrupt` method, with no coalescing.
pub open spec fn spec_from_interrupt_config(c: InterruptConfigV) -> NotificationConfigV {
    NotificationConfigV {
        method: NotifyMethod::Interrupt,
        primary_irq: Some(c.primary_irq),
        additional_irqs: c.additional_irqs,
        trigger_mode: c.trigger_mode,
        cpu_affinity: c.cpu_affinity,
        priority: c.priority,
        coalesce: false,
    }
}

/// What converting back to a legacy [`InterruptConfig`] yields: the interrupt
/// data, provided the configuration uses the `Interrupt` method and carries a
/// primary IRQ; nothing otherwise.
pub open spec fn spec_to_interrupt_config(n: NotificationConfigV) -> Option<InterruptConfigV> {
    if n.method == NotifyMethod::Interrupt && n.primary_irq is Some {
        Some(
            InterruptConfigV {
                primary_irq: n.primary_irq.unwrap(),
                additional_irqs: n.additional_irqs,
                trigger_mode: n.trigger_mode,
                cpu_affinity: n.cpu_affinity,
                priority: n.priority,
            },
        )
    } else {
        None
    }
}

impl Default for NotificationConfig {
    /// The default configuration, [`spec_default_notification_config`].
    fn default() -> (r: Self)
        ensures
            r@ == spec_default_notification_config(),
    {
        Self {
            method: NotifyMethod::Interrupt,
            primary_irq: None,
            additional_irqs: Vec::new(),
            trigger_mode: TriggerMode::Level,
            cpu_affinity: CpuAffinity::Fixed(0),
            priority: 100,
            coalesce: false,
        }
    }
}

impl NotificationConfig {
    /// Create an interrupt-based notification configuration.
    ///
    /// This is the most common configuration for devices that use traditional
    /// interrupt-based notification.
    pub fn interrupt(irq: u32) -> (r: Self)
        ensures
            r@ == (NotificationConfigV {
                method: NotifyMethod::Interrupt,
                primary_irq: Some(irq),
                ..spec_default_notification_config()
            }),
    {
        Self { primary_irq: Some(irq), ..Self::default() }
    }

    /// Create a poll-based notification configuration: no IRQ is involved,
    /// and coalescing is enabled.
    ///
    /// Use this for high-frequency devices where interrupt overhead is too
    /// high.
    pub fn poll() -> (r: Self)
        ensures
            r@ == (NotificationConfigV {
                method: NotifyMethod::Poll,
                coalesce: true,
                ..spec_default_notification_config()
            }),
    {
        Self { method: NotifyMethod::Poll, coalesce: true, ..Self::default() }
    }

    /// Create an event-based notification configuration: no IRQ is involved,
    /// and coalescing is enabled.
    pub fn event() -> (r: Self)
        ensures
            r@ == (NotificationConfigV {
                method: NotifyMethod::Event,
                coalesce: true,
                ..spec_default_notification_config()
            }),
    {
        Self { method: NotifyMethod::Event, coalesce: true, ..Self::default() }
    }

    /// Convert from a legacy [`InterruptConfig`].
    pub fn from_interrupt_config(config: &InterruptConfig) -> (r: Self)
        ensures
            r@ == spec_from_interrupt_config(config@),
    {
        let irqs = clone_irqs(&config.additional_irqs);
        Self {
            method: NotifyMethod::Interrupt,
            primary_irq: Some(config.primary_irq),
            additional_irqs: irqs,
            trigger_mode: config.trigger_mode,
            cpu_affinity: config.cpu_affinity,
            priority: config.priority,
            coalesce: false,
        }
    }

    /// Convert to a legacy [`InterruptConfig`].
    ///
    /// Returns `None` exactly when this configuration does not use the
    /// `Interrupt` method or has no primary IRQ.
    pub fn to_interrupt_config(&self) -> (r: Option<InterruptConfig>)
        ensures
            r is Some <==> spec_to_interrupt_config(self@) is Some,
            r matches Some(ic) ==> ic@ == spec_to_interrupt_config(self@).unwrap(),
    {
        if self.method != NotifyMethod::Interrupt {
            return None;
        }
        match self.primary_irq {
            None => None,
            Some(irq) => Some(
                InterruptConfig {
                    primary_irq: irq,
                    additional_irqs: clone_irqs(&self.additional_irqs),
                    trigger_mode: self.trigger_mode,
                    cpu_affinity: self.cpu_affinity,
                    priority: self.priority,
                },
            ),
        }
    }

    /// Builder: set CPU affinity.
    pub fn with_cpu_affinity(self, affinity: CpuAffinity) -> (r: Self)
        ensures
            r@ == (NotificationConfigV { cpu_affinity: affinity, ..self@ }),
    {
        Self { cpu_affinity: affinity, ..self }
    }

    /// Builder: set priority.
    pub fn with_priority(self, priority: u8) -> (r: Self)
        ensures
            r@ == (NotificationConfigV { priority: priority, ..self@ }),
    {
        Self { priority, ..self }
    }

    /// Builder: enable or disable coalescing.
    pub fn with_coalesce(self, coalesce: bool) -> (r: Self)
        ensures
            r@ == (NotificationConfigV { coalesce: coalesce, ..self@ }),
    {
        Self { coalesce, ..self }
    }

    /// Builder: set trigger mode.
    pub fn with_trigger_mode(self, mode: TriggerMode) -> (r: Self)
        ensures
            r@ == (NotificationConfigV { trigger_mode: mode, ..self@ }),
    {
        Self { trigger_mode: mode, ..self }
    }
}

/// Law: converting a legacy interrupt configuration to a notification
/// configuration and back recovers the original exactly.
pub proof fn lemma_interrupt_config_round_trip(c: InterruptConfigV)
    ensures
        spec_to_interrupt_config(spec_from_interrupt_config(c)) == Some(c),
{
}

/// A copy of an IRQ list, element by element.
fn clone_irqs(v: &Vec<u32>) -> (r: Vec<u32>)
    ensures
        r@ == v@,
{
    let mut r: Vec<u32> = Vec::new();
    let mut i: usize = 0;
    while i < v.len()
        invariant
            i <= v.len(),
            r@ == v@.take(i as int),
        decreases v.len() - i,
    {
        r.push(v[i]);
        i = i + 1;
        proof {
            assert(r@ =~= v@.take(i as int));
        }
    }
    proof {
        assert(r@ =~= v@);
    }
    r
}

/// Device notifier trait for sending notifications to guests.
///
/// This is the unified notification API that replaces [`InterruptTrigger`].
/// It supports multiple notification methods (interrupt, poll, callback,
/// event) and uses the semantic [`DeviceEvent`] vocabulary. The concrete
/// delivery mechanism is the framework's responsibility, so nothing is
/// promised of the outcome of [`DeviceNotifier::notify`]; implementations
/// must tolerate concurrent calls from multiple vCPUs.
pub trait DeviceNotifier: Send + Sync {
    /// Send a notification to the guest.
    ///
    /// The notification will be delivered according to the device's
    /// configured notification method (interrupt, poll flag, callback, or
    /// event queue).
    fn notify(&self, event: DeviceEvent) -> AxResult;

    /// Clear a notification (for level-triggered interrupts).
    ///
    /// This is typically called when the guest acknowledges the interrupt.
    /// The default is a no-op, acceptable for the edge, poll and callback
    /// methods.
    fn clear(&self, _event: DeviceEvent) -> AxResult {
        Ok(())
    }

    /// Get the notification method for this notifier.
    fn method(&self) -> NotifyMethod;

    /// Check if there are pending notifications (for the `Poll` method).
    ///
    /// Returns `true` if the device has set poll flags that have not been
    /// cleared. The default is `false`, meaningful only for the `Poll`
    /// method.
    fn has_pending(&self) -> bool {
        false
    }
}

/// Interrupt trigger trait for devices (legacy API).
///
/// This trait is implemented by the interrupt management system and injected
/// into devices during registration. Devices use it to request interrupts
/// without directly depending on architecture-specific interrupt controllers.
/// Use [`DeviceNotifier`] instead for new devices.
pub trait InterruptTrigger: Send + Sync {
    /// Trigger an interrupt of the given type (primary or additional).
    fn trigger(&self, irq_type: IrqType) -> AxResult;

    /// Clear an interrupt (for level-triggered interrupts).
    fn clear(&self, irq_type: IrqType) -> AxResult;
}

/// Adapter to use a [`DeviceNotifier`] as an [`InterruptTrigger`] (backward
/// compatibility): every notifier satisfies the legacy contract by wrapping
/// the interrupt type into the corresponding [`DeviceEvent::Irq`] call.
impl<T: DeviceNotifier> InterruptTrigger for T {
    fn trigger(&self, irq_type: IrqType) -> AxResult {
        self.notify(DeviceEvent::Irq(irq_type))
    }

    fn clear(&self, irq_type: IrqType) -> AxResult {
        DeviceNotifier::clear(self, DeviceEvent::Irq(irq_type))
    }
}

} // verus!
