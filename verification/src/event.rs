//! Semantic device events and their encoding as poll-flag bits.

use vstd::prelude::*;

verus! {

/// Interrupt type (primary or additional).
#[derive(Debug, Clone, Copy, PartialEq, Eq, Structural)]
pub enum IrqType {
    /// Primary interrupt.
    Primary,
    /// Additional interrupt with index.
    Additional(u32),
}

/// Device event types for notification.
///
/// These semantic event types replace the generic [`IrqType`] for better
/// clarity about what happened in the device.
#[derive(Debug, Clone, Copy, PartialEq, Eq, Structural)]
pub enum DeviceEvent {
    /// Data is ready to be read (e.g., a receive queue has data).
    DataReady,
    /// Space is available for writing (e.g., a transmit queue has room).
    SpaceAvailable,
    /// Device configuration has changed.
    ConfigChanged,
    /// Generic interrupt request (for backward compatibility with [`IrqType`]).
    Irq(IrqType),
    /// Custom device-specific event.
    Custom(u32),
}

/// The bit position, in a 32-bit poll-flag word, that an event maps to.
///
/// Bits 0-2 hold the three first-class events, bit 3 the primary interrupt,
/// bits 4-15 the additional interrupts (index modulo 12) and bits 16-31 the
/// custom events (kind modulo 16).
pub open spec fn spec_event_bit(e: DeviceEvent) -> u32 {
    match e {
        DeviceEvent::DataReady => 0u32,
        DeviceEvent::SpaceAvailable => 1u32,
        DeviceEvent::ConfigChanged => 2u32,
        DeviceEvent::Irq(IrqType::Primary) => 3u32,
        DeviceEvent::Irq(IrqType::Additional(n)) => (4 + n % 12) as u32,
        DeviceEvent::Custom(n) => (16 + n % 16) as u32,
    }
}

/// The poll flag of an event: the single bit [`spec_event_bit`] of a 32-bit
/// flag word.
pub open spec fn spec_event_flag(e: DeviceEvent) -> u32 {
    1u32 << spec_event_bit(e)
}

impl DeviceEvent {
    /// Convert the event to a poll flag bit.
    ///
    /// Each event maps to one bit in a 32-bit flag word, allowing multiple
    /// events to be OR'd together. Additional interrupt indices alias modulo
    /// 12 and custom event kinds modulo 16, so callers that rely on more
    /// distinct identifiers than that must not depend on the flag for
    /// disambiguation.
    pub fn as_flag(&self) -> (r: u32)
        ensures
            r == spec_event_flag(*self),
    {
        match self {
            DeviceEvent::DataReady => 1u32 << 0u32,
            DeviceEvent::SpaceAvailable => 1u32 << 1u32,
            DeviceEvent::ConfigChanged => 1u32 << 2u32,
            DeviceEvent::Irq(IrqType::Primary) => 1u32 << 3u32,
            DeviceEvent::Irq(IrqType::Additional(n)) => 1u32 << (4 + (*n % 12)),
            DeviceEvent::Custom(n) => 1u32 << (16 + (*n % 16)),
        }
    }

    /// Check if a flag word contains this event, by direct bit-masking.
    pub fn is_set_in(&self, flags: u32) -> (r: bool)
        ensures
            r == ((flags & spec_event_flag(*self)) != 0),
    {
        (flags & self.as_flag()) != 0
    }
}

/// Law: the flag of an event is stable and total. It is determined by the
/// event alone, its bit position lies below 32, and it always has that one
/// bit set, so the flag of an event is never the empty word.
pub proof fn lemma_event_flag_single_bit(e: DeviceEvent)
    ensures
        spec_event_bit(e) < 32,
        spec_event_flag(e) == 1u32 << spec_event_bit(e),
        spec_event_flag(e) != 0,
{
    let b = spec_event_bit(e);
    assert(b < 32);
    assert(1u32 << b != 0) by (bit_vector)
        requires
            b < 32,
    ;
}

/// Law: two events share a flag bit exactly when they map to the same bit
/// position, so one is reported as set in the other's flag word only then.
/// Flag aliasing thus happens only through the modulo compression of
/// additional-interrupt indices (12) and custom event kinds (16).
pub proof fn lemma_event_flag_aliasing(e1: DeviceEvent, e2: DeviceEvent)
    ensures
        ((spec_event_flag(e1) & spec_event_flag(e2)) != 0) <==> (spec_event_bit(e1)
            == spec_event_bit(e2)),
{
    let a = spec_event_bit(e1);
    let b = spec_event_bit(e2);
    lemma_event_flag_single_bit(e1);
    lemma_event_flag_single_bit(e2);
    assert((((1u32 << a) & (1u32 << b)) != 0) <==> (a == b)) by (bit_vector)
        requires
            a < 32 && b < 32,
    ;
}

} // verus!
