//! The address-range abstraction the device contract is parameterized over.
//!
//! A device's address window comes in three flavors: a guest-physical (MMIO)
//! range, a system-register range and a port-I/O range. Each flavor carries
//! its own address unit; the [`DeviceAddrRange`] trait ties the two together
//! so that the device contract can be written once, generically.

use vstd::prelude::*;

verus! {

/// The width of a device access.
///
/// Note that the term "word" here refers to 16-bit data, as in the x86
/// architecture.
#[derive(Debug, Clone, Copy, PartialEq, Eq, PartialOrd, Ord, Structural)]
pub enum AccessWidth {
    /// 8-bit access.
    Byte,
    /// 16-bit access.
    Word,
    /// 32-bit access.
    Dword,
    /// 64-bit access.
    Qword,
}

/// The size in bytes of an access of the given width.
pub open spec fn spec_width_size(w: AccessWidth) -> usize {
    match w {
        AccessWidth::Byte => 1usize,
        AccessWidth::Word => 2usize,
        AccessWidth::Dword => 4usize,
        AccessWidth::Qword => 8usize,
    }
}

/// Whether `val` is zero-extended to the given access width: every bit above
/// the width is clear.
pub open spec fn spec_fits_width(val: usize, w: AccessWidth) -> bool {
    match w {
        AccessWidth::Byte => val < 0x100,
        AccessWidth::Word => val < 0x1_0000,
        AccessWidth::Dword => (val as int) < 0x1_0000_0000,
        AccessWidth::Qword => true,
    }
}

/// The access width that covers exactly `size` bytes, if any.
pub open spec fn spec_width_from_size(size: usize) -> Option<AccessWidth> {
    if size == 1 {
        Some(AccessWidth::Byte)
    } else if size == 2 {
        Some(AccessWidth::Word)
    } else if size == 4 {
        Some(AccessWidth::Dword)
    } else if size == 8 {
        Some(AccessWidth::Qword)
    } else {
        None
    }
}

impl AccessWidth {
    /// Returns the size of the access in bytes.
    pub fn size(&self) -> (r: usize)
        ensures
            r == spec_width_size(*self),
    {
        match self {
            AccessWidth::Byte => 1,
            AccessWidth::Word => 2,
            AccessWidth::Dword => 4,
            AccessWidth::Qword => 8,
        }
    }

    /// Returns the access width covering exactly `size` bytes, or `None` if
    /// no access of that size exists.
    pub fn try_from_size(size: usize) -> (r: Option<AccessWidth>)
        ensures
            r == spec_width_from_size(size),
    {
        match size {
            1 => Some(AccessWidth::Byte),
            2 => Some(AccessWidth::Word),
            4 => Some(AccessWidth::Dword),
            8 => Some(AccessWidth::Qword),
            _ => None,
        }
    }
}

/// A range of device addresses of one flavor. It may be inclusive or
/// exclusive of its end, depending on the flavor; [`DeviceAddrRange::spec_contains`]
/// is the authoritative membership predicate.
pub trait DeviceAddrRange {
    /// The address type of the range.
    type Addr;

    /// The set of addresses the range contains.
    spec fn spec_contains(&self, addr: Self::Addr) -> bool;

    /// Returns whether the address range contains the given address.
    fn contains(&self, addr: Self::Addr) -> (r: bool)
        ensures
            r == self.spec_contains(addr),
    ;
}

/// A guest-physical (MMIO) address range: the half-open interval
/// `[start, end)`.
#[derive(Debug, Clone, Copy, PartialEq, Eq, Structural)]
pub struct GuestPhysAddrRange {
    /// The first guest-physical address of the range.
    pub start: usize,
    /// The end (exclusive) guest-physical address of the range.
    pub end: usize,
}

impl GuestPhysAddrRange {
    /// Creates a new guest-physical address range `[start, end)`.
    pub fn new(start: usize, end: usize) -> (r: Self)
        requires
            start <= end,
        ensures
            r.start == start,
            r.end == end,
    {
        Self { start, end }
    }

    /// Creates a new guest-physical address range `[start, start + size)`.
    pub fn from_start_size(start: usize, size: usize) -> (r: Self)
        requires
            start + size <= usize::MAX,
        ensures
            r.start == start,
            r.end == start + size,
    {
        Self { start, end: start + size }
    }
}

impl DeviceAddrRange for GuestPhysAddrRange {
    type Addr = usize;

    open spec fn spec_contains(&self, addr: usize) -> bool {
        self.start <= addr < self.end
    }

    fn contains(&self, addr: usize) -> (r: bool)
        ensures
            r == self.spec_contains(addr),
    {
        self.start <= addr && addr < self.end
    }
}

/// An inclusive range of system register addresses, `[start, end]`.
#[derive(Debug, Clone, Copy, PartialEq, Eq, Structural)]
pub struct SysRegAddrRange {
    /// The first system register address of the range.
    pub start: usize,
    /// The last (inclusive) system register address of the range.
    pub end: usize,
}

impl SysRegAddrRange {
    /// Creates a new system register address range `[start, end]`.
    pub fn new(start: usize, end: usize) -> (r: Self)
        ensures
            r.start == start,
            r.end == end,
    {
        Self { start, end }
    }
}

impl DeviceAddrRange for SysRegAddrRange {
    type Addr = usize;

    open spec fn spec_contains(&self, addr: usize) -> bool {
        self.start <= addr <= self.end
    }

    fn contains(&self, addr: usize) -> (r: bool)
        ensures
            r == self.spec_contains(addr),
    {
        self.start <= addr && addr <= self.end
    }
}

/// An inclusive range of I/O port numbers, `[start, end]`.
#[derive(Debug, Clone, Copy, PartialEq, Eq, Structural)]
pub struct PortRange {
    /// The first port number of the range.
    pub start: u16,
    /// The last (inclusive) port number of the range.
    pub end: u16,
}

impl PortRange {
    /// Creates a new port range `[start, end]`.
    pub fn new(start: u16, end: u16) -> (r: Self)
        ensures
            r.start == start,
            r.end == end,
    {
        Self { start, end }
    }
}

impl DeviceAddrRange for PortRange {
    type Addr = u16;

    open spec fn spec_contains(&self, addr: u16) -> bool {
        self.start <= addr <= self.end
    }

    fn contains(&self, addr: u16) -> (r: bool)
        ensures
            r == self.spec_contains(addr),
    {
        self.start <= addr && addr <= self.end
    }
}

} // verus!
