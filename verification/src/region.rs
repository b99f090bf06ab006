//! Multi-region address support: named, typed, permissioned sub-regions
//! within one device's address window, and the lookup engine that routes a
//! faulting address to the first matching region.

use vstd::prelude::*;

verus! {

/// Region ID for fast lookup results (avoids string comparison).
///
/// Pre-defined constants are provided for common region types.
#[derive(Clone, Copy, Debug, PartialEq, Eq, Hash, Structural)]
pub struct RegionId(pub u8);

impl RegionId {
    /// Control region (e.g., control registers).
    pub fn control() -> (r: Self)
        ensures
            r == RegionId(0u8),
    {
        RegionId(0)
    }

    /// Status region (e.g., ISR registers).
    pub fn status() -> (r: Self)
        ensures
            r == RegionId(1u8),
    {
        RegionId(1)
    }

    /// Notification region (e.g., a doorbell).
    pub fn notification() -> (r: Self)
        ensures
            r == RegionId(2u8),
    {
        RegionId(2)
    }

    /// Configuration region (e.g., device config space).
    pub fn config() -> (r: Self)
        ensures
            r == RegionId(3u8),
    {
        RegionId(3)
    }

    /// Data region (e.g., data buffers).
    pub fn data() -> (r: Self)
        ensures
            r == RegionId(4u8),
    {
        RegionId(4)
    }

    /// Default region for single-region devices.
    pub fn default_id() -> (r: Self)
        ensures
            r == RegionId(5u8),
    {
        RegionId(5)
    }

    /// PCI BAR region `n` (tags 16 through 21 for BAR0 through BAR5).
    pub fn bar(n: u8) -> (r: Self)
        requires
            n < 6,
        ensures
            r == RegionId((16 + n) as u8),
    {
        RegionId(16 + n)
    }
}

/// Region type classification.
#[derive(Clone, Copy, Debug, PartialEq, Eq, Structural, Default)]
pub enum RegionType {
    /// Generic register region.
    #[default]
    Generic,
    /// Control registers.
    Control,
    /// Status registers (typically read-only).
    Status,
    /// Data buffer region.
    Data,
    /// Notification/doorbell region.
    Notification,
    /// Device configuration space.
    Config,
    /// PCI configuration space.
    PciConfig,
    /// PCI BAR region.
    PciBar(u8),
}

/// Access permissions for a region.
///
/// The lookup engine reports permissions but does not enforce them; a caller
/// that respects them rejects a write to a read-only region itself.
#[derive(Clone, Copy, Debug, PartialEq, Eq, Structural, Default)]
pub enum Permissions {
    /// Read and write allowed.
    #[default]
    ReadWrite,
    /// Read only.
    ReadOnly,
    /// Write only.
    WriteOnly,
    /// No access allowed.
    NoAccess,
}

/// Region lookup result (zero-allocation, returned on the stack).
///
/// This structure is returned by a successful lookup and contains all
/// information needed to handle an access to a specific region.
#[derive(Clone, Copy, Debug)]
pub struct RegionHit {
    /// Region ID.
    pub region_id: RegionId,
    /// Offset relative to the matched region's base.
    pub offset: usize,
    /// Region type.
    pub region_type: RegionType,
    /// Access permissions.
    pub permissions: Permissions,
}

/// Device address region descriptor.
///
/// Describes a single address region of a device, including its ID, name,
/// base address, size, type, and access permissions. Its domain is the
/// half-open interval `[base, base + size)`.
#[derive(Clone, Copy, Debug)]
pub struct DeviceRegion {
    /// Region ID for fast matching.
    pub id: RegionId,
    /// Region name (for debugging).
    pub name: &'static str,
    /// Base address.
    pub base: usize,
    /// Size in bytes.
    pub size: usize,
    /// Region type.
    pub region_type: RegionType,
    /// Access permissions.
    pub permissions: Permissions,
}

impl DeviceRegion {
    /// Whether the address falls within this region's domain
    /// `[base, base + size)`.
    pub open spec fn spec_contains(self, addr: usize) -> bool {
        self.base <= addr && addr < self.base + self.size
    }

    /// The hit this region reports for an address it contains: its identity
    /// and the offset of the address from the region's base.
    pub open spec fn spec_hit(self, addr: usize) -> RegionHit {
        RegionHit {
            region_id: self.id,
            offset: (addr - self.base) as usize,
            region_type: self.region_type,
            permissions: self.permissions,
        }
    }

    /// Create a new device region with generic type and read-write
    /// permissions.
    pub fn new(id: RegionId, name: &'static str, base: usize, size: usize) -> (r: Self)
        ensures
            r == (DeviceRegion {
                id,
                name,
                base,
                size,
                region_type: RegionType::Generic,
                permissions: Permissions::ReadWrite,
            }),
    {
        Self { id, name, base, size, region_type: RegionType::Generic, permissions: Permissions::ReadWrite }
    }

    /// Set the region type.
    pub fn with_type(self, region_type: RegionType) -> (r: Self)
        ensures
            r == (DeviceRegion { region_type, ..self }),
    {
        Self { region_type, ..self }
    }

    /// Set the access permissions.
    pub fn with_permissions(self, permissions: Permissions) -> (r: Self)
        ensures
            r == (DeviceRegion { permissions, ..self }),
    {
        Self { permissions, ..self }
    }

    /// Check if the address falls within this region: at or above the base
    /// and strictly below `base + size`.
    pub fn contains(&self, addr: usize) -> (r: bool)
        ensures
            r == self.spec_contains(addr),
    {
        addr >= self.base && addr - self.base < self.size
    }

    /// Get the end address (exclusive) of the region.
    pub fn end(&self) -> (r: usize)
        requires
            self.base + self.size <= usize::MAX,
        ensures
            r == self.base + self.size,
    {
        self.base + self.size
    }

    /// Try to match an address, returning hit info exactly when the region
    /// contains it, with the offset relative to the region's base
    /// (zero-allocation).
    pub fn try_hit(&self, addr: usize) -> (r: Option<RegionHit>)
        ensures
            r is Some <==> self.spec_contains(addr),
            r matches Some(h) ==> h == self.spec_hit(addr),
    {
        if self.contains(addr) {
            Some(
                RegionHit {
                    region_id: self.id,
                    offset: addr - self.base,
                    region_type: self.region_type,
                    permissions: self.permissions,
                },
            )
        } else {
            None
        }
    }
}

/// Maximum number of regions per device.
pub const MAX_REGIONS_PER_DEVICE: usize = 8;

/// Relies on `arrayvec::ArrayVec`: the fixed-capacity, allocation-free vector
/// that backs a [`RegionDescriptor`]. Declared opaque; its contents are named
/// by [`spec_region_store`].
#[verifier::external_type_specification]
#[verifier::external_body]
#[verifier::reject_recursive_types(T)]
pub struct ExArrayVec<T, const CAP: usize>(arrayvec::ArrayVec<T, CAP>);

/// The regions an `arrayvec::ArrayVec` backing a [`RegionDescriptor`] stores,
/// in insertion order.
pub uninterp spec fn spec_region_store(
    v: arrayvec::ArrayVec<DeviceRegion, MAX_REGIONS_PER_DEVICE>,
) -> Seq<DeviceRegion>;

/// Relies on `arrayvec::ArrayVec::new`: the fresh vector is empty.
#[verifier::external_body]
fn av_new() -> (r: arrayvec::ArrayVec<DeviceRegion, MAX_REGIONS_PER_DEVICE>)
    ensures
        spec_region_store(r) == Seq::<DeviceRegion>::empty(),
{
    arrayvec::ArrayVec::new()
}

/// Relies on `arrayvec::ArrayVec::try_push`: appends the element and reports
/// success while the vector is below its capacity; reports failure and leaves
/// the vector unchanged once it is full.
#[verifier::external_body]
fn av_try_push(
    v: &mut arrayvec::ArrayVec<DeviceRegion, MAX_REGIONS_PER_DEVICE>,
    region: DeviceRegion,
) -> (pushed: bool)
    ensures
        spec_region_store(*old(v)).len() < MAX_REGIONS_PER_DEVICE ==> pushed
            && spec_region_store(*final(v)) == spec_region_store(*old(v)).push(region),
        spec_region_store(*old(v)).len() >= MAX_REGIONS_PER_DEVICE ==> !pushed
            && spec_region_store(*final(v)) == spec_region_store(*old(v)),
{
    v.try_push(region).is_ok()
}

/// Relies on `arrayvec::ArrayVec::len`: the number of stored elements, which
/// never exceeds the capacity.
#[verifier::external_body]
fn av_len(v: &arrayvec::ArrayVec<DeviceRegion, MAX_REGIONS_PER_DEVICE>) -> (r: usize)
    ensures
        r == spec_region_store(*v).len(),
        r <= MAX_REGIONS_PER_DEVICE,
{
    v.len()
}

/// Relies on `arrayvec::ArrayVec::as_slice`: all stored elements, in order.
#[verifier::external_body]
fn av_as_slice(v: &arrayvec::ArrayVec<DeviceRegion, MAX_REGIONS_PER_DEVICE>) -> (r: &[DeviceRegion])
    ensures
        r@ == spec_region_store(*v),
{
    v.as_slice()
}

/// Relies on `arrayvec::ArrayVec::clone`: the clone stores the same elements,
/// an element's clone being a field-for-field copy of a [`DeviceRegion`].
#[verifier::external_body]
fn av_clone(v: &arrayvec::ArrayVec<DeviceRegion, MAX_REGIONS_PER_DEVICE>) -> (r:
    arrayvec::ArrayVec<DeviceRegion, MAX_REGIONS_PER_DEVICE>)
    ensures
        spec_region_store(r) == spec_region_store(*v),
{
    v.clone()
}

/// Static region descriptor (compile-time sized, no heap allocation).
///
/// An ordered, fixed-capacity sequence of [`DeviceRegion`], supporting up to
/// [`MAX_REGIONS_PER_DEVICE`] regions per device. Built once at registration;
/// read on every access.
#[derive(Debug)]
pub struct RegionDescriptor {
    regions: arrayvec::ArrayVec<DeviceRegion, MAX_REGIONS_PER_DEVICE>,
}

impl View for RegionDescriptor {
    type V = Seq<DeviceRegion>;

    closed spec fn view(&self) -> Seq<DeviceRegion> {
        spec_region_store(self.regions)
    }
}

impl Clone for RegionDescriptor {
    /// The clone describes the same regions.
    fn clone(&self) -> (r: Self)
        ensures
            r@ == self@,
    {
        Self { regions: av_clone(&self.regions) }
    }
}

impl Default for RegionDescriptor {
    /// The default descriptor is empty.
    fn default() -> (r: Self)
        ensures
            r@ == Seq::<DeviceRegion>::empty(),
    {
        Self::new()
    }
}

/// The first region of `regions` that contains `addr`, reported as a
/// [`RegionHit`]; nothing if no region contains it. Earlier regions shadow
/// later, overlapping ones.
pub open spec fn spec_lookup(regions: Seq<DeviceRegion>, addr: usize) -> Option<RegionHit>
    decreases regions.len(),
{
    if regions.len() == 0 {
        None
    } else if regions[0].spec_contains(addr) {
        Some(regions[0].spec_hit(addr))
    } else {
        spec_lookup(regions.drop_first(), addr)
    }
}

impl RegionDescriptor {
    /// Create an empty region descriptor.
    pub fn new() -> (r: Self)
        ensures
            r@ == Seq::<DeviceRegion>::empty(),
    {
        Self { regions: av_new() }
    }

    /// Add a region to the descriptor (builder pattern).
    ///
    /// The capacity of [`MAX_REGIONS_PER_DEVICE`] regions is a hard upper
    /// bound, so the descriptor must not be full; use
    /// [`RegionDescriptor::try_with_region`] where fullness is not known.
    pub fn with_region(self, region: DeviceRegion) -> (r: Self)
        requires
            self@.len() < MAX_REGIONS_PER_DEVICE,
        ensures
            r@ == self@.push(region),
    {
        let mut regions = self.regions;
        let _pushed = av_try_push(&mut regions, region);
        Self { regions }
    }

    /// Add a region to the descriptor, failing loudly at capacity.
    ///
    /// Returns the extended descriptor while the capacity of
    /// [`MAX_REGIONS_PER_DEVICE`] regions is not exceeded; once the
    /// descriptor is full, returns it unchanged as the error value, never
    /// truncating silently. Exceeding the capacity reflects a device
    /// configuration error, so callers should treat the failure as fatal.
    pub fn try_with_region(self, region: DeviceRegion) -> (r: Result<Self, Self>)
        ensures
            self@.len() < MAX_REGIONS_PER_DEVICE ==> (r matches Ok(d) && d@ == self@.push(
                region,
            )),
            self@.len() >= MAX_REGIONS_PER_DEVICE ==> (r matches Err(d) && d@ == self@),
    {
        let mut regions = self.regions;
        let pushed = av_try_push(&mut regions, region);
        if pushed {
            Ok(Self { regions })
        } else {
            Err(Self { regions })
        }
    }

    /// Create a single-region descriptor covering `[base, base + size)` with
    /// the default region ID, generic type and read-write permissions.
    pub fn single(base: usize, size: usize) -> (r: Self)
        ensures
            r@.len() == 1,
            r@[0].id == RegionId(5u8),
            r@[0].name@ == "default"@,
            r@[0].base == base,
            r@[0].size == size,
            r@[0].region_type == RegionType::Generic,
            r@[0].permissions == Permissions::ReadWrite,
    {
        Self::new().with_region(DeviceRegion::new(RegionId(5), "default", base, size))
    }

    /// Get all regions, in registration order.
    pub fn regions(&self) -> (r: &[DeviceRegion])
        ensures
            r@ == self@,
    {
        av_as_slice(&self.regions)
    }

    /// Get the number of regions.
    pub fn len(&self) -> (r: usize)
        ensures
            r == self@.len(),
    {
        av_len(&self.regions)
    }

    /// Check if the descriptor holds no regions.
    pub fn is_empty(&self) -> (r: bool)
        ensures
            r == (self@.len() == 0),
    {
        av_len(&self.regions) == 0
    }

    /// Look an address up in all regions, in registration order: the first
    /// region containing the address wins (O(n), but n is at most
    /// [`MAX_REGIONS_PER_DEVICE`]).
    pub fn lookup(&self, addr: usize) -> (r: Option<RegionHit>)
        ensures
            r == spec_lookup(self@, addr),
    {
        let rs = av_as_slice(&self.regions);
        let mut i: usize = 0;
        proof {
            assert(self@.skip(0) =~= self@);
        }
        while i < rs.len()
            invariant
                i <= rs@.len(),
                rs@ == self@,
                spec_lookup(self@, addr) == spec_lookup(self@.skip(i as int), addr),
            decreases rs@.len() - i,
        {
            let region = rs[i];
            proof {
                assert(self@.skip(i as int)[0] == region);
                assert(self@.skip(i as int).drop_first() =~= self@.skip(i as int + 1));
            }
            if let Some(hit) = region.try_hit(addr) {
                return Some(hit);
            }
            i = i + 1;
        }
        proof {
            assert(self@.skip(i as int) =~= Seq::<DeviceRegion>::empty());
        }
        None
    }
}

/// Law: the lookup returns the first region, in registration order, that
/// contains the address, and nothing exactly when no region contains it.
/// Deliberately overlapping regions are allowed; the earlier one shadows.
pub proof fn lemma_lookup_first_match(regions: Seq<DeviceRegion>, addr: usize)
    ensures
        (spec_lookup(regions, addr) is None) <==> (forall|i: int|
            0 <= i < regions.len() ==> !(#[trigger] regions[i]).spec_contains(addr)),
        spec_lookup(regions, addr) matches Some(h) ==> (exists|i: int|
            {
                &&& 0 <= i < regions.len()
                &&& (#[trigger] regions[i]).spec_contains(addr)
                &&& h == regions[i].spec_hit(addr)
                &&& forall|j: int| 0 <= j < i ==> !(#[trigger] regions[j]).spec_contains(addr)
            }),
    decreases regions.len(),
{
    if regions.len() == 0 {
    } else if regions[0].spec_contains(addr) {
        assert(spec_lookup(regions, addr) == Some(regions[0].spec_hit(addr)));
    } else {
        let rest = regions.drop_first();
        lemma_lookup_first_match(rest, addr);
        assert(forall|i: int|
            0 <= i < rest.len() ==> rest[i] == (#[trigger] regions[i + 1]));
        if spec_lookup(regions, addr) is None {
            assert forall|i: int| 0 <= i < regions.len() implies !(
            #[trigger] regions[i]).spec_contains(addr) by {
                if i > 0 {
                    assert(regions[i] == rest[i - 1]);
                }
            }
        } else {
            let h = spec_lookup(regions, addr).unwrap();
            let k = choose|i: int|
                {
                    &&& 0 <= i < rest.len()
                    &&& (#[trigger] rest[i]).spec_contains(addr)
                    &&& h == rest[i].spec_hit(addr)
                    &&& forall|j: int| 0 <= j < i ==> !(#[trigger] rest[j]).spec_contains(addr)
                };
            assert(regions[k + 1].spec_contains(addr));
            assert(h == regions[k + 1].spec_hit(addr));
            assert forall|j: int| 0 <= j < k + 1 implies !(#[trigger] regions[j]).spec_contains(
                addr,
            ) by {
                if j > 0 {
                    assert(regions[j] == rest[j - 1]);
                }
            }
        }
    }
}

} // verus!
