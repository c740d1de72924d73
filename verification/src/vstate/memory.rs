//! The layout of guest memory in a snapshot.

use vstd::prelude::*;

verus! {

/// What a region of guest memory is for.
#[derive(Debug, Clone, Copy, PartialEq, Eq, Structural)]
pub enum GuestRegionType {
    /// Main memory.
    Dram,
    /// Memory that can be plugged and unplugged.
    Hotpluggable,
}

/// A region of guest memory in a snapshot.
#[derive(Debug)]
pub struct GuestMemoryRegionState {
    /// Guest-physical address of the first byte.
    pub base_address: u64,
    /// Size in bytes.
    pub size: usize,
    /// What the region is for.
    pub region_type: GuestRegionType,
    /// For each slot of the region, whether it is plugged.
    pub plugged: Vec<bool>,
}

/// The layout of guest memory in a snapshot.
#[derive(Debug, Default)]
pub struct GuestMemoryState {
    /// The regions, in the order in which the memory file holds them.
    pub regions: Vec<GuestMemoryRegionState>,
}

/// Address and size of each region, in order.
pub open spec fn region_layout(regions: Seq<GuestMemoryRegionState>) -> Seq<(u64, usize)> {
    regions.map_values(|r: GuestMemoryRegionState| (r.base_address, r.size))
}

/// Whether addresses and sizes are those of the regions, one for one.
pub open spec fn lays_out(layout: Seq<(u64, usize)>, regions: Seq<GuestMemoryRegionState>) -> bool {
    &&& layout.len() == regions.len()
    &&& forall|i: int|
        0 <= i < regions.len() ==> (#[trigger] layout[i]).0 == regions[i].base_address && layout[i].1
            == regions[i].size
}

/// The layout of guest memory has the address and the size of each region, in order, whatever the
/// region is for.
pub proof fn law_layout_has_each_region(regions: Seq<GuestMemoryRegionState>)
    ensures
        lays_out(region_layout(regions), regions),
{
}

impl GuestMemoryState {
    /// Returns address and size of each region, in order.
    pub fn regions(&self) -> (layout: Vec<(u64, usize)>)
        ensures
            layout@ == region_layout(self.regions@),
            lays_out(layout@, self.regions@),
    {
        let mut layout: Vec<(u64, usize)> = Vec::new();
        let mut at: usize = 0;
        while at < self.regions.len()
            invariant
                at <= self.regions@.len(),
                layout@ == region_layout(self.regions@).take(at as int),
            decreases self.regions@.len() - at,
        {
            layout.push((self.regions[at].base_address, self.regions[at].size));
            at = at + 1;
            assert(layout@ =~= region_layout(self.regions@).take(at as int));
        }
        assert(layout@ =~= region_layout(self.regions@));
        layout
    }
}

} // verus!
