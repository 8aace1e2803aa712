//! The fixed catalog of map regions and the selector that focuses one of them.

use vstd::prelude::*;

verus! {

/// Number of entries in the region catalog.
pub const REGION_COUNT: usize = 7;

/// Index of the last catalog entry.
pub const LAST_REGION: usize = 6;

/// A map bounding box in whole degrees.
#[derive(Clone, Copy, Debug, PartialEq, Eq, Structural)]
pub struct RegionBounds {
    pub lon_min: i16,
    pub lon_max: i16,
    pub lat_min: i16,
    pub lat_max: i16,
}

/// The bounding box of catalog entry `i`, as
/// `(lon_min, lon_max, lat_min, lat_max)`.
pub open spec fn catalog_bounds(i: int) -> (int, int, int, int) {
    if i == 0 {
        (-180, 180, -90, 90)
    } else if i == 1 {
        (-9, 66, 36, 71)
    } else if i == 2 {
        (26, 169, -11, 82)
    } else if i == 3 {
        (72, 168, -55, -9)
    } else if i == 4 {
        (-172, -11, 5, 83)
    } else if i == 5 {
        (-92, -28, -56, 12)
    } else {
        (-17, 51, -35, 37)
    }
}

/// The label of catalog entry `i`.
pub open spec fn catalog_label(i: int) -> Seq<char> {
    if i == 0 {
        "World"@
    } else if i == 1 {
        "Europe"@
    } else if i == 2 {
        "Asia"@
    } else if i == 3 {
        "Oceania"@
    } else if i == 4 {
        "N. America"@
    } else if i == 5 {
        "S. America"@
    } else {
        "Africa"@
    }
}

impl RegionBounds {
    pub open spec fn view(&self) -> (int, int, int, int) {
        (self.lon_min as int, self.lon_max as int, self.lat_min as int, self.lat_max as int)
    }
}

/// The bounding box of catalog entry `i`.
pub fn region_bounds(i: usize) -> (r: RegionBounds)
    requires
        i < REGION_COUNT,
    ensures
        r@ == catalog_bounds(i as int),
{
    let (lon_min, lon_max, lat_min, lat_max): (i16, i16, i16, i16) = if i == 0 {
        (-180, 180, -90, 90)
    } else if i == 1 {
        (-9, 66, 36, 71)
    } else if i == 2 {
        (26, 169, -11, 82)
    } else if i == 3 {
        (72, 168, -55, -9)
    } else if i == 4 {
        (-172, -11, 5, 83)
    } else if i == 5 {
        (-92, -28, -56, 12)
    } else {
        (-17, 51, -35, 37)
    };
    RegionBounds { lon_min, lon_max, lat_min, lat_max }
}

/// The label of catalog entry `i`.
pub fn region_label(i: usize) -> (r: &'static str)
    requires
        i < REGION_COUNT,
    ensures
        r@ == catalog_label(i as int),
{
    if i == 0 {
        "World"
    } else if i == 1 {
        "Europe"
    } else if i == 2 {
        "Asia"
    } else if i == 3 {
        "Oceania"
    } else if i == 4 {
        "N. America"
    } else if i == 5 {
        "S. America"
    } else {
        "Africa"
    }
}

/// All catalog labels, in catalog order.
pub fn region_labels() -> (r: Vec<&'static str>)
    ensures
        r@.len() == REGION_COUNT,
        forall|i: int| 0 <= i < REGION_COUNT ==> (#[trigger] r@[i])@ == catalog_label(i),
{
    let mut r: Vec<&'static str> = Vec::new();
    let mut i: usize = 0;
    while i < REGION_COUNT
        invariant
            i <= REGION_COUNT,
            r@.len() == i,
            forall|k: int| 0 <= k < i ==> (#[trigger] r@[k])@ == catalog_label(k),
        decreases REGION_COUNT - i,
    {
        r.push(region_label(i));
        i = i + 1;
    }
    r
}

/// The index reached from `i` by a step towards the first entry.
pub open spec fn previous_index(i: int) -> int {
    if i > 0 {
        i - 1
    } else {
        i
    }
}

/// The index reached from `i` by a step towards the last entry.
pub open spec fn next_index(i: int) -> int {
    if i < LAST_REGION {
        i + 1
    } else {
        i
    }
}

/// The currently focused entry of the region catalog.
#[derive(Clone, Copy, Debug)]
pub struct RegionSelector {
    index: usize,
}

impl RegionSelector {
    pub closed spec fn view(&self) -> int {
        self.index as int
    }

    pub closed spec fn wf(&self) -> bool {
        self.index < REGION_COUNT
    }

    /// A selector focused on the first entry.
    pub fn new() -> (r: Self)
        ensures
            r.wf(),
            r@ == 0,
    {
        RegionSelector { index: 0 }
    }

    pub fn index(&self) -> (r: usize)
        requires
            self.wf(),
        ensures
            r == self@,
            r < REGION_COUNT,
    {
        self.index
    }

    /// Moves the focus one entry back; stays at the first entry.
    pub fn navigate_previous(&mut self)
        requires
            old(self).wf(),
        ensures
            final(self).wf(),
            final(self)@ == previous_index(old(self)@),
    {
        if self.index > 0 {
            self.index = self.index - 1;
        }
    }

    /// Moves the focus one entry forward; stays at the last entry.
    pub fn navigate_next(&mut self)
        requires
            old(self).wf(),
        ensures
            final(self).wf(),
            final(self)@ == next_index(old(self)@),
    {
        if self.index < LAST_REGION {
            self.index = self.index + 1;
        }
    }

    /// The bounding box of the focused entry.
    pub fn bounds(&self) -> (r: RegionBounds)
        requires
            self.wf(),
        ensures
            r@ == catalog_bounds(self@),
    {
        region_bounds(self.index)
    }

    /// The label of the focused entry.
    pub fn label(&self) -> (r: &'static str)
        requires
            self.wf(),
        ensures
            r@ == catalog_label(self@),
    {
        region_label(self.index)
    }
}

/// A step back followed by a step forward returns to the starting index
/// unless the start was the first entry, and a step forward followed by a
/// step back returns to it unless the start was the last entry; a step back
/// from the first entry and a step forward from the last leave the index as
/// it is.
pub proof fn lemma_navigation_round_trip(i: int)
    requires
        0 <= i < REGION_COUNT,
    ensures
        i > 0 ==> next_index(previous_index(i)) == i,
        i < LAST_REGION ==> previous_index(next_index(i)) == i,
        previous_index(0) == 0,
        next_index(LAST_REGION as int) == LAST_REGION,
        0 <= previous_index(i) < REGION_COUNT,
        0 <= next_index(i) < REGION_COUNT,
{
}

} // verus!
