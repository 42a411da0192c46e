use vstd::prelude::*;

use crate::geometry::{Point, Rect};

verus! {

/// Whether a rectangle of a region adds to it or cuts out of it.
#[derive(Clone, Copy, Debug, PartialEq, Eq, Structural)]
pub enum RectKind {
    Add,
    Subtract,
}

#[derive(Clone, Copy, Debug, PartialEq, Eq, Structural)]
pub struct RegionRect {
    pub kind: RectKind,
    pub rect: Rect,
}

/// A surface-local region: rectangles added and subtracted in order.
pub struct Region {
    pub rects: Vec<RegionRect>,
}

/// A point is in the region when the last rectangle that holds it was added.
pub open spec fn region_contains(rects: Seq<RegionRect>, p: Point) -> bool
    decreases rects.len(),
{
    if rects.len() == 0 {
        false
    } else if rects.last().rect.contains_spec(p) {
        rects.last().kind == RectKind::Add
    } else {
        region_contains(rects.drop_last(), p)
    }
}

/// An absent region places no bound: every point is in it.
pub open spec fn within(region: Option<Seq<RegionRect>>, p: Point) -> bool {
    match region {
        None => true,
        Some(rects) => region_contains(rects, p),
    }
}

pub open spec fn region_model(region: Option<Region>) -> Option<Seq<RegionRect>> {
    match region {
        None => None,
        Some(r) => Some(r@),
    }
}

impl View for Region {
    type V = Seq<RegionRect>;

    open spec fn view(&self) -> Seq<RegionRect> {
        self.rects@
    }
}

impl Region {
    pub fn new(rects: Vec<RegionRect>) -> (r: Region)
        ensures
            r@ == rects@,
    {
        Region { rects }
    }

    pub fn contains(&self, p: Point) -> (r: bool)
        ensures
            r == region_contains(self@, p),
    {
        let mut inside = false;
        let mut i: usize = 0;
        while i < self.rects.len()
            invariant
                i <= self.rects@.len(),
                inside == region_contains(self.rects@.take(i as int), p),
            decreases self.rects@.len() - i,
        {
            let r = self.rects[i];
            if r.rect.contains(p) {
                inside = r.kind == RectKind::Add;
            }
            assert(self.rects@.take(i + 1).drop_last() =~= self.rects@.take(i as int));
            i = i + 1;
        }
        assert(self.rects@.take(i as int) =~= self.rects@);
        inside
    }

    /// A copy of the region with the same rectangles.
    pub fn duplicate(&self) -> (r: Region)
        ensures
            r@ == self@,
    {
        let mut rects: Vec<RegionRect> = Vec::new();
        let mut i: usize = 0;
        while i < self.rects.len()
            invariant
                i <= self.rects@.len(),
                rects@ == self.rects@.take(i as int),
            decreases self.rects@.len() - i,
        {
            rects.push(self.rects[i]);
            assert(self.rects@.take(i + 1) =~= self.rects@.take(i as int).push(self.rects@[i as int]));
            i = i + 1;
        }
        assert(self.rects@.take(i as int) =~= self.rects@);
        Region { rects }
    }
}

pub fn duplicate_region(region: &Option<Region>) -> (r: Option<Region>)
    ensures
        region_model(r) == region_model(*region),
{
    match region {
        None => None,
        Some(reg) => Some(reg.duplicate()),
    }
}

/// Whether `p` is in `region`, or `true` where there is no region.
pub fn within_region(region: &Option<Region>, p: Point) -> (r: bool)
    ensures
        r == within(region_model(*region), p),
{
    match region {
        None => true,
        Some(reg) => reg.contains(p),
    }
}

} // verus!
