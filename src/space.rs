use vstd::prelude::*;

use crate::geometry::{Point, Position, Rect, Size};
use crate::window::Window;

verus! {

/// A window placed in the space, with the rectangle it covers.
#[derive(Clone, Copy, Debug, PartialEq, Eq, Structural)]
pub struct SpaceEntry {
    pub window: Window,
    pub loc: Point,
    pub size: Size,
}

impl SpaceEntry {
    pub open spec fn rect(self) -> Rect {
        Rect { loc: self.loc, size: self.size }
    }
}

/// The mapped windows in stacking order, bottom first; each window at most once.
pub struct Space {
    pub elements: Vec<SpaceEntry>,
}

pub open spec fn windows_of(s: Seq<SpaceEntry>) -> Seq<Window> {
    s.map_values(|e: SpaceEntry| e.window)
}

pub open spec fn holds(s: Seq<SpaceEntry>, w: Window) -> bool {
    exists|i: int| 0 <= i < s.len() && s[i].window == w
}

/// The place of `w` in the stacking order, `-1` where it is not mapped.
pub open spec fn index_of(s: Seq<SpaceEntry>, w: Window) -> int {
    if holds(s, w) {
        choose|i: int| 0 <= i < s.len() && s[i].window == w
    } else {
        -1
    }
}

/// The topmost entry whose rectangle holds `p`.
pub open spec fn under_index(s: Seq<SpaceEntry>, p: Position) -> int
    decreases s.len(),
{
    if s.len() == 0 {
        -1
    } else if s.last().rect().contains_pos_spec(p) {
        s.len() - 1
    } else {
        under_index(s.drop_last(), p)
    }
}

pub proof fn lemma_under_index_range(s: Seq<SpaceEntry>, p: Position)
    ensures
        -1 <= under_index(s, p) < s.len(),
        under_index(s, p) >= 0 ==> s[under_index(s, p)].rect().contains_pos_spec(p),
    decreases s.len(),
{
    if s.len() > 0 && !s.last().rect().contains_pos_spec(p) {
        lemma_under_index_range(s.drop_last(), p);
    }
}

/// `w` moved to the top of `s`, in place otherwise.
pub open spec fn raised(s: Seq<SpaceEntry>, w: Window) -> Seq<SpaceEntry> {
    let i = index_of(s, w);
    if i < 0 {
        s
    } else {
        s.remove(i).push(s[i])
    }
}

impl View for Space {
    type V = Seq<SpaceEntry>;

    open spec fn view(&self) -> Seq<SpaceEntry> {
        self.elements@
    }
}

impl Space {
    pub open spec fn wf(&self) -> bool {
        windows_of(self@).no_duplicates()
    }

    pub fn new() -> (r: Space)
        ensures
            r@ == Seq::<SpaceEntry>::empty(),
            r.wf(),
    {
        Space { elements: Vec::new() }
    }

    pub proof fn lemma_index(&self, w: Window, i: int)
        requires
            self.wf(),
            0 <= i < self@.len(),
            self@[i].window == w,
        ensures
            index_of(self@, w) == i,
    {
        let j = index_of(self@, w);
        assert(windows_of(self@)[i] == w);
        assert(windows_of(self@)[j] == w);
    }

    /// The place of `w` in the stacking order, if it is mapped.
    pub fn position(&self, w: Window) -> (r: Option<usize>)
        requires
            self.wf(),
        ensures
            match r {
                Some(i) => i == index_of(self@, w) && i < self@.len(),
                None => !holds(self@, w) && index_of(self@, w) == -1,
            },
    {
        let mut i: usize = 0;
        while i < self.elements.len()
            invariant
                self.wf(),
                i <= self@.len(),
                forall|j: int| 0 <= j < i ==> self@[j].window != w,
            decreases self@.len() - i,
        {
            if self.elements[i].window == w {
                proof {
                    self.lemma_index(w, i as int);
                }
                return Some(i);
            }
            i = i + 1;
        }
        None
    }

    pub fn element_location(&self, w: Window) -> (r: Option<Point>)
        requires
            self.wf(),
        ensures
            match r {
                Some(p) => holds(self@, w) && p == self@[index_of(self@, w)].loc,
                None => !holds(self@, w),
            },
    {
        match self.position(w) {
            Some(i) => Some(self.elements[i].loc),
            None => None,
        }
    }

    /// The topmost window whose rectangle holds `p`, with its location.
    pub fn element_under(&self, p: Position) -> (r: Option<SpaceEntry>)
        ensures
            under_index(self@, p) >= 0 ==> r == Some(self@[under_index(self@, p)]),
            under_index(self@, p) < 0 ==> r is None,
    {
        let mut i: usize = self.elements.len();
        assert(self@.take(i as int) =~= self@);
        while i > 0
            invariant
                i <= self@.len(),
                under_index(self@, p) == under_index(self@.take(i as int), p),
            decreases i,
        {
            let e = self.elements[i - 1];
            let r = Rect { loc: e.loc, size: e.size };
            assert(self@.take(i as int).last() == e);
            if r.contains_pos(p) {
                return Some(e);
            }
            assert(self@.take(i as int).drop_last() =~= self@.take(i - 1));
            i = i - 1;
        }
        assert(self@.take(0) =~= Seq::<SpaceEntry>::empty());
        None
    }

    /// The bottom-most window, the one raised least recently.
    pub fn bottom(&self) -> (r: Option<Window>)
        ensures
            self@.len() == 0 ==> r is None,
            self@.len() > 0 ==> r == Some(self@[0].window),
    {
        if self.elements.len() == 0 {
            None
        } else {
            Some(self.elements[0].window)
        }
    }

    /// Moves `w` to the top of the stacking order; its location is kept.
    pub fn raise_element(&mut self, w: Window)
        requires
            old(self).wf(),
        ensures
            final(self).wf(),
            final(self)@ == raised(old(self)@, w),
            forall|t: Window| #[trigger] holds(final(self)@, t) == holds(old(self)@, t),
    {
        match self.position(w) {
            None => {},
            Some(i) => {
                let e = self.elements.remove(i);
                self.elements.push(e);
                proof {
                    let s = old(self)@;
                    assert(windows_of(self@) =~= windows_of(s.remove(i as int)).push(w));
                    assert(windows_of(s.remove(i as int)) =~= windows_of(s).remove(i as int));
                    assert forall|a: int, b: int|
                        0 <= a < b < windows_of(self@).len() implies windows_of(self@)[a]
                        != windows_of(self@)[b] by {
                        if b == windows_of(self@).len() - 1 {
                            if a < i {
                                assert(windows_of(s)[a] != windows_of(s)[i as int]);
                            } else {
                                assert(windows_of(s)[a + 1] != windows_of(s)[i as int]);
                            }
                        } else {
                            let a0 = if a < i { a } else { a + 1 };
                            let b0 = if b < i { b } else { b + 1 };
                            assert(windows_of(s)[a0] != windows_of(s)[b0]);
                        }
                    }
                    assert forall|t: Window| #[trigger] holds(self@, t) == holds(s, t) by {
                        if holds(s, t) {
                            let k = choose|k: int| 0 <= k < s.len() && s[k].window == t;
                            if k == i {
                                assert(self@[s.len() - 1].window == t);
                            } else {
                                let k1 = if k < i { k } else { k - 1 };
                                assert(self@[k1].window == t);
                            }
                        }
                        if holds(self@, t) {
                            let k = choose|k: int| 0 <= k < self@.len() && self@[k].window == t;
                            if k == s.len() - 1 {
                                assert(s[i as int].window == t);
                            } else {
                                let k0 = if k < i { k } else { k + 1 };
                                assert(s[k0].window == t);
                            }
                        }
                    }
                }
            },
        }
    }

    /// Places `w` at `loc` with `size`. A window not yet mapped goes on top; one
    /// already mapped keeps its place in the stacking order unless `raise`.
    pub fn map_element(&mut self, w: Window, loc: Point, size: Size, raise: bool)
        requires
            old(self).wf(),
        ensures
            final(self).wf(),
            holds(old(self)@, w) ==> final(self)@ == {
                let s = old(self)@.update(
                    index_of(old(self)@, w),
                    SpaceEntry { window: w, loc, size },
                );
                if raise {
                    raised(s, w)
                } else {
                    s
                }
            },
            !holds(old(self)@, w) ==> final(self)@ == old(self)@.push(
                SpaceEntry { window: w, loc, size },
            ),
            holds(final(self)@, w),
            forall|t: Window| t != w ==> #[trigger] holds(final(self)@, t) == holds(old(self)@, t),
            (raise || !holds(old(self)@, w)) ==> final(self)@.len() > 0 && final(self)@.last()
                == (SpaceEntry { window: w, loc, size }),
    {
        let e = SpaceEntry { window: w, loc, size };
        match self.position(w) {
            None => {
                self.elements.push(e);
                proof {
                    let s = old(self)@;
                    assert(windows_of(self@) =~= windows_of(s).push(w));
                    assert forall|a: int, b: int|
                        0 <= a < b < windows_of(self@).len() implies windows_of(self@)[a]
                        != windows_of(self@)[b] by {
                        if b == s.len() {
                            assert(s[a].window != w);
                        } else {
                            assert(windows_of(s)[a] != windows_of(s)[b]);
                        }
                    }
                    assert(self@[s.len() as int].window == w);
                    assert forall|t: Window| t != w implies #[trigger] holds(self@, t) == holds(s, t) by {
                        if holds(s, t) {
                            let k = choose|k: int| 0 <= k < s.len() && s[k].window == t;
                            assert(self@[k].window == t);
                        }
                        if holds(self@, t) {
                            let k = choose|k: int| 0 <= k < self@.len() && self@[k].window == t;
                            assert(s[k].window == t);
                        }
                    }
                }
            },
            Some(i) => {
                self.elements.set(i, e);
                proof {
                    assert(windows_of(self@) =~= windows_of(old(self)@));
                    self.lemma_index(w, i as int);
                    let s = old(self)@;
                    assert(self@[i as int].window == w);
                    assert forall|t: Window| t != w implies #[trigger] holds(self@, t) == holds(s, t) by {
                        if holds(s, t) {
                            let k = choose|k: int| 0 <= k < s.len() && s[k].window == t;
                            assert(self@[k].window == t);
                        }
                        if holds(self@, t) {
                            let k = choose|k: int| 0 <= k < self@.len() && self@[k].window == t;
                            assert(s[k].window == t);
                        }
                    }
                }
                if raise {
                    self.raise_element(w);
                }
            },
        }
    }

    /// Removes `w` from the space.
    pub fn unmap_elem(&mut self, w: Window)
        requires
            old(self).wf(),
        ensures
            final(self).wf(),
            !holds(final(self)@, w),
            holds(old(self)@, w) ==> final(self)@ == old(self)@.remove(index_of(old(self)@, w)),
            !holds(old(self)@, w) ==> final(self)@ == old(self)@,
            forall|t: Window| t != w ==> #[trigger] holds(final(self)@, t) == holds(old(self)@, t),
    {
        match self.position(w) {
            None => {},
            Some(i) => {
                self.elements.remove(i);
                proof {
                    let s = old(self)@;
                    assert(windows_of(self@) =~= windows_of(s).remove(i as int));
                    assert forall|a: int, b: int|
                        0 <= a < b < windows_of(self@).len() implies windows_of(self@)[a]
                        != windows_of(self@)[b] by {
                        let a0 = if a < i { a } else { a + 1 };
                        let b0 = if b < i { b } else { b + 1 };
                        assert(windows_of(s)[a0] != windows_of(s)[b0]);
                    }
                    assert forall|j: int| 0 <= j < self@.len() implies self@[j].window != w by {
                        let j0 = if j < i { j } else { j + 1 };
                        assert(windows_of(s)[j0] != windows_of(s)[i as int]);
                    }
                    assert forall|t: Window| t != w implies #[trigger] holds(self@, t) == holds(s, t) by {
                        if holds(s, t) {
                            let k = choose|k: int| 0 <= k < s.len() && s[k].window == t;
                            assert(k != i);
                            let k1 = if k < i { k } else { k - 1 };
                            assert(self@[k1].window == t);
                        }
                        if holds(self@, t) {
                            let k = choose|k: int| 0 <= k < self@.len() && self@[k].window == t;
                            let k0 = if k < i { k } else { k + 1 };
                            assert(s[k0].window == t);
                        }
                    }
                }
            },
        }
    }
}

} // verus!
