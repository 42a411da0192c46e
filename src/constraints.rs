use vstd::prelude::*;

use std::collections::HashMap;

use crate::geometry::Position;
use crate::region::{duplicate_region, region_model, Region, RegionRect};

verus! {

broadcast use vstd::std_specs::hash::group_hash_axioms;

/// Whether a constraint survives its first deactivation.
#[derive(Clone, Copy, Debug, PartialEq, Eq, Structural)]
pub enum Lifetime {
    Oneshot,
    Persistent,
}

/// The pointer may only move within `region` while the constraint is active.
pub struct ConfinedPointer {
    pub active: bool,
    pub region: Option<Region>,
    pub pending_region: Option<Region>,
    pub lifetime: Lifetime,
}

/// The pointer stays where it is while the constraint is active.
pub struct LockedPointer {
    pub active: bool,
    pub region: Option<Region>,
    pub pending_region: Option<Region>,
    pub lifetime: Lifetime,
    pub cursor_position_hint: Option<Position>,
    pub pending_cursor_position_hint: Option<Position>,
}

pub enum PointerConstraint {
    Confined(ConfinedPointer),
    Locked(LockedPointer),
}

/// What a constraint is, as plain values.
pub struct ConstraintModel {
    pub locked: bool,
    pub active: bool,
    pub region: Option<Seq<RegionRect>>,
    pub pending_region: Option<Seq<RegionRect>>,
    pub lifetime: Lifetime,
    pub hint: Option<Position>,
    pub pending_hint: Option<Position>,
}

/// The protocol error raised where a surface is already constrained.
#[derive(Clone, Copy, Debug, PartialEq, Eq, Structural)]
pub enum ConstraintError {
    AlreadyConstrained,
}

impl ConfinedPointer {
    pub fn activate(&mut self) -> (sent: bool)
        ensures
            sent == !old(self).active,
            final(self).active,
            final(self).region == old(self).region,
            final(self).pending_region == old(self).pending_region,
            final(self).lifetime == old(self).lifetime,
    {
        if !self.active {
            self.active = true;
            true
        } else {
            false
        }
    }

    pub fn is_active(&self) -> (r: bool)
        ensures
            r == self.active,
    {
        self.active
    }
}

impl LockedPointer {
    pub fn activate(&mut self) -> (sent: bool)
        ensures
            sent == !old(self).active,
            final(self).active,
            final(self).region == old(self).region,
            final(self).pending_region == old(self).pending_region,
            final(self).lifetime == old(self).lifetime,
            final(self).cursor_position_hint == old(self).cursor_position_hint,
            final(self).pending_cursor_position_hint == old(self).pending_cursor_position_hint,
    {
        if !self.active {
            self.active = true;
            true
        } else {
            false
        }
    }

    pub fn is_active(&self) -> (r: bool)
        ensures
            r == self.active,
    {
        self.active
    }
}

impl PointerConstraint {
    pub open spec fn model(&self) -> ConstraintModel {
        match self {
            PointerConstraint::Confined(c) => ConstraintModel {
                locked: false,
                active: c.active,
                region: region_model(c.region),
                pending_region: region_model(c.pending_region),
                lifetime: c.lifetime,
                hint: None,
                pending_hint: None,
            },
            PointerConstraint::Locked(l) => ConstraintModel {
                locked: true,
                active: l.active,
                region: region_model(l.region),
                pending_region: region_model(l.pending_region),
                lifetime: l.lifetime,
                hint: l.cursor_position_hint,
                pending_hint: l.pending_cursor_position_hint,
            },
        }
    }

    pub fn is_active(&self) -> (r: bool)
        ensures
            r == self.model().active,
    {
        match self {
            PointerConstraint::Confined(c) => c.is_active(),
            PointerConstraint::Locked(l) => l.is_active(),
        }
    }

    pub fn is_locked(&self) -> (r: bool)
        ensures
            r == self.model().locked,
    {
        match self {
            PointerConstraint::Confined(_) => false,
            PointerConstraint::Locked(_) => true,
        }
    }

    pub fn region(&self) -> (r: &Option<Region>)
        ensures
            region_model(*r) == self.model().region,
    {
        match self {
            PointerConstraint::Confined(c) => &c.region,
            PointerConstraint::Locked(l) => &l.region,
        }
    }

    /// Marks the constraint active; `true` where it was not, so that the
    /// client must be told.
    pub fn activate(&mut self) -> (sent: bool)
        ensures
            sent == !old(self).model().active,
            final(self).model() == (ConstraintModel { active: true, ..old(self).model() }),
    {
        match self {
            PointerConstraint::Confined(c) => c.activate(),
            PointerConstraint::Locked(l) => l.activate(),
        }
    }

    /// Marks the constraint inactive; `true` where it was active, so that the
    /// client must be told.
    pub fn deactivate(&mut self) -> (sent: bool)
        ensures
            sent == old(self).model().active,
            final(self).model() == (ConstraintModel { active: false, ..old(self).model() }),
    {
        match self {
            PointerConstraint::Confined(c) => {
                let was = c.active;
                c.active = false;
                was
            },
            PointerConstraint::Locked(l) => {
                let was = l.active;
                l.active = false;
                was
            },
        }
    }

    pub fn lifetime(&self) -> (r: Lifetime)
        ensures
            r == self.model().lifetime,
    {
        match self {
            PointerConstraint::Confined(c) => c.lifetime,
            PointerConstraint::Locked(l) => l.lifetime,
        }
    }

    /// Applies the pending region (and, for a lock, the pending cursor hint).
    pub fn commit(&mut self)
        ensures
            final(self).model() == (ConstraintModel {
                region: old(self).model().pending_region,
                hint: old(self).model().pending_hint,
                ..old(self).model()
            }),
    {
        match self {
            PointerConstraint::Confined(c) => {
                c.region = duplicate_region(&c.pending_region);
            },
            PointerConstraint::Locked(l) => {
                l.region = duplicate_region(&l.pending_region);
                l.cursor_position_hint = l.pending_cursor_position_hint;
            },
        }
    }
}

/// The constraints of all surfaces, keyed by surface; at most one per surface.
pub struct PointerConstraintsState {
    pub constraints: HashMap<u64, PointerConstraint>,
}

impl PointerConstraintsState {
    pub open spec fn view(&self) -> Map<u64, ConstraintModel> {
        self.constraints@.map_values(|c: PointerConstraint| c.model())
    }

    pub fn new() -> (r: PointerConstraintsState)
        ensures
            r.view() == Map::<u64, ConstraintModel>::empty(),
    {
        let r = PointerConstraintsState { constraints: HashMap::new() };
        assert(r.view() =~= Map::<u64, ConstraintModel>::empty());
        r
    }

    pub fn get(&self, surface: u64) -> (r: Option<&PointerConstraint>)
        ensures
            match r {
                Some(c) => self.view().contains_key(surface) && self.view()[surface] == c.model(),
                None => !self.view().contains_key(surface),
            },
    {
        self.constraints.get(&surface)
    }

    pub fn has_constraint(&self, surface: u64) -> (r: bool)
        ensures
            r == self.view().contains_key(surface),
    {
        self.constraints.contains_key(&surface)
    }

    /// Adds a constraint for `surface`; where the surface already has one, that
    /// one is kept and the request is refused with a protocol error.
    pub fn add_constraint(&mut self, surface: u64, constraint: PointerConstraint) -> (r: Result<
        (),
        ConstraintError,
    >)
        ensures
            old(self).view().contains_key(surface) ==> r == Err::<(), ConstraintError>(
                ConstraintError::AlreadyConstrained,
            ) && final(self).view() == old(self).view(),
            !old(self).view().contains_key(surface) ==> r is Ok && final(self).view() == old(
                self,
            ).view().insert(surface, constraint.model()),
    {
        if self.constraints.contains_key(&surface) {
            Err(ConstraintError::AlreadyConstrained)
        } else {
            self.constraints.insert(surface, constraint);
            assert(self.view() =~= old(self).view().insert(surface, constraint.model()));
            Ok(())
        }
    }

    /// The lock request: an inactive lock whose committed and pending regions
    /// are both `region`.
    pub fn lock_pointer(&mut self, surface: u64, region: Option<Region>, lifetime: Lifetime) -> (r:
        Result<(), ConstraintError>)
        ensures
            old(self).view().contains_key(surface) ==> r == Err::<(), ConstraintError>(
                ConstraintError::AlreadyConstrained,
            ) && final(self).view() == old(self).view(),
            !old(self).view().contains_key(surface) ==> r is Ok && final(self).view() == old(
                self,
            ).view().insert(
                surface,
                ConstraintModel {
                    locked: true,
                    active: false,
                    region: region_model(region),
                    pending_region: region_model(region),
                    lifetime,
                    hint: None,
                    pending_hint: None,
                },
            ),
    {
        let pending_region = duplicate_region(&region);
        let c = PointerConstraint::Locked(
            LockedPointer {
                active: false,
                region,
                pending_region,
                lifetime,
                cursor_position_hint: None,
                pending_cursor_position_hint: None,
            },
        );
        self.add_constraint(surface, c)
    }

    /// The confine request: an inactive confinement whose committed and pending
    /// regions are both `region`.
    pub fn confine_pointer(&mut self, surface: u64, region: Option<Region>, lifetime: Lifetime) -> (r:
        Result<(), ConstraintError>)
        ensures
            old(self).view().contains_key(surface) ==> r == Err::<(), ConstraintError>(
                ConstraintError::AlreadyConstrained,
            ) && final(self).view() == old(self).view(),
            !old(self).view().contains_key(surface) ==> r is Ok && final(self).view() == old(
                self,
            ).view().insert(
                surface,
                ConstraintModel {
                    locked: false,
                    active: false,
                    region: region_model(region),
                    pending_region: region_model(region),
                    lifetime,
                    hint: None,
                    pending_hint: None,
                },
            ),
    {
        let pending_region = duplicate_region(&region);
        let c = PointerConstraint::Confined(
            ConfinedPointer { active: false, region, pending_region, lifetime },
        );
        self.add_constraint(surface, c)
    }

    /// The constraint's destroy request.
    pub fn remove_constraint(&mut self, surface: u64)
        ensures
            final(self).view() == old(self).view().remove(surface),
    {
        self.constraints.remove(&surface);
        assert(self.view() =~= old(self).view().remove(surface));
    }

    /// Sets the pending region of the surface's constraint, where it has one
    /// of the kind named (`locked`).
    pub fn set_region(&mut self, surface: u64, locked: bool, region: Option<Region>)
        ensures
            (old(self).view().contains_key(surface) && old(self).view()[surface].locked == locked)
                ==> final(self).view() == old(self).view().insert(
                surface,
                ConstraintModel { pending_region: region_model(region), ..old(self).view()[surface] },
            ),
            !(old(self).view().contains_key(surface) && old(self).view()[surface].locked == locked)
                ==> final(self).view() == old(self).view(),
    {
        match self.constraints.remove(&surface) {
            None => {
                assert(self.view() =~= old(self).view());
            },
            Some(c) => {
                let c2 = match c {
                    PointerConstraint::Confined(mut cp) => {
                        if !locked {
                            cp.pending_region = region;
                        }
                        PointerConstraint::Confined(cp)
                    },
                    PointerConstraint::Locked(mut lp) => {
                        if locked {
                            lp.pending_region = region;
                        }
                        PointerConstraint::Locked(lp)
                    },
                };
                self.constraints.insert(surface, c2);
                assert(self.view() =~= old(self).view().insert(surface, c2.model()));
                assert(!(old(self).view()[surface].locked == locked) ==> old(self).view().insert(
                    surface,
                    c2.model(),
                ) =~= old(self).view());
            },
        }
    }

    /// Sets the pending cursor hint of the surface's lock, where it has one.
    pub fn set_cursor_position_hint(&mut self, surface: u64, hint: Position)
        ensures
            (old(self).view().contains_key(surface) && old(self).view()[surface].locked)
                ==> final(self).view() == old(self).view().insert(
                surface,
                ConstraintModel { pending_hint: Some(hint), ..old(self).view()[surface] },
            ),
            !(old(self).view().contains_key(surface) && old(self).view()[surface].locked)
                ==> final(self).view() == old(self).view(),
    {
        match self.constraints.remove(&surface) {
            None => {
                assert(self.view() =~= old(self).view());
            },
            Some(c) => {
                let c2 = match c {
                    PointerConstraint::Confined(cp) => PointerConstraint::Confined(cp),
                    PointerConstraint::Locked(mut lp) => {
                        lp.pending_cursor_position_hint = Some(hint);
                        PointerConstraint::Locked(lp)
                    },
                };
                self.constraints.insert(surface, c2);
                assert(self.view() =~= old(self).view().insert(surface, c2.model()));
                assert(!old(self).view()[surface].locked ==> old(self).view().insert(
                    surface,
                    c2.model(),
                ) =~= old(self).view());
            },
        }
    }

    /// The surface's commit: its constraint, if any, takes its pending state.
    pub fn commit(&mut self, surface: u64)
        ensures
            old(self).view().contains_key(surface) ==> final(self).view() == old(
                self,
            ).view().insert(
                surface,
                ConstraintModel {
                    region: old(self).view()[surface].pending_region,
                    hint: old(self).view()[surface].pending_hint,
                    ..old(self).view()[surface]
                },
            ),
            !old(self).view().contains_key(surface) ==> final(self).view() == old(self).view(),
    {
        match self.constraints.remove(&surface) {
            None => {
                assert(self.view() =~= old(self).view());
            },
            Some(mut c) => {
                c.commit();
                self.constraints.insert(surface, c);
                assert(self.view() =~= old(self).view().insert(surface, c.model()));
            },
        }
    }

    /// Activates the surface's constraint; `true` where the client must be
    /// told that it became active.
    pub fn activate(&mut self, surface: u64) -> (sent: bool)
        ensures
            old(self).view().contains_key(surface) ==> final(self).view() == old(
                self,
            ).view().insert(surface, ConstraintModel { active: true, ..old(self).view()[surface] })
                && sent == !old(self).view()[surface].active,
            !old(self).view().contains_key(surface) ==> final(self).view() == old(self).view()
                && !sent,
    {
        match self.constraints.remove(&surface) {
            None => {
                assert(self.view() =~= old(self).view());
                false
            },
            Some(mut c) => {
                let sent = c.activate();
                self.constraints.insert(surface, c);
                assert(self.view() =~= old(self).view().insert(surface, c.model()));
                sent
            },
        }
    }

    /// Deactivates the surface's constraint; `true` where the client must be
    /// told. A one-shot constraint is removed.
    pub fn deactivate(&mut self, surface: u64) -> (sent: bool)
        ensures
            old(self).view().contains_key(surface) ==> sent == old(self).view()[surface].active
                && final(self).view() == (if old(self).view()[surface].lifetime
                == Lifetime::Oneshot {
                old(self).view().remove(surface)
            } else {
                old(self).view().insert(
                    surface,
                    ConstraintModel { active: false, ..old(self).view()[surface] },
                )
            }),
            !old(self).view().contains_key(surface) ==> final(self).view() == old(self).view()
                && !sent,
    {
        match self.constraints.remove(&surface) {
            None => {
                assert(self.view() =~= old(self).view());
                false
            },
            Some(mut c) => {
                let sent = c.deactivate();
                if c.lifetime() == Lifetime::Oneshot {
                    assert(self.view() =~= old(self).view().remove(surface));
                } else {
                    self.constraints.insert(surface, c);
                    assert(self.view() =~= old(self).view().insert(surface, c.model()));
                }
                sent
            },
        }
    }
}

} // verus!
