//! The physics bridge: the bookkeeping side of the rigid-body simulation.
//!
//! The bridge owns the canonical record of every body and collider — shape,
//! placement and density, all in integer milli-units — and decides how many
//! solver substeps run each frame. The floating-point solver itself is an
//! external collaborator: the host mirrors these records into it and
//! performs exactly the substeps the bridge commands, reading positions
//! back through the handles issued here.

use vstd::prelude::*;

use crate::ErrorKind;

verus! {

/// Gravity along the negative Y axis, in milli-units per second squared.
pub const GRAVITY_MILLI: i64 = -9810;

/// Solver substeps commanded per frame.
pub const SUBSTEPS_PER_FRAME: u32 = 3;

/// Opaque, non-owning reference to a body record. Valid only as long as
/// the owning set keeps the record; lookups through a stale handle fail
/// with `NotFound`, never corrupt anything.
#[derive(Debug, Copy, Clone, PartialEq, Eq, Structural)]
pub struct RigidBodyHandle {
    pub index: usize,
}

/// Opaque, non-owning reference to a collider record.
#[derive(Debug, Copy, Clone, PartialEq, Eq, Structural)]
pub struct ColliderHandle {
    pub index: usize,
}

/// How the solver treats a body.
#[derive(Debug, Copy, Clone, PartialEq, Eq, Structural)]
pub enum BodyStatus {
    /// Immovable scenery; ignores forces.
    Ground,
    /// Positioned by the simulation.
    Dynamic,
}

/// A body as handed to the solver: status and initial placement, in
/// milli-units.
#[derive(Debug, Copy, Clone, PartialEq, Eq, Structural)]
pub struct BodyDesc {
    pub status: BodyStatus,
    pub translation_x_milli: i64,
    pub translation_y_milli: i64,
}

/// A collision shape, in milli-units.
#[derive(Debug, Copy, Clone, PartialEq, Eq, Structural)]
pub enum ShapeDesc {
    Ball { radius_milli: i64 },
    Cuboid { half_width_milli: i64, half_height_milli: i64 },
}

/// A collider as handed to the solver: shape, density (zero meaning none
/// set) and offset from its parent body, in milli-units.
#[derive(Debug, Copy, Clone, PartialEq, Eq, Structural)]
pub struct ColliderDesc {
    pub shape: ShapeDesc,
    pub density_milli: i64,
    pub translation_x_milli: i64,
    pub translation_y_milli: i64,
}

/// A collider record: the descriptor and the body it is attached to.
#[derive(Debug, Copy, Clone, PartialEq, Eq, Structural)]
pub struct ColliderRec {
    pub desc: ColliderDesc,
    pub parent: RigidBodyHandle,
}

/// The physics simulation state this core owns: body and collider records,
/// the fixed gravity, and the count of solver substeps commanded so far.
/// No other component mutates bodies or colliders; all changes go through
/// the bridge's insert, remove and step operations.
pub struct Physics {
    pub bodies: Vec<Option<BodyDesc>>,
    pub colliders: Vec<Option<ColliderRec>>,
    pub nsteps: u32,
    pub substeps_done: u64,
}

/// A body handle is live when it points at a record that is still there.
pub open spec fn body_live(p: Physics, h: RigidBodyHandle) -> bool {
    h.index < p.bodies@.len() && p.bodies@[h.index as int] is Some
}

/// A collider handle is live when it points at a record that is still
/// there.
pub open spec fn collider_live(p: Physics, h: ColliderHandle) -> bool {
    h.index < p.colliders@.len() && p.colliders@[h.index as int] is Some
}

/// Every collider still present is attached to a body still present.
pub open spec fn wf_physics(p: Physics) -> bool {
    forall|i: int|
        0 <= i < p.colliders@.len() && p.colliders@[i] is Some ==> body_live(
            p,
            (#[trigger] p.colliders@[i])->0.parent,
        )
}

impl Physics {
    /// A fresh simulation: no bodies, no colliders, no substeps done, the
    /// per-frame substep count at its fixed default.
    pub fn new() -> (p: Physics)
        ensures
            p.bodies@.len() == 0,
            p.colliders@.len() == 0,
            p.nsteps == SUBSTEPS_PER_FRAME,
            p.substeps_done == 0,
            wf_physics(p),
    {
        Physics { bodies: Vec::new(), colliders: Vec::new(), nsteps: SUBSTEPS_PER_FRAME, substeps_done: 0 }
    }

    /// Adds a body record and issues its handle. Nothing else changes;
    /// every handle issued earlier stays live.
    pub fn insert_body(&mut self, desc: BodyDesc) -> (h: RigidBodyHandle)
        ensures
            h.index == old(self).bodies@.len(),
            final (self).bodies@ == old(self).bodies@.push(Some(desc)),
            final (self).colliders@ == old(self).colliders@,
            final (self).nsteps == old(self).nsteps,
            final (self).substeps_done == old(self).substeps_done,
            body_live(*final (self), h),
            wf_physics(*old(self)) ==> wf_physics(*final (self)),
    {
        let index = self.bodies.len();
        self.bodies.push(Some(desc));
        RigidBodyHandle { index }
    }

    /// Reads a body record back. A stale or unknown handle fails with
    /// `NotFound`, exactly when the record is gone.
    pub fn body(&self, h: RigidBodyHandle) -> (r: Result<BodyDesc, ErrorKind>)
        ensures
            body_live(*self, h) <==> r is Ok,
            r matches Ok(d) ==> Some(d) == self.bodies@[h.index as int],
            r matches Err(e) ==> e == ErrorKind::NotFound,
    {
        if h.index < self.bodies.len() {
            match &self.bodies[h.index] {
                Some(d) => Ok(*d),
                None => Err(ErrorKind::NotFound),
            }
        } else {
            Err(ErrorKind::NotFound)
        }
    }

    /// Removes a body record, together with every collider attached to it,
    /// and returns the removed descriptor. Handles to other records stay
    /// live; the removed handle is stale from here on.
    pub fn remove_body(&mut self, h: RigidBodyHandle) -> (r: Result<BodyDesc, ErrorKind>)
        requires
            wf_physics(*old(self)),
        ensures
            wf_physics(*final (self)),
            body_live(*old(self), h) <==> r is Ok,
            r matches Err(e) ==> e == ErrorKind::NotFound && *final (self) == *old(self),
            r matches Ok(d) ==> {
                &&& Some(d) == old(self).bodies@[h.index as int]
                &&& final (self).bodies@ == old(self).bodies@.update(h.index as int, None)
                &&& final (self).colliders@.len() == old(self).colliders@.len()
                &&& forall|i: int|
                    0 <= i < old(self).colliders@.len() ==> final (self).colliders@[i] == (
                    if old(self).colliders@[i] matches Some(c) && c.parent == h {
                        None
                    } else {
                        old(self).colliders@[i]
                    })
                &&& final (self).nsteps == old(self).nsteps
                &&& final (self).substeps_done == old(self).substeps_done
            },
    {
        if h.index >= self.bodies.len() {
            return Err(ErrorKind::NotFound);
        }
        let removed = match &self.bodies[h.index] {
            Some(d) => *d,
            None => {
                return Err(ErrorKind::NotFound);
            },
        };
        self.bodies.set(h.index, None);
        let mut i: usize = 0;
        while i < self.colliders.len()
            invariant
                i <= self.colliders@.len(),
                self.colliders@.len() == old(self).colliders@.len(),
                self.bodies@ == old(self).bodies@.update(h.index as int, None),
                self.nsteps == old(self).nsteps,
                self.substeps_done == old(self).substeps_done,
                forall|j: int|
                    0 <= j < i ==> self.colliders@[j] == (
                    if old(self).colliders@[j] matches Some(c) && c.parent == h {
                        None
                    } else {
                        old(self).colliders@[j]
                    }),
                forall|j: int| i <= j < self.colliders@.len() ==> self.colliders@[j] == old(self).colliders@[j],
                wf_physics(*old(self)),
            decreases self.colliders@.len() - i,
        {
            let drop_it = match &self.colliders[i] {
                Some(c) => c.parent.index == h.index,
                None => false,
            };
            if drop_it {
                self.colliders.set(i, None);
            }
            i = i + 1;
        }
        proof {
            assert forall|i: int|
                0 <= i < self.colliders@.len() && self.colliders@[i] is Some implies body_live(
                *self,
                (self.colliders@[i])->0.parent,
            ) by {
                let c = (self.colliders@[i])->0;
                assert(old(self).colliders@[i] == self.colliders@[i] || (old(
                    self,
                ).colliders@[i] matches Some(oc) && oc.parent == h));
                assert(body_live(*old(self), c.parent));
                assert(c.parent != h);
            }
        }
        Ok(removed)
    }

    /// Adds a collider record attached to `parent` and issues its handle.
    /// A stale or unknown parent fails with `NotFound` and changes
    /// nothing.
    pub fn insert_collider(&mut self, desc: ColliderDesc, parent: RigidBodyHandle) -> (r: Result<
        ColliderHandle,
        ErrorKind,
    >)
        requires
            wf_physics(*old(self)),
        ensures
            wf_physics(*final (self)),
            body_live(*old(self), parent) <==> r is Ok,
            r matches Err(e) ==> e == ErrorKind::NotFound && *final (self) == *old(self),
            r matches Ok(h) ==> {
                &&& h.index == old(self).colliders@.len()
                &&& final (self).colliders@ == old(self).colliders@.push(
                    Some(ColliderRec { desc, parent }),
                )
                &&& final (self).bodies@ == old(self).bodies@
                &&& final (self).nsteps == old(self).nsteps
                &&& final (self).substeps_done == old(self).substeps_done
                &&& collider_live(*final (self), h)
            },
    {
        let live = parent.index < self.bodies.len() && match &self.bodies[parent.index] {
            Some(_) => true,
            None => false,
        };
        if !live {
            return Err(ErrorKind::NotFound);
        }
        let index = self.colliders.len();
        self.colliders.push(Some(ColliderRec { desc, parent }));
        Ok(ColliderHandle { index })
    }

    /// Reads a collider record back. A stale or unknown handle fails with
    /// `NotFound`, exactly when the record is gone.
    pub fn collider(&self, h: ColliderHandle) -> (r: Result<ColliderRec, ErrorKind>)
        ensures
            collider_live(*self, h) <==> r is Ok,
            r matches Ok(c) ==> Some(c) == self.colliders@[h.index as int],
            r matches Err(e) ==> e == ErrorKind::NotFound,
    {
        if h.index < self.colliders.len() {
            match &self.colliders[h.index] {
                Some(c) => Ok(*c),
                None => Err(ErrorKind::NotFound),
            }
        } else {
            Err(ErrorKind::NotFound)
        }
    }

    /// Commands `n_substeps` sequential solver substeps. The records do
    /// not change — positions live in the external solver — but the count
    /// of commanded substeps grows by exactly `n_substeps`, so all dynamic
    /// bodies advance by that many solves.
    pub fn step(&mut self, n_substeps: u32)
        requires
            old(self).substeps_done + n_substeps <= u64::MAX,
        ensures
            final (self).substeps_done == old(self).substeps_done + n_substeps,
            final (self).bodies@ == old(self).bodies@,
            final (self).colliders@ == old(self).colliders@,
            final (self).nsteps == old(self).nsteps,
    {
        self.substeps_done = self.substeps_done + n_substeps as u64;
    }
}

} // verus!
