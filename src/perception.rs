//! Perception and planning choices: which opponent to target, which item to
//! head for, and how far along its path a bot is.

use crate::geometry::{in_world, sqr_dist, Point};
use vstd::prelude::*;

verus! {

/// A hit of a line-of-sight ray.
#[derive(Copy, Clone, PartialEq, Eq, Debug, Structural)]
pub enum RayHit {
    /// Static level geometry.
    Static,
    /// The physics body with this handle.
    Body(u64),
}

/// An opponent seen from one bot this tick, with what the physics reported:
/// whether it lies inside the bot's view frustum, and what the ray from the
/// bot to it hit.
pub struct Candidate {
    pub actor: u64,
    pub body: u64,
    pub position: Point,
    pub in_frustum: bool,
    pub hits: Vec<RayHit>,
}

/// The opponent a bot engages this tick.
#[derive(Copy, Clone, PartialEq, Eq, Debug, Structural)]
pub struct Target {
    pub position: Point,
    pub actor: u64,
}

/// The ray to a candidate is blocked: it hit static geometry, or a body that
/// is neither the looking bot's nor the candidate's own.
pub open spec fn blocked(hits: Seq<RayHit>, own_body: u64, target_body: u64) -> bool {
    exists|i: int|
        0 <= i < hits.len() && match #[trigger] hits[i] {
            RayHit::Static => true,
            RayHit::Body(b) => b != own_body && b != target_body,
        }
}

/// A candidate a bot may target: not itself, inside its frustum, in sight.
pub open spec fn visible(c: Candidate, self_actor: u64, self_body: u64) -> bool {
    &&& c.actor != self_actor
    &&& c.in_frustum
    &&& !blocked(c.hits@, self_body, c.body)
}

/// Candidate `i` is the first visible one at the least squared distance from
/// `position`.
pub open spec fn is_nearest_visible(
    cs: Seq<Candidate>,
    i: int,
    self_actor: u64,
    self_body: u64,
    position: Point,
) -> bool {
    &&& 0 <= i < cs.len()
    &&& visible(cs[i], self_actor, self_body)
    &&& forall|j: int|
        0 <= j < cs.len() && visible(#[trigger] cs[j], self_actor, self_body) ==> sqr_dist(position, cs[i].position)
            <= sqr_dist(position, cs[j].position)
    &&& forall|j: int|
        0 <= j < i && visible(#[trigger] cs[j], self_actor, self_body) ==> sqr_dist(position, cs[i].position)
            < sqr_dist(position, cs[j].position)
}

pub open spec fn none_visible(cs: Seq<Candidate>, self_actor: u64, self_body: u64) -> bool {
    forall|j: int| 0 <= j < cs.len() ==> !visible(#[trigger] cs[j], self_actor, self_body)
}

pub open spec fn all_in_world(cs: Seq<Candidate>) -> bool {
    forall|j: int| 0 <= j < cs.len() ==> in_world(#[trigger] cs[j].position)
}

fn is_blocked(hits: &Vec<RayHit>, own_body: u64, target_body: u64) -> (b: bool)
    ensures
        b == blocked(hits@, own_body, target_body),
{
    let mut i: usize = 0;
    while i < hits.len()
        invariant
            i <= hits@.len(),
            forall|k: int|
                0 <= k < i ==> match #[trigger] hits@[k] {
                    RayHit::Static => false,
                    RayHit::Body(b) => b == own_body || b == target_body,
                },
        decreases hits@.len() - i,
    {
        match hits[i] {
            RayHit::Static => {
                return true;
            },
            RayHit::Body(b) => {
                if b != own_body && b != target_body {
                    return true;
                }
            },
        }
        i = i + 1;
    }
    false
}

/// Index of the nearest visible candidate, the first of them on a tie.
pub fn nearest_visible(self_actor: u64, self_body: u64, position: Point, candidates: &Vec<Candidate>) -> (r:
    Option<usize>)
    requires
        in_world(position),
        all_in_world(candidates@),
    ensures
        r is None <==> none_visible(candidates@, self_actor, self_body),
        r matches Some(i) ==> is_nearest_visible(candidates@, i as int, self_actor, self_body, position),
{
    let mut best: Option<usize> = None;
    let mut best_d: u64 = 0;
    let mut i: usize = 0;
    while i < candidates.len()
        invariant
            in_world(position),
            all_in_world(candidates@),
            i <= candidates@.len(),
            best is None ==> forall|j: int| 0 <= j < i ==> !visible(#[trigger] candidates@[j], self_actor, self_body),
            best matches Some(b) ==> {
                &&& b < i
                &&& best_d == sqr_dist(position, candidates@[b as int].position)
                &&& visible(candidates@[b as int], self_actor, self_body)
                &&& forall|j: int|
                    0 <= j < i && visible(#[trigger] candidates@[j], self_actor, self_body) ==> best_d <= sqr_dist(
                        position,
                        candidates@[j].position,
                    )
                &&& forall|j: int|
                    0 <= j < b && visible(#[trigger] candidates@[j], self_actor, self_body) ==> best_d < sqr_dist(
                        position,
                        candidates@[j].position,
                    )
            },
        decreases candidates@.len() - i,
    {
        let c = &candidates[i];
        if c.actor != self_actor && c.in_frustum && !is_blocked(&c.hits, self_body, c.body) {
            let d = position.sqr_distance(&c.position);
            if best.is_none() || d < best_d {
                best = Some(i);
                best_d = d;
            }
        }
        i = i + 1;
    }
    best
}

/// The target of a bot at `position`: the nearest visible candidate, chosen
/// afresh each tick.
pub fn select_target(self_actor: u64, self_body: u64, position: Point, candidates: &Vec<Candidate>) -> (t:
    Option<Target>)
    requires
        in_world(position),
        all_in_world(candidates@),
    ensures
        t is None <==> none_visible(candidates@, self_actor, self_body),
        t matches Some(tg) ==> exists|i: int|
            is_nearest_visible(candidates@, i, self_actor, self_body, position) && tg == (Target {
                position: #[trigger] candidates@[i].position,
                actor: candidates@[i].actor,
            }),
{
    match nearest_visible(self_actor, self_body, position, candidates) {
        None => None,
        Some(i) => {
            let t = Target { position: candidates[i].position, actor: candidates[i].actor };
            assert(is_nearest_visible(candidates@, i as int, self_actor, self_body, position));
            Some(t)
        },
    }
}

/// The chosen target lies inside the frustum with nothing blocking the ray
/// to it, and of two visible candidates the farther one is never chosen.
pub proof fn lemma_target_is_visible_and_nearest(
    cs: Seq<Candidate>,
    chosen: int,
    a: int,
    b: int,
    self_actor: u64,
    self_body: u64,
    position: Point,
)
    requires
        is_nearest_visible(cs, chosen, self_actor, self_body, position),
        0 <= a < cs.len(),
        0 <= b < cs.len(),
        visible(cs[a], self_actor, self_body),
        visible(cs[b], self_actor, self_body),
        sqr_dist(position, cs[a].position) < sqr_dist(position, cs[b].position),
    ensures
        cs[chosen].in_frustum,
        !blocked(cs[chosen].hits@, self_body, cs[chosen].body),
        cs[chosen].actor != self_actor,
        chosen != b,
{
    assert(visible(cs[a], self_actor, self_body));
}

/// An item of the level, and whether it is picked up at the moment.
#[derive(Copy, Clone, PartialEq, Eq, Debug, Structural)]
pub struct Item {
    pub position: Point,
    pub picked_up: bool,
}

/// Item `i` is the first item still lying around at the least squared
/// distance from `position`.
pub open spec fn is_nearest_item(items: Seq<Item>, i: int, position: Point) -> bool {
    &&& 0 <= i < items.len()
    &&& !items[i].picked_up
    &&& forall|j: int|
        0 <= j < items.len() && !(#[trigger] items[j]).picked_up ==> sqr_dist(items[i].position, position)
            <= sqr_dist(items[j].position, position)
    &&& forall|j: int|
        0 <= j < i && !(#[trigger] items[j]).picked_up ==> sqr_dist(items[i].position, position) < sqr_dist(
            items[j].position,
            position,
        )
}

pub open spec fn items_in_world(items: Seq<Item>) -> bool {
    forall|j: int| 0 <= j < items.len() ==> in_world(#[trigger] items[j].position)
}

/// Index of the nearest item not picked up, the first of them on a tie.
pub fn nearest_item(position: Point, items: &Vec<Item>) -> (r: Option<usize>)
    requires
        in_world(position),
        items_in_world(items@),
    ensures
        r is None <==> forall|j: int| 0 <= j < items@.len() ==> (#[trigger] items@[j]).picked_up,
        r matches Some(i) ==> is_nearest_item(items@, i as int, position),
{
    let mut best: Option<usize> = None;
    let mut best_d: u64 = 0;
    let mut i: usize = 0;
    while i < items.len()
        invariant
            in_world(position),
            items_in_world(items@),
            i <= items@.len(),
            best is None ==> forall|j: int| 0 <= j < i ==> (#[trigger] items@[j]).picked_up,
            best matches Some(b) ==> {
                &&& b < i
                &&& best_d == sqr_dist(items@[b as int].position, position)
                &&& !items@[b as int].picked_up
                &&& forall|j: int|
                    0 <= j < i && !(#[trigger] items@[j]).picked_up ==> best_d <= sqr_dist(items@[j].position, position)
                &&& forall|j: int|
                    0 <= j < b && !(#[trigger] items@[j]).picked_up ==> best_d < sqr_dist(items@[j].position, position)
            },
        decreases items@.len() - i,
    {
        let item = items[i];
        if !item.picked_up {
            let d = item.position.sqr_distance(&position);
            if best.is_none() || d < best_d {
                best = Some(i);
                best_d = d;
            }
        }
        i = i + 1;
    }
    best
}

/// Distance within which a waypoint counts as reached: 2 m.
pub const WAYPOINT_RADIUS: u64 = 2000;

/// A planned path and the index of the waypoint being walked to.
pub struct PathFollower {
    path: Vec<Point>,
    cursor: usize,
}

impl PathFollower {
    pub closed spec fn path(self) -> Seq<Point> {
        self.path@
    }

    pub closed spec fn cursor(self) -> nat {
        self.cursor as nat
    }

    /// The cursor stays on a waypoint of the path, or at zero on an empty
    /// path.
    pub open spec fn wf(self) -> bool {
        &&& self.cursor() < self.path().len() || (self.path().len() == 0 && self.cursor() == 0)
        &&& forall|i: int| 0 <= i < self.path().len() ==> in_world(#[trigger] self.path()[i])
    }

    pub fn new() -> (f: PathFollower)
        ensures
            f.wf(),
            f.path().len() == 0,
            f.cursor() == 0,
    {
        PathFollower { path: Vec::new(), cursor: 0 }
    }

    pub fn path_points(&self) -> (p: &Vec<Point>)
        ensures
            p@ == self.path(),
    {
        &self.path
    }

    pub fn cursor_index(&self) -> (c: usize)
        ensures
            c == self.cursor(),
    {
        self.cursor
    }

    /// Replaces the path by `planned` in reverse, since the planner lists
    /// waypoints from the destination back to the origin, and restarts at
    /// its first waypoint.
    pub fn replace(&mut self, planned: Vec<Point>)
        requires
            forall|i: int| 0 <= i < planned@.len() ==> in_world(#[trigger] planned@[i]),
        ensures
            final(self).wf(),
            final(self).path() == planned@.reverse(),
            final(self).cursor() == 0,
    {
        let mut path: Vec<Point> = Vec::new();
        let mut i: usize = planned.len();
        while i > 0
            invariant
                i <= planned@.len(),
                forall|k: int| 0 <= k < planned@.len() ==> in_world(#[trigger] planned@[k]),
                path@ == planned@.subrange(i as int, planned@.len() as int).reverse(),
            decreases i,
        {
            i = i - 1;
            path.push(planned[i]);
            assert(path@ =~= planned@.subrange(i as int, planned@.len() as int).reverse());
        }
        assert(planned@.subrange(0, planned@.len() as int) =~= planned@);
        self.path = path;
        self.cursor = 0;
    }

    /// Restarts at the first waypoint of the current path.
    pub fn restart(&mut self)
        requires
            old(self).wf(),
        ensures
            final(self).wf(),
            final(self).path() == old(self).path(),
            final(self).cursor() == 0,
    {
        self.cursor = 0;
    }

    /// The waypoint to walk to from `position`, if the path is not empty;
    /// when it is within reach and is not the last one, the cursor moves on
    /// to the next waypoint, for the following tick.
    pub fn follow(&mut self, position: Point) -> (w: Option<Point>)
        requires
            old(self).wf(),
            in_world(position),
        ensures
            final(self).wf(),
            final(self).path() == old(self).path(),
            old(self).path().len() == 0 ==> w is None && final(self).cursor() == old(self).cursor(),
            old(self).path().len() > 0 ==> {
                &&& w == Some(old(self).path()[old(self).cursor() as int])
                &&& final(self).cursor() == if sqr_dist(old(self).path()[old(self).cursor() as int], position)
                    <= WAYPOINT_RADIUS * WAYPOINT_RADIUS && old(self).cursor() + 1 < old(self).path().len() {
                    old(self).cursor() + 1
                } else {
                    old(self).cursor()
                }
            },
    {
        if self.cursor < self.path.len() {
            let target = self.path[self.cursor];
            if target.sqr_distance(&position) <= WAYPOINT_RADIUS * WAYPOINT_RADIUS && self.cursor < self.path.len()
                - 1 {
                self.cursor = self.cursor + 1;
            }
            Some(target)
        } else {
            None
        }
    }
}

} // verus!
