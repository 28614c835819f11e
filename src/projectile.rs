//! Projectiles: fixed facts of each kind, lifetime, and the actors a
//! projectile hits on one tick.

use crate::geometry::Point;
use crate::kinds::ProjectileKind;
use crate::perception::RayHit;
use vstd::prelude::*;

verus! {

/// Fixed facts of a projectile kind.
#[derive(Copy, Clone, Debug)]
pub struct ProjectileDefinition {
    /// Damage dealt to each actor hit.
    pub damage: i64,
    /// Distance covered per tick, in mm.
    pub speed: u64,
    /// Time before the projectile dies on its own, in ms.
    pub lifetime: u64,
    /// Movement is driven by code, not by the physics.
    pub is_kinematic: bool,
    pub impact_sound: &'static str,
}

pub open spec fn projectile_numbers(kind: ProjectileKind) -> (i64, u64, u64) {
    match kind {
        ProjectileKind::Plasma => (30, 150, 10000),
        ProjectileKind::Bullet => (15, 5000, 10000),
        ProjectileKind::Rocket => (30, 500, 10000),
    }
}

/// An actor hit by a projectile, and the actor that fired it.
#[derive(Copy, Clone, PartialEq, Eq, Debug, Structural)]
pub struct Hit {
    pub actor: u64,
    pub who: u64,
}

/// `hits` without the entries that repeat the actor of the entry before
/// them.
pub open spec fn dedup_by_actor(hits: Seq<Hit>) -> Seq<Hit>
    decreases hits.len(),
{
    if hits.len() == 0 {
        Seq::empty()
    } else {
        let kept = dedup_by_actor(hits.drop_last());
        if hits.len() >= 2 && hits[hits.len() - 2].actor == hits.last().actor {
            kept
        } else {
            kept.push(hits.last())
        }
    }
}

/// Drops consecutive hits on the same actor, so that contact and ray tests
/// of one tick damage an actor once.
pub fn dedup_hits(hits: &Vec<Hit>) -> (r: Vec<Hit>)
    ensures
        r@ == dedup_by_actor(hits@),
{
    let mut r: Vec<Hit> = Vec::new();
    let mut i: usize = 0;
    while i < hits.len()
        invariant
            i <= hits@.len(),
            r@ == dedup_by_actor(hits@.take(i as int)),
        decreases hits@.len() - i,
    {
        let prefix = Ghost(hits@.take(i + 1));
        assert(prefix@.drop_last() =~= hits@.take(i as int));
        if i >= 1 && hits[i - 1].actor == hits[i].actor {
        } else {
            r.push(hits[i]);
        }
        i = i + 1;
    }
    assert(hits@.take(i as int) =~= hits@);
    r
}

/// A hit of the ray from the projectile's last position to its current one,
/// nearest first.
#[derive(Copy, Clone, PartialEq, Eq, Debug, Structural)]
pub struct SweepHit {
    pub kind: RayHit,
    pub position: Point,
}

/// A contact of the projectile's own physics body.
#[derive(Copy, Clone, PartialEq, Eq, Debug, Structural)]
pub struct Contact {
    pub body: u64,
    pub position: Point,
}

/// An actor and the handle of its physics body.
#[derive(Copy, Clone, PartialEq, Eq, Debug, Structural)]
pub struct ActorBody {
    pub actor: u64,
    pub body: u64,
}

/// Actor `a` is someone the projectile can damage when it meets `body`: the
/// projectile has a shooter, and the actor owns the body and is not the
/// shooter.
pub open spec fn victim(a: ActorBody, body: u64, shooter: Option<u64>) -> bool {
    shooter matches Some(s) && a.body == body && a.actor != s
}

/// Victims, in actor order, among `actors` for a meeting with `body`.
pub open spec fn victims(actors: Seq<ActorBody>, body: u64, shooter: Option<u64>) -> Seq<Hit>
    decreases actors.len(),
{
    if actors.len() == 0 {
        Seq::empty()
    } else {
        let earlier = victims(actors.drop_last(), body, shooter);
        if victim(actors.last(), body, shooter) {
            earlier.push(Hit { actor: actors.last().actor, who: shooter->Some_0 })
        } else {
            earlier
        }
    }
}

/// A sweep hit stops the projectile: static geometry, or the body of an
/// actor it can damage.
pub open spec fn stops(h: SweepHit, actors: Seq<ActorBody>, shooter: Option<u64>) -> bool {
    match h.kind {
        RayHit::Static => true,
        RayHit::Body(b) => victims(actors, b, shooter).len() > 0,
    }
}

/// Hit `i` is the first one that stops the projectile.
pub open spec fn first_stop(hits: Seq<SweepHit>, i: int, actors: Seq<ActorBody>, shooter: Option<u64>) -> bool {
    &&& 0 <= i < hits.len()
    &&& stops(hits[i], actors, shooter)
    &&& forall|j: int| 0 <= j < i ==> !stops(#[trigger] hits[j], actors, shooter)
}

/// Outcome of a sweep: where the projectile stopped, and the actor hit
/// there, if any.
pub open spec fn sweep_outcome(h: SweepHit, actors: Seq<ActorBody>, shooter: Option<u64>) -> (Option<Hit>, Point) {
    match h.kind {
        RayHit::Static => (None, h.position),
        RayHit::Body(b) => (Some(victims(actors, b, shooter)[0]), h.position),
    }
}

/// The projectile meets its own shooter's body, which it passes through.
pub open spec fn meets_shooter(actors: Seq<ActorBody>, body: u64, shooter: Option<u64>) -> bool {
    shooter matches Some(s) && exists|j: int| 0 <= j < actors.len() && (#[trigger] actors[j]).body == body
        && actors[j].actor == s
}

/// Hits from the body's contacts, in contact order then actor order.
pub open spec fn contact_hits(contacts: Seq<Contact>, actors: Seq<ActorBody>, shooter: Option<u64>) -> Seq<Hit>
    decreases contacts.len(),
{
    if contacts.len() == 0 {
        Seq::empty()
    } else {
        contact_hits(contacts.drop_last(), actors, shooter) + victims(actors, contacts.last().body, shooter)
    }
}

/// Position of the last contact that kills the projectile, if any: every
/// contact but one with the shooter.
pub open spec fn last_killing_contact(contacts: Seq<Contact>, actors: Seq<ActorBody>, shooter: Option<u64>) -> Option<
    Point,
>
    decreases contacts.len(),
{
    if contacts.len() == 0 {
        None
    } else if !meets_shooter(actors, contacts.last().body, shooter) {
        Some(contacts.last().position)
    } else {
        last_killing_contact(contacts.drop_last(), actors, shooter)
    }
}

fn find_victims(actors: &Vec<ActorBody>, body: u64, shooter: Option<u64>) -> (r: Vec<Hit>)
    ensures
        r@ == victims(actors@, body, shooter),
{
    let mut r: Vec<Hit> = Vec::new();
    let mut i: usize = 0;
    while i < actors.len()
        invariant
            i <= actors@.len(),
            r@ == victims(actors@.take(i as int), body, shooter),
        decreases actors@.len() - i,
    {
        assert(actors@.take(i + 1).drop_last() =~= actors@.take(i as int));
        let a = actors[i];
        if let Some(s) = shooter {
            if a.body == body && a.actor != s {
                r.push(Hit { actor: a.actor, who: s });
            }
        }
        i = i + 1;
    }
    assert(actors@.take(i as int) =~= actors@);
    r
}

fn touches_shooter(actors: &Vec<ActorBody>, body: u64, shooter: Option<u64>) -> (b: bool)
    ensures
        b == meets_shooter(actors@, body, shooter),
{
    match shooter {
        None => false,
        Some(s) => {
            let mut i: usize = 0;
            while i < actors.len()
                invariant
                    i <= actors@.len(),
                    shooter == Some(s),
                    forall|j: int| 0 <= j < i ==> !((#[trigger] actors@[j]).body == body && actors@[j].actor == s),
                decreases actors@.len() - i,
            {
                if actors[i].body == body && actors[i].actor == s {
                    return true;
                }
                i = i + 1;
            }
            false
        },
    }
}

/// The first sweep hit that stops the projectile, with the actor it hits
/// there, if any.
pub fn resolve_sweep(hits: &Vec<SweepHit>, actors: &Vec<ActorBody>, shooter: Option<u64>) -> (r: Option<
    (Option<Hit>, Point),
>)
    ensures
        r is None <==> forall|j: int| 0 <= j < hits@.len() ==> !stops(#[trigger] hits@[j], actors@, shooter),
        r is Some ==> exists|i: int|
            first_stop(hits@, i, actors@, shooter) && r->Some_0 == sweep_outcome(#[trigger] hits@[i], actors@, shooter),
{
    let mut i: usize = 0;
    while i < hits.len()
        invariant
            i <= hits@.len(),
            forall|j: int| 0 <= j < i ==> !stops(#[trigger] hits@[j], actors@, shooter),
        decreases hits@.len() - i,
    {
        let h = hits[i];
        match h.kind {
            RayHit::Static => {
                assert(first_stop(hits@, i as int, actors@, shooter));
                return Some((None, h.position));
            },
            RayHit::Body(b) => {
                let found = find_victims(actors, b, shooter);
                if found.len() > 0 {
                    assert(first_stop(hits@, i as int, actors@, shooter));
                    return Some((Some(found[0]), h.position));
                }
            },
        }
        i = i + 1;
    }
    None
}

/// What the contacts of the projectile's body do: the actors they damage,
/// and where the last contact that kills the projectile lies.
pub fn resolve_contacts(contacts: &Vec<Contact>, actors: &Vec<ActorBody>, shooter: Option<u64>) -> (r: (
    Vec<Hit>,
    Option<Point>,
))
    ensures
        r.0@ == contact_hits(contacts@, actors@, shooter),
        r.1 == last_killing_contact(contacts@, actors@, shooter),
{
    let mut hits: Vec<Hit> = Vec::new();
    let mut kill: Option<Point> = None;
    let mut i: usize = 0;
    while i < contacts.len()
        invariant
            i <= contacts@.len(),
            hits@ == contact_hits(contacts@.take(i as int), actors@, shooter),
            kill == last_killing_contact(contacts@.take(i as int), actors@, shooter),
        decreases contacts@.len() - i,
    {
        assert(contacts@.take(i + 1).drop_last() =~= contacts@.take(i as int));
        let c = contacts[i];
        let mut found = find_victims(actors, c.body, shooter);
        hits.append(&mut found);
        if !touches_shooter(actors, c.body, shooter) {
            kill = Some(c.position);
        }
        i = i + 1;
    }
    assert(contacts@.take(i as int) =~= contacts@);
    (hits, kill)
}

/// What a projectile did on one tick.
pub struct Outcome {
    /// Actors to damage by the kind's damage, each once in a row.
    pub hits: Vec<Hit>,
    /// Where the impact effect and sound go, when the projectile died on
    /// this tick.
    pub impact: Option<Point>,
}

pub struct Projectile {
    kind: ProjectileKind,
    /// Time left to live, in ms; zero once dead.
    lifetime: u64,
    /// Handle of the weapon that fired it.
    owner: u64,
}

impl Projectile {
    pub fn get_definition(kind: ProjectileKind) -> (d: ProjectileDefinition)
        ensures
            (d.damage, d.speed, d.lifetime) == projectile_numbers(kind),
            d.is_kinematic,
    {
        match kind {
            ProjectileKind::Plasma => ProjectileDefinition {
                damage: 30,
                speed: 150,
                lifetime: 10000,
                is_kinematic: true,
                impact_sound: "data/sounds/bullet_impact_concrete.ogg",
            },
            ProjectileKind::Bullet => ProjectileDefinition {
                damage: 15,
                speed: 5000,
                lifetime: 10000,
                is_kinematic: true,
                impact_sound: "data/sounds/bullet_impact_concrete.ogg",
            },
            ProjectileKind::Rocket => ProjectileDefinition {
                damage: 30,
                speed: 500,
                lifetime: 10000,
                is_kinematic: true,
                impact_sound: "data/sounds/explosion.ogg",
            },
        }
    }

    pub closed spec fn lifetime_spec(&self) -> u64 {
        self.lifetime
    }

    pub closed spec fn owner_spec(&self) -> u64 {
        self.owner
    }

    pub fn owner(&self) -> (o: u64)
        ensures
            o == self.owner_spec(),
    {
        self.owner
    }

    pub fn definition(&self) -> (d: ProjectileDefinition)
        ensures
            (d.damage, d.speed, d.lifetime) == projectile_numbers(self.kind_spec()),
    {
        Self::get_definition(self.kind)
    }

    pub closed spec fn kind_spec(&self) -> ProjectileKind {
        self.kind
    }

    /// A projectile of `kind` fired by weapon `owner`, with its full lifetime.
    pub fn new(kind: ProjectileKind, owner: u64) -> (p: Projectile)
        ensures
            p.kind_spec() == kind,
            p.owner_spec() == owner,
            p.lifetime_spec() == projectile_numbers(kind).2,
    {
        let definition = Self::get_definition(kind);
        Projectile { kind, lifetime: definition.lifetime, owner }
    }

    pub fn kind(&self) -> (k: ProjectileKind)
        ensures
            k == self.kind_spec(),
    {
        self.kind
    }

    pub fn damage(&self) -> (d: i64)
        ensures
            d == projectile_numbers(self.kind_spec()).0,
    {
        Self::get_definition(self.kind).damage
    }

    pub fn is_dead(&self) -> (b: bool)
        ensures
            b == (self.lifetime_spec() == 0),
    {
        self.lifetime == 0
    }

    pub fn kill(&mut self)
        ensures
            final(self).lifetime_spec() == 0,
            final(self).kind_spec() == old(self).kind_spec(),
            final(self).owner_spec() == old(self).owner_spec(),
    {
        self.lifetime = 0;
    }

    /// Ages the projectile by `delta` ms. Returns whether it died on this
    /// tick, when its impact effect and sound are due.
    pub fn age(&mut self, delta: u64) -> (died: bool)
        ensures
            final(self).lifetime_spec() == if old(self).lifetime_spec() > delta {
                (old(self).lifetime_spec() - delta) as u64
            } else {
                0
            },
            died == (final(self).lifetime_spec() == 0),
            final(self).kind_spec() == old(self).kind_spec(),
            final(self).owner_spec() == old(self).owner_spec(),
    {
        self.lifetime = if self.lifetime > delta {
            self.lifetime - delta
        } else {
            0
        };
        self.lifetime == 0
    }

    /// One tick of a projectile now at `position`: the sweep from its last
    /// position stops it at the first static hit or actor it can damage;
    /// contacts of its body (when it has one) damage the actors they touch
    /// and kill it unless they touch its shooter; then it ages by `delta`.
    /// The hits are returned without repeats in a row; a projectile that
    /// died reports where its impact lies: where it was stopped, else where
    /// it is.
    pub fn update(
        &mut self,
        sweep: &Vec<SweepHit>,
        contacts: &Vec<Contact>,
        actors: &Vec<ActorBody>,
        shooter: Option<u64>,
        position: Point,
        delta: u64,
    ) -> (out: Outcome)
        ensures
            ({
                let stopped = exists|i: int| 0 <= i < sweep@.len() && stops(#[trigger] sweep@[i], actors@, shooter);
                let killed = stopped || last_killing_contact(contacts@, actors@, shooter) is Some;
                &&& final(self).lifetime_spec() == if killed || old(self).lifetime_spec() <= delta {
                    0
                } else {
                    (old(self).lifetime_spec() - delta) as u64
                }
                &&& (final(self).lifetime_spec() == 0) == out.impact is Some
            }),
            (forall|j: int| 0 <= j < sweep@.len() ==> !stops(#[trigger] sweep@[j], actors@, shooter)) ==> {
                &&& out.hits@ == dedup_by_actor(contact_hits(contacts@, actors@, shooter))
                &&& out.impact is Some ==> out.impact == Some(
                    match last_killing_contact(contacts@, actors@, shooter) {
                        Some(p) => p,
                        None => position,
                    },
                )
            },
            forall|i: int| #[trigger] first_stop(sweep@, i, actors@, shooter) ==> {
                let (hit, at) = sweep_outcome(sweep@[i], actors@, shooter);
                &&& out.hits@ == dedup_by_actor(
                    match hit {
                        Some(h) => seq![h],
                        None => Seq::empty(),
                    } + contact_hits(contacts@, actors@, shooter),
                )
                &&& out.impact == Some(
                    match last_killing_contact(contacts@, actors@, shooter) {
                        Some(p) => p,
                        None => at,
                    },
                )
            },
            final(self).kind_spec() == old(self).kind_spec(),
            final(self).owner_spec() == old(self).owner_spec(),
    {
        let mut hits: Vec<Hit> = Vec::new();
        let mut effect: Option<Point> = None;
        let stop = resolve_sweep(sweep, actors, shooter);
        if let Some((hit, at)) = stop {
            if let Some(h) = hit {
                hits.push(h);
            }
            effect = Some(at);
            self.lifetime = 0;
        }
        let ghost before = hits@;
        let (mut touched, kill) = resolve_contacts(contacts, actors, shooter);
        hits.append(&mut touched);
        if let Some(at) = kill {
            effect = Some(at);
            self.lifetime = 0;
        }
        let died = self.age(delta);
        let impact = if died {
            match effect {
                Some(at) => Some(at),
                None => Some(position),
            }
        } else {
            None
        };
        proof {
            if stop is None {
                assert(before =~= Seq::<Hit>::empty());
                assert(hits@ =~= contact_hits(contacts@, actors@, shooter));
            } else {
                let k = choose|k: int|
                    first_stop(sweep@, k, actors@, shooter) && stop->Some_0 == sweep_outcome(
                        sweep@[k],
                        actors@,
                        shooter,
                    );
                assert forall|i: int| #[trigger] first_stop(sweep@, i, actors@, shooter) implies i == k by {
                    if i < k {
                        assert(!stops(sweep@[i], actors@, shooter));
                    } else if k < i {
                        assert(!stops(sweep@[k], actors@, shooter));
                    }
                }
                let hit = stop->Some_0.0;
                assert(before =~= match hit {
                    Some(h) => seq![h],
                    None => Seq::<Hit>::empty(),
                });
            }
        }
        Outcome { hits: dedup_hits(&hits), impact }
    }
}

} // verus!
