//! Weapons: fixed facts of each kind, ammunition and rate of fire.

use crate::kinds::{ProjectileKind, WeaponKind};
use crate::message::Message;
use vstd::prelude::*;

verus! {

/// Fixed facts of a weapon kind.
#[derive(Copy, Clone, Debug)]
pub struct WeaponDefinition {
    /// Ammunition a new weapon of the kind carries.
    pub ammo: u32,
    pub projectile: ProjectileKind,
    /// Least time between two shots, in ms.
    pub shoot_interval: u64,
}

pub open spec fn weapon_definition(kind: WeaponKind) -> (u32, ProjectileKind, u64) {
    match kind {
        WeaponKind::M4 => (200, ProjectileKind::Bullet, 150),
        WeaponKind::Ak47 => (200, ProjectileKind::Bullet, 150),
        WeaponKind::PlasmaRifle => (100, ProjectileKind::Plasma, 250),
        WeaponKind::RocketLauncher => (100, ProjectileKind::Rocket, 1500),
    }
}

pub struct Weapon {
    kind: WeaponKind,
    /// Time of the last shot, in ms since the match started.
    last_shot_time: u64,
    /// Actor handle of the character that carries the weapon.
    owner: u64,
    ammo: u32,
    definition: WeaponDefinition,
    /// Whether the weapon is connected to the dispatch channel; messages are
    /// dropped while it is not.
    linked: bool,
    /// Messages sent and not yet dispatched, oldest first.
    outbox: Vec<Message>,
}

impl Weapon {
    pub fn get_definition(kind: WeaponKind) -> (d: WeaponDefinition)
        ensures
            (d.ammo, d.projectile, d.shoot_interval) == weapon_definition(kind),
    {
        match kind {
            WeaponKind::M4 => WeaponDefinition { ammo: 200, projectile: ProjectileKind::Bullet, shoot_interval: 150 },
            WeaponKind::Ak47 => WeaponDefinition {
                ammo: 200,
                projectile: ProjectileKind::Bullet,
                shoot_interval: 150,
            },
            WeaponKind::PlasmaRifle => WeaponDefinition {
                ammo: 100,
                projectile: ProjectileKind::Plasma,
                shoot_interval: 250,
            },
            WeaponKind::RocketLauncher => WeaponDefinition {
                ammo: 100,
                projectile: ProjectileKind::Rocket,
                shoot_interval: 1500,
            },
        }
    }

    /// A weapon of `kind` with its full ammunition, carried by `owner`, linked
    /// to the dispatch channel.
    pub fn new(kind: WeaponKind, owner: u64) -> (w: Weapon)
        ensures
            w.get_kind_spec() == kind,
            w.ammo_spec() == weapon_definition(kind).0,
            w.owner_spec() == owner,
            w.last_shot_spec() == 0,
            w.linked_spec(),
            w.outbox_spec().len() == 0,
            (w.definition_spec().ammo, w.definition_spec().projectile, w.definition_spec().shoot_interval) == weapon_definition(kind),
    {
        let definition = Self::get_definition(kind);
        Weapon {
            kind,
            last_shot_time: 0,
            owner,
            ammo: definition.ammo,
            definition,
            linked: true,
            outbox: Vec::new(),
        }
    }

    pub closed spec fn get_kind_spec(&self) -> WeaponKind {
        self.kind
    }

    pub closed spec fn definition_spec(&self) -> WeaponDefinition {
        self.definition
    }

    pub fn definition(&self) -> (d: WeaponDefinition)
        ensures
            d == self.definition_spec(),
    {
        self.definition
    }

    pub closed spec fn linked_spec(&self) -> bool {
        self.linked
    }

    pub closed spec fn outbox_spec(&self) -> Seq<Message> {
        self.outbox@
    }

    /// Connects the weapon to the dispatch channel or cuts it off.
    pub fn set_linked(&mut self, linked: bool)
        ensures
            final(self).linked_spec() == linked,
            final(self).outbox_spec() == old(self).outbox_spec(),
            final(self).ammo_spec() == old(self).ammo_spec(),
            final(self).owner_spec() == old(self).owner_spec(),
            final(self).get_kind_spec() == old(self).get_kind_spec(),
            final(self).last_shot_spec() == old(self).last_shot_spec(),
            final(self).definition_spec() == old(self).definition_spec(),
    {
        self.linked = linked;
    }

    /// Takes the messages sent so far, oldest first.
    pub fn take_messages(&mut self) -> (m: Vec<Message>)
        ensures
            m@ == old(self).outbox_spec(),
            final(self).outbox_spec().len() == 0,
            final(self).linked_spec() == old(self).linked_spec(),
            final(self).ammo_spec() == old(self).ammo_spec(),
            final(self).owner_spec() == old(self).owner_spec(),
            final(self).get_kind_spec() == old(self).get_kind_spec(),
            final(self).last_shot_spec() == old(self).last_shot_spec(),
            final(self).definition_spec() == old(self).definition_spec(),
    {
        let mut taken: Vec<Message> = Vec::new();
        std::mem::swap(&mut taken, &mut self.outbox);
        taken
    }

    pub closed spec fn ammo_spec(&self) -> u32 {
        self.ammo
    }

    pub closed spec fn owner_spec(&self) -> u64 {
        self.owner
    }

    pub closed spec fn last_shot_spec(&self) -> u64 {
        self.last_shot_time
    }

    pub fn get_kind(&self) -> (k: WeaponKind)
        ensures
            k == self.get_kind_spec(),
    {
        self.kind
    }

    pub fn ammo(&self) -> (a: u32)
        ensures
            a == self.ammo_spec(),
    {
        self.ammo
    }

    pub fn owner(&self) -> (o: u64)
        ensures
            o == self.owner_spec(),
    {
        self.owner
    }

    pub fn set_owner(&mut self, owner: u64)
        ensures
            final(self).owner_spec() == owner,
            final(self).ammo_spec() == old(self).ammo_spec(),
            final(self).get_kind_spec() == old(self).get_kind_spec(),
            final(self).last_shot_spec() == old(self).last_shot_spec(),
            final(self).linked_spec() == old(self).linked_spec(),
            final(self).outbox_spec() == old(self).outbox_spec(),
            final(self).definition_spec() == old(self).definition_spec(),
    {
        self.owner = owner;
    }

    pub fn add_ammo(&mut self, amount: u32)
        requires
            old(self).ammo_spec() + amount <= u32::MAX,
        ensures
            final(self).ammo_spec() == old(self).ammo_spec() + amount,
            final(self).owner_spec() == old(self).owner_spec(),
            final(self).get_kind_spec() == old(self).get_kind_spec(),
            final(self).last_shot_spec() == old(self).last_shot_spec(),
            final(self).linked_spec() == old(self).linked_spec(),
            final(self).outbox_spec() == old(self).outbox_spec(),
            final(self).definition_spec() == old(self).definition_spec(),
    {
        self.ammo = self.ammo + amount;
    }

    /// Fires at `elapsed` if ammunition is left and the kind's interval has
    /// passed since the last shot: one round is spent, the shot time
    /// recorded, and the kind's shot sound sent. Returns whether it fired.
    pub fn try_shoot(&mut self, elapsed: u64) -> (fired: bool)
        ensures
            fired == (old(self).ammo_spec() != 0 && elapsed >= old(self).last_shot_spec() && elapsed
                - old(self).last_shot_spec() >= old(self).definition_spec().shoot_interval),
            fired ==> final(self).ammo_spec() == old(self).ammo_spec() - 1 && final(self).last_shot_spec()
                == elapsed,
            !fired ==> final(self).ammo_spec() == old(self).ammo_spec() && final(self).last_shot_spec()
                == old(self).last_shot_spec(),
            final(self).outbox_spec() == if fired && old(self).linked_spec() {
                old(self).outbox_spec().push(Message::PlayShotSound { kind: old(self).get_kind_spec() })
            } else {
                old(self).outbox_spec()
            },
            final(self).linked_spec() == old(self).linked_spec(),
            final(self).owner_spec() == old(self).owner_spec(),
            final(self).get_kind_spec() == old(self).get_kind_spec(),
            final(self).definition_spec() == old(self).definition_spec(),
    {
        if self.ammo != 0 && elapsed >= self.last_shot_time && elapsed - self.last_shot_time
            >= self.definition.shoot_interval {
            self.ammo = self.ammo - 1;
            self.last_shot_time = elapsed;
            if self.linked {
                self.outbox.push(Message::PlayShotSound { kind: self.kind });
            }
            true
        } else {
            false
        }
    }
}

} // verus!
