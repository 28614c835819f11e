//! What players and bots have in common: health, armor, weapons and team.

use crate::kinds::Team;
use crate::message::Message;
use vstd::prelude::*;

verus! {

/// Health a heal can bring a character up to.
pub const MAX_HEALTH: i64 = 150;

/// Margin that keeps health and armor arithmetic inside `i64`.
pub const POINTS_MARGIN: i64 = 0x1_0000_0000;

pub struct Character {
    pub name: String,
    /// Handle of the physics body.
    pub body: u64,
    pub health: i64,
    pub armor: i64,
    /// Handles of the carried weapons, in the order they were picked up.
    pub weapons: Vec<u64>,
    pub current_weapon: usize,
    pub team: Team,
    /// Whether the character is connected to the dispatch channel; messages
    /// are dropped while it is not.
    pub linked: bool,
    /// Messages sent and not yet dispatched, oldest first.
    pub outbox: Vec<Message>,
}

pub open spec fn abs(a: int) -> int {
    if a < 0 {
        -a
    } else {
        a
    }
}

/// Health and armor after taking `amount` points of damage: armor absorbs
/// while it is positive, and what it cannot absorb comes off health.
pub open spec fn damaged(health: int, armor: int, amount: int) -> (int, int) {
    if armor > 0 {
        let left = armor - abs(amount);
        if left < 0 {
            (health + left, left)
        } else {
            (health, left)
        }
    } else {
        (health - abs(amount), armor)
    }
}

/// Health after healing by `amount`, capped.
pub open spec fn healed(health: int, amount: int) -> int {
    if health + abs(amount) > MAX_HEALTH {
        MAX_HEALTH as int
    } else {
        health + abs(amount)
    }
}

/// Requests to hide each of `weapons`.
pub open spec fn hide_all(weapons: Seq<u64>) -> Seq<Message> {
    weapons.map_values(|w: u64| Message::ShowWeapon { weapon: w, state: false })
}

impl Character {
    /// Request to show or hide the current weapon, if there is one and the
    /// character is linked.
    pub open spec fn visibility_request(self, state: bool) -> Seq<Message> {
        if self.linked && self.current_weapon < self.weapons@.len() {
            seq![Message::ShowWeapon { weapon: self.weapons@[self.current_weapon as int], state }]
        } else {
            Seq::empty()
        }
    }

    /// A character with full health and armor, no weapon, no team, and no
    /// link to the dispatch channel.
    pub fn new(name: String, body: u64) -> (c: Character)
        ensures
            c.name == name,
            c.body == body,
            c.health == 100,
            c.armor == 100,
            c.weapons@.len() == 0,
            c.current_weapon == 0,
            c.team == Team::Neutral,
            !c.linked,
            c.outbox@.len() == 0,
    {
        Character {
            name,
            body,
            health: 100,
            armor: 100,
            weapons: Vec::new(),
            current_weapon: 0,
            team: Team::Neutral,
            linked: false,
            outbox: Vec::new(),
        }
    }

    pub fn get_body(&self) -> (b: u64)
        ensures
            b == self.body,
    {
        self.body
    }

    pub fn set_team(&mut self, team: Team)
        ensures
            *final(self) == (Character { team, ..*old(self) }),
    {
        self.team = team;
    }

    pub fn team(&self) -> (t: Team)
        ensures
            t == self.team,
    {
        self.team
    }

    pub fn get_health(&self) -> (h: i64)
        ensures
            h == self.health,
    {
        self.health
    }

    pub fn get_armor(&self) -> (a: i64)
        ensures
            a == self.armor,
    {
        self.armor
    }

    /// Takes `amount` points of damage; the sign of `amount` is ignored.
    pub fn damage(&mut self, amount: i32)
        requires
            old(self).health >= i64::MIN + POINTS_MARGIN,
            old(self).armor >= i64::MIN + POINTS_MARGIN,
        ensures
            (final(self).health as int, final(self).armor as int) == damaged(
                old(self).health as int,
                old(self).armor as int,
                amount as int,
            ),
            *final(self) == (Character { health: final(self).health, armor: final(self).armor, ..*old(self) }),
    {
        let a: i64 = if amount < 0 {
            -(amount as i64)
        } else {
            amount as i64
        };
        if self.armor > 0 {
            self.armor = self.armor - a;
            if self.armor < 0 {
                self.health = self.health + self.armor;
            }
        } else {
            self.health = self.health - a;
        }
    }

    /// Heals by `amount` points, up to the cap; the sign of `amount` is
    /// ignored.
    pub fn heal(&mut self, amount: i32)
        requires
            old(self).health <= i64::MAX - POINTS_MARGIN,
        ensures
            final(self).health == healed(old(self).health as int, amount as int),
            *final(self) == (Character { health: final(self).health, ..*old(self) }),
    {
        let a: i64 = if amount < 0 {
            -(amount as i64)
        } else {
            amount as i64
        };
        self.health = self.health + a;
        if self.health > MAX_HEALTH {
            self.health = MAX_HEALTH;
        }
    }

    pub fn is_dead(&self) -> (b: bool)
        ensures
            b == (self.health <= 0),
    {
        self.health <= 0
    }

    pub fn weapons(&self) -> (w: &[u64])
        ensures
            w@ == self.weapons@,
    {
        self.weapons.as_slice()
    }

    /// The current weapon, if the index points at one.
    pub fn current_weapon(&self) -> (w: Option<u64>)
        ensures
            self.current_weapon < self.weapons@.len() ==> w == Some(self.weapons@[self.current_weapon as int]),
            self.current_weapon >= self.weapons@.len() ==> w is None,
    {
        if self.current_weapon < self.weapons.len() {
            Some(self.weapons[self.current_weapon])
        } else {
            None
        }
    }

    pub fn send(&mut self, message: Message)
        ensures
            final(self).outbox@ == if old(self).linked {
                old(self).outbox@.push(message)
            } else {
                old(self).outbox@
            },
            *final(self) == (Character { outbox: final(self).outbox, ..*old(self) }),
    {
        if self.linked {
            self.outbox.push(message);
        }
    }

    fn request_current_weapon_visible(&mut self, state: bool)
        ensures
            final(self).outbox@ == old(self).outbox@ + old(self).visibility_request(state),
            *final(self) == (Character { outbox: final(self).outbox, ..*old(self) }),
    {
        if self.current_weapon < self.weapons.len() {
            let w = self.weapons[self.current_weapon];
            self.send(Message::ShowWeapon { weapon: w, state });
        }
        assert(self.outbox@ =~= old(self).outbox@ + old(self).visibility_request(state));
    }

    /// Makes weapon `i` current when it exists: hides the old current weapon
    /// and shows the new one.
    pub fn set_current_weapon(&mut self, i: usize)
        ensures
            *final(self) == (Character {
                current_weapon: final(self).current_weapon,
                outbox: final(self).outbox,
                ..*old(self)
            }),
            i < old(self).weapons@.len() ==> {
                &&& final(self).current_weapon == i
                &&& final(self).outbox@ == old(self).outbox@ + old(self).visibility_request(false)
                    + final(self).visibility_request(true)
            },
            i >= old(self).weapons@.len() ==> final(self).current_weapon == old(self).current_weapon
                && final(self).outbox@ == old(self).outbox@,
    {
        if i < self.weapons.len() {
            self.request_current_weapon_visible(false);
            self.current_weapon = i;
            self.request_current_weapon_visible(true);
        }
    }

    /// Switches to the next weapon, if there is one after the current.
    pub fn next_weapon(&mut self)
        ensures
            *final(self) == (Character {
                current_weapon: final(self).current_weapon,
                outbox: final(self).outbox,
                ..*old(self)
            }),
            old(self).weapons@.len() > 0 && old(self).current_weapon + 1 < old(self).weapons@.len() ==> {
                &&& final(self).current_weapon == old(self).current_weapon + 1
                &&& final(self).outbox@ == old(self).outbox@ + old(self).visibility_request(false)
                    + final(self).visibility_request(true)
            },
            !(old(self).weapons@.len() > 0 && old(self).current_weapon + 1 < old(self).weapons@.len())
                ==> final(self).current_weapon == old(self).current_weapon && final(self).outbox@
                == old(self).outbox@,
    {
        if !self.weapons.is_empty() && self.current_weapon < self.weapons.len() - 1 {
            self.request_current_weapon_visible(false);
            self.current_weapon = self.current_weapon + 1;
            self.request_current_weapon_visible(true);
        }
    }

    /// Switches to the previous weapon, if the current is not the first.
    pub fn prev_weapon(&mut self)
        ensures
            *final(self) == (Character {
                current_weapon: final(self).current_weapon,
                outbox: final(self).outbox,
                ..*old(self)
            }),
            old(self).current_weapon > 0 ==> {
                &&& final(self).current_weapon == old(self).current_weapon - 1
                &&& final(self).outbox@ == old(self).outbox@ + old(self).visibility_request(false)
                    + final(self).visibility_request(true)
            },
            old(self).current_weapon == 0 ==> final(self).current_weapon == 0 && final(self).outbox@
                == old(self).outbox@,
    {
        if self.current_weapon > 0 {
            self.request_current_weapon_visible(false);
            self.current_weapon = self.current_weapon - 1;
            self.request_current_weapon_visible(true);
        }
    }

    /// Picks up `weapon`: hides every weapon carried so far, and makes the new
    /// one current and visible.
    pub fn add_weapon(&mut self, weapon: u64)
        requires
            old(self).weapons@.len() < usize::MAX,
        ensures
            final(self).weapons@ == old(self).weapons@.push(weapon),
            final(self).current_weapon == old(self).weapons@.len(),
            final(self).health == old(self).health,
            final(self).linked == old(self).linked,
            final(self).outbox@ == old(self).outbox@ + (if old(self).linked {
                hide_all(old(self).weapons@)
            } else {
                Seq::empty()
            }) + final(self).visibility_request(true),
    {
        let ghost start = self.outbox@;
        let mut i: usize = 0;
        while i < self.weapons.len()
            invariant
                i <= self.weapons@.len(),
                self.weapons@ == old(self).weapons@,
                self.linked == old(self).linked,
                self.health == old(self).health,
                self.outbox@ == start + (if self.linked {
                    hide_all(self.weapons@.take(i as int))
                } else {
                    Seq::empty()
                }),
            decreases self.weapons@.len() - i,
        {
            let w = self.weapons[i];
            self.send(Message::ShowWeapon { weapon: w, state: false });
            proof {
                if self.linked {
                    assert(hide_all(self.weapons@.take(i + 1)) =~= hide_all(self.weapons@.take(i as int)).push(
                        Message::ShowWeapon { weapon: w, state: false },
                    ));
                    assert(self.outbox@ =~= start + hide_all(self.weapons@.take(i + 1)));
                } else {
                    assert(self.outbox@ =~= start + Seq::<Message>::empty());
                }
            }
            i = i + 1;
        }
        assert(self.weapons@.take(i as int) =~= self.weapons@);
        self.current_weapon = self.weapons.len();
        self.weapons.push(weapon);
        self.request_current_weapon_visible(true);
    }
}

} // verus!
