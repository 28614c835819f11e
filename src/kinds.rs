//! Closed sets of kinds that are persisted by their integer identifier.

use vstd::prelude::*;

verus! {

/// Species of a bot.
#[derive(Copy, Clone, PartialEq, Eq, Hash, Debug, Structural)]
pub enum BotKind {
    Mutant,
    Parasite,
    Maw,
}

/// Identifier under which each bot kind is persisted.
pub open spec fn bot_kind_id(kind: BotKind) -> i32 {
    match kind {
        BotKind::Mutant => 0,
        BotKind::Parasite => 1,
        BotKind::Maw => 2,
    }
}

impl BotKind {
    /// Kind stored under `id`; any other identifier is a load error.
    pub fn from_id(id: i32) -> (r: Result<BotKind, String>)
        ensures
            0 <= id <= 2 <==> r is Ok,
            r is Ok ==> bot_kind_id(r->Ok_0) == id,
    {
        match id {
            0 => Ok(BotKind::Mutant),
            1 => Ok(BotKind::Parasite),
            2 => Ok(BotKind::Maw),
            _ => Err(String::from_str("invalid bot kind")),
        }
    }

    pub fn id(self) -> (r: i32)
        ensures
            r == bot_kind_id(self),
    {
        match self {
            BotKind::Mutant => 0,
            BotKind::Parasite => 1,
            BotKind::Maw => 2,
        }
    }
}

/// Weapon models a character can carry.
#[derive(Copy, Clone, PartialEq, Eq, Debug, Structural)]
pub enum WeaponKind {
    M4,
    Ak47,
    PlasmaRifle,
    RocketLauncher,
}

pub open spec fn weapon_kind_id(kind: WeaponKind) -> u32 {
    match kind {
        WeaponKind::M4 => 0,
        WeaponKind::Ak47 => 1,
        WeaponKind::PlasmaRifle => 2,
        WeaponKind::RocketLauncher => 3,
    }
}

impl WeaponKind {
    pub fn id(self) -> (r: u32)
        ensures
            r == weapon_kind_id(self),
    {
        match self {
            WeaponKind::M4 => 0,
            WeaponKind::Ak47 => 1,
            WeaponKind::PlasmaRifle => 2,
            WeaponKind::RocketLauncher => 3,
        }
    }

    /// Kind stored under `id`; any other identifier is a load error.
    pub fn new(id: u32) -> (r: Result<WeaponKind, String>)
        ensures
            id <= 3 <==> r is Ok,
            r is Ok ==> weapon_kind_id(r->Ok_0) == id,
    {
        match id {
            0 => Ok(WeaponKind::M4),
            1 => Ok(WeaponKind::Ak47),
            2 => Ok(WeaponKind::PlasmaRifle),
            3 => Ok(WeaponKind::RocketLauncher),
            _ => Err(String::from_str("unknown weapon kind")),
        }
    }
}

/// Kinds of projectile a weapon fires.
#[derive(Copy, Clone, PartialEq, Eq, Debug, Structural)]
pub enum ProjectileKind {
    Plasma,
    Bullet,
    Rocket,
}

pub open spec fn projectile_kind_id(kind: ProjectileKind) -> u32 {
    match kind {
        ProjectileKind::Plasma => 0,
        ProjectileKind::Bullet => 1,
        ProjectileKind::Rocket => 2,
    }
}

impl ProjectileKind {
    /// Kind stored under `id`; any other identifier is a load error.
    pub fn new(id: u32) -> (r: Result<ProjectileKind, String>)
        ensures
            id <= 2 <==> r is Ok,
            r is Ok ==> projectile_kind_id(r->Ok_0) == id,
    {
        match id {
            0 => Ok(ProjectileKind::Plasma),
            1 => Ok(ProjectileKind::Bullet),
            2 => Ok(ProjectileKind::Rocket),
            _ => Err(String::from_str("invalid projectile kind id")),
        }
    }

    pub fn id(self) -> (r: u32)
        ensures
            r == projectile_kind_id(self),
    {
        match self {
            ProjectileKind::Plasma => 0,
            ProjectileKind::Bullet => 1,
            ProjectileKind::Rocket => 2,
        }
    }
}

/// Side a character fights for.
#[derive(Copy, Clone, PartialEq, Eq, Hash, Debug, Structural)]
pub enum Team {
    Neutral,
    Red,
    Blue,
}

pub open spec fn team_id(team: Team) -> u32 {
    match team {
        Team::Neutral => 0,
        Team::Red => 1,
        Team::Blue => 2,
    }
}

impl Team {
    pub fn id(self) -> (r: u32)
        ensures
            r == team_id(self),
    {
        match self {
            Team::Neutral => 0,
            Team::Red => 1,
            Team::Blue => 2,
        }
    }

    /// Team stored under `id`; any other identifier is a load error.
    pub fn from_id(id: u32) -> (r: Result<Team, String>)
        ensures
            id <= 2 <==> r is Ok,
            r is Ok ==> team_id(r->Ok_0) == id,
    {
        match id {
            0 => Ok(Team::Neutral),
            1 => Ok(Team::Red),
            2 => Ok(Team::Blue),
            _ => Err(String::from_str("invalid team id")),
        }
    }
}

impl Default for Team {
    fn default() -> (r: Team)
        ensures
            r == Team::Neutral,
    {
        Team::Neutral
    }
}

/// Physics collision groups, used as bit masks.
#[derive(Copy, Clone, PartialEq, Eq, Debug, Structural)]
pub enum CollisionGroups {
    Generic,
    Projectile,
    Actor,
    All,
}

pub open spec fn collision_bits(group: CollisionGroups) -> u64 {
    match group {
        CollisionGroups::Generic => 1,
        CollisionGroups::Projectile => 2,
        CollisionGroups::Actor => 4,
        CollisionGroups::All => 0x7fff_ffff_ffff_ffff,
    }
}

impl CollisionGroups {
    /// Mask of the group; `All` covers every group.
    pub fn bits(self) -> (r: u64)
        ensures
            r == collision_bits(self),
    {
        match self {
            CollisionGroups::Generic => 1,
            CollisionGroups::Projectile => 2,
            CollisionGroups::Actor => 4,
            CollisionGroups::All => 0x7fff_ffff_ffff_ffff,
        }
    }
}

} // verus!
