//! The bot controller: one decision step per simulation tick.
//!
//! The engine around the library measures the world (positions, ground
//! contact, frustum tests, ray hits, the state of clips) and hands the
//! measurements to [`Bot::update`], which decides and returns what to do:
//! poses to apply, where to look and move, whether to jump, messages to
//! send, and whether to plan a new path.

use crate::character::Character;
use crate::geometry::{diff, in_world, sqr_dist, Point};
use crate::kinds::{BotKind, Team};
use crate::machine::{total, MachineModel, Pose};
use crate::machines::{
    combat_params, locomotion_params, CombatMachine, DyingMachine, LocomotionMachine, COMBAT_AIM, DEAD_STATE,
    DYING_STATE, LOCO_IDLE,
    HIT_SIGNAL, STEP_SIGNAL,
};
use crate::message::Message;
use crate::perception::{
    all_in_world, is_nearest_item, is_nearest_visible, items_in_world, nearest_item, none_visible, select_target,
    Candidate, Item, PathFollower, Target, WAYPOINT_RADIUS,
};
use crate::signals::EventQueue;
use rand::Rng;
use vstd::prelude::*;

verus! {

/// Radius of close combat, in mm.
pub const CLOSE_COMBAT_RANGE: u64 = 2000;
/// Damage of one melee impact.
pub const MELEE_DAMAGE: i64 = 20;
/// Time after taking damage before the bot may aim again, in ms.
pub const AIM_LOCK: u64 = 800;
/// Least time between two choices of the point of interest, in ms.
pub const POI_PERIOD: u64 = 1250;
/// Least time between two path plans, in ms.
pub const PATH_PERIOD: u64 = 1000;
/// Height the look direction must rise by for a jump, in mm.
pub const JUMP_LOOK_UP: i64 = 300;
/// Height of the body centre above the feet, in mm.
pub const FEET_OFFSET: i64 = 1000;

/// Fixed facts of a bot kind, shared by every bot of the kind.
#[derive(Copy, Clone, Debug)]
pub struct BotDefinition {
    pub kind: BotKind,
    pub health: i64,
    /// Walking speed in mm per second.
    pub walk_speed: i64,
    /// Scale of the model, in units of 1/10000.
    pub scale: u32,
    /// Scale of a carried weapon, in units of 1/10.
    pub weapon_scale: u32,
    pub weapon_hand_name: &'static str,
    pub left_leg_name: &'static str,
    pub right_leg_name: &'static str,
    pub spine: &'static str,
    /// Correction of the vertical aim for the model's rest pose, in degrees.
    pub v_aim_angle_hack: i32,
}

/// The definition of each bot kind.
pub open spec fn bot_definition(kind: BotKind) -> BotDefinition {
    match kind {
        BotKind::Mutant => BotDefinition {
            kind: BotKind::Mutant,
            health: 100,
            walk_speed: 6000,
            scale: 85,
            weapon_scale: 26,
            weapon_hand_name: "Mutant:RightHand",
            left_leg_name: "Mutant:LeftUpLeg",
            right_leg_name: "Mutant:RightUpLeg",
            spine: "Mutant:Spine",
            v_aim_angle_hack: -2i32,
        },
        BotKind::Parasite => BotDefinition {
            kind: BotKind::Parasite,
            health: 100,
            walk_speed: 6000,
            scale: 85,
            weapon_scale: 25,
            weapon_hand_name: "RightHand",
            left_leg_name: "LeftUpLeg",
            right_leg_name: "RightUpLeg",
            spine: "Spine",
            v_aim_angle_hack: 12,
        },
        BotKind::Maw => BotDefinition {
            kind: BotKind::Maw,
            health: 100,
            walk_speed: 6000,
            scale: 85,
            weapon_scale: 25,
            weapon_hand_name: "RightHand",
            left_leg_name: "LeftUpLeg",
            right_leg_name: "RightUpLeg",
            spine: "Spine",
            v_aim_angle_hack: 16,
        },
    }
}

/// Relies on rand::thread_rng and rand::Rng::gen_range (rand 0.7): a value
/// drawn from `[0, n)`; it panics when the range is empty, which `requires`
/// rules out.
#[verifier::external_body]
fn random_below(n: usize) -> (r: usize)
    requires
        n > 0,
    ensures
        r < n,
{
    rand::thread_rng().gen_range(0, n)
}

/// Whether a rate-limited choice made last at `last` may be made again at
/// `now`: never made yet, or at least `period` ms ago.
pub open spec fn due(last: Option<u64>, now: u64, period: u64) -> bool {
    match last {
        None => true,
        Some(t) => now >= t && now - t >= period,
    }
}

pub fn is_due(last: Option<u64>, now: u64, period: u64) -> (b: bool)
    ensures
        b == due(last, now, period),
{
    match last {
        None => true,
        Some(t) => now >= t && now - t >= period,
    }
}

/// Close combat: the target lies within the melee range.
pub open spec fn close_combat(target: Option<Target>, position: Point) -> bool {
    match target {
        None => false,
        Some(t) => sqr_dist(t.position, position) <= CLOSE_COMBAT_RANGE * CLOSE_COMBAT_RANGE,
    }
}

/// Where the bot looks: at its target, else at its point of interest.
pub open spec fn look_direction(target: Option<Target>, poi: Point, position: Point) -> Point {
    match target {
        None => diff(poi, position),
        Some(t) => diff(t.position, position),
    }
}

pub open spec fn is_zero(p: Point) -> bool {
    p.x == 0 && p.y == 0 && p.z == 0
}

/// Melee damage messages for a queue of signals of the melee clip: one per
/// impact signal, and only in close combat.
pub open spec fn melee_hits(events: Seq<u64>, actor: u64, in_close_combat: bool) -> Seq<Message>
    decreases events.len(),
{
    if events.len() == 0 {
        Seq::empty()
    } else {
        let earlier = melee_hits(events.drop_last(), actor, in_close_combat);
        if events.last() == HIT_SIGNAL && in_close_combat {
            earlier.push(Message::DamageActor { actor, amount: MELEE_DAMAGE })
        } else {
            earlier
        }
    }
}

/// Number of footsteps heard for a queue of signals of the walk clip: one
/// per footstep signal, and only on the ground.
pub open spec fn footstep_count(events: Seq<u64>, grounded: bool) -> nat
    decreases events.len(),
{
    if events.len() == 0 {
        0
    } else {
        footstep_count(events.drop_last(), grounded) + if events.last() == STEP_SIGNAL && grounded {
            1nat
        } else {
            0nat
        }
    }
}

/// Footstep sound requests at `position`, each naming a sound of a set of
/// `sounds`.
pub open spec fn footsteps_at(msgs: Seq<Message>, position: Point, sounds: usize) -> bool {
    forall|i: int|
        0 <= i < msgs.len() ==> match #[trigger] msgs[i] {
            Message::PlayFootstep { sound, position: p } => sound < sounds && p == position,
            _ => false,
        }
}

/// Melee damage is sent only in close combat.
pub proof fn lemma_no_melee_outside_close_combat(events: Seq<u64>, actor: u64)
    ensures
        melee_hits(events, actor, false) == Seq::<Message>::empty(),
    decreases events.len(),
{
    if events.len() > 0 {
        lemma_no_melee_outside_close_combat(events.drop_last(), actor);
    }
}

/// Footsteps are heard only on the ground.
pub proof fn lemma_no_footsteps_in_the_air(events: Seq<u64>)
    ensures
        footstep_count(events, false) == 0,
    decreases events.len(),
{
    if events.len() > 0 {
        lemma_no_footsteps_in_the_air(events.drop_last());
    }
}

/// Weapon `i` is the first one with ammunition left.
pub open spec fn first_loaded(ammo: Seq<u32>, i: int) -> bool {
    &&& 0 <= i < ammo.len()
    &&& ammo[i] > 0
    &&& forall|j: int| 0 <= j < i ==> #[trigger] ammo[j] == 0
}

/// A request to plan a path between two points.
#[derive(Copy, Clone, PartialEq, Eq, Debug, Structural)]
pub struct PathRequest {
    pub from: Point,
    pub to: Point,
}

/// What the navmesh answered to a path request.
pub enum PathResult {
    /// One of the two points has no navigable point near it.
    Unresolved,
    /// Both points resolved, but no path joins them.
    Failed,
    /// The waypoints, from the destination back to the origin.
    Built(Vec<Point>),
}

/// What the engine found while setting up a bot's assets.
pub struct AssetReport {
    pub model_loaded: bool,
    /// Whether each clip slot, `IDLE_CLIP` to `DEAD_CLIP`, loaded.
    pub clips_loaded: Vec<bool>,
    pub weapon_hand_found: bool,
    pub legs_found: bool,
    pub spine_found: bool,
}

/// Why a bot could not be set up.
#[derive(Copy, Clone, PartialEq, Eq, Debug, Structural)]
pub enum SetupError {
    MissingModel,
    /// The clip of this slot did not load.
    MissingClip(usize),
    MissingJoint,
}

/// First clip slot at or after `i` that did not load; slots the report
/// does not cover count as not loaded.
pub open spec fn first_missing_clip(clips: Seq<bool>, i: int) -> Option<int>
    decreases CLIP_SLOTS - i,
{
    if i < 0 || i >= CLIP_SLOTS {
        None
    } else if i >= clips.len() || !clips[i] {
        Some(i)
    } else {
        first_missing_clip(clips, i + 1)
    }
}

/// Number of clip slots of a bot.
pub const CLIP_SLOTS: usize = 9;

/// What the engine measured for one bot this tick.
pub struct TickInput {
    /// Actor handle of the bot itself.
    pub self_actor: u64,
    /// Time since the match started, in ms.
    pub elapsed: u64,
    /// Length of the tick, in ms.
    pub delta: u64,
    /// Position of the bot's body.
    pub position: Point,
    pub grounded: bool,
    /// Every opponent, with the frustum test and ray hits seen from the bot.
    pub candidates: Vec<Candidate>,
    /// Every item of the level.
    pub items: Vec<Item>,
    /// Ammunition of each carried weapon, in the order of the weapon list.
    pub ammo: Vec<u32>,
    /// The hit-reaction clip has played to its end.
    pub hit_reaction_ended: bool,
    /// The level has a navmesh to plan paths on.
    pub has_navmesh: bool,
    /// Size of the footstep sound set.
    pub footstep_sounds: usize,
}

#[derive(Copy, Clone, PartialEq, Eq, Debug, Structural)]
pub enum TickMode {
    /// Only the dying machine ran: the bot is dead.
    Dying,
    /// The whole decision step ran.
    Full,
}

/// What a bot decided this tick.
pub struct TickOutput {
    pub mode: TickMode,
    pub dying_pose: Option<Pose>,
    pub locomotion_pose: Option<Pose>,
    pub combat_pose: Option<Pose>,
    /// Direction to turn the body and spine toward, not normalised.
    pub aim: Option<Point>,
    /// Horizontal direction to walk along at the kind's speed, not
    /// normalised.
    pub movement: Option<Point>,
    pub jump: bool,
    /// Rewind the hit-reaction clip to its start.
    pub rewind_hit_reaction: bool,
    pub shot: Option<Message>,
    pub melee: Vec<Message>,
    pub footsteps: Vec<Message>,
    pub path_request: Option<PathRequest>,
}

pub struct Bot {
    pub kind: BotKind,
    pub definition: BotDefinition,
    pub character: Character,
    pub target: Option<Target>,
    pub locomotion: LocomotionMachine,
    pub combat: CombatMachine,
    pub dying: DyingMachine,
    /// Health at the end of the previous full tick.
    pub last_health: i64,
    /// Time left before the bot may aim again, in ms.
    pub aim_cooldown: u64,
    pub path: PathFollower,
    pub move_target: Point,
    pub last_poi_update: Option<u64>,
    pub point_of_interest: Point,
    pub last_path_rebuild: Option<u64>,
    pub last_move_dir: Point,
    /// Signals fired by the melee clip and not yet consumed.
    pub melee_events: EventQueue,
    /// Signals fired by the walk clip and not yet consumed.
    pub step_events: EventQueue,
    /// The model has a spine joint to aim with vertically.
    pub spine_found: bool,
}

/// The two bots differ at most in their dying machine.
pub open spec fn same_but_dying(a: Bot, b: Bot) -> bool {
    a == (Bot { dying: a.dying, ..b })
}

/// Cooldown left after a tick of `delta` ms.
pub open spec fn cooled(cooldown: u64, delta: u64) -> u64 {
    if cooldown > delta {
        (cooldown - delta) as u64
    } else {
        0
    }
}

/// Cooldown left after ticks of the lengths in `dts`.
pub open spec fn cooled_run(cooldown: u64, dts: Seq<u64>) -> u64
    decreases dts.len(),
{
    if dts.len() == 0 {
        cooldown
    } else {
        cooled_run(cooled(cooldown, dts[0]), dts.drop_first())
    }
}

/// A cooldown runs out exactly once ticks adding up to it have passed, and
/// until then what is left is the cooldown less the time passed.
pub proof fn lemma_cooldown_runs_out(cooldown: u64, dts: Seq<u64>)
    ensures
        cooled_run(cooldown, dts) == if total(dts) >= cooldown {
            0
        } else {
            (cooldown - total(dts)) as u64
        },
    decreases dts.len(),
{
    if dts.len() > 0 {
        lemma_cooldown_runs_out(cooled(cooldown, dts[0]), dts.drop_first());
    }
}

/// The aim lock lasts its whole length: for bots `bots[0]`, `bots[1]`, ...
/// after successive ticks of lengths `dts[0]`, `dts[1]`, ..., where damage
/// was taken on the first tick only, the bot may aim again after tick `k`
/// exactly when the ticks up to it add up to the aim lock.
pub proof fn lemma_aim_lock_lasts_its_full_length(bots: Seq<Bot>, dts: Seq<u64>)
    requires
        bots.len() == dts.len() + 1,
        dts.len() > 0,
        bots[1].aim_cooldown == cooled(AIM_LOCK, dts[0]),
        forall|k: int| 2 <= k <= dts.len() ==> #[trigger] bots[k].aim_cooldown == cooled(bots[k - 1].aim_cooldown, dts[k - 1]),
    ensures
        forall|k: int|
            1 <= k < bots.len() ==> ((#[trigger] bots[k].aim_cooldown == 0) <==> total(dts.take(k)) >= AIM_LOCK),
{
    assert forall|k: int| 1 <= k < bots.len() implies #[trigger] bots[k].aim_cooldown == cooled_run(
        AIM_LOCK,
        dts.take(k),
    ) by {
        lemma_cooldown_chain(bots, dts, k);
    }
    assert forall|k: int| 1 <= k < bots.len() implies ((#[trigger] bots[k].aim_cooldown == 0) <==> total(
        dts.take(k),
    ) >= AIM_LOCK) by {
        lemma_cooldown_runs_out(AIM_LOCK, dts.take(k));
    }
}

proof fn lemma_cooldown_chain(bots: Seq<Bot>, dts: Seq<u64>, k: int)
    requires
        bots.len() == dts.len() + 1,
        dts.len() > 0,
        bots[1].aim_cooldown == cooled(AIM_LOCK, dts[0]),
        forall|j: int| 2 <= j <= dts.len() ==> #[trigger] bots[j].aim_cooldown == cooled(bots[j - 1].aim_cooldown, dts[j - 1]),
        1 <= k < bots.len(),
    ensures
        bots[k].aim_cooldown == cooled_run(AIM_LOCK, dts.take(k)),
    decreases k,
{
    if k == 1 {
        assert(dts.take(1).drop_first() =~= Seq::<u64>::empty());
        assert(cooled_run(cooled(AIM_LOCK, dts[0]), Seq::<u64>::empty()) == cooled(AIM_LOCK, dts[0]));
        assert(dts.take(1)[0] == dts[0]);
    } else {
        lemma_cooldown_chain(bots, dts, k - 1);
        assert(bots[k].aim_cooldown == cooled(bots[k - 1].aim_cooldown, dts[k - 1]));
        lemma_cooled_run_push(AIM_LOCK, dts.take(k - 1), dts[k - 1]);
        assert(dts.take(k - 1).push(dts[k - 1]) =~= dts.take(k));
    }
}

proof fn lemma_cooled_run_push(cooldown: u64, dts: Seq<u64>, d: u64)
    ensures
        cooled_run(cooldown, dts.push(d)) == cooled(cooled_run(cooldown, dts), d),
    decreases dts.len(),
{
    if dts.len() > 0 {
        assert(dts.push(d).drop_first() =~= dts.drop_first().push(d));
        lemma_cooled_run_push(cooled(cooldown, dts[0]), dts.drop_first(), d);
    } else {
        assert(dts.push(d).drop_first() =~= Seq::<u64>::empty());
        assert(cooled_run(cooled(cooldown, d), Seq::<u64>::empty()) == cooled(cooldown, d));
    }
}

impl Bot {
    /// A bot just set up as `kind`: its kind's definition, full health and
    /// armor, no weapon, no target, no path, and every machine at its entry
    /// state (locomotion idle, combat aiming, dying at dying) with nothing in
    /// flight.
    pub open spec fn starts_fresh(self, kind: BotKind) -> bool {
        let origin = Point { x: 0, y: 0, z: 0 };
        &&& self.kind == kind
        &&& self.definition == bot_definition(kind)
        &&& self.character.health == bot_definition(kind).health
        &&& self.character.armor == 100
        &&& self.character.weapons@.len() == 0
        &&& self.character.current_weapon == 0
        &&& self.character.team == Team::Neutral
        &&& self.character.linked
        &&& self.character.outbox@.len() == 0
        &&& self.last_health == bot_definition(kind).health
        &&& self.target is None
        &&& self.aim_cooldown == 0
        &&& self.locomotion.machine@.active == LOCO_IDLE
        &&& self.locomotion.machine@.in_flight is None
        &&& self.combat.machine@.active == COMBAT_AIM
        &&& self.combat.machine@.in_flight is None
        &&& self.dying.machine@.active == DYING_STATE
        &&& self.dying.machine@.in_flight is None
        &&& self.path.path().len() == 0
        &&& self.path.cursor() == 0
        &&& self.move_target == origin
        &&& self.point_of_interest == origin
        &&& self.last_move_dir == origin
        &&& self.last_poi_update is None
        &&& self.last_path_rebuild is None
        &&& self.melee_events@.len() == 0
        &&& self.step_events@.len() == 0
    }

    pub open spec fn wf(self) -> bool {
        &&& self.locomotion.wf()
        &&& self.combat.wf()
        &&& self.dying.wf()
        &&& self.path.wf()
        &&& in_world(self.point_of_interest)
        &&& in_world(self.move_target)
    }

    /// The measurements can be used with this bot.
    pub open spec fn accepts(self, input: TickInput) -> bool {
        &&& in_world(input.position)
        &&& all_in_world(input.candidates@)
        &&& items_in_world(input.items@)
        &&& input.ammo@.len() == self.character.weapons@.len()
        &&& input.footstep_sounds > 0
    }

    /// Fixed facts of each bot kind.
    pub fn get_definition(kind: BotKind) -> (d: BotDefinition)
        ensures
            d == bot_definition(kind),
    {
        match kind {
            BotKind::Mutant => BotDefinition {
                kind: BotKind::Mutant,
                health: 100,
                walk_speed: 6000,
                scale: 85,
                weapon_scale: 26,
                weapon_hand_name: "Mutant:RightHand",
                left_leg_name: "Mutant:LeftUpLeg",
                right_leg_name: "Mutant:RightUpLeg",
                spine: "Mutant:Spine",
                v_aim_angle_hack: -2,
            },
            BotKind::Parasite => BotDefinition {
                kind: BotKind::Parasite,
                health: 100,
                walk_speed: 6000,
                scale: 85,
                weapon_scale: 25,
                weapon_hand_name: "RightHand",
                left_leg_name: "LeftUpLeg",
                right_leg_name: "RightUpLeg",
                spine: "Spine",
                v_aim_angle_hack: 12,
            },
            BotKind::Maw => BotDefinition {
                kind: BotKind::Maw,
                health: 100,
                walk_speed: 6000,
                scale: 85,
                weapon_scale: 25,
                weapon_hand_name: "RightHand",
                left_leg_name: "LeftUpLeg",
                right_leg_name: "RightUpLeg",
                spine: "Spine",
                v_aim_angle_hack: 16,
            },
        }
    }

    /// A freshly spawned bot of `kind` whose physics body has handle `body`:
    /// full health, no target, no path, every machine at its entry state.
    pub fn new(kind: BotKind, body: u64) -> (b: Bot)
        ensures
            b.wf(),
            b.kind == kind,
            b.character.health == 100,
            b.last_health == 100,
            b.character.body == body,
            b.character.linked,
            b.target is None,
            b.aim_cooldown == 0,
            b.last_poi_update is None,
            b.last_path_rebuild is None,
            b.path.path().len() == 0,
            b.melee_events@.len() == 0,
            b.step_events@.len() == 0,
            b.starts_fresh(kind),
            b.spine_found,
    {
        let definition = Self::get_definition(kind);
        let name = match kind {
            BotKind::Mutant => String::from_str("Mutant"),
            BotKind::Parasite => String::from_str("Parasite"),
            BotKind::Maw => String::from_str("Maw"),
        };
        let mut character = Character::new(name, body);
        character.health = definition.health;
        character.linked = true;
        let origin = Point { x: 0, y: 0, z: 0 };
        Bot {
            kind,
            definition,
            character,
            target: None,
            locomotion: LocomotionMachine::new(),
            combat: CombatMachine::new(),
            dying: DyingMachine::new(),
            last_health: definition.health,
            aim_cooldown: 0,
            path: PathFollower::new(),
            move_target: origin,
            last_poi_update: None,
            point_of_interest: origin,
            last_path_rebuild: None,
            last_move_dir: origin,
            melee_events: EventQueue::new(),
            step_events: EventQueue::new(),
            spine_found: true,
        }
    }

    /// Sets up a bot of `kind` from what its assets gave: a missing model,
    /// clip (the first missing slot is named), weapon hand or leg joint is a
    /// setup failure; a missing spine only leaves vertical aim without
    /// effect.
    pub fn spawn(kind: BotKind, body: u64, report: &AssetReport) -> (r: Result<Bot, SetupError>)
        ensures
            !report.model_loaded ==> r == Err::<Bot, SetupError>(SetupError::MissingModel),
            report.model_loaded ==> match first_missing_clip(report.clips_loaded@, 0) {
                Some(i) => r == Err::<Bot, SetupError>(SetupError::MissingClip(i as usize)),
                None => if report.weapon_hand_found && report.legs_found {
                    r matches Ok(b) && b.wf() && b.starts_fresh(kind) && b.character.body == body && b.spine_found
                        == report.spine_found
                } else {
                    r == Err::<Bot, SetupError>(SetupError::MissingJoint)
                },
            },
    {
        if !report.model_loaded {
            return Err(SetupError::MissingModel);
        }
        let mut i: usize = 0;
        while i < CLIP_SLOTS
            invariant
                report.model_loaded,
                i <= CLIP_SLOTS,
                first_missing_clip(report.clips_loaded@, i as int) == first_missing_clip(report.clips_loaded@, 0),
            decreases CLIP_SLOTS - i,
        {
            if i >= report.clips_loaded.len() || !report.clips_loaded[i] {
                return Err(SetupError::MissingClip(i));
            }
            i = i + 1;
        }
        if !report.weapon_hand_found || !report.legs_found {
            return Err(SetupError::MissingJoint);
        }
        let mut bot = Bot::new(kind, body);
        bot.spine_found = report.spine_found;
        Ok(bot)
    }

    /// The dying machine reached its dead state: the bot may be removed.
    pub fn can_be_removed(&self) -> (b: bool)
        ensures
            b == (self.dying.machine@.active == DEAD_STATE),
    {
        self.dying.is_dead()
    }

    /// The combat machine is in its aim state.
    pub fn can_shoot(&self) -> (b: bool)
        ensures
            b == (self.combat.machine@.active == COMBAT_AIM),
    {
        self.combat.is_aiming()
    }

    /// Forgets the target if it is the actor `handle` that left the world.
    pub fn on_actor_removed(&mut self, handle: u64)
        ensures
            final(self).target == (match old(self).target {
                Some(t) => if t.actor == handle {
                    None
                } else {
                    Some(t)
                },
                None => None,
            }),
            *final(self) == (Bot { target: final(self).target, ..*old(self) }),
    {
        if let Some(t) = self.target {
            if t.actor == handle {
                self.target = None;
            }
        }
    }

    /// Sets the point of interest from outside, which counts as a choice made
    /// at `elapsed`.
    pub fn set_point_of_interest(&mut self, poi: Point, elapsed: u64)
        requires
            old(self).wf(),
            in_world(poi),
        ensures
            final(self).wf(),
            *final(self) == (Bot { point_of_interest: poi, last_poi_update: Some(elapsed), ..*old(self) }),
    {
        self.point_of_interest = poi;
        self.last_poi_update = Some(elapsed);
    }

    /// Records a signal fired by the melee clip.
    pub fn record_melee_signal(&mut self, signal: u64)
        ensures
            final(self).melee_events@ == old(self).melee_events@.push(signal),
            final(self).wf() == old(self).wf(),
    {
        self.melee_events.push(signal);
    }

    /// Records a signal fired by the walk clip.
    pub fn record_step_signal(&mut self, signal: u64)
        ensures
            final(self).step_events@ == old(self).step_events@.push(signal),
            final(self).wf() == old(self).wf(),
    {
        self.step_events.push(signal);
    }

    /// Switches away from an empty current weapon to the first weapon that
    /// still has ammunition, if there is one.
    pub fn select_weapon(&mut self, ammo: &Vec<u32>)
        requires
            ammo@.len() == old(self).character.weapons@.len(),
        ensures
            final(self).character == (Character {
                current_weapon: final(self).character.current_weapon,
                outbox: final(self).character.outbox,
                ..old(self).character
            }),
            ({
                let c = old(self).character.current_weapon;
                if c < ammo@.len() && ammo@[c as int] == 0 && exists|i: int| first_loaded(ammo@, i) {
                    exists|i: int|
                        #[trigger] first_loaded(ammo@, i) && final(self).character.current_weapon == i
                            && final(self).character.outbox@ == old(self).character.outbox@
                            + old(self).character.visibility_request(false)
                            + final(self).character.visibility_request(true)
                } else {
                    final(self).character.current_weapon == c && final(self).character.outbox@
                        == old(self).character.outbox@
                }
            }),
            *final(self) == (Bot { character: final(self).character, ..*old(self) }),
    {
        let c = self.character.current_weapon;
        if c < self.character.weapons.len() && ammo[c] == 0 {
            let mut i: usize = 0;
            while i < ammo.len()
                invariant
                    i <= ammo@.len(),
                    forall|j: int| 0 <= j < i ==> #[trigger] ammo@[j] == 0,
                    *self == *old(self),
                    self.character.weapons@.len() == ammo@.len(),
                    c == old(self).character.current_weapon,
                    c < ammo@.len(),
                    ammo@[c as int] == 0,
                decreases ammo@.len() - i,
            {
                if ammo[i] > 0 {
                    assert(first_loaded(ammo@, i as int));
                    self.character.set_current_weapon(i);
                    return;
                }
                i = i + 1;
            }
        }
    }

    /// Chooses the nearest item not picked up as the point of interest, at
    /// most once per period; without such an item it stays as it was.
    pub fn select_point_of_interest(&mut self, items: &Vec<Item>, position: Point, elapsed: u64)
        requires
            old(self).wf(),
            in_world(position),
            items_in_world(items@),
        ensures
            final(self).wf(),
            !due(old(self).last_poi_update, elapsed, POI_PERIOD) ==> *final(self) == *old(self),
            *final(self) == (Bot {
                point_of_interest: final(self).point_of_interest,
                last_poi_update: final(self).last_poi_update,
                ..*old(self)
            }),
            due(old(self).last_poi_update, elapsed, POI_PERIOD) ==> {
                &&& final(self).last_poi_update == Some(elapsed)
                &&& (forall|j: int| 0 <= j < items@.len() ==> (#[trigger] items@[j]).picked_up)
                    ==> final(self).point_of_interest == old(self).point_of_interest
                &&& (exists|j: int| 0 <= j < items@.len() && !(#[trigger] items@[j]).picked_up) ==> exists|i: int|
                    is_nearest_item(items@, i, position) && final(self).point_of_interest
                        == #[trigger] items@[i].position
            },
    {
        if is_due(self.last_poi_update, elapsed, POI_PERIOD) {
            match nearest_item(position, items) {
                Some(i) => {
                    self.point_of_interest = items[i].position;
                    assert(is_nearest_item(items@, i as int, position));
                },
                None => {},
            }
            self.last_poi_update = Some(elapsed);
        }
    }

    /// A new path may be planned at `elapsed`.
    pub fn path_rebuild_due(&self, elapsed: u64) -> (b: bool)
        ensures
            b == due(self.last_path_rebuild, elapsed, PATH_PERIOD),
    {
        is_due(self.last_path_rebuild, elapsed, PATH_PERIOD)
    }

    /// Takes the navmesh's answer to a path request made at `elapsed`: a
    /// built path replaces the old one, reversed, and counts as the latest
    /// plan; a failed one restarts the old path; an unresolved one changes
    /// nothing, so the next tick asks again.
    pub fn on_path_result(&mut self, result: PathResult, elapsed: u64)
        requires
            old(self).wf(),
            result matches PathResult::Built(p) ==> forall|i: int|
                0 <= i < p@.len() ==> in_world(#[trigger] p@[i]),
        ensures
            final(self).wf(),
            result matches PathResult::Built(p) ==> {
                &&& final(self).path.path() == p@.reverse()
                &&& final(self).path.cursor() == 0
                &&& final(self).last_path_rebuild == Some(elapsed)
            },
            result is Failed ==> {
                &&& final(self).path.path() == old(self).path.path()
                &&& final(self).path.cursor() == 0
                &&& final(self).last_path_rebuild == old(self).last_path_rebuild
            },
            result is Unresolved ==> final(self).path == old(self).path && final(self).last_path_rebuild
                == old(self).last_path_rebuild,
    {
        match result {
            PathResult::Unresolved => {},
            PathResult::Failed => {
                self.path.restart();
            },
            PathResult::Built(p) => {
                self.path.replace(p);
                self.last_path_rebuild = Some(elapsed);
            },
        }
    }

    /// Consumes the melee clip's signals: one damage message against
    /// `target` per impact signal, while in close combat.
    fn emit_melee(&mut self, target: Target, in_close_combat: bool) -> (msgs: Vec<Message>)
        ensures
            msgs@ == melee_hits(old(self).melee_events@, target.actor, in_close_combat),
            final(self).melee_events@.len() == 0,
            *final(self) == (Bot { melee_events: final(self).melee_events, ..*old(self) }),
    {
        let events = self.melee_events.drain();
        let mut msgs: Vec<Message> = Vec::new();
        let mut i: usize = 0;
        while i < events.len()
            invariant
                i <= events@.len(),
                msgs@ == melee_hits(events@.take(i as int), target.actor, in_close_combat),
            decreases events@.len() - i,
        {
            assert(events@.take(i + 1).drop_last() =~= events@.take(i as int));
            if events[i] == HIT_SIGNAL && in_close_combat {
                msgs.push(Message::DamageActor { actor: target.actor, amount: MELEE_DAMAGE });
            }
            i = i + 1;
        }
        assert(events@.take(i as int) =~= events@);
        msgs
    }

    /// Consumes the walk clip's signals: one footstep sound at `position`
    /// per footstep signal, while on the ground, each picked at random from
    /// a set of `sounds`.
    fn emit_footsteps(&mut self, grounded: bool, position: Point, sounds: usize) -> (msgs: Vec<Message>)
        requires
            sounds > 0,
        ensures
            msgs@.len() == footstep_count(old(self).step_events@, grounded),
            footsteps_at(msgs@, position, sounds),
            final(self).step_events@.len() == 0,
            *final(self) == (Bot { step_events: final(self).step_events, ..*old(self) }),
    {
        let events = self.step_events.drain();
        let mut msgs: Vec<Message> = Vec::new();
        let mut i: usize = 0;
        while i < events.len()
            invariant
                sounds > 0,
                i <= events@.len(),
                msgs@.len() == footstep_count(events@.take(i as int), grounded),
                footsteps_at(msgs@, position, sounds),
            decreases events@.len() - i,
        {
            assert(events@.take(i + 1).drop_last() =~= events@.take(i as int));
            if events[i] == STEP_SIGNAL && grounded {
                let sound = random_below(sounds);
                msgs.push(Message::PlayFootstep { sound, position });
            }
            i = i + 1;
        }
        assert(events@.take(i as int) =~= events@);
        msgs
    }

    /// One simulation tick. A dead bot (health at or below zero) only runs
    /// its dying machine. A living bot picks its target, weapon and point of
    /// interest, follows its path, decides where to look, move and whether
    /// to jump, reacts to damage taken since the last tick, runs its
    /// locomotion and combat machines, consumes the clip signals into melee
    /// and footstep messages, shoots when it may, and asks for a new path
    /// when one is due.
    #[verifier::rlimit(50)]
    pub fn update(&mut self, input: &TickInput) -> (out: TickOutput)
        requires
            old(self).wf(),
            old(self).accepts(*input),
        ensures
            final(self).wf(),
            (out.mode == TickMode::Dying) == (old(self).character.health <= 0),
            old(self).character.health <= 0 ==> {
                let dm = MachineModel { params: seq![true], ..old(self).dying.machine@ };
                &&& same_but_dying(*final(self), *old(self))
                &&& final(self).dying.machine@ == dm.step(input.delta)
                &&& out.dying_pose == Some(dm.pose())
                &&& out.locomotion_pose is None
                &&& out.combat_pose is None
                &&& out.aim is None
                &&& out.movement is None
                &&& !out.jump
                &&& !out.rewind_hit_reaction
                &&& out.shot is None
                &&& out.melee@.len() == 0
                &&& out.footsteps@.len() == 0
                &&& out.path_request is None
            },
            old(self).character.health > 0 ==> {
                let position = input.position;
                let target = final(self).target;
                let in_cc = close_combat(target, position);
                let look = look_direction(target, final(self).point_of_interest, position);
                let was_damaged = old(self).character.health < old(self).last_health;
                let can_aim = !was_damaged && old(self).aim_cooldown == 0;
                let old_path = old(self).path.path();
                let waypoint = if old_path.len() > 0 {
                    old_path[old(self).path.cursor() as int]
                } else {
                    old(self).move_target
                };
                let lm = MachineModel {
                    params: locomotion_params(in_cc, out.jump, input.grounded),
                    ..old(self).locomotion.machine@
                };
                let cm = MachineModel {
                    params: combat_params(in_cc, was_damaged, can_aim),
                    ..old(self).combat.machine@
                };
                &&& out.dying_pose is None
                &&& final(self).dying == old(self).dying
                &&& final(self).kind == old(self).kind
                &&& final(self).definition == old(self).definition
                &&& final(self).spine_found == old(self).spine_found
                &&& final(self).character.weapons@ == old(self).character.weapons@
                &&& ({
                    let c = old(self).character.current_weapon;
                    if c < input.ammo@.len() && input.ammo@[c as int] == 0 && exists|i: int|
                        first_loaded(input.ammo@, i) {
                        exists|i: int|
                            #[trigger] first_loaded(input.ammo@, i) && final(self).character.current_weapon == i
                                && final(self).character.outbox@ == old(self).character.outbox@
                                + old(self).character.visibility_request(false)
                                + final(self).character.visibility_request(true)
                    } else {
                        final(self).character.current_weapon == c && final(self).character.outbox@
                            == old(self).character.outbox@
                    }
                })
                &&& (target is None <==> none_visible(input.candidates@, input.self_actor, old(self).character.body))
                &&& (target matches Some(tg) ==> exists|i: int|
                    is_nearest_visible(input.candidates@, i, input.self_actor, old(self).character.body, position)
                        && tg == (Target {
                        position: #[trigger] input.candidates@[i].position,
                        actor: input.candidates@[i].actor,
                    }))
                &&& (!due(old(self).last_poi_update, input.elapsed, POI_PERIOD) ==> final(self).point_of_interest
                    == old(self).point_of_interest && final(self).last_poi_update == old(self).last_poi_update)
                &&& (due(old(self).last_poi_update, input.elapsed, POI_PERIOD) ==> final(self).last_poi_update
                    == Some(input.elapsed))
                &&& final(self).move_target == waypoint
                &&& final(self).path.path() == old_path
                &&& (old_path.len() > 0 ==> final(self).path.cursor() == if sqr_dist(waypoint, position)
                    <= WAYPOINT_RADIUS * WAYPOINT_RADIUS && old(self).path.cursor() + 1 < old_path.len() {
                    old(self).path.cursor() + 1
                } else {
                    old(self).path.cursor()
                })
                &&& (old_path.len() == 0 ==> final(self).path.cursor() == old(self).path.cursor())
                &&& out.aim == if is_zero(look) {
                    None
                } else {
                    Some(look)
                }
                &&& out.movement == if is_zero(look) || in_cc {
                    None
                } else if input.grounded {
                    if waypoint == position {
                        None
                    } else {
                        Some(diff(waypoint, position))
                    }
                } else {
                    Some(old(self).last_move_dir)
                }
                &&& out.jump == (look.y >= JUMP_LOOK_UP && input.grounded && in_cc)
                &&& out.rewind_hit_reaction == (was_damaged && input.hit_reaction_ended)
                &&& final(self).aim_cooldown == if was_damaged {
                    cooled(AIM_LOCK, input.delta)
                } else {
                    cooled(old(self).aim_cooldown, input.delta)
                }
                &&& final(self).last_health == old(self).character.health
                &&& final(self).character.health == old(self).character.health
                &&& final(self).locomotion.machine@ == lm.step(input.delta)
                &&& out.locomotion_pose == Some(lm.pose())
                &&& final(self).combat.machine@ == cm.step(input.delta)
                &&& out.combat_pose == Some(cm.pose())
                &&& out.shot == if !in_cc && can_aim && final(self).combat.machine@.active == COMBAT_AIM
                    && target is Some && final(self).character.current_weapon
                    < final(self).character.weapons@.len() {
                    Some(
                        Message::ShootWeapon {
                            weapon: final(self).character.weapons@[final(self).character.current_weapon as int],
                            direction: look,
                        },
                    )
                } else {
                    None
                }
                &&& match target {
                    Some(t) => out.melee@ == melee_hits(old(self).melee_events@, t.actor, in_cc)
                        && final(self).melee_events@.len() == 0,
                    None => out.melee@.len() == 0 && final(self).melee_events@ == old(self).melee_events@,
                }
                &&& if final(self).locomotion.walking() {
                    &&& out.footsteps@.len() == footstep_count(old(self).step_events@, input.grounded)
                    &&& footsteps_at(out.footsteps@, position, input.footstep_sounds)
                    &&& final(self).step_events@.len() == 0
                } else {
                    out.footsteps@.len() == 0 && final(self).step_events@ == old(self).step_events@
                }
                &&& out.path_request == if input.has_navmesh && due(
                    old(self).last_path_rebuild,
                    input.elapsed,
                    PATH_PERIOD,
                ) {
                    Some(
                        PathRequest {
                            from: Point {
                                x: position.x,
                                y: (position.y - FEET_OFFSET) as i64,
                                z: position.z,
                            },
                            to: final(self).point_of_interest,
                        },
                    )
                } else {
                    None
                }
                &&& final(self).last_path_rebuild == old(self).last_path_rebuild
            },
    {
        let mut out = TickOutput {
            mode: TickMode::Full,
            dying_pose: None,
            locomotion_pose: None,
            combat_pose: None,
            aim: None,
            movement: None,
            jump: false,
            rewind_hit_reaction: false,
            shot: None,
            melee: Vec::new(),
            footsteps: Vec::new(),
            path_request: None,
        };
        if self.character.is_dead() {
            out.mode = TickMode::Dying;
            out.dying_pose = Some(self.dying.apply(true, input.delta));
            return out;
        }
        let position = input.position;
        self.target = select_target(input.self_actor, self.character.body, position, &input.candidates);
        self.select_weapon(&input.ammo);
        self.select_point_of_interest(&input.items, position, input.elapsed);

        let (in_close_combat, look_dir) = match self.target {
            None => (false, self.point_of_interest.minus(&position)),
            Some(t) => (
                t.position.sqr_distance(&position) <= CLOSE_COMBAT_RANGE * CLOSE_COMBAT_RANGE,
                t.position.minus(&position),
            ),
        };

        if let Some(w) = self.path.follow(position) {
            self.move_target = w;
        }

        if !look_dir.is_zero() {
            out.aim = Some(look_dir);
            if !in_close_combat {
                if input.grounded {
                    if self.move_target != position {
                        let dir = self.move_target.minus(&position);
                        out.movement = Some(dir);
                        self.last_move_dir = dir;
                    }
                } else {
                    out.movement = Some(self.last_move_dir);
                }
            }
        }

        let need_jump = look_dir.y >= JUMP_LOOK_UP && input.grounded && in_close_combat;
        out.jump = need_jump;

        let was_damaged = self.character.health < self.last_health;
        if was_damaged {
            out.rewind_hit_reaction = input.hit_reaction_ended;
            self.aim_cooldown = AIM_LOCK;
        }
        let can_aim = self.aim_cooldown == 0;
        self.last_health = self.character.health;

        out.locomotion_pose = Some(self.locomotion.apply(in_close_combat, need_jump, input.grounded, input.delta));
        out.combat_pose = Some(self.combat.apply(in_close_combat, was_damaged, can_aim, input.delta));

        if !in_close_combat && can_aim && self.combat.is_aiming() && self.target.is_some() {
            if let Some(w) = self.character.current_weapon() {
                out.shot = Some(Message::ShootWeapon { weapon: w, direction: look_dir });
            }
        }

        if let Some(t) = self.target {
            out.melee = self.emit_melee(t, in_close_combat);
        }

        if self.locomotion.is_walking() {
            out.footsteps = self.emit_footsteps(input.grounded, position, input.footstep_sounds);
        }

        if input.has_navmesh && self.path_rebuild_due(input.elapsed) {
            out.path_request = Some(
                PathRequest {
                    from: Point { x: position.x, y: position.y - FEET_OFFSET, z: position.z },
                    to: self.point_of_interest,
                },
            );
        }

        self.aim_cooldown = if self.aim_cooldown > input.delta {
            self.aim_cooldown - input.delta
        } else {
            0
        };
        out
    }
}

} // verus!
