//! The three machines a bot runs side by side: locomotion for the legs,
//! combat for the upper body, and dying, which overrides both once the bot is
//! dead.

use crate::machine::{Machine, MachineModel, Pose, State, Transition};
use vstd::prelude::*;

verus! {

/// Clip slots of a bot's per-instance animation clips.
pub const IDLE_CLIP: usize = 0;
pub const WALK_CLIP: usize = 1;
pub const JUMP_CLIP: usize = 2;
pub const FALLING_CLIP: usize = 3;
pub const AIM_CLIP: usize = 4;
pub const WHIP_CLIP: usize = 5;
pub const HIT_REACTION_CLIP: usize = 6;
pub const DYING_CLIP: usize = 7;
pub const DEAD_CLIP: usize = 8;

/// Signal the walk clip fires at each footstep.
pub const STEP_SIGNAL: u64 = 1;
/// Signal the melee clip fires at the moment of impact.
pub const HIT_SIGNAL: u64 = 1;

/// How the clip store sets up one clip for a bot: playback speed in percent
/// of real time, looping, whether leg joints follow it, and the signals it
/// fires, each at a point of the cycle given in per mille.
pub struct ClipSetup {
    pub clip: usize,
    pub speed_percent: u32,
    pub looping: bool,
    pub enabled: bool,
    pub drives_legs: bool,
    pub signals: Vec<(u64, u32)>,
}

pub open spec fn clip_signals(clip: usize) -> Seq<(u64, u32)> {
    if clip == WALK_CLIP {
        seq![(STEP_SIGNAL, 400u32), (STEP_SIGNAL, 800u32)]
    } else if clip == WHIP_CLIP {
        seq![(HIT_SIGNAL, 900u32)]
    } else {
        Seq::empty()
    }
}

pub open spec fn clip_speed_percent(clip: usize) -> u32 {
    if clip == HIT_REACTION_CLIP {
        200
    } else if clip == DYING_CLIP {
        150
    } else {
        100
    }
}

/// Setup of clip slot `clip`: the walk clip carries two footstep signals,
/// the melee clip one impact signal near its end; the hit reaction plays at
/// double speed once; the dying clips start disabled, dying at one and a half
/// speed and dead holding its last pose; the upper-body clips leave the legs
/// to locomotion.
pub fn clip_setup(clip: usize) -> (s: ClipSetup)
    requires
        clip <= DEAD_CLIP,
    ensures
        s.clip == clip,
        s.signals@ == clip_signals(clip),
        s.speed_percent == clip_speed_percent(clip),
        s.looping == !(clip == HIT_REACTION_CLIP || clip == DEAD_CLIP),
        s.enabled == !(clip == DYING_CLIP || clip == DEAD_CLIP),
        s.drives_legs == !(clip == AIM_CLIP || clip == WHIP_CLIP || clip == HIT_REACTION_CLIP),
{
    let mut signals: Vec<(u64, u32)> = Vec::new();
    if clip == WALK_CLIP {
        signals.push((STEP_SIGNAL, 400));
        signals.push((STEP_SIGNAL, 800));
    } else if clip == WHIP_CLIP {
        signals.push((HIT_SIGNAL, 900));
    }
    assert(signals@ =~= clip_signals(clip));
    let speed_percent: u32 = if clip == HIT_REACTION_CLIP {
        200
    } else if clip == DYING_CLIP {
        150
    } else {
        100
    };
    ClipSetup {
        clip,
        speed_percent,
        looping: !(clip == HIT_REACTION_CLIP || clip == DEAD_CLIP),
        enabled: !(clip == DYING_CLIP || clip == DEAD_CLIP),
        drives_legs: !(clip == AIM_CLIP || clip == WHIP_CLIP || clip == HIT_REACTION_CLIP),
        signals,
    }
}

// ---------------------------------------------------------------- locomotion

pub const LOCO_JUMP: usize = 0;
pub const LOCO_FALLING: usize = 1;
pub const LOCO_WALK: usize = 2;
pub const LOCO_IDLE: usize = 3;

pub const WALK_TO_IDLE: usize = 0;
pub const WALK_TO_JUMP: usize = 1;
pub const IDLE_TO_WALK: usize = 2;
pub const IDLE_TO_JUMP: usize = 3;
pub const JUMP_TO_FALLING: usize = 4;
pub const FALLING_TO_IDLE: usize = 5;

pub open spec fn locomotion_states() -> Seq<State> {
    seq![
        State { clip: JUMP_CLIP },
        State { clip: FALLING_CLIP },
        State { clip: WALK_CLIP },
        State { clip: IDLE_CLIP },
    ]
}

pub open spec fn locomotion_transitions() -> Seq<Transition> {
    seq![
        Transition { source: LOCO_WALK, dest: LOCO_IDLE, duration: 500, param: WALK_TO_IDLE },
        Transition { source: LOCO_WALK, dest: LOCO_JUMP, duration: 500, param: WALK_TO_JUMP },
        Transition { source: LOCO_IDLE, dest: LOCO_WALK, duration: 500, param: IDLE_TO_WALK },
        Transition { source: LOCO_IDLE, dest: LOCO_JUMP, duration: 500, param: IDLE_TO_JUMP },
        Transition { source: LOCO_JUMP, dest: LOCO_FALLING, duration: 500, param: JUMP_TO_FALLING },
        Transition { source: LOCO_FALLING, dest: LOCO_IDLE, duration: 500, param: FALLING_TO_IDLE },
    ]
}

/// Parameter values for one tick: walk unless in close combat, jump when
/// asked, fall while off the ground and land on contact.
pub open spec fn locomotion_params(in_close_combat: bool, need_jump: bool, grounded: bool) -> Seq<bool> {
    seq![in_close_combat, need_jump, !in_close_combat, need_jump, !grounded, grounded]
}

/// Legs: idle, walk, jump and falling, entered at idle.
pub struct LocomotionMachine {
    pub machine: Machine,
}

impl LocomotionMachine {
    pub open spec fn wf(self) -> bool {
        &&& self.machine@.wf()
        &&& self.machine@.states == locomotion_states()
        &&& self.machine@.transitions == locomotion_transitions()
        &&& self.machine@.params.len() == 6
    }

    pub fn new() -> (m: LocomotionMachine)
        ensures
            m.wf(),
            m.machine@.active == LOCO_IDLE,
            m.machine@.in_flight is None,
    {
        let mut machine = Machine::new(JUMP_CLIP, 6);
        let jump = 0usize;
        let falling = machine.add_state(FALLING_CLIP);
        let walk = machine.add_state(WALK_CLIP);
        let idle = machine.add_state(IDLE_CLIP);
        machine.add_transition(Transition { source: walk, dest: idle, duration: 500, param: WALK_TO_IDLE });
        machine.add_transition(Transition { source: walk, dest: jump, duration: 500, param: WALK_TO_JUMP });
        machine.add_transition(Transition { source: idle, dest: walk, duration: 500, param: IDLE_TO_WALK });
        machine.add_transition(Transition { source: idle, dest: jump, duration: 500, param: IDLE_TO_JUMP });
        machine.add_transition(
            Transition { source: jump, dest: falling, duration: 500, param: JUMP_TO_FALLING },
        );
        machine.add_transition(
            Transition { source: falling, dest: idle, duration: 500, param: FALLING_TO_IDLE },
        );
        machine.set_entry_state(idle);
        assert(machine@.states =~= locomotion_states());
        assert(machine@.transitions =~= locomotion_transitions());
        LocomotionMachine { machine }
    }

    /// The legs walk: the active state is walk, or the transition in flight
    /// leads to walk.
    pub open spec fn walking(self) -> bool {
        ||| self.machine@.active == LOCO_WALK
        ||| (self.machine@.in_flight matches Some(f)
            && self.machine@.transitions[f.index as int].dest == LOCO_WALK)
    }

    pub fn is_walking(&self) -> (b: bool)
        requires
            self.wf(),
        ensures
            b == self.walking(),
    {
        self.machine.active_state() == LOCO_WALK || self.machine.transition_dest() == Some(LOCO_WALK)
    }

    /// Sets this tick's parameters and evaluates the machine.
    pub fn apply(&mut self, in_close_combat: bool, need_jump: bool, grounded: bool, dt: u64) -> (pose: Pose)
        requires
            old(self).wf(),
        ensures
            final(self).wf(),
            final(self).machine@ == (MachineModel {
                params: locomotion_params(in_close_combat, need_jump, grounded),
                ..old(self).machine@
            }).step(dt),
            pose == (MachineModel {
                params: locomotion_params(in_close_combat, need_jump, grounded),
                ..old(self).machine@
            }).pose(),
    {
        self.machine.set_parameter(IDLE_TO_WALK, !in_close_combat);
        self.machine.set_parameter(WALK_TO_IDLE, in_close_combat);
        self.machine.set_parameter(WALK_TO_JUMP, need_jump);
        self.machine.set_parameter(IDLE_TO_JUMP, need_jump);
        self.machine.set_parameter(JUMP_TO_FALLING, !grounded);
        self.machine.set_parameter(FALLING_TO_IDLE, grounded);
        assert(self.machine@.params =~= locomotion_params(in_close_combat, need_jump, grounded));
        proof {
            crate::machine::lemma_step_wf(self.machine@, dt);
        }
        self.machine.evaluate(dt)
    }
}

// -------------------------------------------------------------------- combat

pub const COMBAT_HIT_REACTION: usize = 0;
pub const COMBAT_AIM: usize = 1;
pub const COMBAT_WHIP: usize = 2;

pub const AIM_TO_WHIP: usize = 0;
pub const WHIP_TO_AIM: usize = 1;
pub const HIT_REACTION_TO_AIM: usize = 2;
pub const AIM_TO_HIT_REACTION: usize = 3;
pub const WHIP_TO_HIT_REACTION: usize = 4;

pub open spec fn combat_states() -> Seq<State> {
    seq![State { clip: HIT_REACTION_CLIP }, State { clip: AIM_CLIP }, State { clip: WHIP_CLIP }]
}

pub open spec fn combat_transitions() -> Seq<Transition> {
    seq![
        Transition { source: COMBAT_AIM, dest: COMBAT_WHIP, duration: 500, param: AIM_TO_WHIP },
        Transition { source: COMBAT_WHIP, dest: COMBAT_AIM, duration: 500, param: WHIP_TO_AIM },
        Transition {
            source: COMBAT_WHIP,
            dest: COMBAT_HIT_REACTION,
            duration: 200,
            param: WHIP_TO_HIT_REACTION,
        },
        Transition {
            source: COMBAT_AIM,
            dest: COMBAT_HIT_REACTION,
            duration: 200,
            param: AIM_TO_HIT_REACTION,
        },
        Transition {
            source: COMBAT_HIT_REACTION,
            dest: COMBAT_AIM,
            duration: 500,
            param: HIT_REACTION_TO_AIM,
        },
    ]
}

/// Parameter values for one tick: melee while in close combat, react to
/// damage taken since the last tick, aim again once the cooldown is over.
pub open spec fn combat_params(in_close_combat: bool, was_damaged: bool, can_aim: bool) -> Seq<bool> {
    seq![in_close_combat, !in_close_combat, can_aim, was_damaged, was_damaged]
}

/// Upper body: aim, melee swing and hit reaction, entered at aim.
pub struct CombatMachine {
    pub machine: Machine,
}

impl CombatMachine {
    pub open spec fn wf(self) -> bool {
        &&& self.machine@.wf()
        &&& self.machine@.states == combat_states()
        &&& self.machine@.transitions == combat_transitions()
        &&& self.machine@.params.len() == 5
    }

    pub fn new() -> (m: CombatMachine)
        ensures
            m.wf(),
            m.machine@.active == COMBAT_AIM,
            m.machine@.in_flight is None,
    {
        let mut machine = Machine::new(HIT_REACTION_CLIP, 5);
        let hit_reaction = 0usize;
        let aim = machine.add_state(AIM_CLIP);
        let whip = machine.add_state(WHIP_CLIP);
        machine.add_transition(Transition { source: aim, dest: whip, duration: 500, param: AIM_TO_WHIP });
        machine.add_transition(Transition { source: whip, dest: aim, duration: 500, param: WHIP_TO_AIM });
        machine.add_transition(
            Transition { source: whip, dest: hit_reaction, duration: 200, param: WHIP_TO_HIT_REACTION },
        );
        machine.add_transition(
            Transition { source: aim, dest: hit_reaction, duration: 200, param: AIM_TO_HIT_REACTION },
        );
        machine.add_transition(
            Transition { source: hit_reaction, dest: aim, duration: 500, param: HIT_REACTION_TO_AIM },
        );
        machine.set_entry_state(aim);
        assert(machine@.states =~= combat_states());
        assert(machine@.transitions =~= combat_transitions());
        CombatMachine { machine }
    }

    /// Ranged fire is allowed in the aim state only.
    pub fn is_aiming(&self) -> (b: bool)
        ensures
            b == (self.machine@.active == COMBAT_AIM),
    {
        self.machine.active_state() == COMBAT_AIM
    }

    /// Sets this tick's parameters and evaluates the machine.
    pub fn apply(&mut self, in_close_combat: bool, was_damaged: bool, can_aim: bool, dt: u64) -> (pose: Pose)
        requires
            old(self).wf(),
        ensures
            final(self).wf(),
            final(self).machine@ == (MachineModel {
                params: combat_params(in_close_combat, was_damaged, can_aim),
                ..old(self).machine@
            }).step(dt),
            pose == (MachineModel {
                params: combat_params(in_close_combat, was_damaged, can_aim),
                ..old(self).machine@
            }).pose(),
    {
        self.machine.set_parameter(WHIP_TO_AIM, !in_close_combat);
        self.machine.set_parameter(AIM_TO_WHIP, in_close_combat);
        self.machine.set_parameter(WHIP_TO_HIT_REACTION, was_damaged);
        self.machine.set_parameter(AIM_TO_HIT_REACTION, was_damaged);
        self.machine.set_parameter(HIT_REACTION_TO_AIM, can_aim);
        assert(self.machine@.params =~= combat_params(in_close_combat, was_damaged, can_aim));
        proof {
            crate::machine::lemma_step_wf(self.machine@, dt);
        }
        self.machine.evaluate(dt)
    }
}

// --------------------------------------------------------------------- dying

pub const DYING_STATE: usize = 0;
pub const DEAD_STATE: usize = 1;

pub const DYING_TO_DEAD: usize = 0;

pub open spec fn dying_states() -> Seq<State> {
    seq![State { clip: DYING_CLIP }, State { clip: DEAD_CLIP }]
}

pub open spec fn dying_transitions() -> Seq<Transition> {
    seq![Transition { source: DYING_STATE, dest: DEAD_STATE, duration: 1500, param: DYING_TO_DEAD }]
}

/// Death: dying, then dead for good.
pub struct DyingMachine {
    pub machine: Machine,
}

impl DyingMachine {
    pub open spec fn wf(self) -> bool {
        &&& self.machine@.wf()
        &&& self.machine@.states == dying_states()
        &&& self.machine@.transitions == dying_transitions()
        &&& self.machine@.params.len() == 1
    }

    pub fn new() -> (m: DyingMachine)
        ensures
            m.wf(),
            m.machine@.active == DYING_STATE,
            m.machine@.in_flight is None,
    {
        let mut machine = Machine::new(DYING_CLIP, 1);
        let dying = 0usize;
        let dead = machine.add_state(DEAD_CLIP);
        machine.add_transition(Transition { source: dying, dest: dead, duration: 1500, param: DYING_TO_DEAD });
        assert(machine@.states =~= dying_states());
        assert(machine@.transitions =~= dying_transitions());
        DyingMachine { machine }
    }

    /// The dead state is reached: the bot may be removed.
    pub fn is_dead(&self) -> (b: bool)
        ensures
            b == (self.machine@.active == DEAD_STATE),
    {
        self.machine.active_state() == DEAD_STATE
    }

    /// Sets the death parameter and evaluates the machine.
    pub fn apply(&mut self, is_dead: bool, dt: u64) -> (pose: Pose)
        requires
            old(self).wf(),
        ensures
            final(self).wf(),
            final(self).machine@ == (MachineModel { params: seq![is_dead], ..old(self).machine@ }).step(dt),
            pose == (MachineModel { params: seq![is_dead], ..old(self).machine@ }).pose(),
    {
        self.machine.set_parameter(DYING_TO_DEAD, is_dead);
        assert(self.machine@.params =~= seq![is_dead]);
        proof {
            crate::machine::lemma_step_wf(self.machine@, dt);
        }
        self.machine.evaluate(dt)
    }
}

/// Once dead, the dying machine stays dead whatever it is fed.
pub proof fn lemma_dead_is_final(m: DyingMachine, is_dead: bool, dt: u64)
    requires
        m.wf(),
        m.machine@.active == DEAD_STATE,
    ensures
        (MachineModel { params: seq![is_dead], ..m.machine@ }).step(dt).active == DEAD_STATE,
{
    let mm = MachineModel { params: seq![is_dead], ..m.machine@ };
    assert(mm.first_firing_from(1) is None);
    assert(mm.first_firing_from(0) is None);
}

} // verus!
