//! Generic blend state machine: states wrap a pose node (one clip), timed
//! transitions move between states, each gated by a boolean parameter.

use vstd::prelude::*;

verus! {

/// A state: the pose of one animation clip.
#[derive(Copy, Clone, PartialEq, Eq, Debug, Structural)]
pub struct State {
    pub clip: usize,
}

/// A transition from `source` to `dest`, blended over `duration`
/// milliseconds, that fires while parameter `param` is set.
#[derive(Copy, Clone, PartialEq, Eq, Debug, Structural)]
pub struct Transition {
    pub source: usize,
    pub dest: usize,
    pub duration: u64,
    pub param: usize,
}

/// The transition in flight and the time spent in it so far.
#[derive(Copy, Clone, PartialEq, Eq, Debug, Structural)]
pub struct InFlight {
    pub index: usize,
    pub elapsed: u64,
}

/// What a machine hands to the skeleton on one evaluation: either one clip,
/// or two clips blended with weight `progress / duration` on `to`.
#[derive(Copy, Clone, PartialEq, Eq, Debug, Structural)]
pub enum Pose {
    Single { clip: usize },
    Blend { from: usize, to: usize, progress: u64, duration: u64 },
}

/// Why a saved machine state cannot be restored.
#[derive(Copy, Clone, PartialEq, Eq, Debug, Structural)]
pub enum RestoreError {
    /// The active state is not a state of the machine.
    UnknownState,
    /// The transition in flight is not a transition of the machine, does not
    /// leave the active state, or has already run its whole duration.
    BadTransition,
}

/// Mathematical model of a machine.
pub struct MachineModel {
    pub states: Seq<State>,
    pub transitions: Seq<Transition>,
    pub params: Seq<bool>,
    pub active: int,
    pub in_flight: Option<InFlight>,
}

impl MachineModel {
    pub open spec fn transition_ok(self, t: Transition) -> bool {
        &&& t.source < self.states.len()
        &&& t.dest < self.states.len()
        &&& t.param < self.params.len()
    }

    /// At most one transition is in flight, it leaves the active state, and it
    /// has not yet run for its whole duration.
    pub open spec fn wf(self) -> bool {
        &&& 0 <= self.active < self.states.len()
        &&& self.transitions.len() <= usize::MAX
        &&& forall|i: int| 0 <= i < self.transitions.len() ==> self.transition_ok(#[trigger] self.transitions[i])
        &&& match self.in_flight {
            None => true,
            Some(f) => {
                &&& f.index < self.transitions.len()
                &&& self.transitions[f.index as int].source == self.active
                &&& self.transitions[f.index as int].dest != self.active
                &&& f.elapsed < self.transitions[f.index as int].duration
            },
        }
    }

    /// Transition `i` may fire: it leaves the active state for another one and
    /// its parameter is set.
    pub open spec fn fires(self, i: int) -> bool {
        &&& self.transitions[i].source == self.active
        &&& self.transitions[i].dest != self.active
        &&& self.params[self.transitions[i].param as int]
    }

    /// First transition at or after `i`, in declaration order, that may fire.
    pub open spec fn first_firing_from(self, i: int) -> Option<int>
        decreases self.transitions.len() - i,
    {
        if i < 0 || i >= self.transitions.len() {
            None
        } else if self.fires(i) {
            Some(i)
        } else {
            self.first_firing_from(i + 1)
        }
    }

    /// The transition that runs during the next evaluation: the one in flight,
    /// else the first that may fire, started at zero.
    pub open spec fn running(self) -> Option<InFlight> {
        match self.in_flight {
            Some(f) => Some(f),
            None => match self.first_firing_from(0) {
                Some(i) => Some(InFlight { index: i as usize, elapsed: 0 }),
                None => None,
            },
        }
    }

    /// Pose of the next evaluation, sampled before time advances.
    pub open spec fn pose(self) -> Pose {
        match self.running() {
            None => Pose::Single { clip: self.states[self.active].clip },
            Some(f) => {
                let t = self.transitions[f.index as int];
                Pose::Blend {
                    from: self.states[t.source as int].clip,
                    to: self.states[t.dest as int].clip,
                    progress: f.elapsed,
                    duration: t.duration,
                }
            },
        }
    }

    /// One evaluation that advances time by `dt`: the running transition
    /// completes once its whole duration has passed, and its destination
    /// becomes the active state.
    pub open spec fn step(self, dt: u64) -> MachineModel {
        match self.running() {
            None => self,
            Some(f) => {
                let t = self.transitions[f.index as int];
                if f.elapsed + dt >= t.duration {
                    MachineModel { active: t.dest as int, in_flight: None, ..self }
                } else {
                    MachineModel {
                        in_flight: Some(InFlight { index: f.index, elapsed: (f.elapsed + dt) as u64 }),
                        ..self
                    }
                }
            },
        }
    }

    /// Evaluations, one for each entry of `dts`, with no parameter change.
    pub open spec fn run(self, dts: Seq<u64>) -> MachineModel
        decreases dts.len(),
    {
        if dts.len() == 0 {
            self
        } else {
            self.step(dts[0]).run(dts.drop_first())
        }
    }
}

/// The transition found by the search fires, and lies in the searched range.
pub proof fn lemma_first_firing_fires(m: MachineModel, i: int)
    ensures
        m.first_firing_from(i) is Some ==> {
            let j = m.first_firing_from(i)->Some_0;
            i <= j < m.transitions.len() && m.fires(j)
        },
    decreases m.transitions.len() - i,
{
    if 0 <= i < m.transitions.len() && !m.fires(i) {
        lemma_first_firing_fires(m, i + 1);
    }
}

/// Sum of a sequence of time steps.
pub open spec fn total(dts: Seq<u64>) -> nat
    decreases dts.len(),
{
    if dts.len() == 0 {
        0
    } else {
        dts[0] as nat + total(dts.drop_first())
    }
}

/// One evaluation keeps the machine well formed.
pub proof fn lemma_step_wf(m: MachineModel, dt: u64)
    requires
        m.wf(),
    ensures
        m.step(dt).wf(),
{
    lemma_first_firing_fires(m, 0);
}

/// While a transition is in flight no other one starts, and the active state
/// changes only when the running transition completes, to its destination,
/// after its whole duration.
pub proof fn lemma_one_transition_at_a_time(m: MachineModel, dt: u64)
    requires
        m.wf(),
    ensures
        m.in_flight matches Some(f) ==> (m.step(dt).in_flight matches Some(g) ==> g.index == f.index),
        m.step(dt).active != m.active ==> {
            &&& m.running() is Some
            &&& m.running()->Some_0.elapsed + dt >= m.transitions[m.running()->Some_0.index as int].duration
            &&& m.step(dt).active == m.transitions[m.running()->Some_0.index as int].dest
            &&& m.step(dt).in_flight is None
        },
{
}

/// A transition in flight keeps its source as the active state as long as
/// the ticks since it started add up to less than its duration.
pub proof fn lemma_in_flight_waits_for_duration(m: MachineModel, dts: Seq<u64>)
    requires
        m.wf(),
        m.in_flight is Some,
        m.in_flight->Some_0.elapsed + total(dts) < m.transitions[m.in_flight->Some_0.index as int].duration,
    ensures
        m.run(dts).wf(),
        m.run(dts).active == m.active,
        m.run(dts).in_flight == Some(InFlight {
            index: m.in_flight->Some_0.index,
            elapsed: (m.in_flight->Some_0.elapsed + total(dts)) as u64,
        }),
    decreases dts.len(),
{
    if dts.len() > 0 {
        let m1 = m.step(dts[0]);
        lemma_step_wf(m, dts[0]);
        lemma_in_flight_waits_for_duration(m1, dts.drop_first());
    } else {
        assert(m.in_flight == Some(InFlight {
            index: m.in_flight->Some_0.index,
            elapsed: (m.in_flight->Some_0.elapsed + total(dts)) as u64,
        }));
    }
}

/// A transition that fires leaves the active state unchanged until ticks
/// adding up to its whole duration, counted from the tick that fired it,
/// have passed.
pub proof fn lemma_fired_transition_waits_for_duration(m: MachineModel, dts: Seq<u64>)
    requires
        m.wf(),
        m.in_flight is None,
        m.first_firing_from(0) is Some,
        dts.len() > 0,
        total(dts) < m.transitions[m.first_firing_from(0)->Some_0].duration,
    ensures
        m.run(dts).active == m.active,
        m.run(dts).in_flight == Some(InFlight {
            index: m.first_firing_from(0)->Some_0 as usize,
            elapsed: total(dts) as u64,
        }),
{
    lemma_first_firing_fires(m, 0);
    let m1 = m.step(dts[0]);
    lemma_step_wf(m, dts[0]);
    lemma_in_flight_waits_for_duration(m1, dts.drop_first());
}

/// A blend state machine.
pub struct Machine {
    states: Vec<State>,
    transitions: Vec<Transition>,
    params: Vec<bool>,
    active: usize,
    in_flight: Option<InFlight>,
}

impl View for Machine {
    type V = MachineModel;

    closed spec fn view(&self) -> MachineModel {
        MachineModel {
            states: self.states@,
            transitions: self.transitions@,
            params: self.params@,
            active: self.active as int,
            in_flight: self.in_flight,
        }
    }
}

impl Machine {
    /// A machine whose only state, the entry state, plays `entry_clip`, with
    /// `param_count` parameters, all unset.
    pub fn new(entry_clip: usize, param_count: usize) -> (m: Machine)
        ensures
            m@.wf(),
            m@.states == seq![State { clip: entry_clip }],
            m@.transitions.len() == 0,
            m@.params == Seq::new(param_count as nat, |i: int| false),
            m@.active == 0,
            m@.in_flight is None,
    {
        let mut params: Vec<bool> = Vec::new();
        let mut i: usize = 0;
        while i < param_count
            invariant
                i <= param_count,
                params@ == Seq::new(i as nat, |k: int| false),
            decreases param_count - i,
        {
            params.push(false);
            i = i + 1;
            assert(params@ =~= Seq::new(i as nat, |k: int| false));
        }
        let mut states: Vec<State> = Vec::new();
        states.push(State { clip: entry_clip });
        Machine { states, transitions: Vec::new(), params, active: 0, in_flight: None }
    }

    /// Adds a state playing `clip` and returns its index.
    pub fn add_state(&mut self, clip: usize) -> (s: usize)
        requires
            old(self)@.wf(),
            old(self)@.states.len() < usize::MAX,
        ensures
            final(self)@.wf(),
            s == old(self)@.states.len(),
            final(self)@ == (MachineModel { states: old(self)@.states.push(State { clip }), ..old(self)@ }),
    {
        let s = self.states.len();
        self.states.push(State { clip });
        proof {
            let m = self@;
            assert forall|i: int| 0 <= i < m.transitions.len() implies m.transition_ok(#[trigger] m.transitions[i]) by {
                assert(old(self)@.transition_ok(old(self)@.transitions[i]));
            }
        }
        s
    }

    /// Appends a transition; earlier transitions take priority over later
    /// ones.
    pub fn add_transition(&mut self, t: Transition)
        requires
            old(self)@.wf(),
            old(self)@.transition_ok(t),
            old(self)@.transitions.len() < usize::MAX,
        ensures
            final(self)@.wf(),
            final(self)@ == (MachineModel { transitions: old(self)@.transitions.push(t), ..old(self)@ }),
    {
        self.transitions.push(t);
        proof {
            let m = self@;
            assert forall|i: int| 0 <= i < m.transitions.len() implies m.transition_ok(#[trigger] m.transitions[i]) by {
                if i < old(self)@.transitions.len() {
                    assert(old(self)@.transition_ok(old(self)@.transitions[i]));
                }
            }
        }
    }

    /// Makes `s` the active state.
    pub fn set_entry_state(&mut self, s: usize)
        requires
            old(self)@.wf(),
            old(self)@.in_flight is None,
            s < old(self)@.states.len(),
        ensures
            final(self)@.wf(),
            final(self)@ == (MachineModel { active: s as int, ..old(self)@ }),
    {
        self.active = s;
    }

    /// Records the value of parameter `param`; nothing else changes, in
    /// particular not the transition in flight.
    pub fn set_parameter(&mut self, param: usize, value: bool)
        requires
            old(self)@.wf(),
            param < old(self)@.params.len(),
        ensures
            final(self)@.wf(),
            final(self)@ == (MachineModel { params: old(self)@.params.update(param as int, value), ..old(self)@ }),
    {
        self.params.set(param, value);
    }

    pub fn active_state(&self) -> (s: usize)
        ensures
            s == self@.active,
    {
        self.active
    }

    /// Index of the transition in flight, if any.
    pub fn active_transition(&self) -> (t: Option<usize>)
        ensures
            t == (match self@.in_flight {
                Some(f) => Some(f.index),
                None => None::<usize>,
            }),
    {
        match self.in_flight {
            Some(f) => Some(f.index),
            None => None,
        }
    }

    /// Destination of the transition in flight, if any.
    pub fn transition_dest(&self) -> (d: Option<usize>)
        requires
            self@.wf(),
        ensures
            d == (match self@.in_flight {
                Some(f) => Some(self@.transitions[f.index as int].dest),
                None => None::<usize>,
            }),
    {
        match self.in_flight {
            Some(f) => Some(self.transitions[f.index].dest),
            None => None,
        }
    }

    /// The transition in flight and the time spent in it.
    pub fn in_flight(&self) -> (f: Option<InFlight>)
        ensures
            f == self@.in_flight,
    {
        self.in_flight
    }

    /// Puts the machine back in a saved state: `active` as the active state,
    /// `in_flight` as the transition in flight. A state the machine cannot be
    /// in is refused, and the machine is left as it was.
    pub fn restore_state(&mut self, active: usize, in_flight: Option<InFlight>) -> (r: Result<(), RestoreError>)
        requires
            old(self)@.wf(),
        ensures
            final(self)@.wf(),
            active >= old(self)@.states.len() ==> r == Err::<(), RestoreError>(RestoreError::UnknownState),
            active < old(self)@.states.len() ==> (r is Ok <==> (MachineModel {
                active: active as int,
                in_flight,
                ..old(self)@
            }).wf()),
            r is Ok ==> final(self)@ == (MachineModel { active: active as int, in_flight, ..old(self)@ }),
            r is Err ==> final(self)@ == old(self)@,
            active < old(self)@.states.len() && r is Err ==> r == Err::<(), RestoreError>(
                RestoreError::BadTransition,
            ),
    {
        if active >= self.states.len() {
            return Err(RestoreError::UnknownState);
        }
        if let Some(f) = in_flight {
            if f.index >= self.transitions.len() {
                return Err(RestoreError::BadTransition);
            }
            let t = self.transitions[f.index];
            if t.source != active || t.dest == active || f.elapsed >= t.duration {
                return Err(RestoreError::BadTransition);
            }
        }
        self.active = active;
        self.in_flight = in_flight;
        Ok(())
    }

    pub fn states(&self) -> (s: &Vec<State>)
        ensures
            s@ == self@.states,
    {
        &self.states
    }

    /// First transition, in declaration order, that may fire now.
    fn find_transition(&self) -> (r: Option<usize>)
        requires
            self@.wf(),
        ensures
            self@.first_firing_from(0) is None ==> r is None,
            self@.first_firing_from(0) is Some ==> r is Some && r->Some_0 as int == self@.first_firing_from(0)->Some_0,
    {
        let mut i: usize = 0;
        while i < self.transitions.len()
            invariant
                self@.wf(),
                i <= self.transitions.len(),
                self@.first_firing_from(i as int) == self@.first_firing_from(0),
            decreases self.transitions.len() - i,
        {
            let t = self.transitions[i];
            assert(self@.transition_ok(self@.transitions[i as int]));
            if t.source == self.active && t.dest != self.active && self.params[t.param] {
                return Some(i);
            }
            i = i + 1;
        }
        None
    }

    /// Advances the machine by `dt` milliseconds and returns the pose to
    /// apply: starts the first transition that may fire when none is in
    /// flight, and completes the one in flight once its duration has passed.
    pub fn evaluate(&mut self, dt: u64) -> (pose: Pose)
        requires
            old(self)@.wf(),
        ensures
            final(self)@.wf(),
            final(self)@ == old(self)@.step(dt),
            pose == old(self)@.pose(),
    {
        let running = match self.in_flight {
            Some(f) => Some(f),
            None => match self.find_transition() {
                Some(i) => Some(InFlight { index: i, elapsed: 0 }),
                None => None,
            },
        };
        assert(running == old(self)@.running());
        proof {
            lemma_first_firing_fires(self@, 0);
        }
        match running {
            None => Pose::Single { clip: self.states[self.active].clip },
            Some(f) => {
                let t = self.transitions[f.index];
                assert(self@.transition_ok(self@.transitions[f.index as int]));
                let pose = Pose::Blend {
                    from: self.states[t.source].clip,
                    to: self.states[t.dest].clip,
                    progress: f.elapsed,
                    duration: t.duration,
                };
                if dt >= t.duration - f.elapsed {
                    self.active = t.dest;
                    self.in_flight = None;
                } else {
                    self.in_flight = Some(InFlight { index: f.index, elapsed: f.elapsed + dt });
                }
                pose
            },
        }
    }
}

} // verus!
