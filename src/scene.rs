//! The two-scene lifecycle: a menu, and the running simulation that owns the
//! particles.
use vstd::prelude::*;
use crate::input::{ButtonState, CursorCommand, command_for};
use crate::store::ParticleStore;

verus! {

/// The active scene.
#[derive(Clone, Copy, Debug, PartialEq, Eq, Structural)]
pub enum SceneState {
    MenuActive,
    SimulationActive,
}

/// What the host observed: the menu's play action, the cancel key, or the
/// menu's quit action.
#[derive(Clone, Copy, Debug, PartialEq, Eq, Structural)]
pub enum SceneEvent {
    Play,
    Cancel,
    Quit,
}

/// What the host has to do after an event.
#[derive(Clone, Copy, Debug, PartialEq, Eq, Structural)]
pub enum SceneAction {
    /// Nothing changes.
    Stay,
    /// Dispose the menu, set up the simulation's camera and resources.
    StartSimulation,
    /// Dispose the simulation's camera and resources, rebuild the menu.
    ReturnToMenu,
    /// End the process.
    Exit,
}

pub open spec fn next_state(s: SceneState, e: SceneEvent) -> SceneState {
    match (s, e) {
        (SceneState::MenuActive, SceneEvent::Play) => SceneState::SimulationActive,
        (SceneState::SimulationActive, SceneEvent::Cancel) => SceneState::MenuActive,
        _ => s,
    }
}

pub open spec fn action_for(s: SceneState, e: SceneEvent) -> SceneAction {
    match (s, e) {
        (SceneState::MenuActive, SceneEvent::Play) => SceneAction::StartSimulation,
        (SceneState::SimulationActive, SceneEvent::Cancel) => SceneAction::ReturnToMenu,
        (SceneState::MenuActive, SceneEvent::Quit) => SceneAction::Exit,
        _ => SceneAction::Stay,
    }
}

/// The state machine: play starts the simulation from the menu, cancel goes
/// back from the simulation to the menu, quit ends the process from the menu.
/// Any other event leaves the state as it is.
pub fn transition(state: SceneState, event: SceneEvent) -> (r: (SceneState, SceneAction))
    ensures
        r == (next_state(state, event), action_for(state, event)),
{
    match (state, event) {
        (SceneState::MenuActive, SceneEvent::Play) => (
            SceneState::SimulationActive,
            SceneAction::StartSimulation,
        ),
        (SceneState::SimulationActive, SceneEvent::Cancel) => (
            SceneState::MenuActive,
            SceneAction::ReturnToMenu,
        ),
        (SceneState::MenuActive, SceneEvent::Quit) => (state, SceneAction::Exit),
        _ => (state, SceneAction::Stay),
    }
}

/// The scene state together with the particles it owns. The store is empty
/// whenever the menu is active.
pub struct SceneLifecycle<P> {
    state: SceneState,
    store: ParticleStore<P>,
}

impl<P> View for SceneLifecycle<P> {
    type V = (SceneState, Seq<P>);

    closed spec fn view(&self) -> (SceneState, Seq<P>) {
        (self.state, self.store@)
    }
}

impl<P> SceneLifecycle<P> {
    /// The menu holds no particle.
    pub open spec fn wf(&self) -> bool {
        self@.0 == SceneState::MenuActive ==> self@.1.len() == 0
    }

    /// Starts in the menu, with no particle.
    pub fn new() -> (r: Self)
        ensures
            r.wf(),
            r@ == (SceneState::MenuActive, Seq::<P>::empty()),
    {
        SceneLifecycle { state: SceneState::MenuActive, store: ParticleStore::new() }
    }

    /// The active scene.
    pub fn state(&self) -> (r: SceneState)
        ensures
            r == self@.0,
    {
        self.state
    }

    /// The particles of the running simulation.
    pub fn store(&self) -> (r: &ParticleStore<P>)
        ensures
            r@ == self@.1,
    {
        &self.store
    }

    /// The play action. From the menu the simulation starts with `particles`;
    /// in the simulation nothing changes.
    pub fn play(&mut self, particles: Vec<P>) -> (r: SceneAction)
        requires
            old(self).wf(),
        ensures
            final(self).wf(),
            r == action_for(old(self)@.0, SceneEvent::Play),
            final(self)@.0 == next_state(old(self)@.0, SceneEvent::Play),
            old(self)@.0 == SceneState::MenuActive ==> final(self)@.1 == particles@,
            old(self)@.0 == SceneState::SimulationActive ==> final(self)@ == old(self)@,
    {
        let (next, action) = transition(self.state, SceneEvent::Play);
        if action == SceneAction::StartSimulation {
            self.store.populate(particles);
        }
        self.state = next;
        action
    }

    /// The cancel key. From the simulation it disposes every particle and
    /// returns to the menu; in the menu there is nothing to dispose and
    /// nothing changes. Either way the menu is active with no particle.
    pub fn cancel(&mut self) -> (r: SceneAction)
        requires
            old(self).wf(),
        ensures
            final(self).wf(),
            r == action_for(old(self)@.0, SceneEvent::Cancel),
            final(self)@.0 == next_state(old(self)@.0, SceneEvent::Cancel),
            final(self)@ == after_cancel(old(self)@),
    {
        let (next, action) = transition(self.state, SceneEvent::Cancel);
        self.store.clear();
        self.state = next;
        action
    }

    /// The quit action: ends the process from the menu, ignored elsewhere.
    pub fn quit(&self) -> (r: SceneAction)
        ensures
            r == action_for(self@.0, SceneEvent::Quit),
    {
        transition(self.state, SceneEvent::Quit).1
    }

    /// One frame of the simulation (see `ParticleStore::advance`). In the menu
    /// there is no particle and nothing happens.
    pub fn advance<T, F: Fn(&CursorCommand<T>, &P) -> P>(
        &mut self,
        buttons: ButtonState,
        cursor: Option<T>,
        step: F,
    )
        requires
            old(self).wf(),
            forall|i: int|
                0 <= i < old(self)@.1.len() ==> step.requires(
                    (&command_for(buttons, cursor), &old(self)@.1[i]),
                ),
        ensures
            final(self).wf(),
            final(self)@.0 == old(self)@.0,
            final(self)@.1.len() == old(self)@.1.len(),
            forall|i: int|
                0 <= i < old(self)@.1.len() ==> step.ensures(
                    (&command_for(buttons, cursor), &old(self)@.1[i]),
                    final(self)@.1[i],
                ),
    {
        self.store.advance(buttons, cursor, step);
    }
}

/// What the cancel key leaves: the menu, with no particle.
pub open spec fn after_cancel<P>(v: (SceneState, Seq<P>)) -> (SceneState, Seq<P>) {
    (SceneState::MenuActive, Seq::empty())
}

/// Teardown is idempotent: a second cancel leaves what the first one left and
/// asks the host for nothing, and a cancel before the simulation ever started
/// leaves the lifecycle as new.
pub proof fn lemma_teardown_idempotent<P>(v: (SceneState, Seq<P>))
    ensures
        after_cancel(after_cancel(v)) == after_cancel(v),
        action_for(after_cancel(v).0, SceneEvent::Cancel) == SceneAction::Stay,
        after_cancel((SceneState::MenuActive, Seq::<P>::empty())) == (
            SceneState::MenuActive,
            Seq::<P>::empty(),
        ),
{
}

} // verus!
