use particle_field::input::{ButtonState, CursorCommand};
use particle_field::scene::{transition, SceneAction, SceneEvent, SceneLifecycle, SceneState};

#[test]
fn lifecycle_starts_in_menu_without_particles() {
    let l: SceneLifecycle<i32> = SceneLifecycle::new();
    assert_eq!(l.state(), SceneState::MenuActive);
    assert!(l.store().is_empty());
}

#[test]
fn play_populates_and_cancel_tears_down() {
    let mut l = SceneLifecycle::new();
    assert_eq!(l.play(vec![1, 2, 3]), SceneAction::StartSimulation);
    assert_eq!(l.state(), SceneState::SimulationActive);
    assert_eq!(l.store().particles(), &[1, 2, 3]);
    assert_eq!(l.play(vec![9]), SceneAction::Stay);
    assert_eq!(l.store().particles(), &[1, 2, 3]);
    assert_eq!(l.cancel(), SceneAction::ReturnToMenu);
    assert_eq!(l.state(), SceneState::MenuActive);
    assert!(l.store().is_empty());
}

#[test]
fn cancel_twice_is_idempotent() {
    let mut l = SceneLifecycle::new();
    l.play(vec![1, 2]);
    assert_eq!(l.cancel(), SceneAction::ReturnToMenu);
    assert_eq!(l.cancel(), SceneAction::Stay);
    assert_eq!(l.state(), SceneState::MenuActive);
    assert!(l.store().is_empty());
}

#[test]
fn cancel_before_play_is_harmless() {
    let mut l: SceneLifecycle<i32> = SceneLifecycle::new();
    assert_eq!(l.cancel(), SceneAction::Stay);
    assert_eq!(l.state(), SceneState::MenuActive);
    assert!(l.store().is_empty());
}

#[test]
fn quit_exits_only_from_menu() {
    let mut l = SceneLifecycle::new();
    assert_eq!(l.quit(), SceneAction::Exit);
    l.play(vec![1]);
    assert_eq!(l.quit(), SceneAction::Stay);
    assert_eq!(l.state(), SceneState::SimulationActive);
}

#[test]
fn play_with_empty_viewport_still_starts() {
    let mut l: SceneLifecycle<i32> = SceneLifecycle::new();
    assert_eq!(l.play(vec![]), SceneAction::StartSimulation);
    assert_eq!(l.state(), SceneState::SimulationActive);
    assert!(l.store().is_empty());
}

#[test]
fn transition_table() {
    let (m, sim) = (SceneState::MenuActive, SceneState::SimulationActive);
    let (play, cancel, quit) = (SceneEvent::Play, SceneEvent::Cancel, SceneEvent::Quit);
    assert_eq!(transition(m, play), (sim, SceneAction::StartSimulation));
    assert_eq!(transition(m, cancel), (m, SceneAction::Stay));
    assert_eq!(transition(m, quit), (m, SceneAction::Exit));
    assert_eq!(transition(sim, play), (sim, SceneAction::Stay));
    assert_eq!(transition(sim, cancel), (m, SceneAction::ReturnToMenu));
    assert_eq!(transition(sim, quit), (sim, SceneAction::Stay));
}

#[test]
fn lifecycle_advance_steps_particles() {
    let mut l = SceneLifecycle::new();
    l.play(vec![1i32, 2]);
    let buttons = ButtonState { left_held: false, right_just_pressed: false, middle_held: true };
    l.advance(buttons, Some(100i32), |c: &CursorCommand<i32>, p: &i32| match c {
        CursorCommand::Orbit(t) => *p + *t,
        _ => 0,
    });
    assert_eq!(l.store().particles(), &[101, 102]);
    assert_eq!(l.state(), SceneState::SimulationActive);
}
