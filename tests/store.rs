use particle_field::input::{ButtonState, CursorCommand, ForceMode};
use particle_field::store::ParticleStore;

fn no_buttons() -> ButtonState {
    ButtonState { left_held: false, right_just_pressed: false, middle_held: false }
}

#[test]
fn clear_twice_leaves_store_empty() {
    let mut s = ParticleStore::new();
    s.populate(vec![1, 2, 3]);
    assert_eq!(s.len(), 3);
    s.clear();
    assert!(s.is_empty());
    s.clear();
    assert!(s.is_empty());
    assert_eq!(s.len(), 0);
}

#[test]
fn clear_without_populate_is_harmless() {
    let mut s: ParticleStore<u8> = ParticleStore::new();
    s.clear();
    assert!(s.is_empty());
    assert_eq!(s.particles(), &[] as &[u8]);
}

#[test]
fn populate_keeps_order_and_slots() {
    let mut s = ParticleStore::new();
    s.populate(vec![7, 8, 9]);
    assert_eq!(s.particles(), &[7, 8, 9]);
    assert_eq!(s.get(0), Some(&7));
    assert_eq!(s.get(2), Some(&9));
    assert_eq!(s.get(3), None);
    s.populate(vec![4]);
    assert_eq!(s.particles(), &[4]);
}

#[test]
fn advance_updates_each_particle_with_one_command() {
    let mut s = ParticleStore::new();
    s.populate(vec![(0i32, ForceMode::Idle), (10, ForceMode::Idle), (20, ForceMode::Idle)]);
    let buttons = ButtonState { left_held: true, right_just_pressed: true, middle_held: false };
    s.advance(buttons, Some(5i32), |c: &CursorCommand<i32>, p: &(i32, ForceMode)| {
        let pull = match c.target() {
            Some(t) => *t,
            None => 0,
        };
        (p.0 + 1 + pull, c.mode())
    });
    assert_eq!(
        s.particles(),
        &[(6, ForceMode::Attract), (16, ForceMode::Attract), (26, ForceMode::Attract)]
    );
}

#[test]
fn advance_without_cursor_passes_idle_command() {
    let mut s = ParticleStore::new();
    s.populate(vec![1i32, 2]);
    s.advance(no_buttons(), None::<i32>, |c: &CursorCommand<i32>, p: &i32| {
        if c.mode() == ForceMode::Idle {
            *p * 10
        } else {
            -1
        }
    });
    assert_eq!(s.particles(), &[10, 20]);
}

#[test]
fn advance_on_empty_store_does_nothing() {
    let mut s: ParticleStore<i32> = ParticleStore::new();
    s.advance(no_buttons(), Some(1i32), |_c: &CursorCommand<i32>, p: &i32| *p + 1);
    assert!(s.is_empty());
}
