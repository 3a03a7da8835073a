use alvin::emulator::System;
use alvin::runner::{InputAction, Runner, DEFAULT_TICK_MS};
use alvin::sound::Sound;

#[test]
fn sound_play_is_idempotent_and_stop_silences() {
    let mut s = Sound::new();
    assert!(!s.is_playing());
    s.play();
    s.play();
    assert!(s.is_playing());
    s.stop();
    assert!(!s.is_playing());
    // Stopping a stopped gate is a no-op.
    s.stop();
    assert!(!s.is_playing());
}

#[test]
fn runner_starts_running_at_default_pace() {
    let r = Runner::new(false);
    assert!(r.running);
    assert!(!r.paused);
    assert_eq!(r.tick_ms, DEFAULT_TICK_MS);
    assert!(!r.dump_state);
}

#[test]
fn quit_stops_the_loop() {
    let mut sys = System::new(&[]);
    let mut r = Runner::new(false);
    r.handle_action(&mut sys, Some(InputAction::Quit));
    assert!(!r.running);
}

#[test]
fn pause_toggles() {
    let mut sys = System::new(&[]);
    let mut r = Runner::new(false);
    r.handle_action(&mut sys, Some(InputAction::Pause));
    assert!(r.paused);
    r.handle_action(&mut sys, Some(InputAction::Pause));
    assert!(!r.paused);
}

#[test]
fn tick_rate_steps_by_four_with_a_floor() {
    let mut sys = System::new(&[]);
    let mut r = Runner::new(false);
    r.handle_action(&mut sys, Some(InputAction::DecreaseTick));
    assert_eq!(r.tick_ms, 12);
    r.handle_action(&mut sys, Some(InputAction::DecreaseTick));
    assert_eq!(r.tick_ms, 8);
    r.handle_action(&mut sys, Some(InputAction::DecreaseTick));
    assert_eq!(r.tick_ms, 4);
    r.handle_action(&mut sys, Some(InputAction::DecreaseTick));
    assert_eq!(r.tick_ms, 4);
    r.handle_action(&mut sys, Some(InputAction::IncreaseTick));
    assert_eq!(r.tick_ms, 8);
}

#[test]
fn reset_action_reinitialises_the_machine() {
    let mut sys = System::new(&[0x60, 0x55]);
    sys.step(None).unwrap();
    assert_eq!(sys.get_register(0), 0x55);
    let mut r = Runner::new(false);
    r.handle_action(&mut sys, Some(InputAction::Reset));
    assert_eq!(sys.get_register(0), 0);
    assert_eq!(sys.program_counter(), 0x200);
    assert_eq!(sys.get_memory(0x200), 0x60);
    assert!(r.running);
}

#[test]
fn debug_pulse_only_when_not_dumping() {
    let mut sys = System::new(&[]);
    let mut r = Runner::new(false);
    assert!(r.handle_action(&mut sys, Some(InputAction::DebugInfo)));
    let mut rd = Runner::new(true);
    assert!(!rd.handle_action(&mut sys, Some(InputAction::DebugInfo)));
    assert!(!r.handle_action(&mut sys, None));
}
