use phi::engine::{FrameClock, FrameEnd, GameLoop, Pace, ViewAction, FRAME_INTERVAL_MS};
use phi::events::{key_code, key_for_code, Events, InputEvent, Key};
use phi::fonts::{FontCache, FontLookup};

#[test]
fn key_table_round_trips() {
    for k in [Key::Escape, Key::Up, Key::Down, Key::Left, Key::Right, Key::Space] {
        assert_eq!(key_for_code(key_code(k)), Some(k));
    }
    assert_eq!(key_code(Key::Escape), 27);
    assert_eq!(key_code(Key::Space), 32);
    assert_eq!(key_code(Key::Up), 0x4000_0052);
    assert_eq!(key_for_code(97), None);
}

fn down(k: Key) -> InputEvent {
    InputEvent::KeyDown(key_code(k))
}

fn up(k: Key) -> InputEvent {
    InputEvent::KeyUp(key_code(k))
}

#[test]
fn pump_records_presses_and_held_keys() {
    let mut e = Events::new();
    e.pump(&vec![down(Key::Up), InputEvent::Other, down(Key::Space)]);
    assert!(e.pressed(Key::Up) && e.is_held(Key::Up));
    assert!(e.pressed(Key::Space));
    assert!(!e.pressed(Key::Down) && !e.is_held(Key::Down));
    assert!(!e.quit());
    e.pump(&vec![]);
    assert!(!e.pressed(Key::Up));
    assert!(e.is_held(Key::Up));
}

#[test]
fn a_repeat_is_no_new_press() {
    let mut e = Events::new();
    e.pump(&vec![down(Key::Left)]);
    e.pump(&vec![down(Key::Left)]);
    assert!(!e.pressed(Key::Left));
    assert!(e.is_held(Key::Left));
    e.pump(&vec![up(Key::Left)]);
    assert!(e.released(Key::Left));
    assert!(!e.is_held(Key::Left));
    e.pump(&vec![down(Key::Left)]);
    assert!(e.pressed(Key::Left));
}

#[test]
fn quit_lasts_one_frame_and_untracked_keys_are_ignored() {
    let mut e = Events::new();
    e.pump(&vec![InputEvent::KeyDown(97), InputEvent::Quit]);
    assert!(e.quit());
    for k in [Key::Escape, Key::Up, Key::Down, Key::Left, Key::Right, Key::Space] {
        assert!(!e.is_held(k));
    }
    e.pump(&vec![]);
    assert!(!e.quit());
}

#[test]
fn frames_are_paced() {
    assert_eq!(FRAME_INTERVAL_MS, 16);
    let mut c = FrameClock::new(0);
    assert_eq!(c.tick(10), Pace::Wait(6));
    assert_eq!(c.tick(16), Pace::Run(16));
    assert_eq!(c.tick(16), Pace::Wait(16));
    assert_eq!(c.tick(20), Pace::Wait(12));
    assert_eq!(c.tick(40), Pace::Run(24));
    assert_eq!(c.tick(30), Pace::Wait(16));
    assert_eq!(c.tick(56), Pace::Run(16));
}

#[test]
fn view_swap_skips_the_present() {
    let mut l = GameLoop::new("menu", 100);
    assert_eq!(l.tick(116), Pace::Run(16));
    assert_eq!(l.finish_frame(ViewAction::Continue), FrameEnd::Present);
    assert_eq!(l.view, "menu");
    assert_eq!(l.finish_frame(ViewAction::ChangeView("game")), FrameEnd::Swapped);
    assert_eq!(l.view, "game");
    assert!(l.running);
    assert_eq!(l.finish_frame(ViewAction::Quit), FrameEnd::Stop);
    assert!(!l.running);
    assert_eq!(l.view, "game");
}

#[test]
fn fonts_are_loaded_once_per_path_and_size() {
    let mut c = FontCache::new();
    assert_eq!(c.find("assets/belligerent.ttf", 32), FontLookup::Missing);
    assert_eq!(c.insert("assets/belligerent.ttf", 32), 0);
    assert_eq!(c.find("assets/belligerent.ttf", 32), FontLookup::Loaded(0));
    assert_eq!(c.find("assets/belligerent.ttf", 42), FontLookup::Missing);
    assert_eq!(c.insert("assets/belligerent.ttf", 42), 1);
    assert_eq!(c.insert("assets/belligerent.ttf", 32), 0);
    assert_eq!(c.find("assets/other.ttf", 32), FontLookup::Missing);
    assert_eq!(c.len(), 2);
}
