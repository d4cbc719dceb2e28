use phi::asteroid::{Asteroid, ASTEROIDS_TOTAL, ASTEROID_SIDE};
use phi::bullets::{spawn_bullets, update_bullets, RectBullet};
use phi::events::{key_code, Events, InputEvent, Key};
use phi::geometry::Rectangle;
use phi::ship::{axis, frame_for, frame_slot, movable_region, Ship, ShipFrame, Steering};
use phi::sprite::Sprite;
use phi::views::{menu_effects, GameStep, MainMenuView, MenuEffect, MenuEntry, MenuStep, ShipView};

fn rect(x: i32, y: i32, w: u32, h: u32) -> Rectangle {
    Rectangle { x, y, w, h }
}

#[test]
fn bullet_at_the_right_edge_is_dropped() {
    let b = RectBullet::new(799, 10);
    assert_eq!(b.update(800, 16), None);
}

#[test]
fn bullet_past_the_edge_by_a_fraction_is_dropped() {
    assert_eq!(RectBullet::new(799, 10).update(800, 5), None);
    let b = RectBullet::new(799, 10).update(800, 4).unwrap();
    assert_eq!(b.rect(), rect(799, 10, 8, 4));
    assert_eq!(b.carry, 960);
    assert_eq!(b.update(800, 1), None);
    let at_edge = RectBullet::new(799, 10).update(800, 1000 / 240 + 1);
    assert_eq!(at_edge, None);
}

#[test]
fn bullet_at_the_left_edge_is_kept() {
    let b = RectBullet::new(0, 10).update(800, 16).unwrap();
    assert_eq!(b.rect(), rect(3, 10, 8, 4));
    let b = b.update(800, 16).unwrap();
    assert_eq!(b.rect(), rect(7, 10, 8, 4));
    assert_eq!(RectBullet::new(800, 0).update(800, 0).unwrap().rect().x, 800);
}

#[test]
fn spawned_bullets_and_their_update() {
    let v = spawn_bullets(94, 70, 93);
    assert_eq!(v.len(), 2);
    assert_eq!(v[0].rect(), rect(94, 70, 8, 4));
    assert_eq!(v[1].rect(), rect(94, 93, 8, 4));
    let mut all = v.clone();
    all.push(RectBullet::new(798, 5));
    let kept = update_bullets(&all, 800, 1000);
    assert_eq!(kept.len(), 2);
    assert_eq!(kept[0].rect(), rect(334, 70, 8, 4));
    assert_eq!(kept[1].rect(), rect(334, 93, 8, 4));
}

fn asteroid_sheet() -> Sprite {
    Sprite::new(7, 21 * 96, 7 * 96)
}

#[test]
fn asteroid_sheet_is_cut_into_its_frames() {
    assert!(Asteroid::sheet_fits(&asteroid_sheet()));
    let frames = Asteroid::frames(&asteroid_sheet());
    assert_eq!(frames.len() as u32, ASTEROIDS_TOTAL);
    assert_eq!(frames.len(), 143);
    assert_eq!(frames[0].src(), rect(0, 0, 96, 96));
    assert_eq!(frames[22].src(), rect(96, 96, 96, 96));
    assert_eq!(frames[142].src(), rect(16 * 96, 6 * 96, 96, 96));
    assert!(frames.iter().all(|f| f.image() == 7 && f.size() == (96, 96)));
    assert!(!Asteroid::sheet_fits(&Sprite::new(7, 21 * 96, 7 * 96 - 1)));
    assert!(!Asteroid::sheet_fits(&Sprite::new(7, 21 * 96 - 1, 7 * 96)));
    assert!(Asteroid::sheet_fits(&Sprite::new(7, 21 * 96 - 1, 7 * 96 + 1)) == false);
}

fn assert_reset(a: &Asteroid, w: i32, h: i32) {
    let r = a.rect();
    assert_eq!(r.x, w);
    assert!(r.y >= 0 && r.y < h - ASTEROID_SIDE as i32);
    assert_eq!((r.w, r.h), (96, 96));
    assert!(a.velocity() >= 50 && a.velocity() < 150);
    assert!(a.animation().fps() >= 10 && a.animation().fps() < 30);
}

#[test]
fn asteroid_reset_from_draws() {
    let frames = Asteroid::frames(&asteroid_sheet());
    let mut a = Asteroid::new(frames, 800, 600).unwrap();
    assert_reset(&a, 800, 600);
    assert_eq!(a.animation().current_index(), 0);
    a.reset_with(800, 600, 1000, 123, 45);
    assert_eq!(a.rect(), rect(800, 496, 96, 96));
    assert_eq!(a.velocity(), 73);
    assert_eq!(a.animation().fps(), 15);
    a.update(800, 600, 1000);
    assert_eq!(a.rect(), rect(727, 496, 96, 96));
    a.reset_with(800, 50, 1000, 0, 0);
    assert_eq!(a.rect().y, 0);
    assert_eq!(a.velocity(), 50);
}

#[test]
fn asteroid_recycles_past_the_left_edge() {
    let frames = Asteroid::frames(&asteroid_sheet());
    let mut a = Asteroid::new(frames, 800, 600).unwrap();
    a.reset_with(800, 600, 0, 100, 0);
    a.update(800, 600, 17_760);
    assert_eq!(a.rect().x, -(ASTEROID_SIDE as i32) + 8);
    a.update(800, 600, 160);
    assert_reset(&a, 800, 600);
    a.reset_with(800, 600, 0, 0, 0);
    assert_eq!(a.animation().current_index(), (17_920 * 10 / 1000) % 143);
    for _ in 0..20 {
        a.reset(1024, 768);
        assert_reset(&a, 1024, 768);
    }
}

#[test]
fn asteroid_needs_frames() {
    assert!(Asteroid::new(Vec::new(), 800, 600).is_err());
}

#[test]
fn ship_frames_follow_direction() {
    assert_eq!(frame_for(0, 0), ShipFrame::MidNorm);
    assert_eq!(frame_for(1, -1), ShipFrame::UpFast);
    assert_eq!(frame_for(-1, 1), ShipFrame::DownSlow);
    assert_eq!(frame_for(0, 1), ShipFrame::DownNorm);
    assert_eq!(frame_slot(ShipFrame::MidSlow), 5);
    assert_eq!(axis(true, true), 0);
    assert_eq!(axis(true, false), -1);
    assert_eq!(axis(false, true), 1);
}

fn ship() -> Ship {
    Ship::new(&Sprite::new(1, 129, 117))
}

fn keys(up: bool, down: bool, left: bool, right: bool) -> Steering {
    Steering { up, down, left, right }
}

#[test]
fn ship_moves_and_is_kept_in_its_region() {
    assert_eq!(movable_region(800, 600), rect(0, 0, 560, 600));
    let region = movable_region(800, 600);
    let mut s = ship();
    assert_eq!(s.rect(), rect(64, 64, 43, 39));
    assert_eq!(s.current(), ShipFrame::MidNorm);
    s.steer(keys(false, false, false, true), 1000, region);
    assert_eq!(s.rect(), rect(244, 64, 43, 39));
    assert_eq!(s.current(), ShipFrame::MidFast);
    s.steer(keys(true, false, false, true), 1000, region);
    assert_eq!(s.rect(), rect(371, 0, 43, 39));
    assert_eq!(s.current(), ShipFrame::UpFast);
    s.steer(keys(false, false, true, false), 10_000, region);
    assert_eq!(s.rect(), rect(0, 0, 43, 39));
    assert_eq!(s.current(), ShipFrame::MidSlow);
    assert_eq!(s.sprite().src(), rect(86, 39, 43, 39));
    s.steer(keys(true, true, true, true), 1000, region);
    assert_eq!(s.current(), ShipFrame::MidNorm);
    assert_eq!(s.rect(), rect(0, 0, 43, 39));
}

#[test]
fn ship_holding_a_key_without_time_passing_shows_no_movement() {
    let mut s = ship();
    s.steer(keys(false, false, false, true), 0, movable_region(800, 600));
    assert_eq!(s.rect(), rect(64, 64, 43, 39));
    assert_eq!(s.current(), ShipFrame::MidNorm);
    s.steer(keys(false, false, false, true), 1, movable_region(800, 600));
    assert_eq!(s.rect(), rect(64, 64, 43, 39));
    assert_eq!(s.current(), ShipFrame::MidFast);
}

#[test]
fn ship_sheet_cells() {
    let sheet = Sprite::new(1, 129, 117);
    assert!(Ship::sheet_fits(&sheet));
    assert!(!Ship::sheet_fits(&Sprite::new(1, 128, 117)));
    assert!(!Ship::sheet_fits(&Sprite::new(1, 129, 116)));
    let mut s = ship();
    s.steer(keys(true, false, false, false), 16, movable_region(800, 600));
    assert_eq!(s.current(), ShipFrame::UpNorm);
    assert_eq!(s.sprite(), sheet.region(rect(0, 0, 43, 39)).unwrap());
    s.steer(keys(false, true, true, false), 16, movable_region(800, 600));
    assert_eq!(s.current(), ShipFrame::DownSlow);
    assert_eq!(s.sprite(), sheet.region(rect(86, 78, 43, 39)).unwrap());
}

#[test]
fn ship_fires_from_its_cannons() {
    let v = ship().spawn_bullets();
    assert_eq!(v[0].rect(), rect(94, 70, 8, 4));
    assert_eq!(v[1].rect(), rect(94, 93, 8, 4));
}

fn frame(events: &mut Events, evs: Vec<InputEvent>) {
    events.pump(&evs);
}

fn tap(events: &mut Events, k: Key) {
    frame(events, vec![InputEvent::KeyDown(key_code(k))]);
}

fn release(events: &mut Events, k: Key) {
    frame(events, vec![InputEvent::KeyUp(key_code(k))]);
}

#[test]
fn game_view_frames() {
    let mut v = ShipView::with_backgrounds(&Sprite::new(1, 129, 117), &asteroid_sheet(), 800, 600, ());
    assert!(v.bullets.is_empty());
    let mut e = Events::new();
    tap(&mut e, Key::Space);
    assert_eq!(v.update(&e, 16, 800, 600), GameStep::Continue);
    assert_eq!(v.bullets.len(), 2);
    assert_eq!(v.bullets[0].rect(), rect(94, 70, 8, 4));
    frame(&mut e, vec![]);
    assert_eq!(v.update(&e, 16, 800, 600), GameStep::Continue);
    assert_eq!(v.bullets.len(), 2);
    assert_eq!(v.bullets[0].rect(), rect(97, 70, 8, 4));
    tap(&mut e, Key::Escape);
    assert_eq!(v.update(&e, 16, 800, 600), GameStep::Quit);
    assert_eq!(v.bullets[0].rect(), rect(97, 70, 8, 4));
    assert_eq!(v.player.current(), ShipFrame::MidNorm);
    assert_eq!(v.asteroid.animation().len(), 143);
}

fn menu() -> MainMenuView<()> {
    let entries: Vec<MenuEntry> = menu_effects()
        .into_iter()
        .map(|effect| MenuEntry { effect, idle: Sprite::new(0, 10, 10), hover: Sprite::new(1, 12, 12) })
        .collect();
    MainMenuView::with_backgrounds(entries, ()).unwrap()
}

#[test]
fn menu_cursor_wraps_around() {
    let mut m = menu();
    let mut e = Events::new();
    assert_eq!(m.selected, 0);
    tap(&mut e, Key::Up);
    assert_eq!(m.update(&e), MenuStep::Stay);
    assert_eq!(m.selected, 1);
    release(&mut e, Key::Up);
    tap(&mut e, Key::Down);
    assert_eq!(m.update(&e), MenuStep::Stay);
    assert_eq!(m.selected, 0);
    release(&mut e, Key::Down);
    tap(&mut e, Key::Down);
    m.update(&e);
    assert_eq!(m.selected, 1);
    frame(&mut e, vec![]);
    m.update(&e);
    assert_eq!(m.selected, 1);
}

#[test]
fn menu_choices() {
    let mut m = menu();
    let mut e = Events::new();
    tap(&mut e, Key::Space);
    assert_eq!(m.update(&e), MenuStep::Choose(MenuEffect::NewGame));
    frame(&mut e, vec![InputEvent::Quit]);
    assert_eq!(m.update(&e), MenuStep::Quit);
    assert_eq!(MenuEffect::NewGame.label(), "New Game");
    assert_eq!(MenuEffect::Quit.label(), "Quit");
    assert!(MainMenuView::with_backgrounds(Vec::new(), ()).is_none());
}
