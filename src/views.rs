//! The two screens: the main menu, and the game with the player's ship, its
//! bullets and an asteroid. Each frame a screen takes the input snapshot and
//! the time passed and says what happens next; drawing it is the renderer's
//! part. Both carry the renderer's scrolling backgrounds as `bg`.

use vstd::prelude::*;
use crate::asteroid::{asteroid_sheet_fits, cut_from_sheet, drifted, Asteroid};
use crate::bullets::{bullets_after, fresh_bullet, update_bullets, RectBullet};
use crate::events::{slot_of, Events, Key};
use crate::geometry::{fits_spec, lemma_moved_inside_contained, travel_spec, Rectangle};
use crate::ship::{
    axis_spec, frames_from_sheet, movable_region, shifted, ship_at_start, ship_sheet_fits, steered, Ship, Steering,
    DIAGONAL_SPEED, PLAYER_SPEED, SHIP_H,
};
use crate::sprite::{Sprite, COORD_MAX};

verus! {

/// A key went down this frame.
pub open spec fn pressed_spec(e: Events, k: Key) -> bool {
    e.model().now[slot_of(k)] == Some(true)
}

/// A key is held.
pub open spec fn held_spec(e: Events, k: Key) -> bool {
    e.model().held[slot_of(k)]
}

/// The player asked to leave: the window was closed or Escape pressed.
pub open spec fn wants_quit(e: Events) -> bool {
    e.model().quit || pressed_spec(e, Key::Escape)
}

fn quit_requested(events: &Events) -> (r: bool)
    requires
        events.wf(),
    ensures
        r == wants_quit(*events),
{
    events.quit() || events.pressed(Key::Escape)
}

/// What the game screen decided for a frame.
#[derive(Clone, Copy, Debug, PartialEq, Eq, Structural)]
pub enum GameStep {
    /// The player asked to leave; nothing moved.
    Quit,
    /// The world moved on; draw it.
    Continue,
}

/// The game screen.
pub struct ShipView<B> {
    pub player: Ship,
    pub bullets: Vec<RectBullet>,
    pub asteroid: Asteroid,
    pub bg: B,
}

/// The two bullets that a ship fires.
pub open spec fn volley(s: Ship) -> Seq<RectBullet> {
    seq![
        fresh_bullet((s.bounds().x + 30) as i32, (s.bounds().y + 6) as i32),
        fresh_bullet((s.bounds().x + 30) as i32, (s.bounds().y + SHIP_H - 10) as i32),
    ]
}

/// The movable region of the ship, as a spec value.
pub open spec fn region_of(screen_w: u32, screen_h: u32) -> Rectangle {
    Rectangle { x: 0, y: 0, w: (screen_w * 7 / 10) as u32, h: screen_h }
}

impl<B> ShipView<B> {
    pub open spec fn wf(self) -> bool {
        self.player.wf() && self.asteroid.wf()
    }

    /// A game with the ship drawn from `ship_sheet` and the asteroid from
    /// `asteroid_sheet`, on a `screen_w` × `screen_h` screen, with no
    /// bullet. Both sheets must be large enough for their frames.
    pub fn with_backgrounds(
        ship_sheet: &Sprite,
        asteroid_sheet: &Sprite,
        screen_w: i32,
        screen_h: i32,
        bg: B,
    ) -> (r: ShipView<B>)
        requires
            ship_sheet.wf(),
            asteroid_sheet.wf(),
            ship_sheet_fits(*ship_sheet),
            asteroid_sheet_fits(*asteroid_sheet),
        ensures
            r.wf(),
            r.bullets@.len() == 0,
            r.bg == bg,
            ship_at_start(r.player),
            frames_from_sheet(r.player, *ship_sheet),
            cut_from_sheet(r.asteroid.sprite().frames(), *asteroid_sheet),
            r.asteroid.sprite().elapsed() == 0,
            r.asteroid.was_reset(screen_w, screen_h),
    {
        let player = Ship::new(ship_sheet);
        let frames = Asteroid::frames(asteroid_sheet);
        let asteroid = Asteroid::new(frames, screen_w, screen_h).unwrap();
        ShipView { player, bullets: Vec::new(), asteroid, bg }
    }

    /// One frame of the game, `dt_ms` milliseconds after the previous one, on
    /// a `screen_w` × `screen_h` screen: the ship moves as the arrow keys are
    /// held, the bullets fly and leave, the asteroid drifts, and Space fires
    /// a new volley, which is drawn where it spawned.
    pub fn update(&mut self, events: &Events, dt_ms: u32, screen_w: u32, screen_h: u32) -> (r:
        GameStep)
        requires
            old(self).wf(),
            events.wf(),
            screen_w <= COORD_MAX,
            screen_h <= COORD_MAX,
            !wants_quit(*events) ==> fits_spec(
                old(self).player.bounds(),
                region_of(screen_w, screen_h),
            ),
        ensures
            final(self).wf(),
            r == GameStep::Quit <==> wants_quit(*events),
            r == GameStep::Quit ==> *final(self) == *old(self),
            r == GameStep::Continue ==> {
                &&& steered(
                    old(self).player,
                    final(self).player,
                    Steering {
                        up: held_spec(*events, Key::Up),
                        down: held_spec(*events, Key::Down),
                        left: held_spec(*events, Key::Left),
                        right: held_spec(*events, Key::Right),
                    },
                    dt_ms,
                    region_of(screen_w, screen_h),
                )
                &&& drifted(
                    old(self).asteroid,
                    final(self).asteroid,
                    screen_w as i32,
                    screen_h as i32,
                    dt_ms,
                )
                &&& final(self).bullets@ == bullets_after(
                    old(self).bullets@,
                    screen_w as i32,
                    dt_ms,
                ) + if pressed_spec(*events, Key::Space) {
                    volley(final(self).player)
                } else {
                    Seq::empty()
                }
                &&& final(self).bg == old(self).bg
            },
    {
        if quit_requested(events) {
            return GameStep::Quit;
        }
        let keys = Steering {
            up: events.is_held(Key::Up),
            down: events.is_held(Key::Down),
            left: events.is_held(Key::Left),
            right: events.is_held(Key::Right),
        };
        let region = movable_region(screen_w, screen_h);
        self.player.steer(keys, dt_ms, region);
        proof {
            let sx = axis_spec(keys.left, keys.right);
            let sy = axis_spec(keys.up, keys.down);
            let speed = if sx != 0 && sy != 0 {
                DIAGONAL_SPEED
            } else {
                PLAYER_SPEED
            };
            let (px, carry) = if sx == 0 && sy == 0 {
                (0int, 0int)
            } else {
                travel_spec(old(self).player.carry(), speed, dt_ms)
            };
            lemma_moved_inside_contained(shifted(old(self).player.bounds(), sx, sy, px), region);
        }
        let mut bullets = update_bullets(&self.bullets, screen_w as i32, dt_ms);
        self.asteroid.update(screen_w as i32, screen_h as i32, dt_ms);
        if events.pressed(Key::Space) {
            let mut volley = self.player.spawn_bullets();
            bullets.append(&mut volley);
        }
        self.bullets = bullets;
        GameStep::Continue
    }
}

/// What a menu entry does when chosen.
#[derive(Clone, Copy, Debug, PartialEq, Eq, Structural)]
pub enum MenuEffect {
    /// Start a game.
    NewGame,
    /// Leave.
    Quit,
}

impl MenuEffect {
    /// The entry's label.
    pub fn label(&self) -> (r: &'static str)
        ensures
            *self == MenuEffect::NewGame ==> r@ == "New Game"@,
            *self == MenuEffect::Quit ==> r@ == "Quit"@,
    {
        proof {
            reveal_strlit("New Game");
            reveal_strlit("Quit");
        }
        match self {
            MenuEffect::NewGame => "New Game",
            MenuEffect::Quit => "Quit",
        }
    }
}

/// The main menu's entries, top to bottom.
pub fn menu_effects() -> (r: Vec<MenuEffect>)
    ensures
        r@ == seq![MenuEffect::NewGame, MenuEffect::Quit],
{
    let mut v: Vec<MenuEffect> = Vec::new();
    v.push(MenuEffect::NewGame);
    v.push(MenuEffect::Quit);
    assert(v@ =~= seq![MenuEffect::NewGame, MenuEffect::Quit]);
    v
}

/// One entry of a menu, with its label drawn plain and highlighted.
#[derive(Clone, Copy, Debug, PartialEq, Eq)]
pub struct MenuEntry {
    pub effect: MenuEffect,
    pub idle: Sprite,
    pub hover: Sprite,
}

/// What the menu decided for a frame.
#[derive(Clone, Copy, Debug, PartialEq, Eq, Structural)]
pub enum MenuStep {
    /// The player asked to leave.
    Quit,
    /// The player chose the entry with this effect.
    Choose(MenuEffect),
    /// Nothing chosen; draw the menu.
    Stay,
}

/// The cursor one entry up, from the top round to the bottom.
pub open spec fn cursor_up(c: int, n: int) -> int {
    if c == 0 {
        n - 1
    } else {
        c - 1
    }
}

/// The cursor one entry down, from the bottom round to the top.
pub open spec fn cursor_down(c: int, n: int) -> int {
    if c + 1 >= n {
        0
    } else {
        c + 1
    }
}

/// The cursor over `n` entries after a frame in which Up (`up`) and Down
/// (`down`) may have been pressed; Up is taken first.
pub open spec fn cursor_after(c: int, n: int, up: bool, down: bool) -> int {
    let c1 = if up {
        cursor_up(c, n)
    } else {
        c
    };
    if down {
        cursor_down(c1, n)
    } else {
        c1
    }
}

/// Up from the first entry goes to the last, Down from the last to the
/// first, and the cursor always stays on an entry.
pub proof fn lemma_cursor_wraps(n: int)
    requires
        n > 0,
    ensures
        cursor_after(0, n, true, false) == n - 1,
        cursor_after(n - 1, n, false, true) == 0,
        forall|c: int, up: bool, down: bool|
            0 <= c < n ==> 0 <= #[trigger] cursor_after(c, n, up, down) < n,
{
}

/// The main menu.
pub struct MainMenuView<B> {
    pub actions: Vec<MenuEntry>,
    /// Index of the highlighted entry.
    pub selected: usize,
    pub bg: B,
}

impl<B> MainMenuView<B> {
    pub open spec fn wf(self) -> bool {
        self.actions@.len() > 0 && self.selected < self.actions@.len()
    }

    /// A menu over `actions`, top to bottom, with the first one highlighted.
    /// `None` when there is no entry.
    pub fn with_backgrounds(actions: Vec<MenuEntry>, bg: B) -> (r: Option<MainMenuView<B>>)
        ensures
            r is Some <==> actions@.len() > 0,
            r matches Some(m) ==> m.wf() && m.actions@ == actions@ && m.selected == 0 && m.bg
                == bg,
    {
        if actions.len() == 0 {
            return None;
        }
        Some(MainMenuView { actions, selected: 0, bg })
    }

    /// One frame of the menu: leaving, choosing the highlighted entry with
    /// Space, or moving the highlight with Up and Down.
    pub fn update(&mut self, events: &Events) -> (r: MenuStep)
        requires
            old(self).wf(),
            events.wf(),
        ensures
            final(self).wf(),
            final(self).actions@ == old(self).actions@,
            final(self).bg == old(self).bg,
            wants_quit(*events) ==> r == MenuStep::Quit && final(self).selected == old(
                self,
            ).selected,
            !wants_quit(*events) && pressed_spec(*events, Key::Space) ==> r == MenuStep::Choose(
                old(self).actions@[old(self).selected as int].effect,
            ) && final(self).selected == old(self).selected,
            !wants_quit(*events) && !pressed_spec(*events, Key::Space) ==> r == MenuStep::Stay
                && final(self).selected == cursor_after(
                old(self).selected as int,
                old(self).actions@.len() as int,
                pressed_spec(*events, Key::Up),
                pressed_spec(*events, Key::Down),
            ),
    {
        if quit_requested(events) {
            return MenuStep::Quit;
        }
        if events.pressed(Key::Space) {
            return MenuStep::Choose(self.actions[self.selected].effect);
        }
        let n = self.actions.len();
        if events.pressed(Key::Up) {
            self.selected = if self.selected == 0 {
                n - 1
            } else {
                self.selected - 1
            };
        }
        if events.pressed(Key::Down) {
            self.selected = if self.selected + 1 >= n {
                0
            } else {
                self.selected + 1
            };
        }
        MenuStep::Stay
    }
}

} // verus!
