use phi::animation::{AnimatedSprite, AnimationError};
use phi::geometry::{travel, Rectangle};
use phi::sprite::Sprite;

fn rect(x: i32, y: i32, w: u32, h: u32) -> Rectangle {
    Rectangle { x, y, w, h }
}

#[test]
fn move_inside_keeps_a_rectangle_that_is_inside() {
    let bound = rect(0, 0, 560, 600);
    assert_eq!(rect(10, 20, 43, 39).move_inside(bound), Some(rect(10, 20, 43, 39)));
}

#[test]
fn move_inside_pushes_back_from_each_side() {
    let bound = rect(0, 0, 560, 600);
    assert_eq!(rect(-5, -7, 43, 39).move_inside(bound), Some(rect(0, 0, 43, 39)));
    assert_eq!(rect(540, 590, 43, 39).move_inside(bound), Some(rect(517, 561, 43, 39)));
    let moved = rect(i32::MAX, i32::MIN, 43, 39).move_inside(bound).unwrap();
    assert!(bound.contains(&moved));
}

#[test]
fn move_inside_fails_when_too_large() {
    let bound = rect(0, 0, 40, 600);
    assert_eq!(rect(0, 0, 43, 39).move_inside(bound), None);
    assert_eq!(rect(0, 0, 10, 601).move_inside(bound), None);
    assert_eq!(rect(0, 0, 40, 600).move_inside(bound), Some(rect(0, 0, 40, 600)));
}

#[test]
fn contains_and_overlaps() {
    let a = rect(0, 0, 100, 100);
    assert!(a.contains(&rect(0, 0, 100, 100)));
    assert!(a.contains(&rect(10, 10, 5, 5)));
    assert!(!a.contains(&rect(90, 10, 11, 5)));
    assert!(a.overlaps(&rect(99, 99, 5, 5)));
    assert!(!a.overlaps(&rect(100, 0, 5, 5)));
}

#[test]
fn travel_keeps_the_fraction() {
    assert_eq!(travel(0, 240, 16), (3, 840));
    assert_eq!(travel(840, 240, 16), (4, 680));
    assert_eq!(travel(999, 1, 1), (1, 0));
}

#[test]
fn region_inside_the_sprite() {
    let sheet = Sprite::new(3, 100, 50);
    let r = sheet.region(rect(10, 5, 20, 30)).unwrap();
    assert_eq!(r.size(), (20, 30));
    assert_eq!(r.image(), 3);
    let rr = r.region(rect(1, 2, 19, 28)).unwrap();
    assert_eq!(rr.src(), rect(11, 7, 19, 28));
    assert_eq!(sheet.region(rect(0, 0, 100, 50)).unwrap().size(), (100, 50));
}

#[test]
fn region_outside_the_sprite() {
    let sheet = Sprite::new(0, 100, 50);
    assert_eq!(sheet.region(rect(-1, 0, 10, 10)), None);
    assert_eq!(sheet.region(rect(91, 0, 10, 10)), None);
    assert_eq!(sheet.region(rect(0, 41, 10, 10)), None);
    let part = sheet.region(rect(50, 0, 50, 50)).unwrap();
    assert_eq!(part.region(rect(1, 0, 50, 50)), None);
}

#[test]
fn grid_cuts_cells_in_reading_order() {
    let sheet = Sprite::new(0, 129, 117);
    let cells = sheet.grid(3, 43, 39, 9).unwrap();
    assert_eq!(cells.len(), 9);
    assert_eq!(cells[0].src(), rect(0, 0, 43, 39));
    assert_eq!(cells[4].src(), rect(43, 39, 43, 39));
    assert_eq!(cells[8].src(), rect(86, 78, 43, 39));
    assert_eq!(Sprite::new(0, 128, 117).grid(3, 43, 39, 9), None);
    assert_eq!(sheet.grid(3, 43, 39, 10), None);
}

fn four_frames() -> Vec<Sprite> {
    (0..4).map(|i| Sprite::new(i, 8, 8)).collect()
}

#[test]
fn frame_selection_at_ten_fps() {
    let mut a = AnimatedSprite::with_fps(four_frames(), 10).unwrap();
    a.add_time(50);
    assert_eq!(a.current_index(), 0);
    a.add_time(100);
    assert_eq!(a.current_index(), 1);
    assert_eq!(a.current_frame().image(), 1);
    a.add_time(300);
    assert_eq!(a.current_index(), 0);
    a.add_time(250);
    assert_eq!(a.current_index(), 3);
}

#[test]
fn frozen_animation_stays_on_first_frame() {
    let mut a = AnimatedSprite::with_fps(four_frames(), 0).unwrap();
    a.add_time(12345);
    assert_eq!(a.current_index(), 0);
    a.set_fps(-3);
    assert_eq!(a.current_index(), 0);
    a.set_fps(1);
    assert_eq!(a.current_index(), 0);
    a.add_time(1000);
    assert_eq!(a.current_index(), 1);
    assert_eq!(a.fps(), 1);
    assert_eq!(a.len(), 4);
}

#[test]
fn animation_needs_a_frame() {
    assert_eq!(AnimatedSprite::with_fps(Vec::new(), 10).err(), Some(AnimationError::InvalidAnimation));
}

#[test]
fn elapsed_time_saturates() {
    let mut a = AnimatedSprite::with_fps(four_frames(), 1000).unwrap();
    for _ in 0..5 {
        a.add_time(u32::MAX);
    }
    let i = a.current_index();
    assert!(i < 4);
}
