use explorer::my_game::{BouncyBox, Steering, BOX_COLOR_ABGR, BOX_COLOR_ARGB, CUBE_SIZE};

const NO_KEYS: Steering = Steering { up: false, down: false, left: false, right: false };

#[test]
fn new_box_has_two_cleared_areas() {
    let mut b = BouncyBox::new(100, 80);
    assert_eq!(b.window_width, 100);
    assert_eq!(b.window_height, 80);
    assert_eq!(b.buffer.len(), 100 * 80 * 8);
    assert!(b.buffer.iter().all(|w| *w == 0));
    assert_eq!(b.get_buffer_to_print().len(), 8000);
}

#[test]
fn step_draws_box_into_the_other_area() {
    let mut b = BouncyBox::new(100, 80);
    b.game_step(&NO_KEYS, BOX_COLOR_ARGB);
    let area = 100 * 80;
    // drawn into the second area, at the start position
    assert_eq!(b.buffer[area], BOX_COLOR_ARGB);
    assert_eq!(b.buffer[area + 49 + 49 * 100], BOX_COLOR_ARGB);
    assert_eq!(b.buffer[area + 50], 0);
    assert_eq!(b.buffer[area + 50 * 100], 0);
    assert_eq!(b.buffer[0], 0);
    let shown = b.get_buffer_to_print();
    assert_eq!(shown.len(), area);
    assert_eq!(shown.iter().filter(|w| **w == BOX_COLOR_ARGB).count(), 2500);
}

#[test]
fn box_moves_and_alternates_areas() {
    let mut b = BouncyBox::new(100, 80);
    b.game_step(&NO_KEYS, BOX_COLOR_ABGR);
    b.game_step(&NO_KEYS, BOX_COLOR_ABGR);
    // second frame: first area, box moved by (1, 2)
    let shown = b.get_buffer_to_print().to_vec();
    assert_eq!(shown[0], 0);
    assert_eq!(shown[1 + 2 * 100], BOX_COLOR_ABGR);
    assert_eq!(shown[50 + 51 * 100], BOX_COLOR_ABGR);
    assert_eq!(shown[51 + 2 * 100], 0);
}

#[test]
fn box_bounces_inside_the_window() {
    let mut b = BouncyBox::new(60, 56);
    let size = CUBE_SIZE as usize;
    for _ in 0..200 {
        b.game_step(&NO_KEYS, 1);
        let shown = b.get_buffer_to_print();
        assert_eq!(shown.iter().filter(|w| **w == 1).count(), size * size);
    }
}

#[test]
fn steering_keys_change_direction() {
    let mut b = BouncyBox::new(200, 200);
    for _ in 0..10 {
        b.game_step(&NO_KEYS, 1);
    }
    // ten frames drew the box at (0, 0) .. (9, 18); it now stands at (10, 20)
    let left_up = Steering { up: true, down: false, left: true, right: false };
    b.game_step(&left_up, 1);
    assert_eq!(b.get_buffer_to_print()[10 + 20 * 200], 1);
    // the eleventh frame still moved it by (1, 2), then the keys turned it
    b.game_step(&NO_KEYS, 1);
    assert_eq!(b.get_buffer_to_print()[11 + 22 * 200], 1);
    assert_eq!(b.get_buffer_to_print()[10 + 22 * 200], 0);
    b.game_step(&NO_KEYS, 1);
    let shown = b.get_buffer_to_print();
    assert_eq!(shown[10 + 20 * 200], 1);
    assert_eq!(shown[59 + 69 * 200], 1);
    assert_eq!(shown[60 + 20 * 200], 0);
}

#[test]
fn small_window_is_clipped() {
    let mut b = BouncyBox::new(10, 4);
    for _ in 0..5 {
        b.game_step(&NO_KEYS, 1);
        assert!(b.get_buffer_to_print().iter().all(|w| *w == 1));
    }
}
