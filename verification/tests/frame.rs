use game_of_life::frame::prepare_frame;
use game_of_life::render::{render, ScreenImage, IMAGE_WORDS};
use game_of_life::touch::TouchSample;
use game_of_life::universe::Universe;
use game_of_life::{GRID_HEIGHT, GRID_WIDTH};

fn live_cells(universe: &Universe) -> Vec<(usize, usize)> {
    let mut alive = Vec::new();
    for y in 0..GRID_HEIGHT {
        for x in 0..GRID_WIDTH {
            if universe.get(x, y) {
                alive.push((x, y));
            }
        }
    }
    alive
}

#[test]
fn frame_without_touch_shows_the_universe_as_it_is() {
    let mut universe = Universe::new();
    universe.seed_glider();
    let before = live_cells(&universe);
    let mut image: ScreenImage = [0xffff_ffff; IMAGE_WORDS];
    prepare_frame(&mut universe, None, &mut image);
    assert_eq!(live_cells(&universe), before);
    assert_eq!(image, render(&universe));
}

#[test]
fn frame_with_touch_shows_the_touched_cells() {
    let mut universe = Universe::new();
    let mut image: ScreenImage = [0; IMAGE_WORDS];
    prepare_frame(&mut universe, Some(TouchSample { x: 100, y: 50, z: -300 }), &mut image);
    assert_eq!(live_cells(&universe), vec![(12, 6)]);
    assert_eq!(image, render(&universe));
    assert_ne!(image[6 * 8 * 160 + 12 * 4], 0);
}

#[test]
fn frame_with_touch_off_the_display_changes_nothing() {
    let mut universe = Universe::new();
    let mut image: ScreenImage = [7; IMAGE_WORDS];
    prepare_frame(&mut universe, Some(TouchSample { x: -500, y: 900, z: 10 }), &mut image);
    assert!(live_cells(&universe).is_empty());
    assert!(image.iter().all(|&word| word == 0));
}

#[test]
fn four_passes_move_the_glider() {
    let mut universe = Universe::new();
    universe.seed_glider();
    let start = live_cells(&universe);
    let mut image: ScreenImage = [0; IMAGE_WORDS];
    let mut shown = Vec::new();
    for _ in 0..4 {
        prepare_frame(&mut universe, None, &mut image);
        shown.push(image);
        universe.iterate();
    }
    let moved: Vec<(usize, usize)> = start.iter().map(|&(x, y)| (x + 1, y + 1)).collect();
    assert_eq!(live_cells(&universe), moved);
    // the first frame shows the seed, before any step
    let mut seed = Universe::new();
    seed.seed_glider();
    assert_eq!(shown[0], render(&seed));
    assert_ne!(shown[1], shown[0]);
}

#[test]
fn touch_takes_part_in_the_next_step() {
    // a touch of radius 0 on each of three cells in a row makes a blinker
    let mut universe = Universe::new();
    let mut image: ScreenImage = [0; IMAGE_WORDS];
    for x in [9, 10, 11] {
        prepare_frame(&mut universe, Some(TouchSample { x: x * 8, y: 80, z: -300 }), &mut image);
    }
    assert_eq!(live_cells(&universe), vec![(9, 10), (10, 10), (11, 10)]);
    universe.iterate();
    assert_eq!(live_cells(&universe), vec![(10, 9), (10, 10), (10, 11)]);
}
