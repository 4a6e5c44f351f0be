use mandelbrot::controller::{
    zoom, Action, Controller, Event, ZoomMode, ZoomSide, DEFAULT_CAP, SCREEN_HEIGHT, SCREEN_WIDTH,
};
use mandelbrot::selection::{Direction, SelectionRect, ZOOM_VEL};
use mandelbrot::viewport::{Resolution, Viewport};
use mandelbrot::whole::Whole;

fn screen() -> Resolution {
    Resolution { width: SCREEN_WIDTH, height: SCREEN_HEIGHT }
}

fn default_viewport() -> Viewport<f64> {
    Viewport { x_min: -2.0, x_max: 0.47, y_min: -1.12, y_max: 1.12 }
}

fn session() -> Controller<f64> {
    Controller::new(default_viewport(), screen()).unwrap()
}

#[test]
fn constants_have_their_values() {
    assert_eq!(SCREEN_WIDTH, 500);
    assert_eq!(SCREEN_HEIGHT, 500);
    assert_eq!(ZOOM_VEL, 3);
    assert_eq!(DEFAULT_CAP, 10);
}

#[test]
fn session_starts_in_the_initial_state() {
    let state = session();
    assert_eq!(state.viewport, default_viewport());
    assert_eq!(state.resolution, screen());
    assert_eq!(state.selection, SelectionRect { min_x: 0, max_x: 62, min_y: 0, max_y: 62 });
    assert_eq!(state.mode, ZoomMode::X);
    assert_eq!(state.side, ZoomSide::Min);
    assert_eq!(state.cap, 10);
}

#[test]
fn screen_narrower_than_eight_pixels_has_no_session() {
    assert!(Controller::new(default_viewport(), Resolution { width: 7, height: 500 }).is_none());
    assert!(Controller::new(default_viewport(), Resolution { width: 500, height: 7 }).is_none());
    assert!(Controller::new(default_viewport(), Resolution { width: 0, height: 0 }).is_none());
    let smallest = Controller::new(default_viewport(), Resolution { width: 8, height: 8 }).unwrap();
    assert_eq!(smallest.selection, SelectionRect { min_x: 0, max_x: 1, min_y: 0, max_y: 1 });
}

#[test]
fn focus_events_set_the_focus_and_nothing_else() {
    let mut state = session();
    assert_eq!(state.handle(Event::SelectAxis(ZoomMode::Y)), Action::Nothing);
    assert_eq!(state.mode, ZoomMode::Y);
    assert_eq!(state.handle(Event::SelectAxis(ZoomMode::Y)), Action::Nothing);
    assert_eq!(state.mode, ZoomMode::Y);
    assert_eq!(state.handle(Event::SelectSide(ZoomSide::Max)), Action::Nothing);
    assert_eq!(state.side, ZoomSide::Max);
    assert_eq!(state.handle(Event::SelectAxis(ZoomMode::X)), Action::Nothing);
    assert_eq!(state.handle(Event::SelectSide(ZoomSide::Min)), Action::Nothing);
    assert_eq!(state.mode, ZoomMode::X);
    assert_eq!(state.side, ZoomSide::Min);
    assert_eq!(state.selection, SelectionRect { min_x: 0, max_x: 62, min_y: 0, max_y: 62 });
    assert_eq!(state.viewport, default_viewport());
    assert_eq!(state.cap, 10);
}

#[test]
fn steps_move_a_pair_of_bounds_together() {
    let mut state = session();
    assert_eq!(state.handle(Event::Step(Direction::Right)), Action::Nothing);
    assert_eq!(state.selection, SelectionRect { min_x: 3, max_x: 65, min_y: 0, max_y: 62 });
    assert_eq!(state.handle(Event::Step(Direction::Down)), Action::Nothing);
    assert_eq!(state.selection, SelectionRect { min_x: 3, max_x: 65, min_y: 3, max_y: 65 });
    assert_eq!(state.handle(Event::Step(Direction::Left)), Action::Nothing);
    assert_eq!(state.selection, SelectionRect { min_x: 0, max_x: 62, min_y: 3, max_y: 65 });
    assert_eq!(state.handle(Event::Step(Direction::Up)), Action::Nothing);
    assert_eq!(state.selection, SelectionRect { min_x: 0, max_x: 62, min_y: 0, max_y: 62 });
}

#[test]
fn steps_do_not_read_the_focus() {
    let mut state = session();
    state.handle(Event::SelectAxis(ZoomMode::Y));
    state.handle(Event::SelectSide(ZoomSide::Max));
    state.handle(Event::Step(Direction::Right));
    assert_eq!(state.selection, SelectionRect { min_x: 3, max_x: 65, min_y: 0, max_y: 62 });
}

#[test]
fn steps_stop_at_the_edges_of_the_screen() {
    let mut state = session();
    state.handle(Event::Step(Direction::Left));
    state.handle(Event::Step(Direction::Up));
    assert_eq!(state.selection, SelectionRect { min_x: 0, max_x: 62, min_y: 0, max_y: 62 });
    for _ in 0..1000 {
        state.handle(Event::Step(Direction::Right));
        state.handle(Event::Step(Direction::Down));
        assert!(state.selection.max_x <= SCREEN_WIDTH - 1);
        assert!(state.selection.max_y <= SCREEN_HEIGHT - 1);
        assert_eq!(state.selection.max_x - state.selection.min_x, 62);
        assert_eq!(state.selection.max_y - state.selection.min_y, 62);
    }
    assert_eq!(state.selection, SelectionRect { min_x: 435, max_x: 497, min_y: 435, max_y: 497 });
    for _ in 0..1000 {
        state.handle(Event::Step(Direction::Left));
        state.handle(Event::Step(Direction::Up));
        assert!(state.selection.min_x < state.selection.max_x);
        assert!(state.selection.min_y < state.selection.max_y);
    }
    assert_eq!(state.selection, SelectionRect { min_x: 0, max_x: 62, min_y: 0, max_y: 62 });
}

#[test]
fn step_left_below_the_velocity_moves_nothing() {
    let rect = SelectionRect { min_x: 2, max_x: 40, min_y: 1, max_y: 9 };
    assert_eq!(rect.step(Direction::Left, screen()), rect);
    assert_eq!(rect.step(Direction::Up, screen()), rect);
    let at_three = SelectionRect { min_x: 3, max_x: 40, min_y: 3, max_y: 9 };
    assert_eq!(
        at_three.step(Direction::Left, screen()),
        SelectionRect { min_x: 0, max_x: 37, min_y: 3, max_y: 9 }
    );
}

#[test]
fn step_right_stops_short_of_the_last_pixel() {
    let rect = SelectionRect { min_x: 400, max_x: 495, min_y: 0, max_y: 496 };
    assert_eq!(
        rect.step(Direction::Right, screen()),
        SelectionRect { min_x: 403, max_x: 498, min_y: 0, max_y: 496 }
    );
    assert_eq!(rect.step(Direction::Down, screen()), rect);
    let last = SelectionRect { min_x: 400, max_x: 499, min_y: 0, max_y: 499 };
    assert_eq!(last.step(Direction::Right, screen()), last);
    assert_eq!(last.step(Direction::Down, screen()), last);
}

#[test]
fn initial_selection_is_one_eighth_of_each_axis() {
    assert_eq!(
        SelectionRect::initial(Resolution { width: 800, height: 400 }),
        SelectionRect { min_x: 0, max_x: 100, min_y: 0, max_y: 50 }
    );
}

#[test]
fn commit_maps_the_selection_to_the_plane() {
    let mut state = session();
    assert_eq!(state.handle(Event::Commit), Action::Regenerate);
    assert_eq!(state.viewport.x_min, -2.0);
    assert!((state.viewport.x_max - (-2.0 + 62.0 * 2.47 / 500.0)).abs() < 1e-12);
    assert_eq!(state.viewport.y_min, -1.12);
    assert!((state.viewport.y_max - (-1.12 + 62.0 * 2.24 / 500.0)).abs() < 1e-12);
    assert!(state.viewport.x_min < state.viewport.x_max);
    assert!(state.viewport.y_min < state.viewport.y_max);
    assert_eq!(state.selection, SelectionRect { min_x: 0, max_x: 62, min_y: 0, max_y: 62 });
    assert_eq!(state.cap, 10);
}

#[test]
fn commit_on_whole_numbers_is_exact() {
    let viewport =
        Viewport { x_min: Whole(-2000), x_max: Whole(1000), y_min: Whole(-1000), y_max: Whole(1000) };
    let mut state = Controller::new(viewport, screen()).unwrap();
    state.handle(Event::Step(Direction::Right));
    assert_eq!(state.handle(Event::Commit), Action::Regenerate);
    assert_eq!(
        state.viewport,
        Viewport { x_min: Whole(-1982), x_max: Whole(-1610), y_min: Whole(-1000), y_max: Whole(-752) }
    );
}

#[test]
fn repeated_commits_keep_a_wide_viewport_ordered() {
    let viewport = Viewport {
        x_min: Whole(-2_000_000),
        x_max: Whole(1_000_000),
        y_min: Whole(-1_000_000),
        y_max: Whole(1_000_000),
    };
    let mut state = Controller::new(viewport, screen()).unwrap();
    while state.viewport.x_max.0 - state.viewport.x_min.0 >= 500
        && state.viewport.y_max.0 - state.viewport.y_min.0 >= 500
    {
        state.handle(Event::Step(Direction::Right));
        state.handle(Event::Commit);
        assert!(state.viewport.x_min < state.viewport.x_max);
        assert!(state.viewport.y_min < state.viewport.y_max);
    }
}

#[test]
fn narrow_viewport_can_collapse_on_commit() {
    let viewport = Viewport { x_min: Whole(0), x_max: Whole(1), y_min: Whole(0), y_max: Whole(1) };
    let collapsed = zoom(&viewport, screen(), SelectionRect { min_x: 0, max_x: 62, min_y: 0, max_y: 62 });
    assert_eq!(collapsed.x_min, collapsed.x_max);
}

#[test]
fn five_raises_take_the_cap_from_ten_to_fifteen() {
    let mut state = session();
    let mut regenerations = 0;
    for _ in 0..5 {
        if state.handle(Event::IncreaseCap) == Action::Regenerate {
            regenerations += 1;
        }
    }
    assert_eq!(state.cap, 15);
    assert_eq!(regenerations, 5);
    assert_eq!(state.viewport, default_viewport());
}

#[test]
fn cap_never_falls() {
    let events = [
        Event::Step(Direction::Right),
        Event::IncreaseCap,
        Event::Commit,
        Event::SelectAxis(ZoomMode::Y),
        Event::Export,
        Event::IncreaseCap,
        Event::Step(Direction::Down),
        Event::SelectSide(ZoomSide::Max),
        Event::Commit,
    ];
    let mut state = session();
    let mut cap = state.cap;
    for round in 0..20 {
        for event in events {
            state.handle(event);
            assert!(state.cap >= cap);
            cap = state.cap;
        }
        assert_eq!(cap, 10 + 2 * (round + 1));
    }
}

#[test]
fn export_changes_nothing() {
    let mut state = session();
    state.handle(Event::Step(Direction::Right));
    assert_eq!(state.handle(Event::Export), Action::Export);
    assert_eq!(state.viewport, default_viewport());
    assert_eq!(state.selection, SelectionRect { min_x: 3, max_x: 65, min_y: 0, max_y: 62 });
    assert_eq!(state.cap, 10);
    assert_eq!(state.mode, ZoomMode::X);
    assert_eq!(state.side, ZoomSide::Min);
}

#[test]
fn full_screen_selection_leaves_the_viewport_unchanged() {
    let full = SelectionRect { min_x: 0, max_x: 500, min_y: 0, max_y: 500 };
    let zoomed = zoom(&default_viewport(), screen(), full);
    assert!((zoomed.x_min - -2.0).abs() < 1e-12);
    assert!((zoomed.x_max - 0.47).abs() < 1e-12);
    assert!((zoomed.y_min - -1.12).abs() < 1e-12);
    assert!((zoomed.y_max - 1.12).abs() < 1e-12);
    let exact =
        Viewport { x_min: Whole(-2000), x_max: Whole(473), y_min: Whole(-1120), y_max: Whole(1117) };
    assert_eq!(zoom(&exact, screen(), full), exact);
}
