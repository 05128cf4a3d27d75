use game_of_life::engine::step;
use game_of_life::session::{
    clamp_board_size, Event, Mode, Session, TimerCommand, DEFAULT_BOARD_SIZE, MAX_BOARD_SIZE,
    MIN_BOARD_SIZE, TICK_DELAY,
};

fn painted(size: i32, alive: &[usize]) -> Session {
    let mut session = Session::new();
    session.resize(size);
    session.mouse_down();
    for &index in alive {
        session.hover_cell(index);
    }
    session.mouse_up();
    session
}

fn live_cells(session: &Session) -> Vec<usize> {
    let mut alive = Vec::new();
    for (index, cell) in session.board().iter().enumerate() {
        if *cell {
            alive.push(index);
        }
    }
    alive
}

#[test]
fn limits_and_delay_have_their_values() {
    assert_eq!(DEFAULT_BOARD_SIZE, 32);
    assert_eq!(MIN_BOARD_SIZE, 5);
    assert_eq!(MAX_BOARD_SIZE, 96);
    assert_eq!(TICK_DELAY, 40);
}

#[test]
fn new_session_is_idle_on_a_dead_board_of_side_32() {
    let session = Session::new();
    assert_eq!(session.board_size(), 32);
    assert_eq!(session.board().len(), 1024);
    assert!(session.board().iter().all(|cell| !*cell));
    assert!(!session.is_running());
    assert!(!session.is_painting());
    assert_eq!(session.mode(), Mode::Idle);
}

#[test]
fn mouse_down_starts_painting_and_mouse_up_ends_it() {
    let mut session = Session::new();
    session.mouse_down();
    assert!(session.is_painting());
    assert_eq!(session.mode(), Mode::Painting);
    session.mouse_up();
    assert!(!session.is_painting());
    assert_eq!(session.mode(), Mode::Idle);
}

#[test]
fn hover_paints_only_while_the_mouse_is_down() {
    let mut session = Session::new();
    session.hover_cell(3);
    assert_eq!(live_cells(&session), Vec::<usize>::new());
    session.mouse_down();
    session.hover_cell(3);
    session.hover_cell(40);
    assert_eq!(live_cells(&session), vec![3, 40]);
    session.mouse_up();
    session.hover_cell(5);
    assert_eq!(live_cells(&session), vec![3, 40]);
}

#[test]
fn painting_a_live_cell_leaves_it_alive() {
    let mut session = Session::new();
    session.mouse_down();
    session.hover_cell(17);
    let once = session.board().to_vec();
    session.hover_cell(17);
    assert_eq!(session.board().to_vec(), once);
    assert!(session.board()[17]);
}

#[test]
fn hover_off_the_board_changes_nothing() {
    let mut session = Session::new();
    session.mouse_down();
    session.hover_cell(1024);
    session.hover_cell(usize::MAX);
    assert_eq!(live_cells(&session), Vec::<usize>::new());
    assert_eq!(session.board().len(), 1024);
    session.hover_cell(1023);
    assert_eq!(live_cells(&session), vec![1023]);
}

#[test]
fn toggle_play_starts_and_schedules_then_pauses_and_cancels() {
    let mut session = Session::new();
    assert_eq!(session.toggle_play(), TimerCommand::Schedule { delay: 40 });
    assert!(session.is_running());
    assert_eq!(session.mode(), Mode::Running);
    assert_eq!(session.toggle_play(), TimerCommand::Cancel);
    assert!(!session.is_running());
    assert_eq!(session.mode(), Mode::Idle);
}

#[test]
fn toggle_play_keeps_board_and_painting_flag() {
    let mut session = painted(5, &[6, 7, 8]);
    session.mouse_down();
    session.toggle_play();
    assert_eq!(session.mode(), Mode::Running);
    assert!(session.is_painting());
    assert_eq!(live_cells(&session), vec![6, 7, 8]);
    session.toggle_play();
    assert_eq!(session.mode(), Mode::Painting);
    assert_eq!(live_cells(&session), vec![6, 7, 8]);
}

#[test]
fn running_session_ignores_hover_and_mouse_down() {
    let mut session = painted(5, &[6, 7, 8]);
    session.toggle_play();
    let before = session.board().to_vec();
    session.mouse_down();
    assert!(!session.is_painting());
    session.hover_cell(0);
    session.hover_cell(12);
    assert_eq!(session.board().to_vec(), before);
    assert!(session.is_running());
}

#[test]
fn running_session_with_mouse_held_paints_nothing() {
    let mut session = Session::new();
    session.mouse_down();
    session.toggle_play();
    session.hover_cell(10);
    assert_eq!(live_cells(&session), Vec::<usize>::new());
    assert_eq!(session.handle(Event::HoverCell(11)), TimerCommand::Keep);
    assert_eq!(session.handle(Event::MouseDown), TimerCommand::Keep);
    assert_eq!(live_cells(&session), Vec::<usize>::new());
}

#[test]
fn running_session_ignores_mouse_up() {
    let mut session = Session::new();
    session.mouse_down();
    session.toggle_play();
    session.mouse_up();
    assert!(session.is_painting());
    session.toggle_play();
    session.mouse_up();
    assert!(!session.is_painting());
}

#[test]
fn tick_advances_a_running_session_and_schedules_the_next() {
    let mut session = painted(5, &[6, 7, 8]);
    session.toggle_play();
    assert_eq!(session.tick(), TimerCommand::Schedule { delay: 40 });
    assert_eq!(live_cells(&session), vec![2, 7, 12]);
    assert_eq!(session.tick(), TimerCommand::Schedule { delay: 40 });
    assert_eq!(live_cells(&session), vec![6, 7, 8]);
    assert!(session.is_running());
}

#[test]
fn late_tick_after_pause_changes_nothing_and_schedules_nothing() {
    let mut session = painted(5, &[6, 7, 8]);
    session.toggle_play();
    session.toggle_play();
    assert_eq!(session.tick(), TimerCommand::Keep);
    assert_eq!(live_cells(&session), vec![6, 7, 8]);
    assert!(!session.is_running());
}

#[test]
fn next_step_advances_once_when_not_running() {
    let mut session = painted(5, &[6, 7, 8]);
    let expected = step(session.board(), 5);
    session.next_step();
    assert_eq!(session.board().to_vec(), expected);
    assert_eq!(live_cells(&session), vec![2, 7, 12]);
    assert!(!session.is_running());
}

#[test]
fn next_step_is_ignored_while_running() {
    let mut session = painted(5, &[6, 7, 8]);
    session.toggle_play();
    session.next_step();
    assert_eq!(live_cells(&session), vec![6, 7, 8]);
}

#[test]
fn next_step_keeps_painting_mode() {
    let mut session = painted(5, &[6, 7, 8]);
    session.mouse_down();
    session.next_step();
    assert_eq!(session.mode(), Mode::Painting);
    assert_eq!(live_cells(&session), vec![2, 7, 12]);
}

#[test]
fn clear_stops_a_running_session() {
    let mut session = painted(6, &[1, 2, 3]);
    session.toggle_play();
    assert!(session.is_running());
    assert_eq!(session.clear(), TimerCommand::Cancel);
    assert!(!session.is_running());
    assert_eq!(session.mode(), Mode::Idle);
    assert_eq!(session.board_size(), 6);
    assert_eq!(session.board().to_vec(), vec![false; 36]);
}

#[test]
fn clear_of_a_paused_session_leaves_the_timer_alone() {
    let mut session = painted(6, &[1, 2, 3]);
    assert_eq!(session.clear(), TimerCommand::Keep);
    assert!(!session.is_running());
    assert_eq!(session.board().to_vec(), vec![false; 36]);
}

#[test]
fn clear_ends_painting() {
    let mut session = Session::new();
    session.mouse_down();
    session.hover_cell(4);
    session.clear();
    assert!(!session.is_painting());
    assert_eq!(session.mode(), Mode::Idle);
    session.hover_cell(4);
    assert_eq!(live_cells(&session), Vec::<usize>::new());
}

#[test]
fn resize_gives_a_dead_board_of_the_new_side() {
    for size in [5, 6, 32, 95, 96] {
        let mut session = painted(7, &[0, 8, 48]);
        session.resize(size);
        assert_eq!(session.board_size(), size);
        assert_eq!(session.board().len(), (size * size) as usize);
        assert!(session.board().iter().all(|cell| !*cell));
    }
}

#[test]
fn resize_to_the_same_side_still_clears_the_board() {
    let mut session = painted(7, &[0, 8, 48]);
    session.resize(7);
    assert_eq!(session.board().to_vec(), vec![false; 49]);
}

#[test]
fn resize_clamps_to_the_limits() {
    let mut session = Session::new();
    for (requested, side) in [
        (4, 5),
        (0, 5),
        (-1, 5),
        (i32::MIN, 5),
        (97, 96),
        (200, 96),
        (i32::MAX, 96),
    ] {
        session.resize(requested);
        assert_eq!(session.board_size(), side);
        assert_eq!(session.board().len(), (side * side) as usize);
        assert_eq!(clamp_board_size(requested), side);
    }
    assert_eq!(clamp_board_size(5), 5);
    assert_eq!(clamp_board_size(50), 50);
    assert_eq!(clamp_board_size(96), 96);
}

#[test]
fn resize_keeps_running_and_painting() {
    let mut session = Session::new();
    session.mouse_down();
    session.resize(10);
    assert!(session.is_painting());
    assert!(!session.is_running());
    session.toggle_play();
    session.resize(12);
    assert!(session.is_running());
    assert!(session.is_painting());
    assert_eq!(session.board().len(), 144);
}

#[test]
fn handle_makes_the_same_moves_as_the_methods() {
    let mut by_event = Session::new();
    let mut by_call = Session::new();

    assert_eq!(by_event.handle(Event::Resize(Some(5))), TimerCommand::Keep);
    by_call.resize(5);
    assert_eq!(by_event.handle(Event::MouseDown), TimerCommand::Keep);
    by_call.mouse_down();
    for index in [6usize, 7, 8, 99] {
        assert_eq!(by_event.handle(Event::HoverCell(index)), TimerCommand::Keep);
        by_call.hover_cell(index);
    }
    assert_eq!(by_event.handle(Event::MouseUp), TimerCommand::Keep);
    by_call.mouse_up();
    assert_eq!(by_event.board(), by_call.board());
    assert_eq!(live_cells(&by_event), vec![6, 7, 8]);

    assert_eq!(by_event.handle(Event::NextStep), TimerCommand::Keep);
    by_call.next_step();
    assert_eq!(by_event.board(), by_call.board());

    assert_eq!(by_event.handle(Event::TogglePlay), by_call.toggle_play());
    assert_eq!(by_event.handle(Event::Tick), by_call.tick());
    assert_eq!(by_event.board(), by_call.board());
    assert_eq!(live_cells(&by_event), vec![6, 7, 8]);

    assert_eq!(by_event.handle(Event::Clear), by_call.clear());
    assert_eq!(by_event.board(), by_call.board());
    assert_eq!(by_event.is_running(), by_call.is_running());
    assert_eq!(by_event.mode(), Mode::Idle);
}

#[test]
fn handle_reports_the_timer_for_each_event() {
    let mut session = Session::new();
    assert_eq!(session.handle(Event::Tick), TimerCommand::Keep);
    assert_eq!(session.handle(Event::Clear), TimerCommand::Keep);
    assert_eq!(
        session.handle(Event::TogglePlay),
        TimerCommand::Schedule { delay: TICK_DELAY }
    );
    assert_eq!(
        session.handle(Event::Tick),
        TimerCommand::Schedule { delay: TICK_DELAY }
    );
    assert_eq!(session.handle(Event::NextStep), TimerCommand::Keep);
    assert_eq!(session.handle(Event::Resize(Some(9))), TimerCommand::Keep);
    assert_eq!(session.handle(Event::TogglePlay), TimerCommand::Cancel);
    assert_eq!(session.handle(Event::TogglePlay), TimerCommand::Schedule { delay: 40 });
    assert_eq!(session.handle(Event::Clear), TimerCommand::Cancel);
}

#[test]
fn resize_without_a_number_is_ignored() {
    let mut session = painted(8, &[9, 10]);
    session.mouse_down();
    assert_eq!(session.handle(Event::Resize(None)), TimerCommand::Keep);
    assert_eq!(session.board_size(), 8);
    assert_eq!(live_cells(&session), vec![9, 10]);
    assert!(session.is_painting());
    assert!(!session.is_running());
}

#[test]
fn clone_copies_the_whole_state() {
    let mut session = painted(5, &[6, 7, 8]);
    session.mouse_down();
    session.toggle_play();
    let copy = session.clone();
    assert_eq!(copy.board(), session.board());
    assert_eq!(copy.board_size(), 5);
    assert!(copy.is_running());
    assert!(copy.is_painting());
    session.tick();
    assert_eq!(live_cells(&copy), vec![6, 7, 8]);
    assert_eq!(live_cells(&session), vec![2, 7, 12]);
}

#[test]
fn board_keeps_one_cell_per_position_through_a_run_of_events() {
    let mut session = Session::new();
    let events = [
        Event::MouseDown,
        Event::HoverCell(33),
        Event::HoverCell(34),
        Event::HoverCell(35),
        Event::MouseUp,
        Event::TogglePlay,
        Event::Tick,
        Event::Resize(Some(50)),
        Event::Tick,
        Event::Resize(Some(1000)),
        Event::Clear,
        Event::Resize(None),
        Event::NextStep,
        Event::Resize(Some(-7)),
        Event::TogglePlay,
        Event::Tick,
    ];
    for event in events {
        session.handle(event);
        let side = session.board_size();
        assert!((5..=96).contains(&side));
        assert_eq!(session.board().len(), (side * side) as usize);
    }
    assert_eq!(session.board_size(), 5);
}
