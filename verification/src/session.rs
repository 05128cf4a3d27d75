//! The session of an interactive simulator: a board, its side, and the two
//! flags that say whether the simulation runs by itself and whether the user
//! is painting.
//!
//! The session is a state machine. The surface that shows the board turns
//! what the user does, and each firing of its timer, into an [`Event`]; the
//! session moves to its next state and answers with a [`TimerCommand`] that
//! tells the surface what to do with its one pending timer. The session never
//! waits and never fails.
//!
//! [`SessionView`] is the mathematical model: it defines every transition as
//! a function from state to state. [`Session`] is the executable state, and
//! each of its methods is proved to make the move that the model defines.

use crate::engine::{dead_board, next_generation, step};
use vstd::prelude::*;

verus! {

/// The side of the board of a new session.
pub const DEFAULT_BOARD_SIZE: i32 = 32;

/// The smallest side a board can have.
pub const MIN_BOARD_SIZE: i32 = 5;

/// The largest side a board can have.
pub const MAX_BOARD_SIZE: i32 = 96;

/// The delay between one generation and the timer event that asks for the
/// next, in the time units of the surface's timer.
pub const TICK_DELAY: u32 = 40;

/// What a session is doing.
#[derive(Clone, Copy, Debug, PartialEq, Eq, Structural)]
pub enum Mode {
    /// Not running, and the mouse is up.
    Idle,
    /// Not running, and the mouse is held down: hovered cells come alive.
    Painting,
    /// Advancing by itself, one generation per timer event.
    Running,
}

/// What happened on the surface.
#[derive(Clone, Copy, Debug, PartialEq, Eq)]
pub enum Event {
    /// The mouse button went down over the board.
    MouseDown,
    /// The mouse button came up.
    MouseUp,
    /// The pointer moved over the cell with this index.
    HoverCell(usize),
    /// The start/pause control was pressed.
    TogglePlay,
    /// The timer fired.
    Tick,
    /// The single-step control was pressed.
    NextStep,
    /// The clear control was pressed.
    Clear,
    /// The size control changed. `None` stands for a value that is not a
    /// number.
    Resize(Option<i32>),
}

/// What the surface is to do with its pending timer after an event.
#[derive(Clone, Copy, Debug, PartialEq, Eq, Structural)]
pub enum TimerCommand {
    /// Leave the timer as it is.
    Keep,
    /// Replace the pending timer, if any, by one that fires once after
    /// `delay` and then sends [`Event::Tick`].
    Schedule { delay: u32 },
    /// Drop the pending timer, so that it never fires.
    Cancel,
}

/// The side that a request for `requested` gives: the nearest side between
/// [`MIN_BOARD_SIZE`] and [`MAX_BOARD_SIZE`].
pub open spec fn clamp_size(requested: int) -> int {
    if requested < MIN_BOARD_SIZE {
        MIN_BOARD_SIZE as int
    } else if requested > MAX_BOARD_SIZE {
        MAX_BOARD_SIZE as int
    } else {
        requested
    }
}

/// The state of a session as plain mathematical values.
pub struct SessionView {
    /// The cells, row after row; `true` is alive.
    pub board: Seq<bool>,
    /// The side of the board.
    pub board_size: int,
    /// Whether the simulation advances by itself.
    pub is_running: bool,
    /// Whether the mouse is held down.
    pub is_painting: bool,
}

impl SessionView {
    /// What holds of every session: the side is within its limits, and the
    /// board has one cell for each position of the square.
    pub open spec fn wf(self) -> bool {
        &&& MIN_BOARD_SIZE <= self.board_size <= MAX_BOARD_SIZE
        &&& self.board.len() == self.board_size * self.board_size
    }

    /// Running wins over painting: while the session runs, a mouse button
    /// that is still held paints nothing.
    pub open spec fn mode(self) -> Mode {
        if self.is_running {
            Mode::Running
        } else if self.is_painting {
            Mode::Painting
        } else {
            Mode::Idle
        }
    }

    /// The state of a new session: the default side, every cell dead, idle.
    pub open spec fn initial() -> SessionView {
        SessionView {
            board: dead_board(DEFAULT_BOARD_SIZE as int),
            board_size: DEFAULT_BOARD_SIZE as int,
            is_running: false,
            is_painting: false,
        }
    }

    /// The mouse button goes down: painting begins, unless the session runs.
    pub open spec fn mouse_down(self) -> SessionView {
        if self.is_running {
            self
        } else {
            SessionView { is_painting: true, ..self }
        }
    }

    /// The mouse button comes up: painting ends, unless the session runs.
    pub open spec fn mouse_up(self) -> SessionView {
        if self.is_running {
            self
        } else {
            SessionView { is_painting: false, ..self }
        }
    }

    /// The pointer is over cell `index`: while painting, that cell comes
    /// alive. Outside painting, and for an index off the board, nothing
    /// changes.
    pub open spec fn hover_cell(self, index: int) -> SessionView {
        if !self.is_running && self.is_painting && 0 <= index < self.board.len() {
            SessionView { board: self.board.update(index, true), ..self }
        } else {
            self
        }
    }

    /// Start or pause: the running flag flips, and nothing else changes.
    pub open spec fn toggle_play(self) -> SessionView {
        SessionView { is_running: !self.is_running, ..self }
    }

    /// The board moves on by one generation.
    pub open spec fn advance(self) -> SessionView {
        SessionView { board: next_generation(self.board, self.board_size), ..self }
    }

    /// The timer fires: a running session advances. A session that does not
    /// run ignores a timer that fires late.
    pub open spec fn tick(self) -> SessionView {
        if self.is_running {
            self.advance()
        } else {
            self
        }
    }

    /// Single step: a session that does not run advances once. A running
    /// session ignores the request.
    pub open spec fn next_step(self) -> SessionView {
        if self.is_running {
            self
        } else {
            self.advance()
        }
    }

    /// Clear: every cell dies, the side stays, and the session is idle.
    pub open spec fn clear(self) -> SessionView {
        SessionView {
            board: dead_board(self.board_size),
            board_size: self.board_size,
            is_running: false,
            is_painting: false,
        }
    }

    /// Resize: the side becomes `new_size` clamped to the limits, on a fresh
    /// board with every cell dead. The flags stay.
    pub open spec fn resize(self, new_size: int) -> SessionView {
        SessionView {
            board: dead_board(clamp_size(new_size)),
            board_size: clamp_size(new_size),
            ..self
        }
    }

    /// The state after `event`.
    pub open spec fn after(self, event: Event) -> SessionView {
        match event {
            Event::MouseDown => self.mouse_down(),
            Event::MouseUp => self.mouse_up(),
            Event::HoverCell(index) => self.hover_cell(index as int),
            Event::TogglePlay => self.toggle_play(),
            Event::Tick => self.tick(),
            Event::NextStep => self.next_step(),
            Event::Clear => self.clear(),
            Event::Resize(Some(new_size)) => self.resize(new_size as int),
            Event::Resize(None) => self,
        }
    }

    /// What becomes of the pending timer when `event` arrives in this state.
    ///
    /// Starting schedules the first timer event, and each timer event that a
    /// running session takes schedules the next. Pausing, and clearing a
    /// running session, cancel what is pending. Everything else, a late timer
    /// event included, leaves the timer alone, so a paused session is never
    /// set going again by a timer.
    pub open spec fn timer_after(self, event: Event) -> TimerCommand {
        match event {
            Event::TogglePlay => if self.is_running {
                TimerCommand::Cancel
            } else {
                TimerCommand::Schedule { delay: TICK_DELAY }
            },
            Event::Tick => if self.is_running {
                TimerCommand::Schedule { delay: TICK_DELAY }
            } else {
                TimerCommand::Keep
            },
            Event::Clear => if self.is_running {
                TimerCommand::Cancel
            } else {
                TimerCommand::Keep
            },
            _ => TimerCommand::Keep,
        }
    }
}

/// A new session is well formed and idle.
pub proof fn lemma_initial_is_well_formed()
    ensures
        SessionView::initial().wf(),
        SessionView::initial().mode() == Mode::Idle,
{
    assert(DEFAULT_BOARD_SIZE * DEFAULT_BOARD_SIZE == 1024);
}

/// No event leads out of the well-formed states: after every event the side
/// is within its limits and the board has `board_size * board_size` cells.
pub proof fn lemma_events_preserve_well_formedness(state: SessionView, event: Event)
    requires
        state.wf(),
    ensures
        state.after(event).wf(),
{
    let size = state.after(event).board_size;
    assert(size * size >= 0) by (nonlinear_arith);
}

/// Painting is switched off while the session runs: a running session is
/// left exactly as it was by the mouse going down or up and by the pointer
/// moving over any cell.
pub proof fn lemma_running_session_ignores_mouse(state: SessionView, index: int)
    requires
        state.is_running,
    ensures
        state.mouse_down() == state,
        state.mouse_up() == state,
        state.hover_cell(index) == state,
{
}

/// Painting only ever brings cells to life, and painting a cell twice is
/// painting it once.
pub proof fn lemma_painting_only_adds_life(state: SessionView, index: int)
    ensures
        state.hover_cell(index).hover_cell(index) == state.hover_cell(index),
        state.hover_cell(index).board.len() == state.board.len(),
        forall|other: int|
            0 <= other < state.board.len() && state.board[other] ==> state.hover_cell(
                index,
            ).board[other],
{
    assert(state.hover_cell(index).hover_cell(index).board =~= state.hover_cell(index).board);
}

/// Clearing always ends in the idle mode, on the all-dead board of the side
/// the session had, whether or not the session ran before.
pub proof fn lemma_clear_stops_the_session(state: SessionView)
    ensures
        !state.clear().is_running,
        state.clear().mode() == Mode::Idle,
        state.clear().board == dead_board(state.board_size),
        state.clear().board_size == state.board_size,
{
}

/// Resizing to a side within the limits gives a board of just that side with
/// `new_size * new_size` cells, all of them dead, whatever the old board
/// held, and leaves the flags alone.
pub proof fn lemma_resize_gives_fresh_board(state: SessionView, new_size: int)
    requires
        MIN_BOARD_SIZE <= new_size <= MAX_BOARD_SIZE,
    ensures
        state.resize(new_size).board_size == new_size,
        state.resize(new_size).board.len() == new_size * new_size,
        forall|index: int|
            0 <= index < new_size * new_size ==> !state.resize(new_size).board[index],
        state.resize(new_size).is_running == state.is_running,
        state.resize(new_size).is_painting == state.is_painting,
{
    assert(new_size * new_size >= 0) by (nonlinear_arith);
}

/// A paused session cannot be set going by its timer: pausing cancels the
/// pending timer, and should a timer event arrive all the same, it changes
/// nothing and schedules nothing.
pub proof fn lemma_pause_disarms_timer(state: SessionView)
    requires
        state.is_running,
    ensures
        state.timer_after(Event::TogglePlay) == TimerCommand::Cancel,
        state.toggle_play().tick() == state.toggle_play(),
        state.toggle_play().timer_after(Event::Tick) == TimerCommand::Keep,
{
}

/// The state of a session.
///
/// Every session satisfies [`SessionView::wf`]: the fields are private, and
/// each method re-establishes it.
#[derive(Debug)]
pub struct Session {
    board: Vec<bool>,
    board_size: i32,
    is_running: bool,
    is_painting: bool,
}

impl View for Session {
    type V = SessionView;

    closed spec fn view(&self) -> SessionView {
        SessionView {
            board: self.board@,
            board_size: self.board_size as int,
            is_running: self.is_running,
            is_painting: self.is_painting,
        }
    }
}

impl Clone for Session {
    fn clone(&self) -> (copy: Session)
        ensures
            copy@ == self@,
            copy@.wf(),
    {
        proof {
            use_type_invariant(self);
        }
        Session {
            board: self.board.clone(),
            board_size: self.board_size,
            is_running: self.is_running,
            is_painting: self.is_painting,
        }
    }
}

/// Clamps a requested side to the limits.
pub fn clamp_board_size(requested: i32) -> (size: i32)
    ensures
        size == clamp_size(requested as int),
{
    if requested < MIN_BOARD_SIZE {
        MIN_BOARD_SIZE
    } else if requested > MAX_BOARD_SIZE {
        MAX_BOARD_SIZE
    } else {
        requested
    }
}

/// Allocates the all-dead board of side `board_size`.
fn blank_board(board_size: i32) -> (board: Vec<bool>)
    requires
        MIN_BOARD_SIZE <= board_size <= MAX_BOARD_SIZE,
    ensures
        board@ == dead_board(board_size as int),
        board@.len() == board_size * board_size,
{
    assert(0 <= board_size * board_size <= 9216) by (nonlinear_arith)
        requires
            5 <= board_size <= 96,
    ;
    let cells: usize = (board_size * board_size) as usize;
    vec![false; cells]
}

impl Session {
    #[verifier::type_invariant]
    spec fn well_formed(self) -> bool {
        &&& MIN_BOARD_SIZE <= self.board_size <= MAX_BOARD_SIZE
        &&& self.board@.len() == self.board_size * self.board_size
    }

    /// A new session: a board of side [`DEFAULT_BOARD_SIZE`] with every cell
    /// dead, neither running nor painting.
    pub fn new() -> (session: Session)
        ensures
            session@ == SessionView::initial(),
            session@.wf(),
    {
        Session {
            board: blank_board(DEFAULT_BOARD_SIZE),
            board_size: DEFAULT_BOARD_SIZE,
            is_running: false,
            is_painting: false,
        }
    }

    /// The cells of the board, row after row.
    pub fn board(&self) -> (cells: &[bool])
        ensures
            cells@ == self@.board,
            self@.wf(),
    {
        proof {
            use_type_invariant(self);
        }
        self.board.as_slice()
    }

    /// The side of the board.
    pub fn board_size(&self) -> (size: i32)
        ensures
            size == self@.board_size,
            self@.wf(),
    {
        proof {
            use_type_invariant(self);
        }
        self.board_size
    }

    /// Whether the simulation advances by itself.
    pub fn is_running(&self) -> (running: bool)
        ensures
            running == self@.is_running,
    {
        self.is_running
    }

    /// Whether the mouse is held down.
    pub fn is_painting(&self) -> (painting: bool)
        ensures
            painting == self@.is_painting,
    {
        self.is_painting
    }

    /// What the session is doing.
    pub fn mode(&self) -> (mode: Mode)
        ensures
            mode == self@.mode(),
    {
        if self.is_running {
            Mode::Running
        } else if self.is_painting {
            Mode::Painting
        } else {
            Mode::Idle
        }
    }

    /// The mouse button went down: painting begins. A running session
    /// ignores it.
    pub fn mouse_down(&mut self)
        ensures
            final(self)@.wf(),
            final(self)@ == old(self)@.mouse_down(),
            old(self)@.is_running ==> final(self)@ == old(self)@,
            final(self)@.board == old(self)@.board,
    {
        proof {
            use_type_invariant(&*self);
        }
        if !self.is_running {
            self.is_painting = true;
        }
    }

    /// The mouse button came up: painting ends. A running session ignores
    /// it.
    pub fn mouse_up(&mut self)
        ensures
            final(self)@.wf(),
            final(self)@ == old(self)@.mouse_up(),
    {
        proof {
            use_type_invariant(&*self);
        }
        if !self.is_running {
            self.is_painting = false;
        }
    }

    /// The pointer moved over cell `index`: while painting, the cell comes
    /// alive, and a cell that is alive stays so. Outside painting, while
    /// running, and for an index off the board, the session is unchanged.
    pub fn hover_cell(&mut self, index: usize)
        ensures
            final(self)@.wf(),
            final(self)@ == old(self)@.hover_cell(index as int),
            old(self)@.is_running ==> final(self)@ == old(self)@,
    {
        proof {
            use_type_invariant(&*self);
        }
        if !self.is_running && self.is_painting && index < self.board.len() {
            self.board[index] = true;
        }
    }

    /// Start or pause. Starting asks for the first timer event; pausing
    /// cancels the pending one.
    pub fn toggle_play(&mut self) -> (timer: TimerCommand)
        ensures
            final(self)@.wf(),
            final(self)@ == old(self)@.toggle_play(),
            timer == old(self)@.timer_after(Event::TogglePlay),
    {
        proof {
            use_type_invariant(&*self);
        }
        if self.is_running {
            self.is_running = false;
            TimerCommand::Cancel
        } else {
            self.is_running = true;
            TimerCommand::Schedule { delay: TICK_DELAY }
        }
    }

    /// The timer fired. A running session advances by one generation and
    /// asks for the next timer event. A session that does not run is
    /// unchanged and asks for nothing.
    pub fn tick(&mut self) -> (timer: TimerCommand)
        ensures
            final(self)@.wf(),
            final(self)@ == old(self)@.tick(),
            timer == old(self)@.timer_after(Event::Tick),
    {
        proof {
            use_type_invariant(&*self);
        }
        if self.is_running {
            self.advance();
            TimerCommand::Schedule { delay: TICK_DELAY }
        } else {
            TimerCommand::Keep
        }
    }

    /// Single step: a session that does not run advances by one generation.
    /// A running session ignores the request.
    pub fn next_step(&mut self)
        ensures
            final(self)@.wf(),
            final(self)@ == old(self)@.next_step(),
    {
        proof {
            use_type_invariant(&*self);
        }
        if !self.is_running {
            self.advance();
        }
    }

    /// Clear: every cell dies, and the session stops running and painting.
    /// The side stays. If the session was running, its pending timer is
    /// cancelled.
    pub fn clear(&mut self) -> (timer: TimerCommand)
        ensures
            final(self)@.wf(),
            final(self)@ == old(self)@.clear(),
            !final(self)@.is_running,
            timer == old(self)@.timer_after(Event::Clear),
    {
        proof {
            use_type_invariant(&*self);
        }
        let was_running: bool = self.is_running;
        self.board = blank_board(self.board_size);
        self.is_running = false;
        self.is_painting = false;
        if was_running {
            TimerCommand::Cancel
        } else {
            TimerCommand::Keep
        }
    }

    /// Resize: the side becomes `new_size`, clamped to the limits, and the
    /// board is a fresh one of that side with every cell dead, whatever the
    /// board held before. Running and painting stay as they are.
    pub fn resize(&mut self, new_size: i32)
        ensures
            final(self)@.wf(),
            final(self)@ == old(self)@.resize(new_size as int),
            MIN_BOARD_SIZE <= new_size <= MAX_BOARD_SIZE ==> final(self)@.board_size == new_size
                && final(self)@.board.len() == new_size * new_size,
            forall|index: int| 0 <= index < final(self)@.board.len() ==> !final(self)@.board[index],
    {
        let size: i32 = clamp_board_size(new_size);
        *self = Session {
            board: blank_board(size),
            board_size: size,
            is_running: self.is_running,
            is_painting: self.is_painting,
        };
    }

    /// Takes one event: moves to the next state and says what to do with the
    /// pending timer.
    pub fn handle(&mut self, event: Event) -> (timer: TimerCommand)
        ensures
            final(self)@.wf(),
            final(self)@ == old(self)@.after(event),
            timer == old(self)@.timer_after(event),
    {
        proof {
            use_type_invariant(&*self);
        }
        match event {
            Event::MouseDown => {
                self.mouse_down();
                TimerCommand::Keep
            },
            Event::MouseUp => {
                self.mouse_up();
                TimerCommand::Keep
            },
            Event::HoverCell(index) => {
                self.hover_cell(index);
                TimerCommand::Keep
            },
            Event::TogglePlay => self.toggle_play(),
            Event::Tick => self.tick(),
            Event::NextStep => {
                self.next_step();
                TimerCommand::Keep
            },
            Event::Clear => self.clear(),
            Event::Resize(Some(new_size)) => {
                self.resize(new_size);
                TimerCommand::Keep
            },
            Event::Resize(None) => TimerCommand::Keep,
        }
    }

    /// Replaces the board by its next generation.
    fn advance(&mut self)
        ensures
            final(self)@.wf(),
            final(self)@ == old(self)@.advance(),
    {
        proof {
            use_type_invariant(&*self);
        }
        let next: Vec<bool> = step(self.board.as_slice(), self.board_size);
        self.board = next;
    }
}

} // verus!
