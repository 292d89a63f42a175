use vstd::prelude::*;

use crate::cell::Cell;
use crate::consts::{
    DEFAULT_UPDATE_CAP_MS, GRID_H, GRID_W, RESIZE_TIME_LIMIT_MS, SCALE_U32, UPDATE_TIME_STEP_MS,
};
use crate::theme::Theme;
use crate::universe::{dead_grid, GridView, Universe};

verus! {

/// The interaction mode: painting cells by hand, running the simulation, or
/// showing the help screen.
#[derive(Clone, Copy, Debug, PartialEq, Eq, Structural)]
pub enum State {
    DesignMode,
    SimulationMode,
    HelpMode,
}

impl State {
    /// Design and simulation are mutually toggled; help is left alone.
    pub open spec fn toggle_spec(self) -> State {
        match self {
            State::DesignMode => State::SimulationMode,
            State::SimulationMode => State::DesignMode,
            State::HelpMode => State::HelpMode,
        }
    }

    /// Switches between design and simulation mode; a no-op in help mode.
    pub fn toggle(&mut self)
        ensures
            *final(self) == old(self).toggle_spec(),
    {
        *self = match *self {
            State::DesignMode => State::SimulationMode,
            State::SimulationMode => State::DesignMode,
            State::HelpMode => State::HelpMode,
        };
    }
}

/// A discrete key event, as the host reports it: at most one per frame.
#[derive(Clone, Copy, Debug, PartialEq, Eq, Structural)]
pub enum Key {
    /// toggle the help screen
    H,
    /// clear the board
    C,
    /// fill the board with live cells
    A,
    /// cycle the visual theme
    T,
    /// invert every cell
    I,
    /// randomize the board
    R,
    /// lengthen the simulation interval
    Equal,
    /// shorten the simulation interval
    Minus,
    /// toggle design and simulation mode
    Space,
    /// leave the help screen
    Escape,
}

/// Everything the host hands the controller for one frame: the elapsed time,
/// the viewport size, the most recent key event if any, and the pointer.
#[derive(Clone, Copy)]
pub struct FrameInput {
    /// elapsed frame time, in whole milliseconds
    pub dt_ms: u32,
    /// current viewport size, in pixels
    pub window_width: u32,
    pub window_height: u32,
    /// the key pressed this frame, if any
    pub key: Option<Key>,
    /// pointer position, in pixels
    pub mouse_x: u32,
    pub mouse_y: u32,
    /// whether the paint (make alive) button is held
    pub paint_held: bool,
    /// whether the erase (make dead) button is held
    pub erase_held: bool,
}

/// The mathematical model of the controller: the board, the mode, the two
/// timer accumulators, the debounce flag, and the host bookkeeping.
/// Times are in milliseconds.
#[verifier::ext_equal]
pub ghost struct GolView {
    pub grid: GridView,
    pub state: State,
    pub update_frame_cap: nat,
    pub passed_time: nat,
    pub passed_resize_time: nat,
    pub resize_queued: bool,
    pub mouse_cell_x: nat,
    pub mouse_cell_y: nat,
    pub window_width: nat,
    pub window_height: nat,
    pub theme: Theme,
}

/// Addition that tops out at `u32::MAX`, the model of the timer accumulators.
pub open spec fn sat_add_u32(a: nat, b: nat) -> nat {
    if a + b > u32::MAX {
        u32::MAX as nat
    } else {
        a + b
    }
}

/// One decrement of the simulation interval: one step down, floored at 0.
pub open spec fn dec_interval(cap: nat) -> nat {
    if cap >= UPDATE_TIME_STEP_MS {
        (cap - UPDATE_TIME_STEP_MS) as nat
    } else {
        0
    }
}

/// How many cells fit across `pixels` pixels, at least 1: the board never
/// degenerates to zero size.
pub open spec fn cells_for(pixels: nat) -> nat {
    let c = pixels / (SCALE_U32 as nat);
    if c >= 1 {
        c
    } else {
        1
    }
}

/// The pointer at pixel `m` mapped to a cell coordinate: divided by the cell
/// scale and clamped to the board.
pub open spec fn clamp_cell(m: nat, cells: nat) -> nat {
    let c = m / (SCALE_U32 as nat);
    let top = (cells - 1) as nat;
    if c > top {
        top
    } else {
        c
    }
}

impl GolView {
    /// Well-formedness: the board is well-formed and the remembered pointer
    /// cell lies on it.
    pub open spec fn wf(self) -> bool {
        &&& self.grid.wf()
        &&& self.mouse_cell_x < self.grid.width
        &&& self.mouse_cell_y < self.grid.height
    }

    pub open spec fn with_grid(self, g: GridView) -> GolView {
        GolView { grid: g, ..self }
    }

    /// Start-of-frame timer bookkeeping: an elapsed simulation accumulator is
    /// reset, then both accumulators advance by the frame delta.
    pub open spec fn tick_model(self, dt: nat) -> GolView {
        let v = if self.passed_time >= self.update_frame_cap {
            GolView { passed_time: 0, ..self }
        } else {
            self
        };
        GolView {
            passed_time: sat_add_u32(v.passed_time, dt),
            passed_resize_time: sat_add_u32(v.passed_resize_time, dt),
            ..v
        }
    }

    /// The effect of one key event. The R key (randomize) keeps the
    /// dimensions and replaces the cells by a pattern drawn from the random
    /// source, which this model cannot name; it is modelled as leaving the
    /// cells alone, and the functions that apply a key promise accordingly
    /// less for it.
    pub open spec fn key_model(self, key: Option<Key>) -> GolView {
        match key {
            Some(k) => match k {
                Key::H => GolView {
                    state: if self.state is HelpMode {
                        State::DesignMode
                    } else {
                        State::HelpMode
                    },
                    ..self
                },
                Key::C => self.with_grid(self.grid.filled(Cell::Dead)),
                Key::A => self.with_grid(self.grid.filled(Cell::Alive)),
                Key::T => GolView { theme: self.theme.cycle_spec(), ..self },
                Key::I => self.with_grid(self.grid.inverted()),
                Key::R => self,
                Key::Equal => GolView {
                    update_frame_cap: sat_add_u32(
                        self.update_frame_cap,
                        UPDATE_TIME_STEP_MS as nat,
                    ),
                    ..self
                },
                Key::Minus => GolView { update_frame_cap: dec_interval(self.update_frame_cap), ..self },
                Key::Space => GolView { state: self.state.toggle_spec(), ..self },
                Key::Escape => GolView {
                    state: if self.state is HelpMode {
                        State::DesignMode
                    } else {
                        self.state
                    },
                    ..self
                },
            },
            None => self,
        }
    }

    /// Viewport bookkeeping and the debounced resize: the new viewport size
    /// is remembered; when it differs from the last seen one, or a resize is
    /// already queued, the board is resized only once the debounce
    /// accumulator has reached its threshold, else the resize stays queued.
    pub open spec fn resize_model(self, w: nat, h: nat) -> GolView {
        let changed = w != self.window_width || h != self.window_height;
        let v = GolView { window_width: w, window_height: h, ..self };
        if changed || v.resize_queued {
            if v.passed_resize_time >= RESIZE_TIME_LIMIT_MS {
                GolView {
                    grid: v.grid.resized(cells_for(w), cells_for(h)),
                    resize_queued: false,
                    passed_resize_time: 0,
                    ..v
                }
            } else {
                GolView { resize_queued: true, ..v }
            }
        } else {
            v
        }
    }

    /// The pointer mapped to the cell it hovers.
    pub open spec fn mouse_model(self, mx: nat, my: nat) -> GolView {
        GolView {
            mouse_cell_x: clamp_cell(mx, self.grid.width),
            mouse_cell_y: clamp_cell(my, self.grid.height),
            ..self
        }
    }

    /// The mode-specific work of one frame: in simulation mode a generation
    /// is computed once the cadence accumulator reaches the interval; in
    /// design mode the hovered cell is painted or erased; help mode mutates
    /// nothing.
    pub open spec fn mode_model(self, paint: bool, erase: bool) -> GolView {
        match self.state {
            State::SimulationMode => if self.passed_time >= self.update_frame_cap {
                GolView { grid: self.grid.stepped(), passed_time: 0, ..self }
            } else {
                self
            },
            State::DesignMode => if paint {
                self.with_grid(
                    self.grid.with_cell(
                        self.mouse_cell_x as int,
                        self.mouse_cell_y as int,
                        Cell::Alive,
                    ),
                )
            } else if erase {
                self.with_grid(
                    self.grid.with_cell(
                        self.mouse_cell_x as int,
                        self.mouse_cell_y as int,
                        Cell::Dead,
                    ),
                )
            } else {
                self
            },
            State::HelpMode => self,
        }
    }

    /// One whole frame: timers, key handling, debounced resize, pointer
    /// mapping, then the mode-specific work, in that order.
    pub open spec fn run_model(self, input: FrameInput) -> GolView {
        self.tick_model(input.dt_ms as nat).key_model(input.key).resize_model(
            input.window_width as nat,
            input.window_height as nat,
        ).mouse_model(input.mouse_x as nat, input.mouse_y as nat).mode_model(
            input.paint_held,
            input.erase_held,
        )
    }
}

/// Two controller views that agree on everything except what the cells hold:
/// all scalar state is equal and the boards have equal dimensions. This is
/// what one frame guarantees when the key event was R (randomize), whose
/// resulting cells depend on the random source.
pub open spec fn eq_mod_cells(a: GolView, b: GolView) -> bool {
    &&& a.state == b.state
    &&& a.update_frame_cap == b.update_frame_cap
    &&& a.passed_time == b.passed_time
    &&& a.passed_resize_time == b.passed_resize_time
    &&& a.resize_queued == b.resize_queued
    &&& a.mouse_cell_x == b.mouse_cell_x
    &&& a.mouse_cell_y == b.mouse_cell_y
    &&& a.window_width == b.window_width
    &&& a.window_height == b.window_height
    &&& a.theme == b.theme
    &&& a.grid.width == b.grid.width
    &&& a.grid.height == b.grid.height
}

/// The controller's state when it starts: an all-dead board of the default
/// size, the help screen showing, the default simulation interval, both
/// accumulators at zero and no resize queued.
pub open spec fn initial_view() -> GolView {
    GolView {
        grid: dead_grid(GRID_W as nat, GRID_H as nat),
        state: State::HelpMode,
        update_frame_cap: DEFAULT_UPDATE_CAP_MS as nat,
        passed_time: 0,
        passed_resize_time: 0,
        resize_queued: false,
        mouse_cell_x: 0,
        mouse_cell_y: 0,
        window_width: 0,
        window_height: 0,
        theme: Theme::Default,
    }
}

/// The automaton controller: owns the board, the mode state machine, the
/// simulation-cadence accumulator and the resize-debounce accumulator, and
/// advances them once per rendered frame. It performs no drawing; the host
/// reads the board and the mode back through the accessors.
pub struct GameOfLife {
    universe: Universe,
    state: State,
    update_frame_cap: u32,
    passed_time: u32,
    passed_resize_time: u32,
    resize_queued: bool,
    mouse_cell_x: usize,
    mouse_cell_y: usize,
    window_width: u32,
    window_height: u32,
    theme: Theme,
}

impl View for GameOfLife {
    type V = GolView;

    closed spec fn view(&self) -> GolView {
        GolView {
            grid: self.universe@,
            state: self.state,
            update_frame_cap: self.update_frame_cap as nat,
            passed_time: self.passed_time as nat,
            passed_resize_time: self.passed_resize_time as nat,
            resize_queued: self.resize_queued,
            mouse_cell_x: self.mouse_cell_x as nat,
            mouse_cell_y: self.mouse_cell_y as nat,
            window_width: self.window_width as nat,
            window_height: self.window_height as nat,
            theme: self.theme,
        }
    }
}

impl GameOfLife {
    /// A fresh controller in its initial state.
    pub fn new() -> (r: GameOfLife)
        ensures
            r@ == initial_view(),
            r@.wf(),
    {
        proof {
            assert(GRID_W >= 1 && GRID_H >= 1 && GRID_W * GRID_H <= usize::MAX);
        }
        GameOfLife {
            universe: Universe::new(GRID_W, GRID_H),
            state: State::HelpMode,
            update_frame_cap: DEFAULT_UPDATE_CAP_MS,
            passed_time: 0,
            passed_resize_time: 0,
            resize_queued: false,
            mouse_cell_x: 0,
            mouse_cell_y: 0,
            window_width: 0,
            window_height: 0,
            theme: Theme::Default,
        }
    }

    /// Read access to the board, for the host to draw.
    pub fn universe(&self) -> (r: &Universe)
        ensures
            r@ == self@.grid,
    {
        &self.universe
    }

    /// The current interaction mode.
    pub fn state(&self) -> (r: State)
        ensures
            r == self@.state,
    {
        self.state
    }

    /// The current simulation interval, in milliseconds.
    pub fn update_frame_cap(&self) -> (r: u32)
        ensures
            r as nat == self@.update_frame_cap,
    {
        self.update_frame_cap
    }

    /// The current theme.
    pub fn theme(&self) -> (r: Theme)
        ensures
            r == self@.theme,
    {
        self.theme
    }

    /// The cell the pointer hovered last frame, for highlighting.
    pub fn mouse_cell(&self) -> (r: (usize, usize))
        ensures
            r.0 as nat == self@.mouse_cell_x,
            r.1 as nat == self@.mouse_cell_y,
    {
        (self.mouse_cell_x, self.mouse_cell_y)
    }

    /// Remembers the viewport size the host reports.
    pub fn update_screen_size(&mut self, width: u32, height: u32)
        ensures
            final(self)@ == (GolView {
                window_width: width as nat,
                window_height: height as nat,
                ..old(self)@
            }),
    {
        self.window_width = width;
        self.window_height = height;
    }

    /// Cycles the visual theme.
    fn cycle_theme(&mut self)
        ensures
            final(self)@ == (GolView { theme: old(self)@.theme.cycle_spec(), ..old(self)@ }),
    {
        self.theme.cycle();
    }

    /// Remembers the viewport size and reports whether it differs from the
    /// last seen one.
    fn screen_size_changed(&mut self, new_width: u32, new_height: u32) -> (changed: bool)
        ensures
            final(self)@ == (GolView {
                window_width: new_width as nat,
                window_height: new_height as nat,
                ..old(self)@
            }),
            changed == (new_width as nat != old(self)@.window_width || new_height as nat != old(
                self,
            )@.window_height),
    {
        let changed = new_width != self.window_width || new_height != self.window_height;
        self.window_width = new_width;
        self.window_height = new_height;
        changed
    }

    /// Applies one key event: mode changes, board-wide edits, theme cycling
    /// and interval adjustment. For the R key the board is randomized, so
    /// only the dimensions (and all scalar state) are promised.
    fn handle_keys(&mut self, key: Option<Key>)
        requires
            old(self)@.wf(),
        ensures
            final(self)@.wf(),
            eq_mod_cells(final(self)@, old(self)@.key_model(key)),
            key != Some(Key::R) ==> final(self)@ == old(self)@.key_model(key),
    {
        match key {
            Some(k) => match k {
                Key::H => {
                    if let State::HelpMode = self.state {
                        self.state = State::DesignMode;
                    } else {
                        self.state = State::HelpMode;
                    }
                },
                Key::C => {
                    self.universe.fill(Cell::Dead);
                },
                Key::A => {
                    self.universe.fill(Cell::Alive);
                },
                Key::T => {
                    self.cycle_theme();
                },
                Key::I => {
                    self.universe.invert();
                },
                Key::R => {
                    self.universe.fill_random();
                },
                Key::Equal => {
                    self.update_frame_cap = self.update_frame_cap.saturating_add(
                        UPDATE_TIME_STEP_MS,
                    );
                },
                Key::Minus => {
                    self.update_frame_cap = if self.update_frame_cap >= UPDATE_TIME_STEP_MS {
                        self.update_frame_cap - UPDATE_TIME_STEP_MS
                    } else {
                        0
                    };
                },
                Key::Space => {
                    self.state.toggle();
                },
                Key::Escape => {
                    if let State::HelpMode = self.state {
                        self.state = State::DesignMode;
                    }
                },
            },
            None => {},
        }
    }

    /// Computes the next generation of the whole board.
    fn update_cells(&mut self)
        requires
            old(self)@.wf(),
        ensures
            final(self)@ == old(self)@.with_grid(old(self)@.grid.stepped()),
            final(self)@.wf(),
    {
        self.universe.step();
    }

    /// One frame of the engine, given the host's input snapshot: advances the
    /// timers, applies the key event, debounces viewport resizes, maps the
    /// pointer to a cell, and then does the mode-specific work — stepping the
    /// simulation on its cadence, or painting and erasing under the pointer.
    ///
    /// The result is exactly `run_model` of the old state, except that a
    /// randomize key leaves the cells known only to the random source.
    #[verifier::rlimit(100)]
    pub fn run(&mut self, input: FrameInput)
        requires
            old(self)@.wf(),
            cells_for(input.window_width as nat) * cells_for(input.window_height as nat)
                <= usize::MAX,
        ensures
            final(self)@.wf(),
            eq_mod_cells(final(self)@, old(self)@.run_model(input)),
            input.key != Some(Key::R) ==> final(self)@ == old(self)@.run_model(input),
    {
        let ghost v0 = self@;
        // timers
        if self.passed_time >= self.update_frame_cap {
            self.passed_time = 0;
        }
        self.passed_time = self.passed_time.saturating_add(input.dt_ms);
        self.passed_resize_time = self.passed_resize_time.saturating_add(input.dt_ms);
        let ghost v1 = v0.tick_model(input.dt_ms as nat);
        proof {
            assert(self@ == v1);
        }

        // key event
        self.handle_keys(input.key);
        let ghost v2 = v1.key_model(input.key);
        proof {
            assert(eq_mod_cells(self@, v2));
            assert(input.key != Some(Key::R) ==> self@ == v2);
        }

        // debounced viewport resize
        let ghost g_pre_resize = self@;
        let size_changed = self.screen_size_changed(input.window_width, input.window_height);
        if size_changed || self.resize_queued {
            if self.passed_resize_time >= RESIZE_TIME_LIMIT_MS {
                let mut new_w = (input.window_width / SCALE_U32) as usize;
                let mut new_h = (input.window_height / SCALE_U32) as usize;
                if new_w == 0 {
                    new_w = 1;
                }
                if new_h == 0 {
                    new_h = 1;
                }
                proof {
                    assert(new_w as nat == cells_for(input.window_width as nat));
                    assert(new_h as nat == cells_for(input.window_height as nat));
                }
                self.universe.resize(new_w, new_h);
                self.resize_queued = false;
                self.passed_resize_time = 0;
            } else {
                self.resize_queued = true;
            }
        }
        let ghost v3 = v2.resize_model(input.window_width as nat, input.window_height as nat);
        proof {
            assert(eq_mod_cells(self@, v3));
            assert(input.key != Some(Key::R) ==> self@ == v3);
        }

        // pointer to cell
        let cell_x = (input.mouse_x / SCALE_U32) as usize;
        let cell_y = (input.mouse_y / SCALE_U32) as usize;
        let top_x = self.universe.width - 1;
        let top_y = self.universe.height - 1;
        self.mouse_cell_x = if cell_x > top_x {
            top_x
        } else {
            cell_x
        };
        self.mouse_cell_y = if cell_y > top_y {
            top_y
        } else {
            cell_y
        };
        let ghost v4 = v3.mouse_model(input.mouse_x as nat, input.mouse_y as nat);
        proof {
            assert(eq_mod_cells(self@, v4));
            assert(input.key != Some(Key::R) ==> self@ == v4);
            assert(self@.wf());
        }

        // mode-specific work
        match self.state {
            State::SimulationMode => {
                if self.passed_time >= self.update_frame_cap {
                    self.update_cells();
                    self.passed_time = 0;
                }
            },
            State::DesignMode => {
                if input.paint_held {
                    self.universe.set(self.mouse_cell_x, self.mouse_cell_y, Cell::Alive);
                } else if input.erase_held {
                    self.universe.set(self.mouse_cell_x, self.mouse_cell_y, Cell::Dead);
                }
            },
            State::HelpMode => {},
        }
        let ghost v5 = v4.mode_model(input.paint_held, input.erase_held);
        proof {
            assert(eq_mod_cells(self@, v5));
            assert(input.key != Some(Key::R) ==> self@ == v5);
            assert(v5 == v0.run_model(input));
        }
    }
}

} // verus!
