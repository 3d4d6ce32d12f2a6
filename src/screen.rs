//! The decisions of the interactive front end: which key does what to the
//! grid and the text line, and what the terminal loop has to do next.
//!
//! Drawing, polling the terminal and waiting between frames are left to the
//! caller, which hands each input event to [`Screen::handle_event`] and carries
//! out the [`Action`] that comes back.

use crate::game::Game;
use vstd::prelude::*;

verus! {

/// What the front end is doing with key presses.
#[derive(Clone, Copy, PartialEq, Eq, Debug, Structural)]
pub enum Mode {
    /// Keys drive the simulation.
    Normal,
    /// Keys edit the text line that names a pattern file.
    Editing,
}

/// A key press, as far as the front end tells keys apart.
#[derive(Clone, Copy, PartialEq, Eq, Debug, Structural)]
pub enum Key {
    Char(char),
    Enter,
    Backspace,
    Esc,
    Other,
}

/// An input event from the terminal.
#[derive(Clone, Copy, PartialEq, Eq, Debug, Structural)]
pub enum Event {
    Key(Key),
    Resize,
    Other,
}

/// What the terminal loop does after an event has been handled.
#[derive(Clone, Copy, PartialEq, Eq, Debug, Structural)]
pub enum Action {
    /// Leave the loop and restore the terminal.
    Quit,
    /// Draw the screen again.
    Redraw,
    /// Run generations one after another until the animation is stopped.
    Animate,
    /// Load the pattern file named by the text line, then report the outcome
    /// through [`Screen::finish_load`].
    Load,
    /// Nothing to do.
    Nothing,
}

/// What an event does to a running animation.
#[derive(Clone, Copy, PartialEq, Eq, Debug, Structural)]
pub enum Animation {
    Continue,
    Stop,
    Quit,
}

/// Key that leaves the program.
pub const QUIT: char = 'q';
/// Key that starts the animation.
pub const ANIMATE: char = 'a';
/// Key that stops the animation.
pub const STOP_ANIMATION: char = 's';
/// Key that fills the grid at random anew.
pub const GENERATE: char = 'g';
/// Key that advances one generation.
pub const NEXT: char = 'n';
/// Key that starts editing the text line.
pub const INPUT: char = 'i';

/// The text that replaces the line when a pattern file could not be loaded.
pub open spec fn not_found_message() -> Seq<char> {
    seq!['F', 'i', 'l', 'e', ' ', 'n', 'o', 't', ' ', 'f', 'o', 'u', 'n', 'd', '.']
}

/// What the terminal loop is told to do after `event` arrives in `mode`.
pub open spec fn action_for(mode: Mode, event: Event) -> Action {
    match mode {
        Mode::Normal => match event {
            Event::Key(Key::Char(c)) => if c == QUIT {
                Action::Quit
            } else if c == GENERATE || c == NEXT || c == INPUT {
                Action::Redraw
            } else if c == ANIMATE {
                Action::Animate
            } else {
                Action::Nothing
            },
            Event::Key(_) => Action::Nothing,
            Event::Resize => Action::Redraw,
            Event::Other => Action::Nothing,
        },
        Mode::Editing => match event {
            Event::Key(Key::Enter) => Action::Load,
            _ => Action::Redraw,
        },
    }
}

/// The input mode after `event` arrives in `mode`.
pub open spec fn mode_after(mode: Mode, event: Event) -> Mode {
    match mode {
        Mode::Normal => if event == Event::Key(Key::Char(INPUT)) {
            Mode::Editing
        } else {
            Mode::Normal
        },
        Mode::Editing => if event == Event::Key(Key::Enter) || event == Event::Key(Key::Esc) {
            Mode::Normal
        } else {
            Mode::Editing
        },
    }
}

/// The text line after `event` arrives in `mode`: in editing mode a character
/// is appended and backspace removes the last one.
pub open spec fn input_after(mode: Mode, input: Seq<char>, event: Event) -> Seq<char> {
    match mode {
        Mode::Normal => input,
        Mode::Editing => match event {
            Event::Key(Key::Char(c)) => input.push(c),
            Event::Key(Key::Backspace) => if input.len() > 0 {
                input.drop_last()
            } else {
                input
            },
            _ => input,
        },
    }
}

/// The grid on display, the input mode and the text line.
pub struct Screen {
    game: Game,
    mode: Mode,
    input: Vec<char>,
}

impl Screen {
    /// The grid on display is well formed.
    pub closed spec fn wf(&self) -> bool {
        self.game.wf()
    }

    /// The grid on display.
    pub closed spec fn game_state(&self) -> Game {
        self.game
    }

    /// The current input mode.
    pub closed spec fn mode_state(&self) -> Mode {
        self.mode
    }

    /// The text line.
    pub closed spec fn input_state(&self) -> Seq<char> {
        self.input@
    }

    /// A screen showing `game`, in normal mode, with an empty text line.
    pub fn new(game: Game) -> (s: Screen)
        requires
            game.wf(),
        ensures
            s.wf(),
            s.game_state() == game,
            s.mode_state() == Mode::Normal,
            s.input_state() == Seq::<char>::empty(),
    {
        Screen { game, mode: Mode::Normal, input: Vec::new() }
    }

    /// The grid on display.
    pub fn game(&self) -> (g: &Game)
        ensures
            *g == self.game_state(),
            self.wf() ==> g.wf(),
    {
        &self.game
    }

    /// The current input mode.
    pub fn mode(&self) -> (m: Mode)
        ensures
            m == self.mode_state(),
    {
        self.mode
    }

    /// The text line.
    pub fn input(&self) -> (t: &Vec<char>)
        ensures
            t@ == self.input_state(),
    {
        &self.input
    }

    /// Handles one input event and says what the terminal loop does next.
    ///
    /// In normal mode the next-generation key advances the grid and the
    /// generate key fills it anew at random; no other event touches the grid.
    pub fn handle_event(&mut self, event: Event) -> (r: Action)
        requires
            old(self).wf(),
        ensures
            final(self).wf(),
            r == action_for(old(self).mode_state(), event),
            final(self).mode_state() == mode_after(old(self).mode_state(), event),
            final(self).input_state() == input_after(
                old(self).mode_state(),
                old(self).input_state(),
                event,
            ),
            final(self).game_state().width == old(self).game_state().width,
            final(self).game_state().height == old(self).game_state().height,
            old(self).mode_state() == Mode::Normal && event == Event::Key(Key::Char(NEXT))
                ==> final(self).game_state().cells@ == old(self).game_state().next_cells(),
            !(old(self).mode_state() == Mode::Normal && (event == Event::Key(Key::Char(NEXT))
                || event == Event::Key(Key::Char(GENERATE)))) ==> final(self).game_state()
                == old(self).game_state(),
    {
        match self.mode {
            Mode::Normal => match event {
                Event::Key(Key::Char(c)) => {
                    if c == QUIT {
                        Action::Quit
                    } else if c == GENERATE {
                        self.game.generate();
                        Action::Redraw
                    } else if c == NEXT {
                        self.game.next_gen();
                        Action::Redraw
                    } else if c == INPUT {
                        self.mode = Mode::Editing;
                        Action::Redraw
                    } else if c == ANIMATE {
                        Action::Animate
                    } else {
                        Action::Nothing
                    }
                },
                Event::Resize => Action::Redraw,
                _ => Action::Nothing,
            },
            Mode::Editing => match event {
                Event::Key(Key::Enter) => {
                    self.mode = Mode::Normal;
                    Action::Load
                },
                Event::Key(Key::Char(c)) => {
                    self.input.push(c);
                    Action::Redraw
                },
                Event::Key(Key::Backspace) => {
                    self.input.pop();
                    Action::Redraw
                },
                Event::Key(Key::Esc) => {
                    self.mode = Mode::Normal;
                    Action::Redraw
                },
                _ => Action::Redraw,
            },
        }
    }

    /// Takes the outcome of loading the pattern file named by the text line:
    /// a grid replaces the one on display; a failure replaces the text line
    /// with a message.
    pub fn finish_load(&mut self, loaded: Option<Game>)
        requires
            old(self).wf(),
            loaded matches Some(g) ==> g.wf(),
        ensures
            final(self).wf(),
            final(self).mode_state() == old(self).mode_state(),
            loaded matches Some(g) ==> final(self).game_state() == g && final(self).input_state()
                == old(self).input_state(),
            loaded is None ==> final(self).game_state() == old(self).game_state()
                && final(self).input_state() == not_found_message(),
    {
        match loaded {
            Some(g) => {
                self.game = g;
            },
            None => {
                self.input = vec!['F', 'i', 'l', 'e', ' ', 'n', 'o', 't', ' ', 'f', 'o', 'u', 'n', 'd', '.'];
                assert(self.input@ =~= not_found_message());
            },
        }
    }

    /// What an event does to a running animation: the stop key ends it, the
    /// quit key ends the program, anything else lets it run on.
    pub fn animation_event(event: Event) -> (r: Animation)
        ensures
            r == (if event == Event::Key(Key::Char(STOP_ANIMATION)) {
                Animation::Stop
            } else if event == Event::Key(Key::Char(QUIT)) {
                Animation::Quit
            } else {
                Animation::Continue
            }),
    {
        match event {
            Event::Key(Key::Char(c)) => {
                if c == STOP_ANIMATION {
                    Animation::Stop
                } else if c == QUIT {
                    Animation::Quit
                } else {
                    Animation::Continue
                }
            },
            _ => Animation::Continue,
        }
    }

    /// Advances the grid by one generation.
    pub fn step(&mut self)
        requires
            old(self).wf(),
        ensures
            final(self).wf(),
            final(self).game_state().width == old(self).game_state().width,
            final(self).game_state().height == old(self).game_state().height,
            final(self).game_state().cells@ == old(self).game_state().next_cells(),
            final(self).mode_state() == old(self).mode_state(),
            final(self).input_state() == old(self).input_state(),
    {
        self.game.next_gen();
    }
}

} // verus!
