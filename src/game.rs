use vstd::prelude::*;
use crate::map::GameMap;
use crate::object::{Object, moved};

verus! {

/// Everything that the turns act on besides the objects.
pub struct Game {
    pub map: GameMap,
}

impl Game {
    pub open spec fn wf(&self) -> bool {
        self.map.wf()
    }
}

/// The keys that the game tells apart.
#[derive(Clone, Copy, Debug, PartialEq, Eq, Structural)]
pub enum KeyCode {
    Enter,
    Escape,
    Up,
    Down,
    Left,
    Right,
    Other,
}

/// One key press: its code and whether Alt was held.
#[derive(Clone, Copy, Debug, PartialEq, Eq, Structural)]
pub struct Key {
    pub code: KeyCode,
    pub alt: bool,
}

/// What the window should do after a key was handled.
#[derive(Clone, Copy, Debug, PartialEq, Eq, Structural)]
pub enum Command {
    Continue,
    ToggleFullscreen,
    Exit,
}

/// The step that an arrow key asks for, `(0, 0)` for any other key.
pub open spec fn key_delta(code: KeyCode) -> (int, int) {
    match code {
        KeyCode::Up => (0, -1),
        KeyCode::Down => (0, 1),
        KeyCode::Left => (-1, 0),
        KeyCode::Right => (1, 0),
        _ => (0, 0),
    }
}

/// Whether `code` is one of the four arrow keys.
pub open spec fn is_arrow(code: KeyCode) -> bool {
    code == KeyCode::Up || code == KeyCode::Down || code == KeyCode::Left || code == KeyCode::Right
}

/// Whether the key is Alt+Enter.
pub open spec fn is_fullscreen_key(key: Key) -> bool {
    key.code == KeyCode::Enter && key.alt
}

/// The command that `key` gives.
pub open spec fn key_command(key: Key) -> Command {
    if is_fullscreen_key(key) {
        Command::ToggleFullscreen
    } else if key.code == KeyCode::Escape {
        Command::Exit
    } else {
        Command::Continue
    }
}

/// The player after `key`: an arrow key tries to step, any other key leaves it.
pub open spec fn player_after(player: Object, key: Key, map: GameMap) -> Object {
    if is_arrow(key.code) {
        moved(player, key_delta(key.code).0, key_delta(key.code).1, map)
    } else {
        player
    }
}

/// Handles one key press: Alt+Enter asks for fullscreen to be toggled,
/// Escape asks to exit, an arrow key moves the player one cell if it can.
pub fn handle_keys(key: Key, game: &Game, player: &mut Object) -> (r: Command)
    requires
        game.wf(),
    ensures
        r == key_command(key),
        *final(player) == player_after(*old(player), key, game.map),
{
    if key.code == KeyCode::Enter && key.alt {
        return Command::ToggleFullscreen;
    }
    match key.code {
        KeyCode::Escape => Command::Exit,
        KeyCode::Up => {
            player.move_by(0, -1, game);
            Command::Continue
        },
        KeyCode::Down => {
            player.move_by(0, 1, game);
            Command::Continue
        },
        KeyCode::Left => {
            player.move_by(-1, 0, game);
            Command::Continue
        },
        KeyCode::Right => {
            player.move_by(1, 0, game);
            Command::Continue
        },
        _ => Command::Continue,
    }
}

/// The two states of the main loop.
#[derive(Clone, Copy, Debug, PartialEq, Eq, Structural)]
pub enum LoopState {
    Running,
    Exiting,
}

/// What wakes the main loop: the window was closed, or a key was pressed.
#[derive(Clone, Copy, Debug, PartialEq, Eq, Structural)]
pub enum Event {
    WindowClosed,
    KeyPressed(Key),
}

/// The state of the main loop together with the window's fullscreen flag.
#[derive(Clone, Copy, Debug, PartialEq, Eq, Structural)]
pub struct Session {
    pub state: LoopState,
    pub fullscreen: bool,
}

impl Session {
    /// A running loop in a window that is not fullscreen.
    pub fn new() -> (s: Session)
        ensures
            s.state == LoopState::Running,
            !s.fullscreen,
    {
        Session { state: LoopState::Running, fullscreen: false }
    }

    /// Advances the loop by one event. Closing the window or pressing Escape
    /// ends it; Alt+Enter flips the fullscreen flag; an arrow key moves the
    /// player when the target cell is open; every other key changes nothing.
    pub fn step(&mut self, event: Event, game: &Game, player: &mut Object)
        requires
            game.wf(),
            old(self).state == LoopState::Running,
        ensures
            event is WindowClosed ==> {
                &&& final(self).state == LoopState::Exiting
                &&& final(self).fullscreen == old(self).fullscreen
                &&& *final(player) == *old(player)
            },
            event matches Event::KeyPressed(key) ==> {
                &&& final(self).state == (if key_command(key) == Command::Exit {
                    LoopState::Exiting
                } else {
                    LoopState::Running
                })
                &&& final(self).fullscreen == (old(self).fullscreen != is_fullscreen_key(key))
                &&& *final(player) == player_after(*old(player), key, game.map)
            },
            event matches Event::KeyPressed(key) && key.code == KeyCode::Escape ==> {
                &&& final(self).state == LoopState::Exiting
                &&& *final(player) == *old(player)
            },
            event matches Event::KeyPressed(key) && is_fullscreen_key(key) ==> {
                &&& final(self).state == LoopState::Running
                &&& final(self).fullscreen == !old(self).fullscreen
                &&& *final(player) == *old(player)
            },
    {
        match event {
            Event::WindowClosed => {
                self.state = LoopState::Exiting;
            },
            Event::KeyPressed(key) => {
                let command = handle_keys(key, game, player);
                match command {
                    Command::Continue => {},
                    Command::ToggleFullscreen => {
                        self.fullscreen = !self.fullscreen;
                    },
                    Command::Exit => {
                        self.state = LoopState::Exiting;
                    },
                }
            },
        }
    }
}

} // verus!
