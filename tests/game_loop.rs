use roguelike::color::white;
use roguelike::game::{handle_keys, Command, Event, Game, Key, KeyCode, LoopState, Session};
use roguelike::map::make_map;
use roguelike::object::Object;

fn game() -> Game {
    Game { map: make_map() }
}

fn key(code: KeyCode, alt: bool) -> Key {
    Key { code, alt }
}

#[test]
fn escape_exits_wherever_the_player_stands() {
    let g = game();
    for &(x, y) in &[(40, 25), (0, 0), (29, 22), (79, 44)] {
        for &alt in &[false, true] {
            let mut p = Object::new(x, y, '@', white());
            let mut s = Session::new();
            s.step(Event::KeyPressed(key(KeyCode::Escape, alt)), &g, &mut p);
            assert_eq!(s.state, LoopState::Exiting);
            assert_eq!((p.x, p.y), (x, y));
        }
    }
}

#[test]
fn alt_enter_toggles_fullscreen() {
    let g = game();
    let mut p = Object::new(40, 25, '@', white());
    let mut s = Session::new();
    assert!(!s.fullscreen);
    s.step(Event::KeyPressed(key(KeyCode::Enter, true)), &g, &mut p);
    assert!(s.fullscreen);
    assert_eq!(s.state, LoopState::Running);
    assert_eq!((p.x, p.y), (40, 25));
    s.step(Event::KeyPressed(key(KeyCode::Enter, true)), &g, &mut p);
    assert!(!s.fullscreen);
    assert_eq!(s.state, LoopState::Running);
    assert_eq!((p.x, p.y), (40, 25));
}

#[test]
fn plain_enter_does_nothing() {
    let g = game();
    let mut p = Object::new(40, 25, '@', white());
    let mut s = Session::new();
    s.step(Event::KeyPressed(key(KeyCode::Enter, false)), &g, &mut p);
    assert!(!s.fullscreen);
    assert_eq!(s.state, LoopState::Running);
    assert_eq!((p.x, p.y), (40, 25));
}

#[test]
fn window_closed_exits_without_a_key() {
    let g = game();
    let mut p = Object::new(40, 25, '@', white());
    let mut s = Session { state: LoopState::Running, fullscreen: true };
    s.step(Event::WindowClosed, &g, &mut p);
    assert_eq!(s.state, LoopState::Exiting);
    assert!(s.fullscreen);
    assert_eq!((p.x, p.y), (40, 25));
}

#[test]
fn arrow_keys_move_one_cell() {
    let g = game();
    let mut p = Object::new(40, 25, '@', white());
    assert_eq!(handle_keys(key(KeyCode::Up, false), &g, &mut p), Command::Continue);
    assert_eq!((p.x, p.y), (40, 24));
    assert_eq!(handle_keys(key(KeyCode::Down, false), &g, &mut p), Command::Continue);
    assert_eq!((p.x, p.y), (40, 25));
    assert_eq!(handle_keys(key(KeyCode::Left, true), &g, &mut p), Command::Continue);
    assert_eq!((p.x, p.y), (39, 25));
    assert_eq!(handle_keys(key(KeyCode::Right, false), &g, &mut p), Command::Continue);
    assert_eq!((p.x, p.y), (40, 25));
}

#[test]
fn arrow_into_pillar_is_dropped() {
    let g = game();
    let mut p = Object::new(50, 23, '@', white());
    let mut s = Session::new();
    s.step(Event::KeyPressed(key(KeyCode::Up, false)), &g, &mut p);
    assert_eq!(s.state, LoopState::Running);
    assert_eq!((p.x, p.y), (50, 23));
}

#[test]
fn handle_keys_commands() {
    let g = game();
    let mut p = Object::new(10, 10, '@', white());
    assert_eq!(handle_keys(key(KeyCode::Escape, false), &g, &mut p), Command::Exit);
    assert_eq!(handle_keys(key(KeyCode::Enter, true), &g, &mut p), Command::ToggleFullscreen);
    assert_eq!(handle_keys(key(KeyCode::Enter, false), &g, &mut p), Command::Continue);
    assert_eq!(handle_keys(key(KeyCode::Other, true), &g, &mut p), Command::Continue);
    assert_eq!((p.x, p.y), (10, 10));
}
