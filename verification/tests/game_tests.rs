use atc::command::{CommandCondition, CommandType};
use atc::errors::{MapError, ObjectPlacementError};
use atc::game::{App, KeyCode, KeyEvent, KeyModifiers};
use atc::map::{GameMap, Line};
use atc::object::Object;
use atc::plane::Plane;
use atc::util::{Direction, Point};

fn session() -> App {
    let objects = vec![
        Object::Airport { position: Point(1, 1), direction: Direction::North, label: None },
        Object::Beacon { position: Point(2, 2), label: None },
        Object::Airport { position: Point(3, 3), direction: Direction::East, label: None },
        Object::Exit { position: Point(0, 3), direction: Direction::West, label: None },
    ];
    let lines = vec![Line(Point(1, 1), Point(5, 5))];
    let map = GameMap::new(10, 8, 0.5f32.to_bits(), 1.5f32.to_bits(), objects, lines);
    assert!(map.fits_labels());
    App::new(map).unwrap()
}

fn key(ch: char) -> KeyEvent {
    KeyEvent { code: KeyCode::Char(ch), modifiers: KeyModifiers::Plain }
}

fn plain(code: KeyCode) -> KeyEvent {
    KeyEvent { code, modifiers: KeyModifiers::Plain }
}

fn control(ch: char) -> KeyEvent {
    KeyEvent { code: KeyCode::Char(ch), modifiers: KeyModifiers::Control }
}

fn type_keys(app: &mut App, keys: &str) {
    for ch in keys.chars() {
        assert!(!app.handle_event(key(ch)));
    }
}

#[test]
fn a_session_starts_on_a_labelled_map() {
    let app = session();
    assert_eq!(app.dimensions(), (&10, &8));
    assert_eq!(f32::from_bits(*app.tick_rate()), 1.5);
    assert_eq!(app.current_tick(), 0);
    assert_eq!(app.cur_command(), "");
    assert!(app.planes().is_empty());
    let labels: Vec<Option<&u8>> = app.map().objects().iter().map(|o| o.label()).collect();
    assert_eq!(labels, vec![Some(&0), Some(&0), Some(&1), Some(&0)]);
}

#[test]
fn a_map_that_breaks_a_rule_starts_no_session() {
    let map = GameMap::new(4, 8, 0.5f32.to_bits(), 1.0f32.to_bits(), vec![], vec![]);
    assert_eq!(App::new(map).unwrap_err(), MapError::InvalidSize(4, 8));

    let objects = vec![
        Object::Beacon { position: Point(2, 2), label: None },
        Object::Exit { position: Point(0, 3), direction: Direction::East, label: None },
        Object::Exit { position: Point(0, 4), direction: Direction::East, label: None },
    ];
    let map = GameMap::new(10, 8, 0.5f32.to_bits(), 1.0f32.to_bits(), objects, vec![]);
    let error = App::new(map).unwrap_err();
    assert_eq!(
        error,
        MapError::ObjectPlacement(ObjectPlacementError::InvalidDirection(Object::Exit {
            position: Point(0, 3),
            direction: Direction::East,
            label: Some(0),
        }))
    );
    assert!(error.is_labelled());
    assert_eq!(error.describe(""), "object placement error: exit 0 is facing an invalid direction");
}

#[test]
fn keys_build_the_command() {
    let mut app = session();
    type_keys(&mut app, "a1c9");
    assert_eq!(app.cur_command(), "a: climb 9000 feet");
    assert!(!app.handle_event(plain(KeyCode::Backspace)));
    assert_eq!(app.cur_command(), "a: climb");
    assert!(!app.handle_event(control('h')));
    assert_eq!(app.cur_command(), "a:");
    type_keys(&mut app, "m");
    assert_eq!(app.cur_command(), "a: mark");
    let shifted = KeyEvent { code: KeyCode::Backspace, modifiers: KeyModifiers::Other };
    assert!(!app.handle_event(shifted));
    assert_eq!(app.cur_command(), "a:");
    type_keys(&mut app, "tw");
    assert!(!app.handle_event(plain(KeyCode::Esc)));
    assert_eq!(app.cur_command(), "");
}

#[test]
fn modified_and_other_keys_are_ignored() {
    let mut app = session();
    type_keys(&mut app, "a");
    for event in [
        KeyEvent { code: KeyCode::Char('t'), modifiers: KeyModifiers::Other },
        KeyEvent { code: KeyCode::Char('t'), modifiers: KeyModifiers::Control },
        KeyEvent { code: KeyCode::Other, modifiers: KeyModifiers::Plain },
        KeyEvent { code: KeyCode::Other, modifiers: KeyModifiers::Control },
        KeyEvent { code: KeyCode::Char('h'), modifiers: KeyModifiers::Other },
        KeyEvent { code: KeyCode::Char('c'), modifiers: KeyModifiers::Other },
    ] {
        assert!(!app.handle_event(event));
        assert_eq!(app.cur_command(), "a:");
    }
}

#[test]
fn control_c_quits_and_changes_nothing() {
    let mut app = session();
    type_keys(&mut app, "ac");
    assert!(app.handle_event(control('c')));
    assert_eq!(app.cur_command(), "a: climb");
    assert!(!app.handle_event(key('c')));
    assert_eq!(app.cur_command(), "a: climb");
}

#[test]
fn enter_queues_the_command_for_its_plane() {
    let mut app = session();
    app.add_plane(Plane::new(Point(1, 1), Direction::North, 'b'));
    app.add_plane(Plane::new(Point(2, 1), Direction::North, 'a'));
    app.add_plane(Plane::new(Point(3, 1), Direction::North, 'a'));
    app.tick();
    app.tick();
    assert_eq!(app.current_tick(), 2);

    type_keys(&mut app, "ad3aa1");
    assert!(!app.handle_event(plain(KeyCode::Enter)));
    assert_eq!(app.cur_command(), "");
    assert!(app.planes()[0].commands().is_empty());
    assert!(app.planes()[2].commands().is_empty());
    let queued = app.planes()[1].commands();
    assert_eq!(queued.len(), 1);
    assert_eq!(*queued[0].command_type(), CommandType::Dive(3));
    assert_eq!(queued[0].command_condition(), Some(&CommandCondition::ArriveAirport(1)));
    assert_eq!(*queued[0].tick(), 2);

    app.tick();
    type_keys(&mut app, "atx");
    assert!(!app.handle_event(KeyEvent { code: KeyCode::Enter, modifiers: KeyModifiers::Control }));
    let queued = app.planes()[1].commands();
    assert_eq!(queued.len(), 2);
    assert_eq!(*queued[1].command_type(), CommandType::Turn(Direction::South));
    assert_eq!(*queued[1].tick(), 3);
}

#[test]
fn enter_discards_what_does_not_resolve() {
    let mut app = session();
    app.add_plane(Plane::new(Point(1, 1), Direction::North, 'a'));
    for keys in ["", "a", "at", "atwa", "ad3aa2", "ad3ab1", "btw"] {
        type_keys(&mut app, keys);
        assert!(!app.handle_event(plain(KeyCode::Enter)));
        assert_eq!(app.cur_command(), "", "{keys}");
        assert!(app.planes()[0].commands().is_empty(), "{keys}");
    }
}
