use atc::command::{is_direction, to_digit, Command, CommandCondition, CommandType, CommandWriter};
use atc::grammar::EntryState;
use atc::object::Object;
use atc::plane::{MarkStatus, Plane};
use atc::util::{Direction, NoMatchError, Point, DIRECTION_CHARS};

fn typed(keys: &str) -> CommandWriter {
    let mut writer = CommandWriter::new();
    for key in keys.chars() {
        writer.push(key);
    }
    writer
}

fn planes(labels: &str) -> Vec<Plane> {
    labels.chars().map(|label| Plane::new(Point(1, 1), Direction::North, label)).collect()
}

fn airport(x: u16, label: u8) -> Object {
    Object::Airport { position: Point(x, 1), direction: Direction::North, label: Some(label) }
}

fn beacon(x: u16, label: u8) -> Object {
    Object::Beacon { position: Point(x, 2), label: Some(label) }
}

#[test]
fn turn_north_resolves_without_condition() {
    let writer = typed("atw");
    let (command, plane) = writer.build(&planes("a"), &[], 0).unwrap();
    assert_eq!(plane, 'a');
    assert_eq!(*command.command_type(), CommandType::Turn(Direction::North));
    assert_eq!(command.command_condition(), None);
}

#[test]
fn climb_five_resolves_without_condition() {
    let writer = typed("ac5");
    let (command, plane) = writer.build(&planes("a"), &[], 3).unwrap();
    assert_eq!(plane, 'a');
    assert_eq!(*command.command_type(), CommandType::Climb(5));
    assert_eq!(command.command_condition(), None);
    assert_eq!(*command.tick(), 3);
}

#[test]
fn mark_resolves_with_placeholder() {
    let writer = typed("am");
    assert_eq!(writer.to_string(), "a: mark");
    let (command, plane) = writer.build(&planes("a"), &[], 0).unwrap();
    assert_eq!(plane, 'a');
    assert_eq!(*command.command_type(), CommandType::ChangeMark(MarkStatus::Marked));
    assert_eq!(command.command_condition(), None);
}

#[test]
fn unmark_and_ignore_resolve() {
    let (command, _) = typed("au").build(&planes("a"), &[], 0).unwrap();
    assert_eq!(*command.command_type(), CommandType::ChangeMark(MarkStatus::Unmarked));
    let (command, _) = typed("ai").build(&planes("a"), &[], 0).unwrap();
    assert_eq!(*command.command_type(), CommandType::ChangeMark(MarkStatus::Ignored));
}

#[test]
fn dive_at_airport_needs_the_airport() {
    let objects = vec![airport(1, 0), airport(2, 1), airport(3, 2)];
    let (command, plane) = typed("ad3aa2").build(&planes("a"), &objects, 9).unwrap();
    assert_eq!(plane, 'a');
    assert_eq!(*command.command_type(), CommandType::Dive(3));
    assert_eq!(command.command_condition(), Some(&CommandCondition::ArriveAirport(2)));
    assert_eq!(*command.tick(), 9);

    let fewer = vec![airport(1, 0), airport(2, 1)];
    assert!(typed("ad3aa2").build(&planes("a"), &fewer, 9).is_none());
}

#[test]
fn arrival_looks_at_the_variant_of_the_object() {
    let objects = vec![beacon(1, 2), airport(2, 0)];
    assert!(typed("ad3aa2").build(&planes("a"), &objects, 0).is_none());
    let (command, _) = typed("ad3ab2").build(&planes("a"), &objects, 0).unwrap();
    assert_eq!(command.command_condition(), Some(&CommandCondition::ArriveBeacon(2)));
    assert!(typed("ad3ab0").build(&planes("a"), &objects, 0).is_none());
}

#[test]
fn arrival_ignores_objects_without_label() {
    let objects = vec![Object::Beacon { position: Point(1, 1), label: None }];
    assert!(typed("atwab0").build(&planes("a"), &objects, 0).is_none());
}

#[test]
fn delay_is_a_two_digit_number() {
    let (command, _) = typed("ac9i23").build(&planes("a"), &[], 0).unwrap();
    assert_eq!(*command.command_type(), CommandType::Climb(9));
    assert_eq!(command.command_condition(), Some(&CommandCondition::Delay(23)));
    let (command, _) = typed("ac9i05").build(&planes("a"), &[], 0).unwrap();
    assert_eq!(command.command_condition(), Some(&CommandCondition::Delay(5)));
    let (command, _) = typed("ac9i99").build(&planes("a"), &[], 0).unwrap();
    assert_eq!(command.command_condition(), Some(&CommandCondition::Delay(99)));
}

#[test]
fn unknown_plane_resolves_to_nothing() {
    assert!(typed("atw").build(&planes("bc"), &[], 0).is_none());
    assert!(typed("atw").build(&[], &[], 0).is_none());
    assert!(typed("ctw").build(&planes("bc"), &[], 0).is_some());
}

#[test]
fn incomplete_buffers_resolve_to_nothing() {
    for keys in ["", "a", "at", "atwa", "atwab", "ac5i", "ac5i1"] {
        assert!(typed(keys).build(&planes("a"), &[beacon(1, 0)], 0).is_none(), "{keys}");
    }
}

#[test]
fn every_direction_key_turns() {
    let expected = [
        ('w', Direction::North),
        ('e', Direction::Northeast),
        ('d', Direction::East),
        ('c', Direction::Southeast),
        ('x', Direction::South),
        ('z', Direction::Southwest),
        ('a', Direction::West),
        ('q', Direction::Northwest),
    ];
    for (key, direction) in expected {
        let mut writer = typed("at");
        writer.push(key);
        let (command, _) = writer.build(&planes("a"), &[], 0).unwrap();
        assert_eq!(*command.command_type(), CommandType::Turn(direction));
        assert_eq!(Direction::try_from(key), Ok(direction));
    }
}

#[test]
fn first_key_must_be_alphabetic() {
    for key in ['1', '_', ' ', ':', '\n'] {
        let mut writer = CommandWriter::new();
        writer.push(key);
        assert_eq!(writer.to_string(), "");
    }
    for key in ['a', 'Z', 'é', 'ß'] {
        let mut writer = CommandWriter::new();
        writer.push(key);
        assert_eq!(writer.to_string(), format!("{key}:"));
    }
}

#[test]
fn push_as_trusts_its_caller_for_the_label() {
    let mut writer = CommandWriter::new();
    writer.push_as('a', false);
    assert_eq!(writer.to_string(), "");
    writer.push_as('1', true);
    assert_eq!(writer.to_string(), "1:");
    writer.push_as('t', false);
    assert_eq!(writer.to_string(), "1: turn");
}

#[test]
fn a_label_of_several_bytes_is_one_position() {
    let mut writer = typed("éc7");
    assert_eq!(writer.to_string(), "é: climb 7000 feet");
    writer.pop();
    assert_eq!(writer.to_string(), "é: climb");
    let (command, plane) = typed("éc7").build(&planes("é"), &[], 0).unwrap();
    assert_eq!(plane, 'é');
    assert_eq!(*command.command_type(), CommandType::Climb(7));
}

#[test]
fn keys_outside_the_table_change_nothing() {
    let cases = [
        ("a", "xq1_ aAT"),
        ("at", "0123456789stmui_W"),
        ("ac", "qweadzxc_a"),
        ("ad", "w_"),
        ("atw", "bt0_cd"),
        ("am", "bt0_cd"),
        ("atwa", "cit0_"),
        ("atwi", "abx_"),
        ("atwaa", "abx_i"),
        ("atwab", "abx_i"),
        ("atwi1", "abx_i"),
        ("atwab1", "abcdefghijklmnopqrstuvwxyz0123456789_"),
        ("ac5i12", "abcdefghijklmnopqrstuvwxyz0123456789_"),
    ];
    for (prefix, keys) in cases {
        for key in keys.chars() {
            let mut writer = typed(prefix);
            let before = writer.to_string();
            writer.push(key);
            assert_eq!(writer.to_string(), before, "{prefix} then {key}");
        }
    }
}

#[test]
fn every_step_extends_by_one_key() {
    let steps = ["b:", "b: dive", "b: dive 4000 feet", "b: dive 4000 feet at",
        "b: dive 4000 feet at beacon:", "b: dive 4000 feet at beacon: 7"];
    let mut writer = CommandWriter::new();
    for (key, expected) in "bd4ab7".chars().zip(steps) {
        writer.push(key);
        assert_eq!(writer.to_string(), expected);
    }
}

#[test]
fn backspace_takes_kind_and_placeholder_together() {
    for kind in ['m', 'u', 'i'] {
        let mut writer = typed("a");
        let before = writer.to_string();
        writer.push(kind);
        assert_ne!(writer.to_string(), before);
        writer.pop();
        assert_eq!(writer.to_string(), before);
        writer.push('t');
        assert_eq!(writer.to_string(), "a: turn");
    }
}

#[test]
fn backspace_undoes_each_key() {
    let keys = "ac9i23";
    for n in 1..=keys.len() {
        let mut writer = typed(&keys[..n - 1]);
        let before = writer.to_string();
        writer.push(keys[n - 1..].chars().next().unwrap());
        writer.pop();
        assert_eq!(writer.to_string(), before);
    }
    let mut writer = CommandWriter::new();
    writer.pop();
    assert_eq!(writer.to_string(), "");
}

#[test]
fn clear_empties_the_buffer() {
    for keys in ["", "a", "am", "ac9i23"] {
        let mut writer = typed(keys);
        writer.clear();
        assert_eq!(writer.to_string(), "");
        writer.push('z');
        assert_eq!(writer.to_string(), "z:");
    }
}

#[test]
fn default_writer_is_empty() {
    let writer = CommandWriter::default();
    assert_eq!(writer.to_string(), "");
    assert!(writer.build(&planes("a"), &[], 0).is_none());
}

#[test]
fn phrases_read_as_sentences() {
    assert_eq!(typed("ac9i23").to_string(), "a: climb 9000 feet in 23 seconds");
    assert_eq!(typed("bd0i05").to_string(), "b: dive 0000 feet in 05 seconds");
    assert_eq!(typed("btwab2").to_string(), "b: turn north at beacon: 2");
    assert_eq!(typed("btcaa0").to_string(), "b: turn southeast at airport: 0");
    assert_eq!(typed("cm").to_string(), "c: mark");
    assert_eq!(typed("cu").to_string(), "c: unmark");
    assert_eq!(typed("ci").to_string(), "c: ignore");
    assert_eq!(typed("cmi1").to_string(), "c: mark in 1");
    assert_eq!(typed("cua").to_string(), "c: unmark at");
    assert_eq!(typed("ctq").to_string(), "c: turn northwest");
    assert_eq!(typed("cte").to_string(), "c: turn northeast");
    assert_eq!(typed("ctz").to_string(), "c: turn southwest");
    assert_eq!(typed("ctd").to_string(), "c: turn east");
    assert_eq!(typed("cta").to_string(), "c: turn west");
    assert_eq!(typed("ctx").to_string(), "c: turn south");
}

#[test]
fn digits_have_their_values() {
    for (value, ch) in "0123456789".chars().enumerate() {
        assert_eq!(to_digit(ch), Some(value as u8));
    }
    for ch in ['a', '/', ':', ' ', '٣', 'A', 'f'] {
        assert_eq!(to_digit(ch), None);
    }
}

#[test]
fn direction_keys_are_the_keypad() {
    for ch in DIRECTION_CHARS {
        assert!(is_direction(ch));
        assert!(Direction::try_from(ch).is_ok());
    }
    for ch in ['s', 'W', '1', ' ', 'b', 'é'] {
        assert!(!is_direction(ch));
        assert_eq!(Direction::try_from(ch), Err(NoMatchError));
    }
}

#[test]
fn directions_have_names() {
    let names = [
        (Direction::North, "north"),
        (Direction::Northeast, "northeast"),
        (Direction::East, "east"),
        (Direction::Southeast, "southeast"),
        (Direction::South, "south"),
        (Direction::Southwest, "southwest"),
        (Direction::West, "west"),
        (Direction::Northwest, "northwest"),
    ];
    for (direction, name) in names {
        assert_eq!(direction.to_string(), name);
    }
}

#[test]
fn commands_keep_what_they_are_given() {
    let command = Command::new(CommandType::Dive(2), Some(CommandCondition::Delay(40)), 77);
    assert_eq!(*command.command_type(), CommandType::Dive(2));
    assert_eq!(command.command_condition(), Some(&CommandCondition::Delay(40)));
    assert_eq!(*command.tick(), 77);
}

#[test]
fn planes_queue_commands_in_order() {
    let mut plane = Plane::new(Point(3, 4), Direction::East, 'k');
    assert_eq!(*plane.label(), 'k');
    assert!(plane.commands().is_empty());
    let first = Command::new(CommandType::Climb(1), None, 1);
    let second = Command::new(CommandType::Turn(Direction::West), None, 2);
    plane.push_command(first);
    plane.push_command(second);
    assert_eq!(plane.commands(), &[first, second]);
}

#[test]
fn commands_read_as_phrases() {
    let phrase = |command_type, condition| Command::new(command_type, condition, 0).to_string();
    assert_eq!(phrase(CommandType::Climb(9), None), "climb 9000 feet");
    assert_eq!(phrase(CommandType::Dive(0), None), "dive 0000 feet");
    assert_eq!(phrase(CommandType::Climb(12), None), "climb 12000 feet");
    assert_eq!(phrase(CommandType::Turn(Direction::Southwest), None), "turn southwest");
    assert_eq!(phrase(CommandType::ChangeMark(MarkStatus::Marked), None), "mark");
    assert_eq!(phrase(CommandType::ChangeMark(MarkStatus::Unmarked), None), "unmark");
    assert_eq!(phrase(CommandType::ChangeMark(MarkStatus::Ignored), None), "ignore");
    assert_eq!(
        phrase(CommandType::Climb(9), Some(CommandCondition::Delay(23))),
        "climb 9000 feet in 23 seconds"
    );
    assert_eq!(
        phrase(CommandType::Turn(Direction::North), Some(CommandCondition::Delay(5))),
        "turn north in 05 seconds"
    );
    assert_eq!(
        phrase(CommandType::Turn(Direction::North), Some(CommandCondition::Delay(0))),
        "turn north in 00 seconds"
    );
    assert_eq!(
        phrase(CommandType::Turn(Direction::North), Some(CommandCondition::Delay(120))),
        "turn north in 120 seconds"
    );
    assert_eq!(
        phrase(CommandType::Dive(1), Some(CommandCondition::ArriveAirport(2))),
        "dive 1000 feet at airport: 2"
    );
    assert_eq!(
        phrase(CommandType::Dive(1), Some(CommandCondition::ArriveBeacon(200))),
        "dive 1000 feet at beacon: 200"
    );
    assert_eq!(CommandType::Dive(7).to_string(), "dive 7000 feet");
    assert_eq!(CommandCondition::ArriveBeacon(3).to_string(), "at beacon: 3");
}

#[test]
fn commands_are_listed_with_tick_and_plane() {
    let command = Command::new(CommandType::Climb(9), Some(CommandCondition::Delay(23)), 0);
    assert_eq!(command.line('a'), "[0] a: climb 9000 feet in 23 seconds");
    let command = Command::new(CommandType::Turn(Direction::East), None, 4_294_967_295);
    assert_eq!(command.line('Z'), "[4294967295] Z: turn east");
    let command = Command::new(CommandType::ChangeMark(MarkStatus::Ignored), None, 1070);
    assert_eq!(command.line('é'), "[1070] é: ignore");
}

#[test]
fn a_resolved_command_reads_as_its_buffer_did() {
    let objects = vec![airport(1, 0), beacon(1, 0), beacon(2, 7)];
    for keys in [
        "atw", "atq", "ac0", "ac9", "ad5", "am", "au", "ai", "atxaa0", "ac3ab7", "ad9i00",
        "ami07", "aui10", "aii99", "amab0", "ateaa0",
    ] {
        let shown = typed(keys).to_string();
        let (command, plane) = typed(keys).build(&planes("a"), &objects, 0).unwrap();
        assert_eq!(shown, format!("{plane}: {}", command.to_string()), "{keys}");
    }
}

#[test]
fn the_state_follows_the_keys() {
    let states = [
        ("", EntryState::AwaitingPlane),
        ("a", EntryState::AwaitingKind),
        ("at", EntryState::AwaitingArg),
        ("atw", EntryState::AwaitingConditionStart),
        ("am", EntryState::AwaitingConditionStart),
        ("atwa", EntryState::AwaitingConditionTarget),
        ("atwab", EntryState::AwaitingConditionValue),
        ("atwab1", EntryState::Complete),
        ("atwi12", EntryState::Complete),
    ];
    for (keys, state) in states {
        assert_eq!(typed(keys).state(), state, "{keys}");
    }
    let mut writer = typed("atwab1");
    writer.pop();
    assert_eq!(writer.state(), EntryState::AwaitingConditionValue);
    writer.clear();
    assert_eq!(writer.state(), EntryState::AwaitingPlane);
}
