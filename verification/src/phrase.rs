//! How a command buffer reads to the player: `a: climb 9000 feet in 23
//! seconds`, `b: turn north at beacon: 2`, `c: mark`.
//!
//! Every character of the buffer contributes one part of the phrase, in
//! order, so the phrase of a longer buffer begins with the phrase of each
//! of its prefixes. A resolved command reads as the buffer did that it was
//! resolved from.

use vstd::prelude::*;
use crate::command::{CommandCondition, CommandType, CommandView};
use crate::grammar::{argument_fits, digit_value, is_digit, is_mark_kind, target_fits};
use crate::grammar::{well_formed, PLACEHOLDER};
use crate::object::Object;
use crate::plane::{MarkStatus, PlaneView};
use crate::resolve::{decode_condition, decode_type, resolve};
use crate::text::{decimal, digit_char};
use crate::util::Direction;

verus! {

/// The words for the kind of a command.
pub open spec fn kind_part(kind: char) -> Seq<char> {
    if kind == 'c' {
        " climb"@
    } else if kind == 'd' {
        " dive"@
    } else if kind == 't' {
        " turn"@
    } else if kind == 'm' {
        " mark"@
    } else if kind == 'u' {
        " unmark"@
    } else if kind == 'i' {
        " ignore"@
    } else {
        Seq::empty()
    }
}

/// The words for the argument of a command: nothing for the placeholder,
/// the heading's name for a keypad character, the altitude in feet for a
/// digit.
pub open spec fn argument_part(arg: char) -> Seq<char> {
    if arg == PLACEHOLDER {
        Seq::empty()
    } else if let Some(direction) = Direction::from_key(arg) {
        seq![' '] + direction.name()
    } else if is_digit(arg) {
        seq![' ', arg] + "000 feet"@
    } else {
        Seq::empty()
    }
}

/// The word that opens a condition.
pub open spec fn condition_part(start: char) -> Seq<char> {
    if start == 'i' {
        " in"@
    } else if start == 'a' {
        " at"@
    } else {
        Seq::empty()
    }
}

/// The words for the target of a condition: the kind of object to arrive
/// at, or the tens digit of a delay.
pub open spec fn target_part(target: char) -> Seq<char> {
    if target == 'a' {
        " airport:"@
    } else if target == 'b' {
        " beacon:"@
    } else if is_digit(target) {
        seq![' ', target]
    } else {
        Seq::empty()
    }
}

/// The words for the last character of a condition: after the tens digit
/// of a delay its ones digit and the unit, after a kind of object the
/// object's label.
pub open spec fn value_part(target: char, value: char) -> Seq<char> {
    if !is_digit(value) {
        Seq::empty()
    } else if is_digit(target) {
        seq![value] + " seconds"@
    } else {
        seq![' ', value]
    }
}

/// What the character at position `i` of `buf` adds to the phrase.
pub open spec fn part(buf: Seq<char>, i: int) -> Seq<char>
    recommends
        0 <= i < buf.len(),
{
    if i == 0 {
        seq![buf[0], ':']
    } else if i == 1 {
        kind_part(buf[1])
    } else if i == 2 {
        argument_part(buf[2])
    } else if i == 3 {
        condition_part(buf[3])
    } else if i == 4 {
        target_part(buf[4])
    } else if i == 5 {
        value_part(buf[4], buf[5])
    } else {
        Seq::empty()
    }
}

/// The phrase for the first `n` characters of `buf`.
pub open spec fn phrase_of_first(buf: Seq<char>, n: nat) -> Seq<char>
    recommends
        n <= buf.len(),
    decreases n,
{
    if n == 0 {
        Seq::empty()
    } else {
        phrase_of_first(buf, (n - 1) as nat) + part(buf, n - 1)
    }
}

/// The phrase for the buffer `buf`.
pub open spec fn phrase(buf: Seq<char>) -> Seq<char> {
    phrase_of_first(buf, buf.len())
}

/// The numeral of a delay: two digits where two suffice, as they were
/// typed.
pub open spec fn delay_text(seconds: nat) -> Seq<char> {
    if seconds < 10 {
        seq!['0'] + decimal(seconds)
    } else {
        decimal(seconds)
    }
}

/// The words for what a command asks.
pub open spec fn type_phrase(command_type: CommandType) -> Seq<char> {
    match command_type {
        CommandType::Climb(altitude) => "climb "@ + decimal(altitude as nat) + "000 feet"@,
        CommandType::Dive(altitude) => "dive "@ + decimal(altitude as nat) + "000 feet"@,
        CommandType::Turn(direction) => "turn "@ + direction.name(),
        CommandType::ChangeMark(MarkStatus::Marked) => "mark"@,
        CommandType::ChangeMark(MarkStatus::Unmarked) => "unmark"@,
        CommandType::ChangeMark(MarkStatus::Ignored) => "ignore"@,
    }
}

/// The words for the condition of a command.
pub open spec fn condition_phrase(condition: CommandCondition) -> Seq<char> {
    match condition {
        CommandCondition::ArriveAirport(label) => "at airport: "@ + decimal(label as nat),
        CommandCondition::ArriveBeacon(label) => "at beacon: "@ + decimal(label as nat),
        CommandCondition::Delay(seconds) => "in "@ + delay_text(seconds as nat) + " seconds"@,
    }
}

/// The phrase for a command: what it asks, and its condition where it has
/// one.
pub open spec fn command_phrase(command: CommandView) -> Seq<char> {
    match command.command_condition {
        Some(condition) => type_phrase(command.command_type) + seq![' '] + condition_phrase(
            condition,
        ),
        None => type_phrase(command.command_type),
    }
}

/// The line for a command in a list of commands: the tick of its issue in
/// brackets, the label of its aircraft, and its phrase.
pub open spec fn command_line(command: CommandView, plane: char) -> Seq<char> {
    seq!['['] + decimal(command.tick as nat) + seq![']', ' ', plane, ':', ' '] + command_phrase(
        command,
    )
}

/// A digit is the numeral of its value.
pub proof fn lemma_digit_numeral(c: char)
    requires
        is_digit(c),
    ensures
        decimal(digit_value(c) as nat) == seq![c],
        digit_char(digit_value(c) as nat) == c,
{
}

/// The kind and the argument of a command read as the type that they
/// decode to.
proof fn lemma_type_phrase(kind: char, arg: char)
    requires
        argument_fits(kind, arg) || (is_mark_kind(kind) && arg == PLACEHOLDER),
    ensures
        decode_type(kind, arg) is Some,
        kind_part(kind) + argument_part(arg) == seq![' '] + type_phrase(
            decode_type(kind, arg).unwrap(),
        ),
{
    let parts = kind_part(kind) + argument_part(arg);
    let whole = seq![' '] + type_phrase(decode_type(kind, arg).unwrap());
    if kind == 'c' {
        reveal_strlit(" climb");
        reveal_strlit("climb ");
        lemma_digit_numeral(arg);
        assert(parts =~= whole);
    } else if kind == 'd' {
        reveal_strlit(" dive");
        reveal_strlit("dive ");
        lemma_digit_numeral(arg);
        assert(parts =~= whole);
    } else if kind == 't' {
        reveal_strlit(" turn");
        reveal_strlit("turn ");
        assert(parts =~= whole);
    } else if kind == 'm' {
        reveal_strlit(" mark");
        reveal_strlit("mark");
        assert(parts =~= whole);
    } else if kind == 'u' {
        reveal_strlit(" unmark");
        reveal_strlit("unmark");
        assert(parts =~= whole);
    } else {
        reveal_strlit(" ignore");
        reveal_strlit("ignore");
        assert(parts =~= whole);
    }
}

/// The three characters of a condition read as the condition that they
/// decode to.
proof fn lemma_condition_phrase(start: char, target: char, value: char)
    requires
        start == 'a' || start == 'i',
        target_fits(start, target),
        is_digit(value),
    ensures
        decode_condition(start, target, value) is Some,
        condition_part(start) + target_part(target) + value_part(target, value) == seq![' ']
            + condition_phrase(decode_condition(start, target, value).unwrap()),
{
    let parts = condition_part(start) + target_part(target) + value_part(target, value);
    let whole = seq![' '] + condition_phrase(decode_condition(start, target, value).unwrap());
    lemma_digit_numeral(value);
    if start == 'a' && target == 'a' {
        reveal_strlit(" at");
        reveal_strlit(" airport:");
        reveal_strlit("at airport: ");
        assert(parts =~= whole);
    } else if start == 'a' {
        reveal_strlit(" at");
        reveal_strlit(" beacon:");
        reveal_strlit("at beacon: ");
        assert(parts =~= whole);
    } else {
        reveal_strlit(" in");
        reveal_strlit("in ");
        lemma_digit_numeral(target);
        let seconds = (digit_value(target) * 10 + digit_value(value)) as nat;
        assert(delay_text(seconds) =~= seq![target, value]) by {
            if digit_value(target) != 0 {
                assert(seconds / 10 == digit_value(target) as nat);
                assert(seconds % 10 == digit_value(value) as nat);
            }
        }
        assert(parts =~= whole);
    }
}

/// What is seen is what is resolved: a command reads as the buffer did
/// that it was resolved from, after the label of its aircraft.
pub proof fn lemma_phrase_of_resolved(
    buf: Seq<char>,
    planes: Seq<PlaneView>,
    objects: Seq<Object>,
    tick: u32,
)
    requires
        well_formed(buf),
        resolve(buf, planes, objects, tick) is Some,
    ensures
        phrase(buf) == seq![buf[0], ':'] + seq![' '] + command_phrase(
            resolve(buf, planes, objects, tick).unwrap().0,
        ),
{
    let command = resolve(buf, planes, objects, tick).unwrap().0;
    reveal_with_fuel(phrase_of_first, 7);
    lemma_type_phrase(buf[1], buf[2]);
    let label = seq![buf[0], ':'];
    let first = kind_part(buf[1]) + argument_part(buf[2]);
    assert(phrase_of_first(buf, 3) =~= label + first);
    if buf.len() == 6 {
        lemma_condition_phrase(buf[3], buf[4], buf[5]);
        let second = condition_part(buf[3]) + target_part(buf[4]) + value_part(buf[4], buf[5]);
        assert(phrase(buf) =~= label + first + second);
        assert(phrase(buf) =~= label + seq![' '] + command_phrase(command));
    } else {
        assert(phrase(buf) =~= label + seq![' '] + command_phrase(command));
    }
}

} // verus!
