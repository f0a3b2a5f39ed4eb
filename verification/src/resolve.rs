//! What a finished command buffer means: the model of
//! [`CommandWriter::build`](crate::command::CommandWriter::build).
//!
//! A buffer of three characters is a command without a condition, one of
//! six characters a command with a condition. The first character names the
//! aircraft, which must exist; an arrival names an airport or a beacon by
//! its label, which must exist too. Nothing is resolved in part.

use vstd::prelude::*;
use crate::command::{CommandCondition, CommandType, CommandView};
use crate::grammar::{digit_value, is_digit, valid_prefix, well_formed, PLACEHOLDER};
use crate::object::{Object, ObjectKind};
use crate::plane::{MarkStatus, PlaneView};
use crate::util::Direction;

verus! {

/// The command that the kind `kind` and the argument `arg` stand for.
pub open spec fn decode_type(kind: char, arg: char) -> Option<CommandType> {
    if kind == 't' {
        match Direction::from_key(arg) {
            Some(direction) => Some(CommandType::Turn(direction)),
            None => None,
        }
    } else if kind == 'c' {
        if is_digit(arg) {
            Some(CommandType::Climb(digit_value(arg)))
        } else {
            None
        }
    } else if kind == 'd' {
        if is_digit(arg) {
            Some(CommandType::Dive(digit_value(arg)))
        } else {
            None
        }
    } else if kind == 'm' {
        Some(CommandType::ChangeMark(MarkStatus::Marked))
    } else if kind == 'u' {
        Some(CommandType::ChangeMark(MarkStatus::Unmarked))
    } else if kind == 'i' {
        Some(CommandType::ChangeMark(MarkStatus::Ignored))
    } else {
        None
    }
}

/// The condition that the three characters after the argument stand for.
/// A delay is the two-digit number of its digits.
pub open spec fn decode_condition(start: char, target: char, value: char) -> Option<
    CommandCondition,
> {
    if start == 'a' && target == 'a' && is_digit(value) {
        Some(CommandCondition::ArriveAirport(digit_value(value)))
    } else if start == 'a' && target == 'b' && is_digit(value) {
        Some(CommandCondition::ArriveBeacon(digit_value(value)))
    } else if start == 'i' && is_digit(target) && is_digit(value) {
        Some(CommandCondition::Delay((digit_value(target) * 10 + digit_value(value)) as u8))
    } else {
        None
    }
}

/// Whether one of `planes` has the label `label`.
pub open spec fn has_plane(planes: Seq<PlaneView>, label: char) -> bool {
    exists|i: int| 0 <= i < planes.len() && (#[trigger] planes[i]).label == label
}

/// Whether one of `objects` is of the variant `kind` and has the label
/// `label`. An object without a label has none.
pub open spec fn has_object(objects: Seq<Object>, kind: ObjectKind, label: u8) -> bool {
    exists|i: int|
        0 <= i < objects.len() && (#[trigger] objects[i]).kind() == kind
            && objects[i].spec_label() == Some(label)
}

/// Whether what `condition` refers to is among `objects`. A delay refers to
/// nothing.
pub open spec fn target_exists(condition: CommandCondition, objects: Seq<Object>) -> bool {
    match condition {
        CommandCondition::ArriveAirport(label) => has_object(objects, ObjectKind::Airport, label),
        CommandCondition::ArriveBeacon(label) => has_object(objects, ObjectKind::Beacon, label),
        CommandCondition::Delay(_) => true,
    }
}

/// The command that the buffer `buf` resolves to at the tick `tick`, with
/// the label of the aircraft it is for; `None` where it resolves to none.
pub open spec fn resolve(buf: Seq<char>, planes: Seq<PlaneView>, objects: Seq<Object>, tick: u32)
    -> Option<(CommandView, char)> {
    if buf.len() != 3 && buf.len() != 6 {
        None
    } else if !has_plane(planes, buf[0]) {
        None
    } else {
        match decode_type(buf[1], buf[2]) {
            None => None,
            Some(command_type) => {
                if buf.len() == 3 {
                    Some((CommandView { command_type, command_condition: None, tick }, buf[0]))
                } else {
                    match decode_condition(buf[3], buf[4], buf[5]) {
                        None => None,
                        Some(condition) => {
                            if target_exists(condition, objects) {
                                Some(
                                    (
                                        CommandView {
                                            command_type,
                                            command_condition: Some(condition),
                                            tick,
                                        },
                                        buf[0],
                                    ),
                                )
                            } else {
                                None
                            }
                        },
                    }
                }
            },
        }
    }
}

/// Every well-formed buffer that is long enough decodes: its kind and
/// argument to a command, and the three characters of its condition, where
/// it has them, to a condition.
pub proof fn lemma_well_formed_decodes(buf: Seq<char>)
    requires
        well_formed(buf),
    ensures
        buf.len() >= 3 ==> decode_type(buf[1], buf[2]) is Some,
        buf.len() == 6 ==> decode_condition(buf[3], buf[4], buf[5]) is Some,
{
}

/// A buffer that the grammar accepted resolves to nothing or to a command
/// for the aircraft that its first character names, issued at the given
/// tick, whose type is what the kind and the argument decode to and whose
/// condition is what the rest decodes to. It resolves exactly when it is
/// complete, the aircraft exists, and so does the object of an arrival.
pub proof fn lemma_resolve_sound(
    buf: Seq<char>,
    planes: Seq<PlaneView>,
    objects: Seq<Object>,
    tick: u32,
)
    requires
        valid_prefix(buf),
    ensures
        match resolve(buf, planes, objects, tick) {
            None => true,
            Some((command, label)) => {
                &&& buf.len() == 3 || buf.len() == 6
                &&& label == buf[0]
                &&& has_plane(planes, label)
                &&& command.tick == tick
                &&& Some(command.command_type) == decode_type(buf[1], buf[2])
                &&& buf.len() == 3 ==> command.command_condition is None
                &&& buf.len() == 6 ==> command.command_condition == decode_condition(
                    buf[3],
                    buf[4],
                    buf[5],
                ) && command.command_condition is Some
            },
        },
        resolve(buf, planes, objects, tick) is Some <==> {
            &&& buf.len() == 3 || buf.len() == 6
            &&& has_plane(planes, buf[0])
            &&& buf.len() == 6 ==> target_exists(
                decode_condition(buf[3], buf[4], buf[5]).unwrap(),
                objects,
            )
        },
{
    lemma_well_formed_decodes(buf);
}

/// What a buffer that the grammar accepted decodes to has one digit where
/// one was typed and two where two were: altitudes and labels are at most
/// 9, delays at most 99, and a turn is to the heading whose key was typed.
pub proof fn lemma_decoded_ranges(buf: Seq<char>)
    requires
        well_formed(buf),
        buf.len() >= 3,
    ensures
        match decode_type(buf[1], buf[2]) {
            Some(CommandType::Climb(altitude)) => altitude <= 9,
            Some(CommandType::Dive(altitude)) => altitude <= 9,
            Some(CommandType::Turn(direction)) => direction.key() == buf[2],
            Some(CommandType::ChangeMark(_)) => buf[2] == PLACEHOLDER,
            None => false,
        },
        buf.len() == 6 ==> match decode_condition(buf[3], buf[4], buf[5]) {
            Some(CommandCondition::ArriveAirport(label)) => label <= 9,
            Some(CommandCondition::ArriveBeacon(label)) => label <= 9,
            Some(CommandCondition::Delay(seconds)) => seconds <= 99,
            None => false,
        },
{
}

/// An arrival at an airport or a beacon whose label no object of that
/// variant has resolves to nothing, whatever the rest of the buffer decodes
/// to.
pub proof fn lemma_missing_target_fails(
    buf: Seq<char>,
    planes: Seq<PlaneView>,
    objects: Seq<Object>,
    tick: u32,
)
    requires
        buf.len() == 6,
        buf[3] == 'a',
        (buf[4] == 'a' && !has_object(objects, ObjectKind::Airport, digit_value(buf[5]))) || (buf[4]
            == 'b' && !has_object(objects, ObjectKind::Beacon, digit_value(buf[5]))),
    ensures
        resolve(buf, planes, objects, tick) is None,
{
}

} // verus!
