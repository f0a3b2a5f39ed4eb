//! Commands for aircraft, and the writer that takes one keystroke at a time
//! and resolves a finished buffer into a command.

use vstd::prelude::*;
use vstd::string::StringExecFns;
use crate::grammar::{digit_value, is_digit, state_of, step, step_as, undo, well_formed};
use crate::grammar::{EntryState, PLACEHOLDER};
use crate::grammar::{lemma_step_as_well_formed, lemma_undo_well_formed};
use crate::object::{Object, ObjectKind};
use crate::phrase::{argument_part, condition_part, kind_part, target_part, value_part};
use crate::phrase::{command_line, command_phrase, condition_phrase, type_phrase};
use crate::phrase::{phrase, phrase_of_first};
use crate::plane::{plane_views, MarkStatus, Plane};
use crate::resolve::{has_object, has_plane, resolve};
use crate::text::append_decimal;
use crate::util::{is_direction_key, Direction, DIRECTION_CHARS};

verus! {

/// What a command asks of an aircraft. Altitudes count thousands of feet.
#[derive(Debug, PartialEq, Eq, Structural, Clone, Copy)]
pub enum CommandType {
    Climb(u8),
    Dive(u8),
    Turn(Direction),
    ChangeMark(MarkStatus),
}

/// When a command takes effect: on arrival at the airport or beacon with
/// the given label, or after a delay in seconds.
#[derive(Debug, PartialEq, Eq, Structural, Clone, Copy)]
pub enum CommandCondition {
    ArriveAirport(u8),
    ArriveBeacon(u8),
    Delay(u8),
}

impl CommandType {
    /// The words for what the command asks, as in `climb 9000 feet`.
    pub fn to_string(&self) -> (r: String)
        ensures
            r@ == type_phrase(*self),
    {
        match self {
            CommandType::Climb(altitude) => {
                let mut text = "climb ".to_owned();
                append_decimal(&mut text, *altitude as u32);
                text.append("000 feet");
                text
            },
            CommandType::Dive(altitude) => {
                let mut text = "dive ".to_owned();
                append_decimal(&mut text, *altitude as u32);
                text.append("000 feet");
                text
            },
            CommandType::Turn(direction) => {
                let mut text = "turn ".to_owned();
                text.append(direction.to_string().as_str());
                text
            },
            CommandType::ChangeMark(MarkStatus::Marked) => "mark".to_owned(),
            CommandType::ChangeMark(MarkStatus::Unmarked) => "unmark".to_owned(),
            CommandType::ChangeMark(MarkStatus::Ignored) => "ignore".to_owned(),
        }
    }
}

impl CommandCondition {
    /// The words for the condition, as in `at beacon: 2` or `in 05
    /// seconds`.
    pub fn to_string(&self) -> (r: String)
        ensures
            r@ == condition_phrase(*self),
    {
        match self {
            CommandCondition::ArriveAirport(label) => {
                let mut text = "at airport: ".to_owned();
                append_decimal(&mut text, *label as u32);
                text
            },
            CommandCondition::ArriveBeacon(label) => {
                let mut text = "at beacon: ".to_owned();
                append_decimal(&mut text, *label as u32);
                text
            },
            CommandCondition::Delay(seconds) => {
                let mut text = "in ".to_owned();
                if *seconds < 10 {
                    text.push('0');
                }
                append_decimal(&mut text, *seconds as u32);
                text.append(" seconds");
                assert(text@ =~= condition_phrase(*self));
                text
            },
        }
    }
}

/// An instruction for one aircraft: what to do, an optional condition, and
/// the tick at which it was issued.
#[derive(Debug, PartialEq, Eq, Clone, Copy)]
pub struct Command {
    command_type: CommandType,
    command_condition: Option<CommandCondition>,
    tick: u32,
}

/// What a [`Command`] holds.
pub struct CommandView {
    pub command_type: CommandType,
    pub command_condition: Option<CommandCondition>,
    pub tick: u32,
}

impl View for Command {
    type V = CommandView;

    closed spec fn view(&self) -> CommandView {
        CommandView {
            command_type: self.command_type,
            command_condition: self.command_condition,
            tick: self.tick,
        }
    }
}

impl Command {
    pub fn new(
        command_type: CommandType,
        command_condition: Option<CommandCondition>,
        tick: u32,
    ) -> (r: Self)
        ensures
            r@ == (CommandView { command_type, command_condition, tick }),
    {
        Self { command_type, command_condition, tick }
    }

    /// The tick at which the command was issued.
    pub fn tick(&self) -> (r: &u32)
        ensures
            *r == self@.tick,
    {
        &self.tick
    }

    pub fn command_type(&self) -> (r: &CommandType)
        ensures
            *r == self@.command_type,
    {
        &self.command_type
    }

    pub fn command_condition(&self) -> (r: Option<&CommandCondition>)
        ensures
            match r {
                Some(c) => self@.command_condition == Some(*c),
                None => self@.command_condition is None,
            },
    {
        self.command_condition.as_ref()
    }

    /// The command as a phrase for the player, as in `climb 9000 feet in
    /// 23 seconds`.
    pub fn to_string(&self) -> (r: String)
        ensures
            r@ == command_phrase(self@),
    {
        let mut text = self.command_type.to_string();
        match self.command_condition {
            Some(condition) => {
                text.push(' ');
                text.append(condition.to_string().as_str());
                assert(text@ =~= command_phrase(self@));
            },
            None => {},
        }
        text
    }

    /// The line for the command in a list of the commands of the aircraft
    /// with the label `plane`, as in `[12] a: turn north`.
    pub fn line(&self, plane: char) -> (r: String)
        ensures
            r@ == command_line(self@, plane),
    {
        let mut text = String::new();
        text.push('[');
        append_decimal(&mut text, self.tick);
        text.push(']');
        text.push(' ');
        text.push(plane);
        text.push(':');
        text.push(' ');
        text.append(self.to_string().as_str());
        assert(text@ =~= command_line(self@, plane));
        text
    }
}

/// Takes a command one keystroke at a time. Its buffer always has the shape
/// of the beginning of a command, so that it can be shown and resolved at
/// any time.
#[derive(Debug)]
pub struct CommandWriter {
    cur_string: Vec<char>,
}

impl View for CommandWriter {
    type V = Seq<char>;

    closed spec fn view(&self) -> Seq<char> {
        self.cur_string@
    }
}

impl CommandWriter {
    #[verifier::type_invariant]
    closed spec fn inv(&self) -> bool {
        well_formed(self.cur_string@)
    }

    /// A writer with an empty buffer.
    pub fn new() -> (r: Self)
        ensures
            r@ == Seq::<char>::empty(),
    {
        Self { cur_string: Vec::new() }
    }

    /// Offers the key `input` to the buffer. A key that the grammar does
    /// not allow at this point changes nothing.
    pub fn push(&mut self, input: char)
        ensures
            final(self)@ == step(old(self)@, input),
            well_formed(final(self)@),
    {
        let is_label = input.is_alphabetic();
        self.push_as(input, is_label);
    }

    /// Offers the key `input` to the buffer, where `is_label` says whether
    /// the key may stand for an aircraft. A key that the grammar does not
    /// allow at this point changes nothing.
    pub fn push_as(&mut self, input: char, is_label: bool)
        ensures
            final(self)@ == step_as(old(self)@, input, is_label),
            well_formed(final(self)@),
    {
        proof {
            use_type_invariant(&*self);
            lemma_step_as_well_formed(self@, input, is_label);
        }
        let mut buffer = self.take_buffer();
        let len = buffer.len();
        if len == 0 {
            if is_label {
                buffer.push(input);
            }
        } else {
            let prev_char = buffer[len - 1];
            if len == 1 {
                if input == 't' || input == 'c' || input == 'd' {
                    buffer.push(input);
                } else if input == 'm' || input == 'u' || input == 'i' {
                    buffer.push(input);
                    buffer.push(PLACEHOLDER);
                }
            } else if len == 2 {
                if (prev_char == 't' && is_direction(input)) || ((prev_char == 'c' || prev_char
                    == 'd') && to_digit(input).is_some()) {
                    buffer.push(input);
                }
            } else if len == 3 {
                if input == 'a' || input == 'i' {
                    buffer.push(input);
                }
            } else if len == 4 {
                if (prev_char == 'i' && to_digit(input).is_some()) || (prev_char == 'a' && (input
                    == 'a' || input == 'b')) {
                    buffer.push(input);
                }
            } else if len == 5 {
                if (prev_char == 'a' || prev_char == 'b' || to_digit(prev_char).is_some())
                    && to_digit(input).is_some() {
                    buffer.push(input);
                }
            }
        }
        self.put_buffer(buffer);
    }

    /// Takes back the last keystroke: the last character leaves the buffer,
    /// and with a placeholder the kind that brought it.
    pub fn pop(&mut self)
        ensures
            final(self)@ == undo(old(self)@),
            well_formed(final(self)@),
    {
        proof {
            use_type_invariant(&*self);
            lemma_undo_well_formed(self@);
        }
        let mut buffer = self.take_buffer();
        if let Some(last) = buffer.pop() {
            if last == PLACEHOLDER {
                buffer.pop();
            }
        }
        self.put_buffer(buffer);
    }

    /// Empties the buffer.
    pub fn clear(&mut self)
        ensures
            final(self)@ == Seq::<char>::empty(),
    {
        let _ = self.take_buffer();
    }

    /// How far the command has come.
    pub fn state(&self) -> (r: EntryState)
        ensures
            r == state_of(self@),
    {
        let len = self.cur_string.len();
        if len == 0 {
            EntryState::AwaitingPlane
        } else if len == 1 {
            EntryState::AwaitingKind
        } else if len == 2 {
            EntryState::AwaitingArg
        } else if len == 3 {
            EntryState::AwaitingConditionStart
        } else if len == 4 {
            EntryState::AwaitingConditionTarget
        } else if len == 5 {
            EntryState::AwaitingConditionValue
        } else {
            EntryState::Complete
        }
    }

    /// Resolves the buffer into a command issued at `tick`, together with
    /// the label of the aircraft it is for. The buffer must be complete,
    /// the aircraft must be one of `planes`, and the airport or beacon of
    /// an arrival one of `objects`; else nothing is resolved.
    pub fn build(self, planes: &[Plane], objects: &[Object], tick: u32) -> (r: Option<
        (Command, char),
    >)
        ensures
            resolve(self@, plane_views(planes@), objects@, tick) == (match r {
                Some((command, label)) => Some((command@, label)),
                None => None,
            }),
    {
        let len = self.cur_string.len();
        if len != 3 && len != 6 {
            return None;
        }
        let plane = self.cur_string[0];
        if !any_plane(planes, plane) {
            return None;
        }
        let kind = self.cur_string[1];
        let arg = self.cur_string[2];
        let decoded = if kind == 't' {
            match Direction::try_from(arg) {
                Ok(direction) => Some(CommandType::Turn(direction)),
                Err(_) => None,
            }
        } else if kind == 'c' {
            match to_digit(arg) {
                Some(altitude) => Some(CommandType::Climb(altitude)),
                None => None,
            }
        } else if kind == 'd' {
            match to_digit(arg) {
                Some(altitude) => Some(CommandType::Dive(altitude)),
                None => None,
            }
        } else if kind == 'm' {
            Some(CommandType::ChangeMark(MarkStatus::Marked))
        } else if kind == 'u' {
            Some(CommandType::ChangeMark(MarkStatus::Unmarked))
        } else if kind == 'i' {
            Some(CommandType::ChangeMark(MarkStatus::Ignored))
        } else {
            None
        };
        let command_type = match decoded {
            Some(command_type) => command_type,
            None => {
                return None;
            },
        };
        if len == 3 {
            return Some((Command::new(command_type, None, tick), plane));
        }
        let start = self.cur_string[3];
        let target = self.cur_string[4];
        let value = match to_digit(self.cur_string[5]) {
            Some(value) => value,
            None => {
                return None;
            },
        };
        let command_condition = if start == 'a' && target == 'a' {
            if !any_object(objects, ObjectKind::Airport, value) {
                return None;
            }
            CommandCondition::ArriveAirport(value)
        } else if start == 'a' && target == 'b' {
            if !any_object(objects, ObjectKind::Beacon, value) {
                return None;
            }
            CommandCondition::ArriveBeacon(value)
        } else if start == 'i' {
            match to_digit(target) {
                Some(tens) => CommandCondition::Delay(tens * 10u8 + value),
                None => {
                    return None;
                },
            }
        } else {
            return None;
        };
        Some((Command::new(command_type, Some(command_condition), tick), plane))
    }

    /// The buffer as a phrase for the player.
    pub fn to_string(&self) -> (r: String)
        ensures
            r@ == phrase(self@),
    {
        proof {
            use_type_invariant(self);
        }
        let ghost buf = self@;
        let mut display_string = String::new();
        let len = self.cur_string.len();
        if len == 0 {
            return display_string;
        }
        display_string.push(self.cur_string[0]);
        display_string.push(':');
        assert(display_string@ == phrase_of_first(buf, 1)) by {
            assert(phrase_of_first(buf, 0) == Seq::<char>::empty());
            assert(display_string@ =~= Seq::<char>::empty() + seq![buf[0], ':']);
        }
        if len == 1 {
            return display_string;
        }
        append_kind(&mut display_string, self.cur_string[1]);
        assert(display_string@ == phrase_of_first(buf, 2));
        if len == 2 {
            return display_string;
        }
        append_argument(&mut display_string, self.cur_string[2]);
        assert(display_string@ == phrase_of_first(buf, 3));
        if len == 3 {
            return display_string;
        }
        append_condition(&mut display_string, self.cur_string[3]);
        assert(display_string@ == phrase_of_first(buf, 4));
        if len == 4 {
            return display_string;
        }
        append_target(&mut display_string, self.cur_string[4]);
        assert(display_string@ == phrase_of_first(buf, 5));
        if len == 5 {
            return display_string;
        }
        append_value(&mut display_string, self.cur_string[4], self.cur_string[5]);
        assert(display_string@ == phrase_of_first(buf, 6));
        display_string
    }

    /// Moves the characters out and leaves the buffer empty.
    fn take_buffer(&mut self) -> (buffer: Vec<char>)
        ensures
            buffer@ == old(self)@,
            final(self)@ == Seq::<char>::empty(),
    {
        let mut buffer: Vec<char> = Vec::new();
        core::mem::swap(&mut self.cur_string, &mut buffer);
        buffer
    }

    /// Makes `buffer` the buffer.
    fn put_buffer(&mut self, buffer: Vec<char>)
        requires
            well_formed(buffer@),
        ensures
            final(self)@ == buffer@,
    {
        let mut buffer = buffer;
        core::mem::swap(&mut self.cur_string, &mut buffer);
    }
}

impl Default for CommandWriter {
    fn default() -> (r: Self)
        ensures
            r@ == Seq::<char>::empty(),
    {
        Self::new()
    }
}

/// Appends the words for the kind of a command.
fn append_kind(display_string: &mut String, kind: char)
    ensures
        final(display_string)@ == old(display_string)@ + kind_part(kind),
{
    let command_type = if kind == 'c' {
        " climb"
    } else if kind == 'd' {
        " dive"
    } else if kind == 't' {
        " turn"
    } else if kind == 'm' {
        " mark"
    } else if kind == 'u' {
        " unmark"
    } else if kind == 'i' {
        " ignore"
    } else {
        proof {
            reveal_strlit("");
        }
        ""
    };
    display_string.append(command_type);
}

/// Appends the words for the argument of a command.
fn append_argument(display_string: &mut String, arg: char)
    ensures
        final(display_string)@ == old(display_string)@ + argument_part(arg),
{
    if arg == PLACEHOLDER {
    } else if let Ok(direction) = Direction::try_from(arg) {
        display_string.push(' ');
        display_string.append(direction.to_string().as_str());
        assert(display_string@ =~= old(display_string)@ + (seq![' '] + direction.name()));
    } else if to_digit(arg).is_some() {
        display_string.push(' ');
        display_string.push(arg);
        display_string.append("000 feet");
        assert(display_string@ =~= old(display_string)@ + (seq![' ', arg] + "000 feet"@));
    }
    assert(display_string@ =~= old(display_string)@ + argument_part(arg));
}

/// Appends the word that opens a condition.
fn append_condition(display_string: &mut String, start: char)
    ensures
        final(display_string)@ == old(display_string)@ + condition_part(start),
{
    let condition_type = if start == 'i' {
        " in"
    } else if start == 'a' {
        " at"
    } else {
        proof {
            reveal_strlit("");
        }
        ""
    };
    display_string.append(condition_type);
}

/// Appends the words for the target of a condition.
fn append_target(display_string: &mut String, target: char)
    ensures
        final(display_string)@ == old(display_string)@ + target_part(target),
{
    if target == 'a' {
        display_string.append(" airport:");
    } else if target == 'b' {
        display_string.append(" beacon:");
    } else if to_digit(target).is_some() {
        display_string.push(' ');
        display_string.push(target);
    }
    assert(display_string@ =~= old(display_string)@ + target_part(target));
}

/// Appends the words for the last character of a condition.
fn append_value(display_string: &mut String, target: char, value: char)
    ensures
        final(display_string)@ == old(display_string)@ + value_part(target, value),
{
    if to_digit(value).is_some() {
        if to_digit(target).is_some() {
            display_string.push(value);
            display_string.append(" seconds");
            assert(display_string@ =~= old(display_string)@ + (seq![value] + " seconds"@));
        } else {
            display_string.push(' ');
            display_string.push(value);
        }
    }
    assert(display_string@ =~= old(display_string)@ + value_part(target, value));
}

/// Whether one of `planes` has the label `label`.
fn any_plane(planes: &[Plane], label: char) -> (r: bool)
    ensures
        r == has_plane(plane_views(planes@), label),
{
    let mut i: usize = 0;
    while i < planes.len()
        invariant
            i <= planes.len(),
            forall|j: int| 0 <= j < i ==> (#[trigger] plane_views(planes@)[j]).label != label,
        decreases planes.len() - i,
    {
        if *planes[i].label() == label {
            assert(plane_views(planes@)[i as int].label == label);
            return true;
        }
        i += 1;
    }
    false
}

/// Whether one of `objects` is of the variant `kind` and has the label
/// `label`.
fn any_object(objects: &[Object], kind: ObjectKind, label: u8) -> (r: bool)
    ensures
        r == has_object(objects@, kind, label),
{
    let mut i: usize = 0;
    while i < objects.len()
        invariant
            i <= objects.len(),
            forall|j: int|
                0 <= j < i ==> !((#[trigger] objects@[j]).kind() == kind && objects@[j].spec_label()
                    == Some(label)),
        decreases objects.len() - i,
    {
        let of_kind = match kind {
            ObjectKind::Airport => objects[i].is_airport(),
            ObjectKind::Beacon => objects[i].is_beacon(),
            ObjectKind::Exit => objects[i].is_exit(),
        };
        if of_kind {
            if let Some(found) = objects[i].label() {
                if *found == label {
                    return true;
                }
            }
        }
        i += 1;
    }
    false
}

/// The value of the decimal digit `ch`, or `None` where `ch` is no decimal
/// digit.
pub fn to_digit(ch: char) -> (r: Option<u8>)
    ensures
        r == (if is_digit(ch) {
            Some(digit_value(ch))
        } else {
            None
        }),
{
    if '0' <= ch && ch <= '9' {
        Some((ch as u32 - '0' as u32) as u8)
    } else {
        None
    }
}

/// Whether `ch` is one of the keypad characters that stand for a heading.
pub fn is_direction(ch: char) -> (r: bool)
    ensures
        r == is_direction_key(ch),
{
    let mut i: usize = 0;
    while i < 8
        invariant
            i <= 8,
            forall|j: int| 0 <= j < i ==> DIRECTION_CHARS[j] != ch,
        decreases 8 - i,
    {
        if DIRECTION_CHARS[i] == ch {
            return true;
        }
        i += 1;
    }
    false
}

} // verus!
