//! The keystroke grammar of a command, as a model on sequences of
//! characters.
//!
//! A command is typed one key at a time into a buffer. The number of
//! characters already in the buffer decides which keys may come next:
//!
//! | position | meaning          | keys                                      |
//! |----------|------------------|-------------------------------------------|
//! | 0        | aircraft label   | any alphabetic character                  |
//! | 1        | kind             | `t` `c` `d`, or `m` `u` `i`               |
//! | 2        | argument         | a keypad character after `t`, a digit after `c` or `d` |
//! | 3        | condition        | `a` (arrive at) or `i` (in)               |
//! | 4        | target           | `a` or `b` after `a`, a digit after `i`   |
//! | 5        | label or seconds | a digit                                   |
//!
//! The kinds `m`, `u` and `i` take no argument: the placeholder `_` is put
//! in the argument's place as soon as one of them is typed.

use vstd::prelude::*;
use crate::std_specs::alphabetic;
use crate::util::is_direction_key;

verus! {

/// The character that fills the place of the argument of a kind that takes
/// none.
pub const PLACEHOLDER: char = '_';

/// Whether `c` is one of the decimal digits `0` to `9`.
pub open spec fn is_digit(c: char) -> bool {
    '0' <= c && c <= '9'
}

/// The number that the decimal digit `c` stands for.
pub open spec fn digit_value(c: char) -> u8
    recommends
        is_digit(c),
{
    (c as int - '0' as int) as u8
}

/// Whether `kind` is a kind of command that takes an argument: turn, climb
/// or dive.
pub open spec fn takes_argument(kind: char) -> bool {
    kind == 't' || kind == 'c' || kind == 'd'
}

/// Whether `kind` is a kind of command that takes no argument: mark, unmark
/// or ignore.
pub open spec fn is_mark_kind(kind: char) -> bool {
    kind == 'm' || kind == 'u' || kind == 'i'
}

/// Whether `arg` is an argument for `kind`: a heading for a turn, an
/// altitude digit for a climb or a dive.
pub open spec fn argument_fits(kind: char, arg: char) -> bool {
    (kind == 't' && is_direction_key(arg)) || ((kind == 'c' || kind == 'd') && is_digit(arg))
}

/// Whether `target` may follow the condition `start`: `a` or `b` after an
/// arrival, the tens digit of the seconds after a delay.
pub open spec fn target_fits(start: char, target: char) -> bool {
    (start == 'a' && (target == 'a' || target == 'b')) || (start == 'i' && is_digit(target))
}

/// Whether the key `c` may follow the buffer `buf`, where `is_label` says
/// whether `c` may stand for an aircraft.
pub open spec fn accepts_as(buf: Seq<char>, c: char, is_label: bool) -> bool {
    if buf.len() == 0 {
        is_label
    } else if buf.len() == 1 {
        takes_argument(c) || is_mark_kind(c)
    } else if buf.len() == 2 {
        argument_fits(buf[1], c)
    } else if buf.len() == 3 {
        c == 'a' || c == 'i'
    } else if buf.len() == 4 {
        target_fits(buf[3], c)
    } else if buf.len() == 5 {
        is_digit(c) && ((buf[3] == 'a' && (buf[4] == 'a' || buf[4] == 'b')) || buf[3] == 'i')
    } else {
        false
    }
}

/// The buffer after the key `c` has been offered to `buf`: unchanged where
/// the key is not accepted, else longer by the key, and by the placeholder
/// too where the key is a kind that takes no argument.
pub open spec fn step_as(buf: Seq<char>, c: char, is_label: bool) -> Seq<char> {
    if !accepts_as(buf, c, is_label) {
        buf
    } else if buf.len() == 1 && is_mark_kind(c) {
        buf.push(c).push(PLACEHOLDER)
    } else {
        buf.push(c)
    }
}

/// Whether the key `c` may follow the buffer `buf`.
pub open spec fn accepts(buf: Seq<char>, c: char) -> bool {
    accepts_as(buf, c, alphabetic(c))
}

/// The buffer after the key `c` has been offered to `buf`.
pub open spec fn step(buf: Seq<char>, c: char) -> Seq<char> {
    step_as(buf, c, alphabetic(c))
}

/// The buffer after a backspace: the last character is removed, and where
/// that was the placeholder, the kind before it goes too.
pub open spec fn undo(buf: Seq<char>) -> Seq<char> {
    if buf.len() == 0 {
        buf
    } else if buf.last() == PLACEHOLDER && buf.len() >= 2 {
        buf.drop_last().drop_last()
    } else {
        buf.drop_last()
    }
}

/// The buffer after the keys `keys` have been offered, one after the other,
/// to an empty buffer.
pub open spec fn run(keys: Seq<char>) -> Seq<char>
    decreases keys.len(),
{
    if keys.len() == 0 {
        Seq::empty()
    } else {
        step(run(keys.drop_last()), keys.last())
    }
}

/// How far a command has come: what the next key is to be.
#[derive(Debug, PartialEq, Eq, Structural, Clone, Copy)]
pub enum EntryState {
    AwaitingPlane,
    AwaitingKind,
    AwaitingArg,
    AwaitingConditionStart,
    AwaitingConditionTarget,
    AwaitingConditionValue,
    Complete,
}

/// The state of a command of which `buf` has been typed. A command without
/// a condition is finished where its condition is awaited.
pub open spec fn state_of(buf: Seq<char>) -> EntryState {
    if buf.len() == 0 {
        EntryState::AwaitingPlane
    } else if buf.len() == 1 {
        EntryState::AwaitingKind
    } else if buf.len() == 2 {
        EntryState::AwaitingArg
    } else if buf.len() == 3 {
        EntryState::AwaitingConditionStart
    } else if buf.len() == 4 {
        EntryState::AwaitingConditionTarget
    } else if buf.len() == 5 {
        EntryState::AwaitingConditionValue
    } else {
        EntryState::Complete
    }
}

/// Whether `buf` has the shape of the beginning of a command: every
/// character but the first is one that the table allows at its position
/// after the characters before it.
pub open spec fn well_formed(buf: Seq<char>) -> bool {
    &&& buf.len() <= 6
    &&& buf.len() == 2 ==> takes_argument(buf[1])
    &&& buf.len() >= 3 ==> argument_fits(buf[1], buf[2]) || (is_mark_kind(buf[1]) && buf[2]
        == PLACEHOLDER)
    &&& buf.len() >= 4 ==> buf[3] == 'a' || buf[3] == 'i'
    &&& buf.len() >= 5 ==> target_fits(buf[3], buf[4])
    &&& buf.len() >= 6 ==> is_digit(buf[5])
}

/// Whether `buf` is the beginning of a command: it is well formed and its
/// first character is alphabetic.
pub open spec fn valid_prefix(buf: Seq<char>) -> bool {
    &&& well_formed(buf)
    &&& buf.len() >= 1 ==> alphabetic(buf[0])
}

/// A key leaves a well-formed buffer unchanged or makes it longer by what
/// the table gives for its position, and the buffer stays well formed.
pub proof fn lemma_step_as_well_formed(buf: Seq<char>, c: char, is_label: bool)
    requires
        well_formed(buf),
    ensures
        well_formed(step_as(buf, c, is_label)),
        !accepts_as(buf, c, is_label) ==> step_as(buf, c, is_label) == buf,
        accepts_as(buf, c, is_label) && !(buf.len() == 1 && is_mark_kind(c)) ==> step_as(
            buf,
            c,
            is_label,
        ) == buf.push(c),
        accepts_as(buf, c, is_label) && buf.len() == 1 && is_mark_kind(c) ==> step_as(
            buf,
            c,
            is_label,
        ) == buf.push(c).push(PLACEHOLDER),
{
}

/// A key offered to the beginning of a command leaves the buffer unchanged
/// or appends the key, and the placeholder after a kind that takes no
/// argument; it changes the buffer only where the table allows the key; and
/// what comes out is again the beginning of a command.
pub proof fn lemma_step_valid(buf: Seq<char>, c: char)
    requires
        valid_prefix(buf),
    ensures
        valid_prefix(step(buf, c)),
        step(buf, c) == buf || step(buf, c) == buf.push(c) || step(buf, c) == buf.push(c).push(
            PLACEHOLDER,
        ),
        step(buf, c) != buf ==> accepts(buf, c),
        step(buf, c) == buf.push(c).push(PLACEHOLDER) ==> buf.len() == 1 && is_mark_kind(c),
{
    if step(buf, c) == buf.push(c).push(PLACEHOLDER) {
        assert(step(buf, c).len() == buf.len() + 2);
    }
}

/// Whatever keys are offered to an empty buffer, one after the other, what
/// it holds after each of them is the beginning of a command.
pub proof fn lemma_run_valid(keys: Seq<char>)
    ensures
        valid_prefix(run(keys)),
    decreases keys.len(),
{
    if keys.len() > 0 {
        lemma_run_valid(keys.drop_last());
        lemma_step_valid(run(keys.drop_last()), keys.last());
    }
}

/// A backspace after an accepted key gives back the buffer as it was
/// before the key. After a kind that takes no argument the kind and the
/// placeholder leave together.
pub proof fn lemma_undo_step(buf: Seq<char>, c: char)
    requires
        valid_prefix(buf),
        accepts(buf, c),
    ensures
        undo(step(buf, c)) == buf,
{
    let next = step(buf, c);
    if buf.len() == 1 && is_mark_kind(c) {
        assert(next.drop_last().drop_last() =~= buf);
    } else {
        assert(next.drop_last() =~= buf);
    }
}

/// A backspace leaves a well-formed buffer well formed.
pub proof fn lemma_undo_well_formed(buf: Seq<char>)
    requires
        well_formed(buf),
    ensures
        well_formed(undo(buf)),
        valid_prefix(buf) ==> valid_prefix(undo(buf)),
{
}

/// The keys that give the buffer `buf`: its characters without the
/// placeholder, which no key brings.
pub open spec fn keys_of(buf: Seq<char>) -> Seq<char> {
    if buf.len() >= 3 && buf[2] == PLACEHOLDER {
        buf.remove(2)
    } else {
        buf
    }
}

/// Every beginning of a command can be typed: its keys, offered to an empty
/// buffer, give it. With [`lemma_run_valid`] this makes the beginnings of
/// commands exactly the buffers that keys can give.
pub proof fn lemma_valid_reachable(buf: Seq<char>)
    requires
        valid_prefix(buf),
    ensures
        run(keys_of(buf)) == buf,
    decreases buf.len(),
{
    if buf.len() > 0 {
        let before = undo(buf);
        lemma_undo_well_formed(buf);
        lemma_valid_reachable(before);
        let keys = keys_of(buf);
        if buf.len() == 3 && buf[2] == PLACEHOLDER {
            assert(before =~= seq![buf[0]]);
            assert(keys.drop_last() =~= keys_of(before));
            assert(step(before, keys.last()) =~= buf);
        } else {
            assert(before =~= buf.drop_last());
            assert(keys.drop_last() =~= keys_of(before));
            assert(keys.last() == buf.last());
            assert(step(before, keys.last()) =~= buf);
        }
    } else {
        assert(keys_of(buf).len() == 0);
    }
}

} // verus!
