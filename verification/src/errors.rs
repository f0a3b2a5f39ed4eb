//! The errors of the validation of a map, and their messages.

use vstd::prelude::*;
use vstd::string::StringExecFns;
use crate::map::Line;
use crate::object::Object;
use crate::text::{append_decimal, decimal};
use crate::util::Point;

verus! {

/// Why a line is refused.
#[derive(Debug, PartialEq, Eq, Clone, Copy)]
pub enum LineError {
    OutOfBounds(Line),
    InvalidSlope(Line),
}

/// Why an object, or a pair of objects, is refused.
#[derive(Debug, PartialEq, Eq, Clone, Copy)]
pub enum ObjectPlacementError {
    OutOfBounds(Object),
    NotOnEdge(Object),
    InvalidDirection(Object),
    ConflictedSpace(Object, Object),
}

/// Why a map is refused. The spawn chance is given as it is held: as the
/// bit pattern of a single-precision number.
#[derive(Debug, PartialEq, Eq, Clone, Copy)]
pub enum MapError {
    InvalidSize(u16, u16),
    InvalidSpawnChance(u32),
    ObjectPlacement(ObjectPlacementError),
    Line(LineError),
}

/// The text of a point: `(x, y)`.
pub open spec fn point_text(p: Point) -> Seq<char> {
    "("@ + decimal(p.0 as nat) + ", "@ + decimal(p.1 as nat) + ")"@
}

/// The text of a line: `Line from (x, y) to (x, y)`.
pub open spec fn line_text(line: Line) -> Seq<char> {
    "Line from "@ + point_text(line.0) + " to "@ + point_text(line.1)
}

/// The text of an object with a label: the name of its variant and its
/// label, as in `airport 2`.
pub open spec fn object_text(object: Object) -> Seq<char>
    recommends
        object.spec_label() is Some,
{
    object.kind_name() + " "@ + decimal(object.spec_label().unwrap() as nat)
}

/// Appends the text of `p`.
fn append_point(text: &mut String, p: Point)
    ensures
        final(text)@ == old(text)@ + point_text(p),
{
    text.append("(");
    append_decimal(text, p.0 as u32);
    text.append(", ");
    append_decimal(text, p.1 as u32);
    text.append(")");
    assert(text@ =~= old(text)@ + point_text(p));
}

/// Appends the decimal numeral of the label of `object`.
fn append_label(text: &mut String, object: &Object)
    requires
        object.spec_label() is Some,
    ensures
        final(text)@ == old(text)@ + decimal(object.spec_label().unwrap() as nat),
{
    match object.label() {
        Some(label) => {
            append_decimal(text, *label as u32);
        },
        None => {},
    }
}

/// Appends the text of `object`.
fn append_object(text: &mut String, object: &Object)
    requires
        object.spec_label() is Some,
    ensures
        final(text)@ == old(text)@ + object_text(*object),
{
    text.append(object.type_str().as_str());
    text.append(" ");
    append_label(text, object);
    assert(text@ =~= old(text)@ + object_text(*object));
}

impl LineError {
    /// The message of the error.
    pub open spec fn message(self) -> Seq<char> {
        match self {
            LineError::InvalidSlope(line) => line_text(line) + " has an invalid slope"@,
            LineError::OutOfBounds(line) => line_text(line) + " is out of bounds"@,
        }
    }

    /// The message of the error.
    pub fn to_string(&self) -> (r: String)
        ensures
            r@ == self.message(),
    {
        let (line, tail) = match self {
            LineError::InvalidSlope(line) => (line, " has an invalid slope"),
            LineError::OutOfBounds(line) => (line, " is out of bounds"),
        };
        let mut text = "Line from ".to_owned();
        append_point(&mut text, line.0);
        text.append(" to ");
        append_point(&mut text, line.1);
        text.append(tail);
        assert(text@ =~= self.message());
        text
    }
}

impl ObjectPlacementError {
    /// Whether every object that the error names has a label.
    pub open spec fn labelled(self) -> bool {
        match self {
            ObjectPlacementError::OutOfBounds(object) => object.spec_label() is Some,
            ObjectPlacementError::NotOnEdge(object) => object.spec_label() is Some,
            ObjectPlacementError::InvalidDirection(object) => object.spec_label() is Some,
            ObjectPlacementError::ConflictedSpace(object_a, object_b) => object_a.spec_label()
                is Some && object_b.spec_label() is Some,
        }
    }

    /// The message of the error.
    pub open spec fn message(self) -> Seq<char>
        recommends
            self.labelled(),
    {
        match self {
            ObjectPlacementError::ConflictedSpace(object_a, object_b) => object_text(object_a)
                + " and "@ + object_text(object_b) + " are on the same point"@,
            ObjectPlacementError::InvalidDirection(object) => "exit "@ + decimal(
                object.spec_label().unwrap() as nat,
            ) + " is facing an invalid direction"@,
            ObjectPlacementError::NotOnEdge(object) => "exit "@ + decimal(
                object.spec_label().unwrap() as nat,
            ) + " is not on edge"@,
            ObjectPlacementError::OutOfBounds(object) => object_text(object)
                + " is out of bounds"@,
        }
    }

    /// Whether every object that the error names has a label.
    pub fn is_labelled(&self) -> (r: bool)
        ensures
            r == self.labelled(),
    {
        match self {
            ObjectPlacementError::OutOfBounds(object) => object.label().is_some(),
            ObjectPlacementError::NotOnEdge(object) => object.label().is_some(),
            ObjectPlacementError::InvalidDirection(object) => object.label().is_some(),
            ObjectPlacementError::ConflictedSpace(object_a, object_b) => object_a.label().is_some()
                && object_b.label().is_some(),
        }
    }

    /// The message of the error. The objects that it names must have their
    /// labels.
    pub fn to_string(&self) -> (r: String)
        requires
            self.labelled(),
        ensures
            r@ == self.message(),
    {
        let mut text = String::new();
        match self {
            ObjectPlacementError::ConflictedSpace(object_a, object_b) => {
                append_object(&mut text, object_a);
                text.append(" and ");
                append_object(&mut text, object_b);
                text.append(" are on the same point");
            },
            ObjectPlacementError::InvalidDirection(object) => {
                text.append("exit ");
                append_label(&mut text, object);
                text.append(" is facing an invalid direction");
            },
            ObjectPlacementError::NotOnEdge(object) => {
                text.append("exit ");
                append_label(&mut text, object);
                text.append(" is not on edge");
            },
            ObjectPlacementError::OutOfBounds(object) => {
                append_object(&mut text, object);
                text.append(" is out of bounds");
            },
        }
        assert(text@ =~= self.message());
        text
    }
}

impl MapError {
    /// Whether every object that the error names has a label.
    pub open spec fn labelled(self) -> bool {
        match self {
            MapError::ObjectPlacement(e) => e.labelled(),
            _ => true,
        }
    }

    /// The message of the error, where `spawn_chance` is the text of the
    /// spawn chance that an error about it shows.
    pub open spec fn message(self, spawn_chance: Seq<char>) -> Seq<char>
        recommends
            self.labelled(),
    {
        match self {
            MapError::InvalidSize(width, height) => "invalid map size: ("@ + decimal(width as nat)
                + " x "@ + decimal(height as nat) + ")"@,
            MapError::InvalidSpawnChance(_) => "invalid spawn chance: "@ + spawn_chance,
            MapError::ObjectPlacement(e) => "object placement error: "@ + e.message(),
            MapError::Line(e) => "line error: "@ + e.message(),
        }
    }

    /// Whether every object that the error names has a label.
    pub fn is_labelled(&self) -> (r: bool)
        ensures
            r == self.labelled(),
    {
        match self {
            MapError::ObjectPlacement(e) => e.is_labelled(),
            _ => true,
        }
    }

    /// The message of the error. The error holds a spawn chance as a bit
    /// pattern, which this crate cannot put into words: `spawn_chance` is
    /// the text to show for it, and is used by an error about the spawn
    /// chance only. The objects that the error names must have their labels.
    pub fn describe(&self, spawn_chance: &str) -> (r: String)
        requires
            self.labelled(),
        ensures
            r@ == self.message(spawn_chance@),
    {
        match self {
            MapError::InvalidSize(width, height) => {
                let mut text = "invalid map size: (".to_owned();
                append_decimal(&mut text, *width as u32);
                text.append(" x ");
                append_decimal(&mut text, *height as u32);
                text.append(")");
                text
            },
            MapError::InvalidSpawnChance(_) => {
                let mut text = "invalid spawn chance: ".to_owned();
                text.append(spawn_chance);
                text
            },
            MapError::ObjectPlacement(e) => {
                let mut text = "object placement error: ".to_owned();
                text.append(e.to_string().as_str());
                text
            },
            MapError::Line(e) => {
                let mut text = "line error: ".to_owned();
                text.append(e.to_string().as_str());
                text
            },
        }
    }
}

} // verus!
