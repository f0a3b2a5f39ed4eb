//! The fixed objects of an airspace: airports, beacons and exits.

use vstd::prelude::*;
use crate::util::{Direction, Point};

verus! {

/// The three variants of [`Object`], without their data.
#[derive(Debug, PartialEq, Eq, Structural, Clone, Copy)]
pub enum ObjectKind {
    Airport,
    Beacon,
    Exit,
}

/// An airport, a beacon or an exit. Airports and exits face a direction.
/// The label numbers the objects of one variant; it is `None` until the map
/// that owns the object assigns it.
#[derive(Debug, PartialEq, Eq, Clone, Copy)]
pub enum Object {
    Airport { position: Point, direction: Direction, label: Option<u8> },
    Beacon { position: Point, label: Option<u8> },
    Exit { position: Point, direction: Direction, label: Option<u8> },
}

impl Object {
    /// Where the object lies.
    pub open spec fn spec_position(self) -> Point {
        match self {
            Object::Airport { position, .. } => position,
            Object::Beacon { position, .. } => position,
            Object::Exit { position, .. } => position,
        }
    }

    /// The direction the object faces; beacons face none.
    pub open spec fn spec_direction(self) -> Option<Direction> {
        match self {
            Object::Airport { direction, .. } => Some(direction),
            Object::Beacon { .. } => None,
            Object::Exit { direction, .. } => Some(direction),
        }
    }

    /// The object's number among the objects of its variant, once assigned.
    pub open spec fn spec_label(self) -> Option<u8> {
        match self {
            Object::Airport { label, .. } => label,
            Object::Beacon { label, .. } => label,
            Object::Exit { label, .. } => label,
        }
    }

    /// Which variant the object is.
    pub open spec fn kind(self) -> ObjectKind {
        match self {
            Object::Airport { .. } => ObjectKind::Airport,
            Object::Beacon { .. } => ObjectKind::Beacon,
            Object::Exit { .. } => ObjectKind::Exit,
        }
    }

    /// The same object with its label replaced by `label`.
    pub open spec fn with_label(self, label: Option<u8>) -> Object {
        match self {
            Object::Airport { position, direction, .. } => Object::Airport {
                position,
                direction,
                label,
            },
            Object::Beacon { position, .. } => Object::Beacon { position, label },
            Object::Exit { position, direction, .. } => Object::Exit { position, direction, label },
        }
    }

    /// The name of the object's variant, in lower case.
    pub open spec fn kind_name(self) -> Seq<char> {
        match self {
            Object::Airport { .. } => "airport"@,
            Object::Beacon { .. } => "beacon"@,
            Object::Exit { .. } => "exit"@,
        }
    }

    pub fn position(&self) -> (r: &Point)
        ensures
            *r == self.spec_position(),
    {
        match self {
            Object::Airport { position: pos, .. } => pos,
            Object::Beacon { position: pos, .. } => pos,
            Object::Exit { position: pos, .. } => pos,
        }
    }

    pub fn direction(&self) -> (r: Option<&Direction>)
        ensures
            match r {
                Some(d) => self.spec_direction() == Some(*d),
                None => self.spec_direction() is None,
            },
    {
        match self {
            Object::Airport { direction, .. } => Some(direction),
            Object::Beacon { .. } => None,
            Object::Exit { direction, .. } => Some(direction),
        }
    }

    pub fn label(&self) -> (r: Option<&u8>)
        ensures
            match r {
                Some(l) => self.spec_label() == Some(*l),
                None => self.spec_label() is None,
            },
    {
        match self {
            Object::Airport { label, .. } => label.as_ref(),
            Object::Beacon { label, .. } => label.as_ref(),
            Object::Exit { label, .. } => label.as_ref(),
        }
    }

    pub fn type_str(&self) -> (r: String)
        ensures
            r@ == self.kind_name(),
    {
        match self {
            Object::Airport { .. } => "airport".to_owned(),
            Object::Beacon { .. } => "beacon".to_owned(),
            Object::Exit { .. } => "exit".to_owned(),
        }
    }

    pub fn is_airport(&self) -> (r: bool)
        ensures
            r == (self.kind() == ObjectKind::Airport),
    {
        matches!(self, Object::Airport { .. })
    }

    pub fn is_beacon(&self) -> (r: bool)
        ensures
            r == (self.kind() == ObjectKind::Beacon),
    {
        matches!(self, Object::Beacon { .. })
    }

    pub fn is_exit(&self) -> (r: bool)
        ensures
            r == (self.kind() == ObjectKind::Exit),
    {
        matches!(self, Object::Exit { .. })
    }
}

} // verus!
