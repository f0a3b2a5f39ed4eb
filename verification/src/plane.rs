//! Aircraft and the commands queued for them.

use vstd::prelude::*;
use crate::command::{Command, CommandView};
use crate::util::{Direction, Point};

verus! {

/// How an aircraft is shown to the player.
#[derive(Debug, PartialEq, Eq, Structural, Clone, Copy)]
pub enum MarkStatus {
    Marked,
    Unmarked,
    Ignored,
}

/// An aircraft: a labelled, positioned and headed entity with the commands
/// issued to it, oldest first.
#[derive(Debug)]
pub struct Plane {
    label: char,
    position: Point,
    direction: Direction,
    mark_status: MarkStatus,
    commands: Vec<Command>,
}

/// What a [`Plane`] holds.
pub struct PlaneView {
    pub label: char,
    pub position: Point,
    pub direction: Direction,
    pub mark_status: MarkStatus,
    pub commands: Seq<CommandView>,
}

/// What each of `commands` holds.
pub open spec fn command_views(commands: Seq<Command>) -> Seq<CommandView> {
    commands.map_values(|command: Command| command@)
}

/// What each of `planes` holds.
pub open spec fn plane_views(planes: Seq<Plane>) -> Seq<PlaneView> {
    planes.map_values(|plane: Plane| plane@)
}

impl View for Plane {
    type V = PlaneView;

    closed spec fn view(&self) -> PlaneView {
        PlaneView {
            label: self.label,
            position: self.position,
            direction: self.direction,
            mark_status: self.mark_status,
            commands: command_views(self.commands@),
        }
    }
}

impl Plane {
    /// A marked aircraft at `position`, heading `direction`, with no
    /// commands yet.
    pub fn new(position: Point, direction: Direction, label: char) -> (r: Self)
        ensures
            r@ == (PlaneView {
                label,
                position,
                direction,
                mark_status: MarkStatus::Marked,
                commands: Seq::empty(),
            }),
    {
        let r = Self {
            label,
            position,
            direction,
            mark_status: MarkStatus::Marked,
            commands: Vec::new(),
        };
        assert(command_views(r.commands@) =~= Seq::empty());
        r
    }

    pub fn label(&self) -> (r: &char)
        ensures
            *r == self@.label,
    {
        &self.label
    }

    /// The commands issued to this aircraft, in the order of issue.
    pub fn commands(&self) -> (r: &[Command])
        ensures
            command_views(r@) == self@.commands,
    {
        self.commands.as_slice()
    }

    /// Appends `command` to the queue and changes nothing else.
    pub fn push_command(&mut self, command: Command)
        ensures
            final(self)@ == (PlaneView {
                commands: old(self)@.commands.push(command@),
                ..old(self)@
            }),
    {
        self.commands.push(command);
        assert(command_views(self.commands@) =~= command_views(old(self).commands@).push(command@));
    }
}

} // verus!
