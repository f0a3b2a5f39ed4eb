//! The static description of an airspace, its labelling and its validation.

use vstd::prelude::*;
use crate::errors::{LineError, MapError, ObjectPlacementError};
use crate::labels::{count_kind, fits_labels, labelled, with_labels};
use crate::labels::{lemma_count_monotone, lemma_count_next};
use crate::object::{Object, ObjectKind};
use crate::rules::{check, check_collisions, check_lines, check_objects};
use crate::rules::{collide, lies_outside, line_ok, misplaced_exit, spawn_chance_ok};
use crate::rules::{first_bad_line, first_collision, first_misplaced_exit, first_outside};
use crate::rules::{is_first_bad_line, is_first_collision};
use crate::rules::{is_first_misplaced_exit, is_first_outside};
use crate::rules::{lemma_first_bad_line_unique, lemma_first_collision_unique};
use crate::rules::{lemma_first_misplaced_exit_unique, lemma_first_outside_unique};
use crate::util::{Direction, Point};

verus! {

/// The least width of a map.
pub const MINIMUM_WIDTH: u16 = 5;

/// The least height of a map.
pub const MINIMUM_HEIGHT: u16 = 5;

/// A straight radar line between two points.
#[derive(Debug, PartialEq, Eq, Clone, Copy)]
pub struct Line(pub Point, pub Point);

/// The distance between `a` and `b`.
pub open spec fn distance(a: u16, b: u16) -> int {
    if a >= b {
        a - b
    } else {
        b - a
    }
}

/// The distance between `a` and `b`.
fn abs_diff(a: u16, b: u16) -> (r: u16)
    ensures
        r == distance(a, b),
{
    if a >= b {
        a - b
    } else {
        b - a
    }
}

impl Line {
    /// Whether the line is horizontal, vertical or diagonal at 45 degrees.
    /// A line whose ends are one point is none of these.
    pub open spec fn valid_slope(self) -> bool {
        let dx = distance(self.0.0, self.1.0);
        let dy = distance(self.0.1, self.1.1);
        (dx != 0 || dy != 0) && (dx == 0 || dy == 0 || dx == dy)
    }

    /// Whether both ends lie in the interior of a map of the given size.
    pub open spec fn within_bounds(self, width: u16, height: u16) -> bool {
        in_interior(self.0, width, height) && in_interior(self.1, width, height)
    }

    pub fn is_valid_slope(&self) -> (r: bool)
        ensures
            r == self.valid_slope(),
    {
        let dx = abs_diff(self.0.0, self.1.0);
        let dy = abs_diff(self.0.1, self.1.1);
        if dx == 0 && dy == 0 {
            false
        } else if dx == 0 || dy == 0 {
            true
        } else {
            dx == dy
        }
    }

    pub fn is_within_bounds(&self, width: u16, height: u16) -> (r: bool)
        ensures
            r == self.within_bounds(width, height),
    {
        let Point(x1, y1) = self.0;
        let Point(x2, y2) = self.1;
        x1 != 0 && y1 != 0 && x2 != 0 && y2 != 0 && x1 <= width && y1 <= height && x2 <= width
            && y2 <= height
    }
}

/// Whether `p` lies in the interior of a map of the given size: both
/// coordinates count from 1.
pub open spec fn in_interior(p: Point, width: u16, height: u16) -> bool {
    1 <= p.0 <= width && 1 <= p.1 <= height
}

/// The static description of an airspace: its size, how likely an aircraft
/// spawns at a tick, the length of a tick in seconds, its objects and its
/// radar lines. The spawn chance and the tick rate are held as the bit
/// patterns of single-precision numbers.
#[derive(Debug)]
pub struct GameMap {
    width: u16,
    height: u16,
    spawn_chance: u32,
    tick_rate: u32,
    objects: Vec<Object>,
    lines: Vec<Line>,
}

/// What a [`GameMap`] holds.
pub struct GameMapView {
    pub width: u16,
    pub height: u16,
    pub spawn_chance: u32,
    pub tick_rate: u32,
    pub objects: Seq<Object>,
    pub lines: Seq<Line>,
}

impl View for GameMap {
    type V = GameMapView;

    closed spec fn view(&self) -> GameMapView {
        GameMapView {
            width: self.width,
            height: self.height,
            spawn_chance: self.spawn_chance,
            tick_rate: self.tick_rate,
            objects: self.objects@,
            lines: self.lines@,
        }
    }
}

/// Whether the single-precision number with the bit pattern `bits` is a
/// spawn chance: a number from 0 to 1.
pub fn is_spawn_chance(bits: u32) -> (r: bool)
    ensures
        r == spawn_chance_ok(bits),
{
    bits <= 0x3f80_0000 || bits == 0x8000_0000
}

impl GameMap {
    /// A map of what is given, as it is given: nothing is checked and no
    /// label is assigned.
    pub fn new(
        width: u16,
        height: u16,
        spawn_chance: u32,
        tick_rate: u32,
        objects: Vec<Object>,
        lines: Vec<Line>,
    ) -> (r: Self)
        ensures
            r@ == (GameMapView {
                width,
                height,
                spawn_chance,
                tick_rate,
                objects: objects@,
                lines: lines@,
            }),
    {
        Self { width, height, spawn_chance, tick_rate, objects, lines }
    }

    pub fn width(&self) -> (r: &u16)
        ensures
            *r == self@.width,
    {
        &self.width
    }

    pub fn height(&self) -> (r: &u16)
        ensures
            *r == self@.height,
    {
        &self.height
    }

    /// The spawn chance, as the bit pattern of a single-precision number.
    pub fn spawn_chance(&self) -> (r: &u32)
        ensures
            *r == self@.spawn_chance,
    {
        &self.spawn_chance
    }

    /// The length of a tick in seconds, as the bit pattern of a
    /// single-precision number.
    pub fn tick_rate(&self) -> (r: &u32)
        ensures
            *r == self@.tick_rate,
    {
        &self.tick_rate
    }

    pub fn objects(&self) -> (r: &[Object])
        ensures
            r@ == self@.objects,
    {
        self.objects.as_slice()
    }

    pub fn lines(&self) -> (r: &[Line])
        ensures
            r@ == self@.lines,
    {
        self.lines.as_slice()
    }

    /// Whether every object can get a label: no variant has more than 256
    /// objects.
    pub fn fits_labels(&self) -> (r: bool)
        ensures
            r == fits_labels(self@.objects),
    {
        let ghost objects = self@.objects;
        let mut count_airports: usize = 0;
        let mut count_beacons: usize = 0;
        let mut count_exits: usize = 0;
        let mut i: usize = 0;
        while i < self.objects.len()
            invariant
                i <= self.objects.len(),
                objects == self@.objects,
                count_airports == count_kind(objects.take(i as int), ObjectKind::Airport),
                count_beacons == count_kind(objects.take(i as int), ObjectKind::Beacon),
                count_exits == count_kind(objects.take(i as int), ObjectKind::Exit),
                count_airports <= i,
                count_beacons <= i,
                count_exits <= i,
            decreases self.objects.len() - i,
        {
            proof {
                lemma_count_next(objects, i as int, ObjectKind::Airport);
                lemma_count_next(objects, i as int, ObjectKind::Beacon);
                lemma_count_next(objects, i as int, ObjectKind::Exit);
            }
            match self.objects[i] {
                Object::Airport { .. } => {
                    count_airports += 1;
                },
                Object::Beacon { .. } => {
                    count_beacons += 1;
                },
                Object::Exit { .. } => {
                    count_exits += 1;
                },
            }
            i += 1;
        }
        assert(objects.take(i as int) =~= objects);
        count_airports <= 256 && count_beacons <= 256 && count_exits <= 256
    }

    /// Gives every object its label: its number among the objects of its
    /// variant, from 0, in the order of the objects. Nothing else changes.
    pub fn label(&mut self)
        requires
            fits_labels(old(self)@.objects),
        ensures
            final(self)@ == with_labels(old(self)@),
    {
        let ghost objects = self@.objects;
        let mut count_airports: u16 = 0;
        let mut count_beacons: u16 = 0;
        let mut count_exits: u16 = 0;
        let mut i: usize = 0;
        while i < self.objects.len()
            invariant
                i <= self.objects.len(),
                objects == old(self)@.objects,
                fits_labels(objects),
                self@ == (GameMapView { objects: self@.objects, ..old(self)@ }),
                self@.objects.len() == objects.len(),
                forall|j: int| 0 <= j < i ==> self@.objects[j] == labelled(objects)[j],
                forall|j: int| i <= j < objects.len() ==> self@.objects[j] == objects[j],
                count_airports == count_kind(objects.take(i as int), ObjectKind::Airport),
                count_beacons == count_kind(objects.take(i as int), ObjectKind::Beacon),
                count_exits == count_kind(objects.take(i as int), ObjectKind::Exit),
            decreases self.objects.len() - i,
        {
            proof {
                lemma_count_next(objects, i as int, ObjectKind::Airport);
                lemma_count_next(objects, i as int, ObjectKind::Beacon);
                lemma_count_next(objects, i as int, ObjectKind::Exit);
                lemma_count_monotone(objects, i as int, i + 1, ObjectKind::Airport);
                lemma_count_monotone(objects, i as int, i + 1, ObjectKind::Beacon);
                lemma_count_monotone(objects, i as int, i + 1, ObjectKind::Exit);
            }
            let with_label = match self.objects[i] {
                Object::Airport { position, direction, .. } => {
                    let label = Some(count_airports as u8);
                    count_airports += 1;
                    Object::Airport { position, direction, label }
                },
                Object::Beacon { position, .. } => {
                    let label = Some(count_beacons as u8);
                    count_beacons += 1;
                    Object::Beacon { position, label }
                },
                Object::Exit { position, direction, .. } => {
                    let label = Some(count_exits as u8);
                    count_exits += 1;
                    Object::Exit { position, direction, label }
                },
            };
            self.objects.set(i, with_label);
            i += 1;
        }
        assert(self@.objects =~= labelled(objects));
    }

    /// Checks the lines in their order: each must have a valid slope and
    /// lie inside the map.
    pub fn validate_lines(&self) -> (r: Result<(), MapError>)
        ensures
            r == check_lines(self@),
    {
        let mut i: usize = 0;
        while i < self.lines.len()
            invariant
                i <= self.lines.len(),
                forall|j: int|
                    0 <= j < i ==> line_ok(#[trigger] self@.lines[j], self@.width, self@.height),
            decreases self.lines.len() - i,
        {
            let line = self.lines[i];
            if !line.is_valid_slope() || !line.is_within_bounds(self.width, self.height) {
                proof {
                    assert(is_first_bad_line(self@, i as int));
                    lemma_first_bad_line_unique(self@, i as int, first_bad_line(self@));
                }
                if !line.is_valid_slope() {
                    return Err(MapError::Line(LineError::InvalidSlope(line)));
                }
                return Err(MapError::Line(LineError::OutOfBounds(line)));
            }
            i += 1;
        }
        Ok(())
    }

    /// Checks that no two objects lie on one point, pair by pair.
    pub fn validate_collisions(&self) -> (r: Result<(), MapError>)
        ensures
            r == check_collisions(self@),
    {
        let ghost objects = self@.objects;
        let mut k: usize = 0;
        while k < self.objects.len()
            invariant
                k <= self.objects.len(),
                objects == self@.objects,
                forall|a: int, b: int| 0 <= a < k ==> !#[trigger] collide(objects, a, b),
            decreases self.objects.len() - k,
        {
            let mut l: usize = k + 1;
            while l < self.objects.len()
                invariant
                    k < l <= self.objects.len(),
                    objects == self@.objects,
                    forall|a: int, b: int| 0 <= a < k ==> !#[trigger] collide(objects, a, b),
                    forall|b: int| k < b < l ==> !#[trigger] collide(objects, k as int, b),
                decreases self.objects.len() - l,
            {
                let object_a = self.objects[k];
                let object_b = self.objects[l];
                if *object_a.position() == *object_b.position() {
                    proof {
                        assert(is_first_collision(objects, k as int, l as int));
                        let (a, b) = first_collision(objects);
                        lemma_first_collision_unique(objects, k as int, l as int, a, b);
                    }
                    return Err(
                        MapError::ObjectPlacement(
                            ObjectPlacementError::ConflictedSpace(object_a, object_b),
                        ),
                    );
                }
                l += 1;
            }
            k += 1;
        }
        Ok(())
    }

    /// Checks the places of the objects: airports and beacons must lie
    /// inside the map, and every exit on a border that fits its direction.
    pub fn validate_objects(&self) -> (r: Result<(), MapError>)
        ensures
            r == check_objects(self@),
    {
        let (width, height) = (self.width, self.height);
        let mut i: usize = 0;
        while i < self.objects.len()
            invariant
                i <= self.objects.len(),
                width == self@.width,
                height == self@.height,
                forall|j: int|
                    0 <= j < i ==> !lies_outside(#[trigger] self@.objects[j], width, height),
            decreases self.objects.len() - i,
        {
            let object = self.objects[i];
            if !object.is_exit() {
                let Point(x, y) = *object.position();
                if x == 0 || x > width || y == 0 || y > height {
                    proof {
                        assert(is_first_outside(self@, i as int));
                        lemma_first_outside_unique(self@, i as int, first_outside(self@));
                    }
                    return Err(
                        MapError::ObjectPlacement(ObjectPlacementError::OutOfBounds(object)),
                    );
                }
            }
            i += 1;
        }
        let mut i: usize = 0;
        while i < self.objects.len()
            invariant
                i <= self.objects.len(),
                width == self@.width,
                height == self@.height,
                crate::rules::interior_ok(self@),
                forall|j: int|
                    0 <= j < i ==> !misplaced_exit(#[trigger] self@.objects[j], width, height),
            decreases self.objects.len() - i,
        {
            let exit = self.objects[i];
            if let Object::Exit { position, direction, .. } = exit {
                let Point(x, y) = position;
                let border_left = x == 0;
                let border_top = y == 0;
                let border_right = width < u16::MAX && x == width + 1;
                let border_bottom = height < u16::MAX && y == height + 1;
                let on_valid_edge = match direction {
                    Direction::North => border_top,
                    Direction::Northeast => border_top && border_right,
                    Direction::East => border_right,
                    Direction::Southeast => border_bottom && border_right,
                    Direction::South => border_bottom,
                    Direction::Southwest => border_bottom && border_left,
                    Direction::West => border_left,
                    Direction::Northwest => border_top && border_left,
                };
                let on_edge = border_left || border_top || border_right || border_bottom;
                if !on_edge || !on_valid_edge {
                    proof {
                        assert(is_first_misplaced_exit(self@, i as int));
                        lemma_first_misplaced_exit_unique(
                            self@,
                            i as int,
                            first_misplaced_exit(self@),
                        );
                    }
                    if !on_edge {
                        return Err(
                            MapError::ObjectPlacement(ObjectPlacementError::NotOnEdge(exit)),
                        );
                    }
                    return Err(
                        MapError::ObjectPlacement(ObjectPlacementError::InvalidDirection(exit)),
                    );
                }
            }
            i += 1;
        }
        Ok(())
    }

    /// Checks the map against every rule, in the order of the rules. The
    /// first rule that fails gives the error.
    pub fn validate(&self) -> (r: Result<(), MapError>)
        ensures
            r == check(self@),
    {
        if self.width < MINIMUM_WIDTH || self.height < MINIMUM_HEIGHT {
            return Err(MapError::InvalidSize(self.width, self.height));
        }
        if !is_spawn_chance(self.spawn_chance) {
            return Err(MapError::InvalidSpawnChance(self.spawn_chance));
        }
        match self.validate_lines() {
            Err(e) => {
                return Err(e);
            },
            Ok(()) => {},
        }
        match self.validate_collisions() {
            Err(e) => {
                return Err(e);
            },
            Ok(()) => {},
        }
        self.validate_objects()
    }
}

} // verus!
