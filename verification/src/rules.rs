//! The rules that a map must meet, as a model on what a map holds.
//!
//! The rules are checked in a fixed order and the first one that fails
//! decides the error: the size, the spawn chance, the lines in their order,
//! the pairs of objects on one point, the objects that must lie inside, and
//! the exits.

use vstd::prelude::*;
use crate::errors::{LineError, MapError, ObjectPlacementError};
use crate::map::{in_interior, GameMapView, Line};
use crate::map::{MINIMUM_HEIGHT, MINIMUM_WIDTH};
use crate::object::{Object, ObjectKind};
use crate::util::{Direction, Point};

verus! {

/// The rules of a map, in the order in which they are checked.
#[derive(Debug, PartialEq, Eq, Structural, Clone, Copy)]
pub enum Rule {
    Size,
    SpawnChance,
    Lines,
    Collisions,
    InteriorObjects,
    ExitPlacement,
}

impl Rule {
    /// The place of the rule in the order of checking.
    pub open spec fn rank(self) -> int {
        match self {
            Rule::Size => 0,
            Rule::SpawnChance => 1,
            Rule::Lines => 2,
            Rule::Collisions => 3,
            Rule::InteriorObjects => 4,
            Rule::ExitPlacement => 5,
        }
    }
}

/// Whether the single-precision number with the bit pattern `bits` lies
/// between 0 and 1, both included. The numbers from 0 to 1 are the patterns
/// up to that of 1, and that of the negative zero; no pattern that is not a
/// number is among them.
pub open spec fn spawn_chance_ok(bits: u32) -> bool {
    bits <= 0x3f80_0000 || bits == 0x8000_0000
}

/// Whether the map is as wide and as high as a map must be.
pub open spec fn size_ok(m: GameMapView) -> bool {
    m.width >= MINIMUM_WIDTH && m.height >= MINIMUM_HEIGHT
}

/// Whether `line` has a valid slope and lies inside the map.
pub open spec fn line_ok(line: Line, width: u16, height: u16) -> bool {
    line.valid_slope() && line.within_bounds(width, height)
}

/// Whether every line of the map is in order.
pub open spec fn lines_ok(m: GameMapView) -> bool {
    forall|i: int| 0 <= i < m.lines.len() ==> line_ok(#[trigger] m.lines[i], m.width, m.height)
}

/// Whether the line at `i` is the first that is not in order.
pub open spec fn is_first_bad_line(m: GameMapView, i: int) -> bool {
    &&& 0 <= i < m.lines.len()
    &&& !line_ok(m.lines[i], m.width, m.height)
    &&& forall|j: int| 0 <= j < i ==> line_ok(#[trigger] m.lines[j], m.width, m.height)
}

/// What is wrong with a line that is not in order: its slope, or else its
/// place.
pub open spec fn line_error(line: Line) -> LineError {
    if !line.valid_slope() {
        LineError::InvalidSlope(line)
    } else {
        LineError::OutOfBounds(line)
    }
}

/// Whether the objects at `i` and `j`, `i` before `j`, lie on one point.
pub open spec fn collide(objects: Seq<Object>, i: int, j: int) -> bool {
    0 <= i < j < objects.len() && objects[i].spec_position() == objects[j].spec_position()
}

/// Whether no two objects lie on one point.
pub open spec fn no_collisions(objects: Seq<Object>) -> bool {
    forall|i: int, j: int| !collide(objects, i, j)
}

/// Whether the pair `(i, j)` is the first that collides, where the pairs
/// are taken by their first object and then by their second.
pub open spec fn is_first_collision(objects: Seq<Object>, i: int, j: int) -> bool {
    &&& collide(objects, i, j)
    &&& forall|a: int, b: int| #[trigger] collide(objects, a, b) ==> i < a || (i == a && j <= b)
}

/// Whether `object` is an airport or a beacon outside the interior.
pub open spec fn lies_outside(object: Object, width: u16, height: u16) -> bool {
    object.kind() != ObjectKind::Exit && !in_interior(object.spec_position(), width, height)
}

/// Whether every airport and every beacon lies in the interior.
pub open spec fn interior_ok(m: GameMapView) -> bool {
    forall|i: int|
        0 <= i < m.objects.len() ==> !lies_outside(#[trigger] m.objects[i], m.width, m.height)
}

/// Whether the object at `i` is the first airport or beacon outside the
/// interior.
pub open spec fn is_first_outside(m: GameMapView, i: int) -> bool {
    &&& 0 <= i < m.objects.len()
    &&& lies_outside(m.objects[i], m.width, m.height)
    &&& forall|j: int| 0 <= j < i ==> !lies_outside(#[trigger] m.objects[j], m.width, m.height)
}

/// Whether `p` lies on the left border: one step outside the interior.
pub open spec fn on_left(p: Point) -> bool {
    p.0 == 0
}

/// Whether `p` lies on the top border.
pub open spec fn on_top(p: Point) -> bool {
    p.1 == 0
}

/// Whether `p` lies on the right border of a map of the given width.
pub open spec fn on_right(p: Point, width: u16) -> bool {
    p.0 == width + 1
}

/// Whether `p` lies on the bottom border of a map of the given height.
pub open spec fn on_bottom(p: Point, height: u16) -> bool {
    p.1 == height + 1
}

/// Whether `p` lies on one of the four borders.
pub open spec fn on_edge(p: Point, width: u16, height: u16) -> bool {
    on_left(p) || on_top(p) || on_right(p, width) || on_bottom(p, height)
}

/// Whether an exit at `p` that faces `direction` lies on the border of
/// that name, and for a diagonal direction on both borders: in the corner.
pub open spec fn faces_border(direction: Direction, p: Point, width: u16, height: u16) -> bool {
    match direction {
        Direction::North => on_top(p),
        Direction::Northeast => on_top(p) && on_right(p, width),
        Direction::East => on_right(p, width),
        Direction::Southeast => on_bottom(p, height) && on_right(p, width),
        Direction::South => on_bottom(p, height),
        Direction::Southwest => on_bottom(p, height) && on_left(p),
        Direction::West => on_left(p),
        Direction::Northwest => on_top(p) && on_left(p),
    }
}

/// Whether `object` is an exit that is off the borders or faces a
/// direction that does not fit its border.
pub open spec fn misplaced_exit(object: Object, width: u16, height: u16) -> bool {
    object matches Object::Exit { position, direction, .. } && !(on_edge(position, width, height)
        && faces_border(direction, position, width, height))
}

/// Whether every exit lies on a border that fits its direction.
pub open spec fn exits_ok(m: GameMapView) -> bool {
    forall|i: int|
        0 <= i < m.objects.len() ==> !misplaced_exit(#[trigger] m.objects[i], m.width, m.height)
}

/// Whether the object at `i` is the first misplaced exit.
pub open spec fn is_first_misplaced_exit(m: GameMapView, i: int) -> bool {
    &&& 0 <= i < m.objects.len()
    &&& misplaced_exit(m.objects[i], m.width, m.height)
    &&& forall|j: int| 0 <= j < i ==> !misplaced_exit(#[trigger] m.objects[j], m.width, m.height)
}

/// What is wrong with a misplaced exit: it is off the borders, or else it
/// faces the wrong way.
pub open spec fn exit_error(exit: Object, width: u16, height: u16) -> ObjectPlacementError {
    if !on_edge(exit.spec_position(), width, height) {
        ObjectPlacementError::NotOnEdge(exit)
    } else {
        ObjectPlacementError::InvalidDirection(exit)
    }
}

/// Whether the map meets `rule`.
pub open spec fn rule_holds(m: GameMapView, rule: Rule) -> bool {
    match rule {
        Rule::Size => size_ok(m),
        Rule::SpawnChance => spawn_chance_ok(m.spawn_chance),
        Rule::Lines => lines_ok(m),
        Rule::Collisions => no_collisions(m.objects),
        Rule::InteriorObjects => interior_ok(m),
        Rule::ExitPlacement => exits_ok(m),
    }
}

/// The rule that the error `e` cites.
pub open spec fn cited_rule(e: MapError) -> Rule {
    match e {
        MapError::InvalidSize(_, _) => Rule::Size,
        MapError::InvalidSpawnChance(_) => Rule::SpawnChance,
        MapError::Line(_) => Rule::Lines,
        MapError::ObjectPlacement(ObjectPlacementError::ConflictedSpace(_, _)) => Rule::Collisions,
        MapError::ObjectPlacement(ObjectPlacementError::OutOfBounds(_)) => Rule::InteriorObjects,
        MapError::ObjectPlacement(ObjectPlacementError::NotOnEdge(_)) => Rule::ExitPlacement,
        MapError::ObjectPlacement(ObjectPlacementError::InvalidDirection(_)) => Rule::ExitPlacement,
    }
}

/// The index of the first line that is not in order, where there is one.
pub open spec fn first_bad_line(m: GameMapView) -> int {
    choose|i: int| is_first_bad_line(m, i)
}

/// The indices of the first pair that collides, where there is one.
pub open spec fn first_collision(objects: Seq<Object>) -> (int, int) {
    choose|i: int, j: int| is_first_collision(objects, i, j)
}

/// The index of the first airport or beacon outside the interior, where
/// there is one.
pub open spec fn first_outside(m: GameMapView) -> int {
    choose|i: int| is_first_outside(m, i)
}

/// The index of the first misplaced exit, where there is one.
pub open spec fn first_misplaced_exit(m: GameMapView) -> int {
    choose|i: int| is_first_misplaced_exit(m, i)
}

/// The check of the lines: the first line that is not in order, with what
/// is wrong with it.
pub open spec fn check_lines(m: GameMapView) -> Result<(), MapError> {
    if lines_ok(m) {
        Ok(())
    } else {
        Err(MapError::Line(line_error(m.lines[first_bad_line(m)])))
    }
}

/// The check of the collisions: the first pair of objects on one point.
pub open spec fn check_collisions(m: GameMapView) -> Result<(), MapError> {
    if no_collisions(m.objects) {
        Ok(())
    } else {
        let (i, j) = first_collision(m.objects);
        Err(
            MapError::ObjectPlacement(
                ObjectPlacementError::ConflictedSpace(m.objects[i], m.objects[j]),
            ),
        )
    }
}

/// The check of the places of the objects: the first airport or beacon
/// outside the interior, or else the first misplaced exit.
pub open spec fn check_objects(m: GameMapView) -> Result<(), MapError> {
    if !interior_ok(m) {
        Err(
            MapError::ObjectPlacement(
                ObjectPlacementError::OutOfBounds(m.objects[first_outside(m)]),
            ),
        )
    } else if !exits_ok(m) {
        Err(
            MapError::ObjectPlacement(
                exit_error(m.objects[first_misplaced_exit(m)], m.width, m.height),
            ),
        )
    } else {
        Ok(())
    }
}

/// The outcome of the validation of a map: `Ok` where every rule holds,
/// else the error of the first rule that fails.
pub open spec fn check(m: GameMapView) -> Result<(), MapError> {
    if !size_ok(m) {
        Err(MapError::InvalidSize(m.width, m.height))
    } else if !spawn_chance_ok(m.spawn_chance) {
        Err(MapError::InvalidSpawnChance(m.spawn_chance))
    } else if check_lines(m) is Err {
        check_lines(m)
    } else if check_collisions(m) is Err {
        check_collisions(m)
    } else {
        check_objects(m)
    }
}

/// Only one line is the first that is not in order.
pub proof fn lemma_first_bad_line_unique(m: GameMapView, i: int, k: int)
    requires
        is_first_bad_line(m, i),
        is_first_bad_line(m, k),
    ensures
        i == k,
{
}

/// Only one pair is the first that collides.
pub proof fn lemma_first_collision_unique(objects: Seq<Object>, i: int, j: int, a: int, b: int)
    requires
        is_first_collision(objects, i, j),
        is_first_collision(objects, a, b),
    ensures
        i == a && j == b,
{
}

/// Only one object is the first airport or beacon outside the interior.
pub proof fn lemma_first_outside_unique(m: GameMapView, i: int, k: int)
    requires
        is_first_outside(m, i),
        is_first_outside(m, k),
    ensures
        i == k,
{
}

/// Only one object is the first misplaced exit.
pub proof fn lemma_first_misplaced_exit_unique(m: GameMapView, i: int, k: int)
    requires
        is_first_misplaced_exit(m, i),
        is_first_misplaced_exit(m, k),
    ensures
        i == k,
{
}

/// Where `p` holds of `n`, it holds of a least number from 0 to `n`.
pub proof fn lemma_least(p: spec_fn(int) -> bool, n: int) -> (i: int)
    requires
        0 <= n,
        p(n),
    ensures
        0 <= i <= n,
        p(i),
        forall|j: int| 0 <= j < i ==> !#[trigger] p(j),
    decreases n,
{
    if exists|j: int| 0 <= j < n && #[trigger] p(j) {
        let j = choose|j: int| 0 <= j < n && #[trigger] p(j);
        lemma_least(p, j)
    } else {
        n
    }
}

/// Where a line is not in order, one of them is the first, and the check
/// of the lines names it.
pub proof fn lemma_first_bad_line_exists(m: GameMapView)
    requires
        !lines_ok(m),
    ensures
        is_first_bad_line(m, first_bad_line(m)),
{
    let n = choose|i: int|
        0 <= i < m.lines.len() && !line_ok(#[trigger] m.lines[i], m.width, m.height);
    let p = |i: int| 0 <= i < m.lines.len() && !line_ok(m.lines[i], m.width, m.height);
    let i = lemma_least(p, n);
    assert forall|j: int| 0 <= j < i implies line_ok(#[trigger] m.lines[j], m.width, m.height) by {
        assert(!p(j));
    }
    assert(is_first_bad_line(m, i));
}

/// Where two objects collide, one pair is the first, and the check of the
/// collisions names it.
pub proof fn lemma_first_collision_exists(objects: Seq<Object>)
    requires
        !no_collisions(objects),
    ensures
        is_first_collision(objects, first_collision(objects).0, first_collision(objects).1),
{
    let (a, b) = choose|a: int, b: int| collide(objects, a, b);
    let p = |i: int| exists|j: int| collide(objects, i, j);
    assert(p(a));
    let i = lemma_least(p, a);
    let b2 = choose|j: int| collide(objects, i, j);
    let q = |j: int| collide(objects, i, j);
    assert(q(b2));
    let j = lemma_least(q, b2);
    assert forall|c: int, d: int| #[trigger] collide(objects, c, d) implies i < c || (i == c && j
        <= d) by {
        if c < i {
            assert(p(c));
        } else if c == i && d < j {
            assert(q(d));
        }
    }
    assert(is_first_collision(objects, i, j));
}

/// Where an airport or a beacon lies outside the interior, one of them is
/// the first, and the check of the objects names it.
pub proof fn lemma_first_outside_exists(m: GameMapView)
    requires
        !interior_ok(m),
    ensures
        is_first_outside(m, first_outside(m)),
{
    let n = choose|i: int|
        0 <= i < m.objects.len() && lies_outside(#[trigger] m.objects[i], m.width, m.height);
    let p = |i: int| 0 <= i < m.objects.len() && lies_outside(m.objects[i], m.width, m.height);
    let i = lemma_least(p, n);
    assert forall|j: int| 0 <= j < i implies !lies_outside(
        #[trigger] m.objects[j],
        m.width,
        m.height,
    ) by {
        assert(!p(j));
    }
    assert(is_first_outside(m, i));
}

/// Where an exit is misplaced, one of them is the first, and the check of
/// the objects names it where no airport or beacon lies outside.
pub proof fn lemma_first_misplaced_exit_exists(m: GameMapView)
    requires
        !exits_ok(m),
    ensures
        is_first_misplaced_exit(m, first_misplaced_exit(m)),
{
    let n = choose|i: int|
        0 <= i < m.objects.len() && misplaced_exit(#[trigger] m.objects[i], m.width, m.height);
    let p = |i: int| 0 <= i < m.objects.len() && misplaced_exit(m.objects[i], m.width, m.height);
    let i = lemma_least(p, n);
    assert forall|j: int| 0 <= j < i implies !misplaced_exit(
        #[trigger] m.objects[j],
        m.width,
        m.height,
    ) by {
        assert(!p(j));
    }
    assert(is_first_misplaced_exit(m, i));
}

/// A map passes the validation exactly when it meets every rule.
pub proof fn lemma_check_ok_iff_rules_hold(m: GameMapView)
    ensures
        check(m) is Ok <==> forall|rule: Rule| rule_holds(m, rule),
{
    if check(m) is Ok {
        assert forall|rule: Rule| rule_holds(m, rule) by {
            match rule {
                Rule::Size => {},
                Rule::SpawnChance => {},
                Rule::Lines => {},
                Rule::Collisions => {},
                Rule::InteriorObjects => {},
                Rule::ExitPlacement => {},
            }
        }
    } else {
        if !size_ok(m) {
            assert(!rule_holds(m, Rule::Size));
        } else if !spawn_chance_ok(m.spawn_chance) {
            assert(!rule_holds(m, Rule::SpawnChance));
        } else if check_lines(m) is Err {
            assert(!rule_holds(m, Rule::Lines));
        } else if check_collisions(m) is Err {
            assert(!rule_holds(m, Rule::Collisions));
        } else if !interior_ok(m) {
            assert(!rule_holds(m, Rule::InteriorObjects));
        } else {
            assert(!rule_holds(m, Rule::ExitPlacement));
        }
    }
}

/// The first failure wins: where a map breaks `rule` and meets every rule
/// that is checked before it, the validation fails with an error that
/// cites `rule`.
pub proof fn lemma_first_violation_cited(m: GameMapView, rule: Rule)
    requires
        !rule_holds(m, rule),
        forall|earlier: Rule| earlier.rank() < rule.rank() ==> rule_holds(m, earlier),
    ensures
        check(m) matches Err(e) && cited_rule(e) == rule,
{
    assert(Rule::Size.rank() < rule.rank() ==> rule_holds(m, Rule::Size));
    assert(Rule::SpawnChance.rank() < rule.rank() ==> rule_holds(m, Rule::SpawnChance));
    assert(Rule::Lines.rank() < rule.rank() ==> rule_holds(m, Rule::Lines));
    assert(Rule::Collisions.rank() < rule.rank() ==> rule_holds(m, Rule::Collisions));
    assert(Rule::InteriorObjects.rank() < rule.rank() ==> rule_holds(m, Rule::InteriorObjects));
}

/// A map with a single rule broken fails the validation with an error that
/// cites that rule.
pub proof fn lemma_single_violation_cited(m: GameMapView, rule: Rule)
    requires
        !rule_holds(m, rule),
        forall|other: Rule| other != rule ==> rule_holds(m, other),
    ensures
        check(m) matches Err(e) && cited_rule(e) == rule,
{
    assert forall|earlier: Rule| earlier.rank() < rule.rank() implies rule_holds(m, earlier) by {
        assert(earlier != rule);
    }
    lemma_first_violation_cited(m, rule);
}

/// Whether `e` is what the validation reports for the first offender
/// against the rule that it cites: the size or the spawn chance of the map,
/// the first line that is not in order, the first pair of objects on one
/// point, the first airport or beacon outside, or the first misplaced exit.
pub open spec fn names_first_offender(m: GameMapView, e: MapError) -> bool {
    match e {
        MapError::InvalidSize(width, height) => width == m.width && height == m.height,
        MapError::InvalidSpawnChance(bits) => bits == m.spawn_chance,
        MapError::Line(line_error) => exists|i: int|
            #[trigger] is_first_bad_line(m, i) && line_error == self::line_error(m.lines[i]),
        MapError::ObjectPlacement(
            ObjectPlacementError::ConflictedSpace(object_a, object_b),
        ) => exists|i: int, j: int|
            #[trigger] is_first_collision(m.objects, i, j) && object_a == m.objects[i] && object_b
                == m.objects[j],
        MapError::ObjectPlacement(ObjectPlacementError::OutOfBounds(object)) => exists|i: int|
            #[trigger] is_first_outside(m, i) && object == m.objects[i],
        MapError::ObjectPlacement(ObjectPlacementError::NotOnEdge(exit)) => exists|i: int|
            #[trigger] is_first_misplaced_exit(m, i) && exit == m.objects[i] && !on_edge(
                exit.spec_position(),
                m.width,
                m.height,
            ),
        MapError::ObjectPlacement(ObjectPlacementError::InvalidDirection(exit)) => exists|i: int|
            #[trigger] is_first_misplaced_exit(m, i) && exit == m.objects[i] && on_edge(
                exit.spec_position(),
                m.width,
                m.height,
            ),
    }
}

/// A failed validation names the first offender against the rule that it
/// cites, and the map breaks that rule and meets every rule before it.
pub proof fn lemma_error_names_first_offender(m: GameMapView)
    ensures
        check(m) matches Err(e) ==> {
            &&& names_first_offender(m, e)
            &&& !rule_holds(m, cited_rule(e))
            &&& forall|earlier: Rule|
                earlier.rank() < cited_rule(e).rank() ==> rule_holds(m, earlier)
        },
{
    if check(m) is Err {
        if !size_ok(m) {
        } else if !spawn_chance_ok(m.spawn_chance) {
        } else if !lines_ok(m) {
            lemma_first_bad_line_exists(m);
        } else if !no_collisions(m.objects) {
            lemma_first_collision_exists(m.objects);
        } else if !interior_ok(m) {
            lemma_first_outside_exists(m);
        } else {
            lemma_first_misplaced_exit_exists(m);
        }
    }
}

} // verus!
