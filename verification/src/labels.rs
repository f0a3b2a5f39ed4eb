//! The labels of the objects of a map: every object is numbered among the
//! objects of its variant, from 0, in the order of the objects.

use vstd::prelude::*;
use crate::map::GameMapView;
use crate::object::{Object, ObjectKind};
use crate::rules::{check, cited_rule, collide, lemma_check_ok_iff_rules_hold};
use crate::rules::{lemma_error_names_first_offender, lemma_first_violation_cited};
use crate::rules::{rule_holds, Rule};

verus! {

/// How many of `objects` are of the variant `kind`.
pub open spec fn count_kind(objects: Seq<Object>, kind: ObjectKind) -> nat
    decreases objects.len(),
{
    if objects.len() == 0 {
        0
    } else {
        count_kind(objects.drop_last(), kind) + if objects.last().kind() == kind {
            1nat
        } else {
            0nat
        }
    }
}

/// How many objects of the variant of the object at `i` come before it.
pub open spec fn rank(objects: Seq<Object>, i: int) -> nat
    recommends
        0 <= i < objects.len(),
{
    count_kind(objects.take(i), objects[i].kind())
}

/// Whether every object can get a label: a label is one byte, so no variant
/// may have more than 256 objects.
pub open spec fn fits_labels(objects: Seq<Object>) -> bool {
    &&& count_kind(objects, ObjectKind::Airport) <= 256
    &&& count_kind(objects, ObjectKind::Beacon) <= 256
    &&& count_kind(objects, ObjectKind::Exit) <= 256
}

/// The objects with their labels: each has its rank as its label and is
/// otherwise unchanged.
pub open spec fn labelled(objects: Seq<Object>) -> Seq<Object> {
    Seq::new(objects.len(), |i: int| objects[i].with_label(Some(rank(objects, i) as u8)))
}

/// The map with the labels of its objects assigned.
pub open spec fn with_labels(m: GameMapView) -> GameMapView {
    GameMapView { objects: labelled(m.objects), ..m }
}

/// Among the first `n + 1` objects there is one more of the variant of the
/// object at `n` than among the first `n`, and as many of the others.
pub proof fn lemma_count_next(objects: Seq<Object>, n: int, kind: ObjectKind)
    requires
        0 <= n < objects.len(),
    ensures
        count_kind(objects.take(n + 1), kind) == count_kind(objects.take(n), kind) + if objects[n]
            .kind() == kind {
            1nat
        } else {
            0nat
        },
{
    assert(objects.take(n + 1).drop_last() =~= objects.take(n));
}

/// The count of a variant among the first `n` objects grows with `n`.
pub proof fn lemma_count_monotone(objects: Seq<Object>, n: int, m: int, kind: ObjectKind)
    requires
        0 <= n <= m <= objects.len(),
    ensures
        count_kind(objects.take(n), kind) <= count_kind(objects.take(m), kind),
        count_kind(objects.take(m), kind) <= count_kind(objects, kind),
    decreases objects.len() - n,
{
    if n < m {
        lemma_count_next(objects, n, kind);
        lemma_count_monotone(objects, n + 1, m, kind);
    } else if m < objects.len() {
        lemma_count_next(objects, m, kind);
        lemma_count_monotone(objects, m + 1, m + 1, kind);
    } else {
        assert(objects.take(m) =~= objects);
    }
}

/// Of two objects of one variant the later has the higher rank, and every
/// rank is below the number of objects of the variant.
pub proof fn lemma_rank_increases(objects: Seq<Object>, i: int, j: int)
    requires
        0 <= i < j < objects.len(),
        objects[i].kind() == objects[j].kind(),
    ensures
        rank(objects, i) < rank(objects, j) < count_kind(objects, objects[j].kind()),
{
    let kind = objects[i].kind();
    lemma_count_next(objects, i, kind);
    lemma_count_monotone(objects, i + 1, j, kind);
    lemma_count_next(objects, j, kind);
    lemma_count_monotone(objects, j + 1, j + 1, kind);
}

/// Every rank is below the number of objects of the variant.
pub proof fn lemma_rank_bound(objects: Seq<Object>, i: int)
    requires
        0 <= i < objects.len(),
    ensures
        rank(objects, i) < count_kind(objects, objects[i].kind()),
{
    let kind = objects[i].kind();
    lemma_count_next(objects, i, kind);
    lemma_count_monotone(objects, i + 1, i + 1, kind);
}

/// Where no variant has more objects than there are labels, two objects of
/// one variant get different labels, the later the higher one.
pub proof fn lemma_labels_unique(objects: Seq<Object>, i: int, j: int)
    requires
        fits_labels(objects),
        0 <= i < j < objects.len(),
        objects[i].kind() == objects[j].kind(),
    ensures
        labelled(objects)[i].spec_label() is Some,
        labelled(objects)[j].spec_label() is Some,
        labelled(objects)[i].spec_label().unwrap() < labelled(objects)[j].spec_label().unwrap(),
{
    lemma_rank_increases(objects, i, j);
}

/// Labels are dense from 0: where no variant has more objects than there
/// are labels, every number below the number of objects of a variant is the
/// label of one of them, and no label is as high as that number.
pub proof fn lemma_labels_dense(objects: Seq<Object>, kind: ObjectKind, n: nat)
    requires
        fits_labels(objects),
    ensures
        n < count_kind(objects, kind) ==> exists|i: int|
            0 <= i < objects.len() && (#[trigger] labelled(objects)[i]).kind() == kind && labelled(
                objects,
            )[i].spec_label() == Some(n as u8),
        forall|i: int|
            0 <= i < objects.len() && (#[trigger] labelled(objects)[i]).kind() == kind ==> labelled(
                objects,
            )[i].spec_label().unwrap() < count_kind(objects, kind),
{
    assert forall|i: int|
        0 <= i < objects.len() && (#[trigger] labelled(objects)[i]).kind() == kind implies labelled(
        objects,
    )[i].spec_label().unwrap() < count_kind(objects, kind) by {
        lemma_rank_bound(objects, i);
    }
    if n < count_kind(objects, kind) {
        assert(objects.take(objects.len() as int) =~= objects);
        let i = lemma_object_of_rank(objects, objects.len() as int, kind, n);
        lemma_rank_bound(objects, i);
        assert(labelled(objects)[i].kind() == kind);
    }
}

/// Among the first `len` objects, the one of the variant `kind` before
/// which `n` others of that variant come.
proof fn lemma_object_of_rank(objects: Seq<Object>, len: int, kind: ObjectKind, n: nat) -> (i: int)
    requires
        0 <= len <= objects.len(),
        n < count_kind(objects.take(len), kind),
    ensures
        0 <= i < len,
        objects[i].kind() == kind,
        count_kind(objects.take(i), kind) == n,
    decreases len,
{
    if len == 0 {
        assert(objects.take(0).len() == 0);
        0
    } else {
        lemma_count_next(objects, len - 1, kind);
        if n < count_kind(objects.take(len - 1), kind) {
            lemma_object_of_rank(objects, len - 1, kind, n)
        } else {
            len - 1
        }
    }
}

/// Labelling changes nothing but the labels.
pub proof fn lemma_labelled_keeps(objects: Seq<Object>, i: int)
    requires
        0 <= i < objects.len(),
    ensures
        labelled(objects).len() == objects.len(),
        labelled(objects)[i].kind() == objects[i].kind(),
        labelled(objects)[i].spec_position() == objects[i].spec_position(),
        labelled(objects)[i].spec_direction() == objects[i].spec_direction(),
{
}

/// Whether `a` and `b` are the same objects but for their labels.
pub open spec fn same_but_labels(a: Seq<Object>, b: Seq<Object>) -> bool {
    &&& a.len() == b.len()
    &&& forall|i: int|
        0 <= i < a.len() ==> (#[trigger] a[i]).with_label(None) == (#[trigger] b[i]).with_label(
            None,
        )
}

/// The count of a variant does not depend on the labels.
pub proof fn lemma_count_ignores_labels(a: Seq<Object>, b: Seq<Object>, kind: ObjectKind)
    requires
        same_but_labels(a, b),
    ensures
        count_kind(a, kind) == count_kind(b, kind),
    decreases a.len(),
{
    if a.len() > 0 {
        assert(a.last().with_label(None) == b.last().with_label(None));
        lemma_count_ignores_labels(a.drop_last(), b.drop_last(), kind);
    }
}

/// The labels that objects get do not depend on the labels that they have.
pub proof fn lemma_labels_ignore_labels(a: Seq<Object>, b: Seq<Object>)
    requires
        same_but_labels(a, b),
    ensures
        labelled(a) == labelled(b),
{
    assert forall|i: int| 0 <= i < a.len() implies labelled(a)[i] == labelled(b)[i] by {
        assert(a[i].with_label(None) == b[i].with_label(None));
        lemma_count_ignores_labels(a.take(i), b.take(i), a[i].kind());
    }
    assert(labelled(a) =~= labelled(b));
}

/// Labelling changes nothing but the labels, and labelling twice is
/// labelling once.
pub proof fn lemma_label_idempotent(objects: Seq<Object>)
    ensures
        same_but_labels(labelled(objects), objects),
        labelled(labelled(objects)) == labelled(objects),
{
    lemma_labels_ignore_labels(labelled(objects), objects);
}

/// No rule depends on the labels of the objects.
pub proof fn lemma_rules_ignore_labels(m: GameMapView, rule: Rule)
    ensures
        rule_holds(with_labels(m), rule) == rule_holds(m, rule),
{
    let l = with_labels(m);
    assert forall|i: int| 0 <= i < m.objects.len() implies (#[trigger] l.objects[i]).kind()
        == m.objects[i].kind() && l.objects[i].spec_position() == m.objects[i].spec_position()
        && l.objects[i].spec_direction() == m.objects[i].spec_direction() by {
        lemma_labelled_keeps(m.objects, i);
    }
    assert(l.objects.len() == m.objects.len());
    match rule {
        Rule::Size => {
            assert(rule_holds(l, rule) == rule_holds(m, rule));
        },
        Rule::SpawnChance => {
            assert(rule_holds(l, rule) == rule_holds(m, rule));
        },
        Rule::Lines => {
            assert(l.lines == m.lines && l.width == m.width && l.height == m.height);
            if crate::rules::lines_ok(m) {
                assert(crate::rules::lines_ok(l));
            }
            if crate::rules::lines_ok(l) {
                assert(crate::rules::lines_ok(m));
            }
        },
        Rule::Collisions => {
            assert forall|i: int, j: int| collide(l.objects, i, j) == collide(m.objects, i, j) by {
                if 0 <= i < j < m.objects.len() {
                    lemma_labelled_keeps(m.objects, i);
                    lemma_labelled_keeps(m.objects, j);
                }
            }
            assert(rule_holds(l, rule) == rule_holds(m, rule));
        },
        Rule::InteriorObjects => {
            if rule_holds(m, rule) {
                assert forall|i: int| 0 <= i < l.objects.len() implies !crate::rules::lies_outside(
                    #[trigger] l.objects[i],
                    l.width,
                    l.height,
                ) by {
                    assert(!crate::rules::lies_outside(m.objects[i], m.width, m.height));
                }
            } else {
                let i = choose|i: int|
                    0 <= i < m.objects.len() && crate::rules::lies_outside(
                        #[trigger] m.objects[i],
                        m.width,
                        m.height,
                    );
                assert(crate::rules::lies_outside(l.objects[i], l.width, l.height));
            }
        },
        Rule::ExitPlacement => {
            if rule_holds(m, rule) {
                assert forall|i: int|
                    0 <= i < l.objects.len() implies !crate::rules::misplaced_exit(
                    #[trigger] l.objects[i],
                    l.width,
                    l.height,
                ) by {
                    assert(!crate::rules::misplaced_exit(m.objects[i], m.width, m.height));
                }
            } else {
                let i = choose|i: int|
                    0 <= i < m.objects.len() && crate::rules::misplaced_exit(
                        #[trigger] m.objects[i],
                        m.width,
                        m.height,
                    );
                assert(crate::rules::misplaced_exit(l.objects[i], l.width, l.height));
            }
        },
    }
}

/// Loading a map twice is loading it once: a map that was labelled and
/// passed the validation is left as it is by labelling it again, and passes
/// again. Whether a map passes, and the rule that its error cites, do not
/// depend on whether it was labelled.
pub proof fn lemma_validation_idempotent(m: GameMapView)
    ensures
        with_labels(with_labels(m)) == with_labels(m),
        check(with_labels(m)) is Ok <==> check(m) is Ok,
        check(m) matches Err(e) ==> check(with_labels(m)) matches Err(f) && cited_rule(f)
            == cited_rule(e),
{
    lemma_label_idempotent(m.objects);
    let l = with_labels(m);
    assert forall|rule: Rule| rule_holds(l, rule) == rule_holds(m, rule) by {
        lemma_rules_ignore_labels(m, rule);
    }
    lemma_check_ok_iff_rules_hold(m);
    lemma_check_ok_iff_rules_hold(l);
    if let Err(e) = check(m) {
        lemma_error_names_first_offender(m);
        lemma_first_violation_cited(l, cited_rule(e));
    }
}

/// The error of a labelled map names objects that have their labels.
pub proof fn lemma_error_of_labelled(m: GameMapView)
    ensures
        check(with_labels(m)) matches Err(e) ==> e.labelled(),
{
    lemma_error_names_first_offender(with_labels(m));
}

} // verus!
