//! The algebraic laws of whole-drawing transform application, stated over
//! the spec-level drawing model and proved from the geometry laws.

use vstd::prelude::*;

use crate::geom::{
    lemma_apply_compose, lemma_apply_identity, lemma_compose_assoc, lemma_compose_identity_left,
    Affine, Point,
};
use crate::{Component, Drawing, DrawingModel, Node};

verus! {

/// Transform composition law at the model level: transforming by `t1` and
/// then by `t2` is one transform by `t2.compose_spec(t1)`.
pub proof fn lemma_model_transform_composition(m: DrawingModel, t1: Affine, t2: Affine)
    ensures
        m.transformed(t1).transformed(t2) == m.transformed(t2.compose_spec(t1)),
{
    let lhs = m.transformed(t1).transformed(t2);
    let rhs = m.transformed(t2.compose_spec(t1));
    assert forall|i: int| 0 <= i < m.anchors.len() implies lhs.anchors[i] == rhs.anchors[i] by {
        lemma_apply_compose(t2, t1, m.anchors[i].pt);
    }
    assert forall|i: int| 0 <= i < m.components.len() implies lhs.components[i]
        == rhs.components[i] by {
        lemma_compose_assoc(t2, t1, m.components[i].transform);
    }
    assert forall|i: int| 0 <= i < m.contours.len() implies lhs.contours[i] == rhs.contours[i] by {
        let ns = m.contours[i];
        assert forall|j: int| 0 <= j < ns.len() implies lhs.contours[i][j]
            == rhs.contours[i][j] by {
            lemma_apply_compose(t2, t1, ns[j].pt);
        }
        assert(lhs.contours[i] =~= rhs.contours[i]);
    }
    assert(lhs =~~= rhs);
}

/// Transform composition law: for any drawing `d` and transforms `t1`, `t2`,
/// applying `t1` then `t2` yields the drawing obtained by one application of
/// the composed transform `t2.compose_spec(t1)`.
pub proof fn lemma_transform_composition(d: Drawing, t1: Affine, t2: Affine)
    ensures
        d@.transformed(t1).transformed(t2) == d@.transformed(t2.compose_spec(t1)),
{
    lemma_model_transform_composition(d@, t1, t2);
}

/// Identity law at the model level: the identity transform changes nothing.
pub proof fn lemma_model_transform_identity(m: DrawingModel)
    ensures
        m.transformed(Affine::identity_spec()) == m,
{
    let id = Affine::identity_spec();
    let lhs = m.transformed(id);
    assert forall|i: int| 0 <= i < m.anchors.len() implies lhs.anchors[i] == m.anchors[i] by {
        lemma_apply_identity(m.anchors[i].pt);
        assert(lhs.anchors[i] =~= m.anchors[i]);
    }
    assert forall|i: int| 0 <= i < m.components.len() implies lhs.components[i]
        == m.components[i] by {
        lemma_compose_identity_left(m.components[i].transform);
        assert(lhs.components[i] =~= m.components[i]);
    }
    assert forall|i: int| 0 <= i < m.contours.len() implies lhs.contours[i] == m.contours[i] by {
        let ns = m.contours[i];
        assert forall|j: int| 0 <= j < ns.len() implies lhs.contours[i][j] == ns[j] by {
            lemma_apply_identity(ns[j].pt);
        }
        assert(lhs.contours[i] =~= m.contours[i]);
    }
    assert(lhs =~~= m);
}

/// Identity law: applying the identity transform to any drawing leaves it
/// unchanged, field for field.
pub proof fn lemma_transform_identity(d: Drawing)
    ensures
        d@.transformed(Affine::identity_spec()) == d@,
{
    lemma_model_transform_identity(d@);
}

/// Component transform composition direction: after applying the outer
/// transform `t` to a component, the component's placement applied to a
/// point equals the old placement first, then `t`.
pub proof fn lemma_component_transform_direction(c: Component, t: Affine, p: Point)
    ensures
        c@.transformed(t).transform.apply_spec(p) == t.apply_spec(c@.transform.apply_spec(p)),
{
    lemma_apply_compose(t, c@.transform, p);
}

/// Order preservation: appending elements one at a time, each at the end —
/// which is exactly what `PointPen::add_point` does to the open contour and
/// `PointPen::end_path` does to the contour list — yields the starting
/// sequence followed by the appended elements, in call order.
pub proof fn lemma_pushes_in_call_order<A>(start: Seq<A>, added: Seq<A>)
    ensures
        added.fold_left(start, |acc: Seq<A>, x: A| acc.push(x)) == start + added,
    decreases added.len(),
{
    let f = |acc: Seq<A>, x: A| acc.push(x);
    if added.len() == 0 {
        assert(added.fold_left(start, f) =~= start + added);
    } else {
        lemma_pushes_in_call_order(start, added.drop_last());
        assert(added.fold_left(start, f) == f(added.drop_last().fold_left(start, f), added.last()));
        assert((start + added.drop_last()).push(added.last()) =~= start + added);
    }
}

/// Transforming a drawing never changes its node kinds, its element counts,
/// its names, its width or its height/origin.
pub proof fn lemma_transform_preserves_structure(m: DrawingModel, t: Affine)
    ensures
        m.transformed(t).height_and_origin == m.height_and_origin,
        m.transformed(t).width == m.width,
        m.transformed(t).anchors.len() == m.anchors.len(),
        m.transformed(t).components.len() == m.components.len(),
        m.transformed(t).contours.len() == m.contours.len(),
        forall|i: int| 0 <= i < m.anchors.len() ==> m.transformed(t).anchors[i].name
            == #[trigger] m.anchors[i].name,
        forall|i: int| 0 <= i < m.components.len() ==> m.transformed(t).components[i].base
            == #[trigger] m.components[i].base,
        forall|i: int, j: int|
            0 <= i < m.contours.len() && 0 <= j < m.contours[i].len()
                ==> m.transformed(t).contours[i][j].typ == (#[trigger] m.contours[i][j]).typ,
        m.wf() ==> m.transformed(t).wf(),
{
    assert forall|i: int, j: int|
        0 <= i < m.contours.len() && 0 <= j < m.contours[i].len() implies m.transformed(
        t,
    ).contours[i][j].typ == (#[trigger] m.contours[i][j]).typ by {
        assert(m.transformed(t).contours[i] == m.contours[i].map_values(
            |n: Node| n.transformed(t),
        ));
    }
}

} // verus!
