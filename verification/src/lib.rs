//! An in-memory model of a single glyph's vector outline: anchors, component
//! references and contours of on/off-curve points, together with uniform
//! affine-transform propagation and an incremental "point pen" builder.
//!
//! Coordinates are integer font units; transform arithmetic wraps modulo
//! 2^64 (see [`geom`]), so applying a transform is a total operation.

pub mod geom;
pub mod laws;
pub mod name;
pub mod pen;

use vstd::prelude::*;

use crate::geom::{Affine, Point};
use crate::name::{name_is_valid, valid_name, NameError};
use crate::pen::PointPen;

verus! {

/// One point on a contour: a position and the point's kind.
#[derive(Debug, Clone, PartialEq, Eq, Structural)]
pub struct Node {
    pub pt: Point,
    pub typ: PointType,
}

/// The closed set of contour point kinds. `OffCurve` marks a control point
/// off the outline; the `Move` variants start a (sub)path; the `Smooth*`
/// variants record a tangent-continuity hint.
#[derive(Debug, Clone, PartialEq, Eq, Structural)]
pub enum PointType {
    OffCurve,
    Move,
    SmoothMove,
    Line,
    SmoothLine,
    Curve,
    SmoothCurve,
    QCurve,
    SmoothQCurve,
}

/// A named point of interest, e.g. an attachment point.
#[derive(Debug, Clone, PartialEq)]
pub struct Anchor {
    pub pt: Point,
    pub name: String,
}

/// A placed reference to another glyph.
#[derive(Debug, Clone, PartialEq)]
pub struct Component {
    pub base: String,
    pub transform: Affine,
}

/// An ordered outline path; an empty contour is legal.
#[derive(Debug, Clone, PartialEq)]
pub struct Contour {
    pub nodes: Vec<Node>,
}

/// The aggregate glyph representation.
#[derive(Debug, Clone, PartialEq)]
pub struct Drawing {
    pub height_and_origin: Option<(i64, i64)>,
    pub width: i64,
    pub anchors: Vec<Anchor>,
    pub components: Vec<Component>,
    pub contours: Vec<Contour>,
}

/// Spec-level mirror of an [`Anchor`].
#[verifier::ext_equal]
pub struct AnchorModel {
    pub pt: Point,
    pub name: Seq<char>,
}

/// Spec-level mirror of a [`Component`].
#[verifier::ext_equal]
pub struct ComponentModel {
    pub base: Seq<char>,
    pub transform: Affine,
}

/// Spec-level mirror of a [`Drawing`]; a contour is its node sequence.
#[verifier::ext_equal]
pub struct DrawingModel {
    pub height_and_origin: Option<(i64, i64)>,
    pub width: i64,
    pub anchors: Seq<AnchorModel>,
    pub components: Seq<ComponentModel>,
    pub contours: Seq<Seq<Node>>,
}

impl View for Anchor {
    type V = AnchorModel;

    open spec fn view(&self) -> AnchorModel {
        AnchorModel { pt: self.pt, name: self.name@ }
    }
}

impl View for Component {
    type V = ComponentModel;

    open spec fn view(&self) -> ComponentModel {
        ComponentModel { base: self.base@, transform: self.transform }
    }
}

impl View for Contour {
    type V = Seq<Node>;

    open spec fn view(&self) -> Seq<Node> {
        self.nodes@
    }
}

impl View for Drawing {
    type V = DrawingModel;

    open spec fn view(&self) -> DrawingModel {
        DrawingModel {
            height_and_origin: self.height_and_origin,
            width: self.width,
            anchors: self.anchors@.map_values(|a: Anchor| a@),
            components: self.components@.map_values(|c: Component| c@),
            contours: self.contours@.map_values(|c: Contour| c@),
        }
    }
}

impl Node {
    /// The node moved by `t`; its kind never changes.
    pub open spec fn transformed(self, t: Affine) -> Node {
        Node { pt: t.apply_spec(self.pt), typ: self.typ }
    }

    pub fn new(x: i64, y: i64, typ: PointType) -> (n: Node)
        ensures
            n == (Node { pt: Point { x, y }, typ }),
    {
        Node { pt: Point { x, y }, typ }
    }
}

impl AnchorModel {
    /// The anchor moved by `t`; its name never changes.
    pub open spec fn transformed(self, t: Affine) -> AnchorModel {
        AnchorModel { pt: t.apply_spec(self.pt), name: self.name }
    }

    /// The anchor's name obeys the identifier rule.
    pub open spec fn wf(self) -> bool {
        valid_name(self.name)
    }
}

impl ComponentModel {
    /// Applying `t` composes on the left: the component's own placement is
    /// repositioned by the outer transform.
    pub open spec fn transformed(self, t: Affine) -> ComponentModel {
        ComponentModel { base: self.base, transform: t.compose_spec(self.transform) }
    }

    /// The component's base name obeys the identifier rule.
    pub open spec fn wf(self) -> bool {
        valid_name(self.base)
    }
}

impl DrawingModel {
    /// The whole drawing moved by `t`: every anchor point and contour node is
    /// mapped through `t`, every component transform is pre-composed with `t`;
    /// width and height/origin are untouched.
    pub open spec fn transformed(self, t: Affine) -> DrawingModel {
        DrawingModel {
            height_and_origin: self.height_and_origin,
            width: self.width,
            anchors: self.anchors.map_values(|a: AnchorModel| a.transformed(t)),
            components: self.components.map_values(|c: ComponentModel| c.transformed(t)),
            contours: self.contours.map_values(|ns: Seq<Node>| ns.map_values(|n: Node| n.transformed(t))),
        }
    }

    /// The empty drawing: no height/origin, zero width, no elements.
    pub open spec fn empty() -> DrawingModel {
        DrawingModel {
            height_and_origin: None,
            width: 0,
            anchors: Seq::empty(),
            components: Seq::empty(),
            contours: Seq::empty(),
        }
    }

    /// Every anchor and component name in the drawing is a valid identifier.
    pub open spec fn wf(self) -> bool {
        &&& forall|i: int| 0 <= i < self.anchors.len() ==> (#[trigger] self.anchors[i]).wf()
        &&& forall|i: int| 0 <= i < self.components.len() ==> (#[trigger] self.components[i]).wf()
    }
}

impl Anchor {
    /// Construct an anchor; fails exactly when `name` breaks the identifier
    /// rule, in which case nothing is produced.
    pub fn new(x: i64, y: i64, name: &str) -> (r: Result<Anchor, NameError>)
        ensures
            valid_name(name@) ==> (r matches Ok(a) && a@ == (AnchorModel {
                pt: Point { x, y },
                name: name@,
            })),
            !valid_name(name@) ==> r == Err::<Anchor, NameError>(NameError::InvalidName),
            r matches Ok(a) ==> a@.wf(),
    {
        if name_is_valid(name) {
            Ok(Anchor { pt: Point { x, y }, name: name.to_string() })
        } else {
            Err(NameError::InvalidName)
        }
    }

    /// Move the anchor's point through `transform`.
    pub fn apply_affine(&mut self, transform: Affine)
        ensures
            final(self)@ == old(self)@.transformed(transform),
    {
        self.pt = transform.apply(self.pt);
    }
}

impl Component {
    /// Construct a component reference; fails exactly when `base` breaks the
    /// identifier rule, in which case nothing is produced.
    pub fn new(base: &str, transform: Affine) -> (r: Result<Component, NameError>)
        ensures
            valid_name(base@) ==> (r matches Ok(c) && c@ == (ComponentModel {
                base: base@,
                transform,
            })),
            !valid_name(base@) ==> r == Err::<Component, NameError>(NameError::InvalidName),
            r matches Ok(c) ==> c@.wf(),
    {
        if name_is_valid(base) {
            Ok(Component { base: base.to_string(), transform })
        } else {
            Err(NameError::InvalidName)
        }
    }

    /// Pre-compose the component's placement with `transform`: afterwards the
    /// placement applies the old transform first, then `transform`.
    pub fn apply_affine(&mut self, transform: Affine)
        ensures
            final(self)@ == old(self)@.transformed(transform),
    {
        self.transform = transform.compose(self.transform);
    }
}

impl Contour {
    pub fn new() -> (c: Contour)
        ensures
            c@ == Seq::<Node>::empty(),
    {
        Contour { nodes: Vec::new() }
    }

    pub fn from_nodes(nodes: Vec<Node>) -> (c: Contour)
        ensures
            c@ == nodes@,
    {
        Contour { nodes }
    }

    /// Move every node's point through `transform`; node kinds are kept.
    pub fn apply_affine(&mut self, transform: Affine)
        ensures
            final(self)@ == old(self)@.map_values(|n: Node| n.transformed(transform)),
    {
        let n = self.nodes.len();
        for i in 0..n
            invariant
                n == self.nodes.len(),
                forall|j: int| 0 <= j < i ==> self.nodes@[j]
                    == #[trigger] old(self).nodes@[j].transformed(transform),
                forall|j: int| i <= j < n ==> self.nodes@[j] == #[trigger] old(self).nodes@[j],
        {
            let node = &mut self.nodes[i];
            node.pt = transform.apply(node.pt);
        }
        proof {
            assert(self@ =~= old(self)@.map_values(|n: Node| n.transformed(transform)));
        }
    }
}

impl Default for Drawing {
    /// The empty drawing.
    fn default() -> (d: Drawing)
        ensures
            d@ == DrawingModel::empty(),
    {
        Drawing::new()
    }
}

impl Default for Contour {
    /// The empty contour.
    fn default() -> (c: Contour)
        ensures
            c@ == Seq::<Node>::empty(),
    {
        Contour::new()
    }
}

impl Drawing {
    /// An empty drawing: `height_and_origin` unset, zero width, no elements.
    pub fn new() -> (d: Drawing)
        ensures
            d@ == DrawingModel::empty(),
            d@.wf(),
    {
        let d = Drawing {
            height_and_origin: None,
            width: 0,
            anchors: Vec::new(),
            components: Vec::new(),
            contours: Vec::new(),
        };
        proof {
            assert(d@ =~~= DrawingModel::empty());
        }
        d
    }

    /// Apply `transform` to every anchor, component and contour, in that
    /// order, in place. Total: it cannot fail on any drawing.
    pub fn apply_affine(&mut self, transform: Affine)
        ensures
            final(self)@ == old(self)@.transformed(transform),
    {
        let na = self.anchors.len();
        for i in 0..na
            invariant
                na == self.anchors.len(),
                forall|j: int| 0 <= j < i ==> self.anchors@[j]@
                    == #[trigger] old(self).anchors@[j]@.transformed(transform),
                forall|j: int| i <= j < na ==> self.anchors@[j] == #[trigger] old(self).anchors@[j],
                self.height_and_origin == old(self).height_and_origin,
                self.width == old(self).width,
                self.components == old(self).components,
                self.contours == old(self).contours,
        {
            let anchor = &mut self.anchors[i];
            anchor.apply_affine(transform);
        }
        let nc = self.components.len();
        for i in 0..nc
            invariant
                na == self.anchors.len(),
                nc == self.components.len(),
                forall|j: int| 0 <= j < na ==> self.anchors@[j]@
                    == #[trigger] old(self).anchors@[j]@.transformed(transform),
                forall|j: int| 0 <= j < i ==> self.components@[j]@
                    == #[trigger] old(self).components@[j]@.transformed(transform),
                forall|j: int| i <= j < nc ==> self.components@[j]
                    == #[trigger] old(self).components@[j],
                self.height_and_origin == old(self).height_and_origin,
                self.width == old(self).width,
                self.contours == old(self).contours,
        {
            let component = &mut self.components[i];
            component.apply_affine(transform);
        }
        let nk = self.contours.len();
        for i in 0..nk
            invariant
                na == self.anchors.len(),
                nc == self.components.len(),
                nk == self.contours.len(),
                forall|j: int| 0 <= j < na ==> self.anchors@[j]@
                    == #[trigger] old(self).anchors@[j]@.transformed(transform),
                forall|j: int| 0 <= j < nc ==> self.components@[j]@
                    == #[trigger] old(self).components@[j]@.transformed(transform),
                forall|j: int| 0 <= j < i ==> #[trigger] self.contours@[j]@
                    == old(self).contours@[j]@.map_values(|n: Node| n.transformed(transform)),
                forall|j: int| i <= j < nk ==> self.contours@[j] == #[trigger] old(self).contours@[j],
                self.height_and_origin == old(self).height_and_origin,
                self.width == old(self).width,
        {
            let contour = &mut self.contours[i];
            contour.apply_affine(transform);
        }
        proof {
            assert(self@ =~~= old(self)@.transformed(transform));
        }
    }

    /// Construct an anchor from `(x, y, name)` and append it; fails exactly
    /// when `name` breaks the identifier rule, leaving the drawing unchanged.
    pub fn add_anchor(&mut self, x: i64, y: i64, name: &str) -> (r: Result<(), NameError>)
        ensures
            valid_name(name@) ==> r == Ok::<(), NameError>(()) && final(self)@ == (DrawingModel {
                anchors: old(self)@.anchors.push(AnchorModel { pt: Point { x, y }, name: name@ }),
                ..old(self)@
            }),
            !valid_name(name@) ==> r == Err::<(), NameError>(NameError::InvalidName)
                && *final(self) == *old(self),
            old(self)@.wf() ==> final(self)@.wf(),
    {
        match Anchor::new(x, y, name) {
            Ok(anchor) => {
                self.anchors.push(anchor);
                proof {
                    assert(self@.anchors =~= old(self)@.anchors.push(
                        AnchorModel { pt: Point { x, y }, name: name@ },
                    ));
                    assert(self@ =~~= (DrawingModel {
                        anchors: old(self)@.anchors.push(
                            AnchorModel { pt: Point { x, y }, name: name@ },
                        ),
                        ..old(self)@
                    }));
                }
                Ok(())
            },
            Err(e) => Err(e),
        }
    }

    /// Start a builder session; the pen takes the drawing over for the whole
    /// session (exclusive access) and `PointPen::finish` hands it back.
    pub fn point_pen(self) -> (pen: PointPen)
        ensures
            pen@.current is None,
            pen@.drawing == self@,
    {
        PointPen::new(self)
    }
}

} // verus!
