//! The incremental "point pen" builder: a two-state session (idle /
//! path-open) that streams `begin_path` / `add_point` / `end_path` /
//! `add_component` calls into a [`Drawing`].
//!
//! The pen owns the drawing for the whole session, so no other code can
//! touch it while a contour is mid-construction; [`PointPen::finish`] hands
//! the drawing back. Misuse of the path protocol (opening a path twice,
//! adding a point with no path open) is a programming defect, not a runtime
//! condition: verified callers are stopped by the preconditions, and an
//! unverified caller that breaks them dies on the spot.

use vstd::prelude::*;
use vstd::pervasive::unreached;

use crate::geom::{Affine, Point};
use crate::name::{name_is_valid, valid_name, NameError};
use crate::{Component, ComponentModel, Contour, Drawing, DrawingModel, Node, PointType};

verus! {

/// A builder session bound to one drawing.
#[derive(Debug)]
pub struct PointPen {
    current_contour: Option<Contour>,
    drawing: Drawing,
}

/// Spec-level mirror of a [`PointPen`]: the contour under construction, if a
/// path is open, and the drawing built so far.
#[verifier::ext_equal]
pub struct PenModel {
    pub current: Option<Seq<Node>>,
    pub drawing: DrawingModel,
}

impl View for PointPen {
    type V = PenModel;

    closed spec fn view(&self) -> PenModel {
        PenModel {
            current: match self.current_contour {
                Some(c) => Some(c@),
                None => None,
            },
            drawing: self.drawing@,
        }
    }
}

impl PointPen {
    /// Open a session on `drawing`; no path is open at first.
    pub fn new(drawing: Drawing) -> (pen: PointPen)
        ensures
            pen@.current is None,
            pen@.drawing == drawing@,
    {
        PointPen { current_contour: None, drawing }
    }

    /// Open a new, empty contour. Requires the idle state: no contour may
    /// already be open; an unverified caller that breaks the protocol dies
    /// here.
    pub fn begin_path(&mut self)
        requires
            old(self)@.current is None,
        ensures
            final(self)@.current == Some(Seq::<Node>::empty()),
            final(self)@.drawing == old(self)@.drawing,
    {
        if self.current_contour.is_some() {
            unreached()
        } else {
            self.current_contour = Some(Contour::new());
        }
    }

    /// Move the open contour to the end of the drawing's contour list and
    /// return to the idle state. Requires an open path.
    pub fn end_path(&mut self)
        requires
            old(self)@.current is Some,
        ensures
            final(self)@.current is None,
            final(self)@.drawing == (DrawingModel {
                contours: old(self)@.drawing.contours.push(old(self)@.current.unwrap()),
                ..old(self)@.drawing
            }),
    {
        let finished = self.current_contour.take();
        match finished {
            Some(c) => {
                self.drawing.contours.push(c);
                proof {
                    assert(self@.drawing =~~= (DrawingModel {
                        contours: old(self)@.drawing.contours.push(old(self)@.current.unwrap()),
                        ..old(self)@.drawing
                    }));
                }
            },
            None => unreached(),
        }
    }

    /// Append a node to the open contour, in call order. Requires an open
    /// path.
    pub fn add_point(&mut self, x: i64, y: i64, segment_type: PointType)
        requires
            old(self)@.current is Some,
        ensures
            final(self)@.current == Some(old(self)@.current.unwrap().push(
                Node { pt: Point { x, y }, typ: segment_type },
            )),
            final(self)@.drawing == old(self)@.drawing,
    {
        match &mut self.current_contour {
            Some(contour) => {
                contour.nodes.push(Node::new(x, y, segment_type));
            },
            None => unreached(),
        }
    }

    /// Construct a component from `glyph_name` and `transform` and append it
    /// to the drawing; legal in either state. Fails exactly when
    /// `glyph_name` breaks the identifier rule, changing nothing.
    pub fn add_component(&mut self, glyph_name: &str, transform: Affine) -> (r: Result<
        (),
        NameError,
    >)
        ensures
            valid_name(glyph_name@) ==> r == Ok::<(), NameError>(()) && final(self)@ == (PenModel {
                drawing: DrawingModel {
                    components: old(self)@.drawing.components.push(
                        ComponentModel { base: glyph_name@, transform },
                    ),
                    ..old(self)@.drawing
                },
                ..old(self)@
            }),
            !valid_name(glyph_name@) ==> r == Err::<(), NameError>(NameError::InvalidName)
                && *final(self) == *old(self),
            old(self)@.drawing.wf() ==> final(self)@.drawing.wf(),
    {
        match Component::new(glyph_name, transform) {
            Ok(component) => {
                self.drawing.components.push(component);
                proof {
                    assert(self@ =~~= (PenModel {
                        drawing: DrawingModel {
                            components: old(self)@.drawing.components.push(
                                ComponentModel { base: glyph_name@, transform },
                            ),
                            ..old(self)@.drawing
                        },
                        ..old(self)@
                    }));
                }
                Ok(())
            },
            Err(e) => Err(e),
        }
    }

    /// End the session and hand the drawing back. A still-open contour is
    /// silently discarded: it never reached `end_path`, so it is no part of
    /// the drawing.
    pub fn finish(self) -> (d: Drawing)
        ensures
            d@ == self@.drawing,
    {
        self.drawing
    }
}

} // verus!
