use glyph_drawing::geom::{Affine, Point};
use glyph_drawing::name::NameError;
use glyph_drawing::{Anchor, Component, Contour, Drawing, Node, PointType};

#[test]
fn direct() {
    let mut drawing = Drawing::new();

    drawing.anchors.push(Anchor::new(0, 0, "a").unwrap());
    drawing
        .components
        .push(Component::new("b", Affine::translate(1, 1)).unwrap());
    drawing.contours.push(Contour::from_nodes(vec![
        Node::new(0, 0, PointType::Move),
        Node::new(1, 1, PointType::Line),
    ]));
    drawing.apply_affine(Affine::translate(123, 456));

    assert_eq!(
        drawing,
        Drawing {
            height_and_origin: None,
            width: 0,
            anchors: vec![Anchor::new(123, 456, "a").unwrap()],
            components: vec![Component::new("b", Affine::new(1, 0, 0, 1, 124, 457)).unwrap()],
            contours: vec![Contour::from_nodes(vec![
                Node::new(123, 456, PointType::Move),
                Node::new(124, 457, PointType::Line),
            ])]
        }
    );
}

#[test]
fn pen() {
    let mut drawing = Drawing::new();

    drawing.add_anchor(0, 0, "a").unwrap();
    let mut pen = drawing.point_pen();
    pen.begin_path();
    pen.add_point(0, 0, PointType::Move);
    pen.add_point(1, 1, PointType::Line);
    pen.end_path();
    pen.add_component("b", Affine::translate(1, 1)).unwrap();
    let mut drawing = pen.finish();
    drawing.apply_affine(Affine::translate(123, 456));

    assert_eq!(
        drawing,
        Drawing {
            height_and_origin: None,
            width: 0,
            anchors: vec![Anchor::new(123, 456, "a").unwrap()],
            components: vec![Component::new("b", Affine::new(1, 0, 0, 1, 124, 457)).unwrap()],
            contours: vec![Contour::from_nodes(vec![
                Node::new(123, 456, PointType::Move),
                Node::new(124, 457, PointType::Line),
            ])]
        }
    );
}

fn sample_drawing() -> Drawing {
    let mut drawing = Drawing::new();
    drawing.height_and_origin = Some((700, -200));
    drawing.width = 512;
    drawing.add_anchor(10, -20, "top").unwrap();
    drawing.add_anchor(0, 0, "bottom").unwrap();
    let mut pen = drawing.point_pen();
    pen.begin_path();
    pen.add_point(3, 4, PointType::Move);
    pen.add_point(5, 6, PointType::OffCurve);
    pen.add_point(7, 8, PointType::Curve);
    pen.end_path();
    pen.add_component("acute", Affine::new(2, 1, -1, 3, 40, 50))
        .unwrap();
    pen.finish()
}

#[test]
fn transform_composition_matches_composed() {
    let t1 = Affine::new(2, 0, 1, 3, -7, 11);
    let t2 = Affine::new(-1, 2, 0, 5, 13, -4);

    let mut one_by_one = sample_drawing();
    one_by_one.apply_affine(t1);
    one_by_one.apply_affine(t2);

    let mut at_once = sample_drawing();
    at_once.apply_affine(t2.compose(t1));

    assert_eq!(one_by_one, at_once);
}

#[test]
fn identity_transform_changes_nothing() {
    let mut drawing = sample_drawing();
    drawing.apply_affine(Affine::identity());
    assert_eq!(drawing, sample_drawing());
}

#[test]
fn component_transform_composes_on_the_left() {
    let placement = Affine::new(2, 0, 0, 2, 10, 10);
    let outer = Affine::new(1, 0, 0, 1, 5, -5);
    let mut component = Component::new("base", placement).unwrap();
    component.apply_affine(outer);

    let p = Point::new(3, 4);
    assert_eq!(
        component.transform.apply(p),
        outer.apply(placement.apply(p))
    );
    // 2*3+10 = 16, then +5; 2*4+10 = 18, then -5.
    assert_eq!(component.transform.apply(p), Point::new(21, 13));
}

#[test]
fn contour_order_follows_call_order() {
    let drawing = Drawing::new();
    let mut pen = drawing.point_pen();
    pen.begin_path();
    pen.add_point(1, 1, PointType::Move);
    pen.add_point(2, 2, PointType::Line);
    pen.add_point(3, 3, PointType::Line);
    pen.end_path();
    pen.begin_path();
    pen.add_point(9, 9, PointType::Move);
    pen.end_path();
    let drawing = pen.finish();

    assert_eq!(
        drawing.contours,
        vec![
            Contour::from_nodes(vec![
                Node::new(1, 1, PointType::Move),
                Node::new(2, 2, PointType::Line),
                Node::new(3, 3, PointType::Line),
            ]),
            Contour::from_nodes(vec![Node::new(9, 9, PointType::Move)]),
        ]
    );
}

#[test]
fn anchor_rejects_empty_name() {
    assert_eq!(Anchor::new(0, 0, ""), Err(NameError::InvalidName));
}

#[test]
fn anchor_rejects_control_character() {
    assert_eq!(Anchor::new(0, 0, "a\u{1}b"), Err(NameError::InvalidName));
    assert_eq!(Anchor::new(0, 0, "a\u{7f}"), Err(NameError::InvalidName));
    assert_eq!(Anchor::new(0, 0, "\u{9f}a"), Err(NameError::InvalidName));
}

#[test]
fn anchor_accepts_ordinary_name() {
    let anchor = Anchor::new(1, 2, "top_3").unwrap();
    assert_eq!(anchor.pt, Point::new(1, 2));
    assert_eq!(anchor.name, "top_3");
}

#[test]
fn component_rejects_bad_base_name() {
    assert_eq!(
        Component::new("", Affine::identity()),
        Err(NameError::InvalidName)
    );
    assert_eq!(
        Component::new("a\u{0}", Affine::identity()),
        Err(NameError::InvalidName)
    );
}

#[test]
fn add_anchor_failure_leaves_no_partial_state() {
    let mut drawing = sample_drawing();
    let before = drawing.clone();
    assert_eq!(drawing.add_anchor(1, 2, "\u{2}"), Err(NameError::InvalidName));
    assert_eq!(drawing, before);
}

#[test]
fn add_component_failure_leaves_no_partial_state() {
    let drawing = sample_drawing();
    let before = drawing.clone();
    let mut pen = drawing.point_pen();
    assert_eq!(
        pen.add_component("", Affine::translate(1, 1)),
        Err(NameError::InvalidName)
    );
    assert_eq!(pen.finish(), before);
}

#[test]
fn finish_discards_open_contour() {
    let drawing = Drawing::new();
    let mut pen = drawing.point_pen();
    pen.begin_path();
    pen.add_point(1, 1, PointType::Move);
    let drawing = pen.finish();
    assert_eq!(drawing, Drawing::new());
}

#[test]
fn translate_wraps_at_the_coordinate_limit() {
    let mut contour = Contour::from_nodes(vec![Node::new(i64::MAX, 0, PointType::Move)]);
    contour.apply_affine(Affine::translate(1, 0));
    assert_eq!(
        contour,
        Contour::from_nodes(vec![Node::new(i64::MIN, 0, PointType::Move)])
    );
}

#[test]
fn transform_keeps_width_and_height() {
    let mut drawing = sample_drawing();
    drawing.apply_affine(Affine::new(0, 1, -1, 0, 9, 9));
    assert_eq!(drawing.height_and_origin, Some((700, -200)));
    assert_eq!(drawing.width, 512);
    assert_eq!(drawing.anchors[0].name, "top");
    assert_eq!(drawing.components[0].base, "acute");
    assert_eq!(drawing.contours[0].nodes[1].typ, PointType::OffCurve);
}

#[test]
fn new_drawing_is_empty() {
    let drawing = Drawing::new();
    assert_eq!(drawing.height_and_origin, None);
    assert_eq!(drawing.width, 0);
    assert!(drawing.anchors.is_empty());
    assert!(drawing.components.is_empty());
    assert!(drawing.contours.is_empty());
    assert_eq!(drawing, Drawing::default());
    assert_eq!(Contour::default(), Contour::new());
}

#[test]
fn apply_to_point_uses_the_full_matrix() {
    // (2*3 + -1*4 + 10, 1*3 + 5*4 + -20) = (12, 3)
    let t = Affine::new(2, 1, -1, 5, 10, -20);
    assert_eq!(t.apply(Point::new(3, 4)), Point::new(12, 3));
}

#[test]
fn compose_applies_inner_first() {
    let scale = Affine::new(2, 0, 0, 2, 0, 0);
    let shift = Affine::translate(10, 20);
    // scale after shift: (2*(x+10), 2*(y+20))
    assert_eq!(
        scale.compose(shift).apply(Point::new(1, 1)),
        Point::new(22, 42)
    );
    // shift after scale: (2x+10, 2y+20)
    assert_eq!(
        shift.compose(scale).apply(Point::new(1, 1)),
        Point::new(12, 22)
    );
}
