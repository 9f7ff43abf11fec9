use graphics::context::{fill_plan, FillPlan, Opacity, TweenPolygonsColorContext};
use graphics::fan::{fan_batches, FanTessellator};
use graphics::rect::{rect_tri_list, rect_tri_list_flat, rect_tri_list_rgba};
use graphics::shapes::{tween_frames, Sample, ShapeKind, ShapeSampler};

type Pt = (i32, i32);

fn ident(p: Pt) -> Pt {
    p
}

fn square_points() -> Vec<Pt> {
    vec![(0, 0), (1, 0), (1, 1), (0, 1)]
}

#[test]
fn fan_of_convex_polygon_has_n_minus_two_triangles() {
    let pts: Vec<Pt> = vec![(0, 0), (2, 0), (3, 1), (2, 2), (0, 2)];
    let batches = fan_batches(&pts, &ident, 'c', 10);
    assert_eq!(batches.len(), 1);
    assert_eq!(
        batches[0].vertices,
        vec![(0, 0), (2, 0), (3, 1), (0, 0), (3, 1), (2, 2), (0, 0), (2, 2), (0, 2)]
    );
    assert_eq!(batches[0].colors, vec!['c'; 9]);
}

#[test]
fn fan_vertices_are_transformed() {
    let shift = |p: Pt| (2 * p.0 + 10, 3 * p.1 - 1);
    let batches = fan_batches(&square_points(), &shift, 7u8, 4);
    assert_eq!(batches.len(), 1);
    assert_eq!(
        batches[0].vertices,
        vec![(10, -1), (12, -1), (12, 2), (10, -1), (12, 2), (10, 2)]
    );
    assert_eq!(batches[0].colors, vec![7u8; 6]);
}

#[test]
fn fewer_than_two_points_give_nothing() {
    let none: Vec<Pt> = vec![];
    assert!(fan_batches(&none, &ident, 0u8, 3).is_empty());
    assert!(fan_batches(&vec![(4, 4)], &ident, 0u8, 3).is_empty());
    assert!(fan_batches(&vec![(4, 4), (5, 5)], &ident, 0u8, 3).is_empty());
}

#[test]
fn batches_join_to_the_unbounded_fan() {
    let pts: Vec<Pt> = (0..9).map(|i| (i, i * i)).collect();
    let whole = fan_batches(&pts, &ident, 1u8, 100);
    assert_eq!(whole.len(), 1);
    let small = fan_batches(&pts, &ident, 1u8, 2);
    assert_eq!(small.len(), 4);
    let joined: Vec<Pt> = small.iter().flat_map(|b| b.vertices.iter().copied()).collect();
    assert_eq!(joined, whole[0].vertices);
    assert_eq!(joined.len(), 3 * 7);
    for b in &small {
        assert!(!b.vertices.is_empty());
        assert_eq!(b.vertices.len(), b.colors.len());
    }
}

#[test]
fn one_triangle_past_capacity_flushes_twice() {
    let capacity = 3;
    let pts: Vec<Pt> = (0..(capacity as i32 + 3)).map(|i| (i, -i)).collect();
    let batches = fan_batches(&pts, &ident, 9u8, capacity);
    assert_eq!(batches.len(), 2);
    assert_eq!(batches[0].vertices.len(), 3 * capacity);
    assert_eq!(batches[1].vertices, vec![(0, 0), (4, -4), (5, -5)]);
    assert_eq!(batches[1].colors, vec![9u8; 3]);
}

#[test]
fn tessellator_streams_with_flushes() {
    let mut t: FanTessellator<Pt, u8> = FanTessellator::new(5, 1);
    assert!(!t.push((0, 0)));
    assert!(!t.push((1, 0)));
    assert!(!t.has_pending());
    assert!(t.push((1, 1)));
    assert!(t.is_full());
    assert_eq!(t.batch_vertices(), &[(0, 0), (1, 0), (1, 1)][..]);
    assert_eq!(t.batch_colors(), &[5u8, 5, 5][..]);
    t.flush();
    assert!(!t.has_pending());
    assert!(t.push((0, 1)));
    assert_eq!(t.batch_vertices(), &[(0, 0), (1, 1), (0, 1)][..]);
}

fn all_samples(kind: ShapeKind) -> Vec<Sample> {
    let mut s = ShapeSampler::new(kind);
    let mut out = vec![];
    while let Some(p) = s.next_sample() {
        out.push(p);
    }
    assert!(s.next_sample().is_none());
    out
}

#[test]
fn ellipse_of_four_points_is_at_quarter_turns() {
    let s = all_samples(ShapeKind::Ellipse { resolution: 4 });
    assert_eq!(
        s,
        vec![
            Sample::Turn { step: 0, steps: 4 },
            Sample::Turn { step: 1, steps: 4 },
            Sample::Turn { step: 2, steps: 4 },
            Sample::Turn { step: 3, steps: 4 },
        ]
    );
}

#[test]
fn round_rectangle_of_two_points_per_corner_visits_each_corner() {
    let s = all_samples(ShapeKind::RoundRectangle { resolution: 2 });
    let mut expected = vec![];
    for corner in 0..4 {
        for step in 0..2 {
            expected.push(Sample::Corner { corner, step, steps: 1 });
        }
    }
    assert_eq!(s, expected);
}

#[test]
fn round_border_caps_split_at_resolution() {
    let s = all_samples(ShapeKind::RoundBorder { resolution: 3 });
    assert_eq!(
        s,
        vec![
            Sample::Cap { end: false, step: 0, steps: 2 },
            Sample::Cap { end: false, step: 1, steps: 2 },
            Sample::Cap { end: false, step: 2, steps: 2 },
            Sample::Cap { end: true, step: 0, steps: 2 },
            Sample::Cap { end: true, step: 1, steps: 2 },
            Sample::Cap { end: true, step: 2, steps: 2 },
        ]
    );
}

#[test]
fn polygon_walks_pairs_and_drops_odd_tail() {
    let s = all_samples(ShapeKind::Polygon { len: 7 });
    assert_eq!(
        s,
        vec![
            Sample::Vertex { index: 0 },
            Sample::Vertex { index: 2 },
            Sample::Vertex { index: 4 },
        ]
    );
    assert!(all_samples(ShapeKind::Polygon { len: 1 }).is_empty());
    assert_eq!(ShapeSampler::new(ShapeKind::Polygon { len: 8 }).count(), 4);
}

#[test]
fn tween_frame_pairs_wrap() {
    assert_eq!(tween_frames(0, 2), (0, 1));
    assert_eq!(tween_frames(1, 2), (1, 0));
    assert_eq!(tween_frames(0, 1), (0, 0));
    assert_eq!(tween_frames(3, 5), (3, 4));
}

#[test]
fn transparent_fill_draws_nothing() {
    assert_eq!(fill_plan(true, Opacity::Transparent), FillPlan::Skip);
    assert_eq!(fill_plan(true, Opacity::Translucent), FillPlan::Draw { blend: true });
    assert_eq!(fill_plan(true, Opacity::Opaque), FillPlan::Draw { blend: false });
    assert_eq!(fill_plan(false, Opacity::Opaque), FillPlan::Unsupported);
    assert_eq!(fill_plan(false, Opacity::Transparent), FillPlan::Unsupported);
}

#[test]
fn context_derivations_override_one_field() {
    let c = TweenPolygonsColorContext { base: 1u8, transform: 2u8, color: 'r', tween_factor: 5i32, polygons: "p" };
    let d = c.color('g');
    assert_eq!((d.base, d.transform, d.color, d.tween_factor, d.polygons), (1, 2, 'g', 5, "p"));
    assert_eq!(*c.get_color(), 'r');
    let e = c.transform(9);
    assert_eq!((e.base, e.transform, e.color), (1, 9, 'r'));
    assert_eq!(*e.get_transform(), 9);
    let v = e.view();
    assert_eq!((v.base, v.transform), (1, 1));
    let s = e.store_view();
    assert_eq!((s.base, s.transform), (9, 9));
    let r = e.reset(0);
    assert_eq!((r.base, r.transform, r.tween_factor), (1, 0, 5));
}

#[test]
fn rectangle_lists() {
    assert_eq!(rect_tri_list('a', 'b', 'c', 'd'), ['a', 'b', 'c', 'b', 'd', 'c']);
    assert_eq!(rect_tri_list_flat(1, 2, 3, 4), [1, 2, 3, 2, 1, 4, 3, 2, 3, 4, 1, 4]);
    let colors = rect_tri_list_rgba([0.25f32, 0.5, 0.75, 1.0]);
    for (i, c) in colors.iter().enumerate() {
        assert_eq!(*c, [0.25f32, 0.5, 0.75, 1.0][i % 4]);
    }
}

#[test]
fn context_clone_keeps_every_field() {
    let c = TweenPolygonsColorContext { base: 3u8, transform: 4u8, color: 'x', tween_factor: -2i32, polygons: "q" };
    let d = c.clone();
    assert_eq!((d.base, d.transform, d.color, d.tween_factor, d.polygons), (3, 4, 'x', -2, "q"));
}
