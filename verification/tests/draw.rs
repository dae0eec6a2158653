use mandala::color::Color;
use mandala::mandala::{Mandala, MandalaState};
use mandala::mesh::{RenderSink, FILL_TOLERANCE};
use mandala::transform::Transform;
use quicksilver::geom::Transform as ScreenTransform;
use quicksilver::graphics::{Color as ScreenColor, Mesh, ShapeRenderer};
use quicksilver::lyon::path::Path;
use quicksilver::lyon::svg::path_utils::build_path;
use quicksilver::lyon::tessellation::{FillOptions, FillTessellator};

/// An SVG document with one outline: a polygon with as many corners as
/// asked for, all on a circle.
fn petal_svg(corners: usize) -> String {
    let mut data = String::new();
    for i in 0..corners {
        let angle = (i as f64) * std::f64::consts::TAU / (corners as f64);
        let command = if i == 0 { "M" } else { "L" };
        data.push_str(&format!("{} {:.4} {:.4} ", command, 40.0 * angle.cos(), 40.0 * angle.sin()));
    }
    data.push('z');
    format!("<svg xmlns=\"http://www.w3.org/2000/svg\"><path d=\"{}\"/></svg>", data)
}

fn rotate(angle: i64) -> Transform {
    let radians = (angle as f64 / 1_000_000.0).to_radians();
    Transform::rotation(
        (radians.cos() * 1_000_000.0).round() as i64,
        (radians.sin() * 1_000_000.0).round() as i64,
    )
}

fn to_float(raw: i64) -> f32 {
    (raw as f64 / 1_000_000.0) as f32
}

fn screen_color(color: Color) -> ScreenColor {
    ScreenColor {
        r: to_float(color.r),
        g: to_float(color.g),
        b: to_float(color.b),
        a: to_float(color.a),
    }
}

fn screen_transform(t: Transform) -> ScreenTransform {
    ScreenTransform::from_array([
        [to_float(t.m00), to_float(t.m01), to_float(t.m02)],
        [to_float(t.m10), to_float(t.m11), to_float(t.m12)],
        [to_float(t.m20), to_float(t.m21), to_float(t.m22)],
    ])
}

/// Turns every shape of the sink into triangles.
fn tessellate(sink: &RenderSink, shape_renderer: &mut ShapeRenderer) {
    let mut tessellator = FillTessellator::new();
    for shape in &sink.shapes {
        shape_renderer.set_color(screen_color(shape.color));
        shape_renderer.set_transform(screen_transform(shape.transform));
        let path = build_path(Path::builder().with_svg(), &shape.path).unwrap();
        tessellator
            .tessellate_path(&path, &FillOptions::tolerance(to_float(FILL_TOLERANCE)), shape_renderer)
            .unwrap();
    }
}

fn open_state() -> MandalaState {
    MandalaState::new(
        Color { r: 1_000_000, g: 0, b: 0, a: 1_000_000 },
        Transform::rotation(0, 1_000_000),
        Transform::translate(50_000_000, 0),
        Transform::scale(1_000_000, 1_000_000),
    )
}

fn closed_state() -> MandalaState {
    MandalaState::new(
        Color { r: 1_000_000, g: 1_000_000, b: 0, a: 1_000_000 },
        Transform::rotation(1_000_000, 0),
        Transform::translate(0, 0),
        Transform::scale(100_000, 1_000_000),
    )
}

#[test]
fn test_create_and_draw_mandala() {
    let mut mandala = Mandala::new(
        &petal_svg(134),
        (500_000_000, 500_000_000),
        (2_000_000, 2_000_000),
        5,
        rotate,
        open_state(),
        closed_state(),
        0,
    )
    .unwrap();
    let mut sink = RenderSink::new();
    let mut seconds_since_start = 100_000;
    mandala.draw(seconds_since_start, &mut sink);
    seconds_since_start = 65_000_000;
    mandala.draw(seconds_since_start, &mut sink);
    let mut mesh = Mesh::new();
    let mut shape_renderer = ShapeRenderer::new(&mut mesh, ScreenColor::PURPLE);
    tessellate(&sink, &mut shape_renderer);
    let triangles = mesh.triangles;
    let expected = 1320;

    assert_eq!(expected, triangles.len());
}

#[test]
fn integration_test_draw_mandala_open() {
    let mut mandala = Mandala::new(
        &petal_svg(134),
        (500_000_000, 500_000_000),
        (2_000_000, 2_000_000),
        5,
        rotate,
        open_state(),
        closed_state(),
        1_000_000,
    )
    .unwrap();
    assert_eq!(1_000_000, mandala.current_value(1_000_000));

    let mut sink = RenderSink::new();
    let seconds_since_start = 100_000;

    mandala.draw(seconds_since_start, &mut sink);
    let mut mesh = Mesh::new();
    let mut shape_renderer = ShapeRenderer::new(&mut mesh, ScreenColor::PURPLE);
    tessellate(&sink, &mut shape_renderer);
    let expected = 660;
    assert_eq!(expected, (&mesh.triangles).len());
}

#[test]
fn triangles_carry_the_color_and_the_placement_of_their_shape() {
    let mut mandala = Mandala::new(
        "<svg><path d=\"M 0 0 L 10 0 L 0 10 z\"/></svg>",
        (500_000_000, 500_000_000),
        (2_000_000, 2_000_000),
        1,
        rotate,
        open_state(),
        closed_state(),
        1_000_000,
    )
    .unwrap();
    let mut sink = RenderSink::new();
    mandala.draw(0, &mut sink);
    let mut mesh = Mesh::new();
    let mut shape_renderer = ShapeRenderer::new(&mut mesh, ScreenColor::PURPLE);
    tessellate(&sink, &mut shape_renderer);
    assert_eq!(mesh.triangles.len(), 1);
    assert_eq!(mesh.vertices.len(), 3);
    let mut corners: Vec<(i64, i64)> = mesh
        .vertices
        .iter()
        .map(|v| (v.pos.x.round() as i64, v.pos.y.round() as i64))
        .collect();
    corners.sort();
    assert_eq!(corners, vec![(580, 500), (600, 500), (600, 520)]);
    for vertex in &mesh.vertices {
        assert_eq!(vertex.col, ScreenColor { r: 1.0, g: 0.0, b: 0.0, a: 1.0 });
    }
}

#[test]
fn tessellating_the_same_shapes_twice_gives_the_same_triangles() {
    let mut mandala = Mandala::new(
        &petal_svg(17),
        (500_000_000, 500_000_000),
        (2_000_000, 2_000_000),
        7,
        rotate,
        open_state(),
        closed_state(),
        350_000,
    )
    .unwrap();
    let mut sink = RenderSink::new();
    mandala.draw(3_000_000, &mut sink);
    let mut first = Mesh::new();
    tessellate(&sink, &mut ShapeRenderer::new(&mut first, ScreenColor::PURPLE));
    let mut second = Mesh::new();
    tessellate(&sink, &mut ShapeRenderer::new(&mut second, ScreenColor::PURPLE));
    assert_eq!(first.triangles.len(), 7 * 15);
    assert_eq!(first.vertices.len(), second.vertices.len());
    assert_eq!(first.triangles.len(), second.triangles.len());
    for (a, b) in first.vertices.iter().zip(second.vertices.iter()) {
        assert_eq!(a.pos.x.to_bits(), b.pos.x.to_bits());
        assert_eq!(a.pos.y.to_bits(), b.pos.y.to_bits());
        assert_eq!(a.col, b.col);
    }
    for (a, b) in first.triangles.iter().zip(second.triangles.iter()) {
        assert_eq!(a.indices, b.indices);
    }
}

#[test]
fn triangle_count_grows_with_the_petal_count() {
    for petal_count in [0, 1, 2, 5, 12] {
        let mut mandala = Mandala::new(
            &petal_svg(10),
            (0, 0),
            (1_000_000, 1_000_000),
            petal_count,
            rotate,
            open_state(),
            closed_state(),
            1_000_000,
        )
        .unwrap();
        let mut sink = RenderSink::new();
        mandala.draw(0, &mut sink);
        let mut mesh = Mesh::new();
        tessellate(&sink, &mut ShapeRenderer::new(&mut mesh, ScreenColor::PURPLE));
        assert_eq!(mesh.triangles.len(), 8 * petal_count);
    }
}

#[test]
fn fill_tolerance_is_a_hundredth() {
    assert_eq!(FILL_TOLERANCE, 10_000);
    assert_eq!(to_float(FILL_TOLERANCE), 0.01);
}
