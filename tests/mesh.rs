use sdf_text::{
    GlyphLayout, GlyphLimitExceeded, Quad, TextMesh, TextMeshCreationError,
    MAX_GLYPHS,
};

fn quad(x: f32, y: f32, w: f32, h: f32) -> Quad<f32> {
    Quad { corners: [(x, y), (x + w, y), (x + w, y + h), (x, y + h)], right: x + w }
}

fn glyph(x: f32) -> GlyphLayout<f32> {
    GlyphLayout { in_mesh: quad(x, 0.0, 1.0, 2.0), in_atlas: quad(x / 16.0, 0.0, 0.0625, 0.125) }
}

fn run(n: usize) -> Vec<GlyphLayout<f32>> {
    (0..n).map(|i| glyph(i as f32 * 1.5)).collect()
}

type MeshResult = Result<TextMesh<f32>, TextMeshCreationError<(), ()>>;

#[test]
fn single_glyph_scenario() {
    let g = GlyphLayout {
        in_mesh: Quad { corners: [(0.0, 0.0), (1.0, 0.0), (1.0, 1.0), (0.0, 1.0)], right: 1.0 },
        in_atlas: Quad { corners: [(0.0, 0.0), (0.5, 0.0), (0.5, 0.5), (0.0, 0.5)], right: 0.5 },
    };
    let (vertices, indices, width) = TextMesh::compute_buffers(&[g], 0.0f32).unwrap();
    let expected = [
        ((0.0, 0.0), (0.0, 0.0)),
        ((1.0, 0.0), (0.5, 0.0)),
        ((1.0, 1.0), (0.5, 0.5)),
        ((0.0, 1.0), (0.0, 0.5)),
    ];
    assert_eq!(vertices.len(), 4);
    for (v, (p, t)) in vertices.iter().zip(expected.iter()) {
        assert_eq!(v.position, *p);
        assert_eq!(v.texture_coordinate, *t);
    }
    assert_eq!(indices, vec![0, 1, 2, 2, 3, 0]);
    assert_eq!(width, 1.0);
}

#[test]
fn counts_are_four_and_six_per_glyph() {
    for n in [0usize, 1, 2, 7, 100] {
        let (vertices, indices, _) = TextMesh::compute_buffers(&run(n), 0.0f32).unwrap();
        assert_eq!(vertices.len(), 4 * n);
        assert_eq!(indices.len(), 6 * n);
    }
}

#[test]
fn indices_name_existing_vertices() {
    let (vertices, indices, _) = TextMesh::compute_buffers(&run(37), 0.0f32).unwrap();
    assert!(indices.iter().all(|&i| (i as usize) < vertices.len()));
}

#[test]
fn each_glyph_has_two_triangles_on_its_quad() {
    let (_, indices, _) = TextMesh::compute_buffers(&run(5), 0.0f32).unwrap();
    for g in 0..5u16 {
        let b = 4 * g;
        let got = &indices[6 * g as usize..6 * g as usize + 6];
        assert_eq!(got, &[b, b + 1, b + 2, b + 2, b + 3, b]);
    }
}

#[test]
fn vertices_follow_corners_in_order() {
    let glyphs = run(3);
    let (vertices, _, _) = TextMesh::compute_buffers(&glyphs, 0.0f32).unwrap();
    for (g, layout) in glyphs.iter().enumerate() {
        for c in 0..4 {
            assert_eq!(vertices[4 * g + c].position, layout.in_mesh.corners[c]);
            assert_eq!(vertices[4 * g + c].texture_coordinate, layout.in_atlas.corners[c]);
        }
    }
}

#[test]
fn width_is_last_right_edge() {
    let (_, _, width) = TextMesh::compute_buffers(&run(4), 0.0f32).unwrap();
    assert_eq!(width, 4.5 + 1.0);
    // not the widest glyph but the last one
    let glyphs = vec![glyph(10.0), glyph(2.0)];
    let (_, _, width) = TextMesh::compute_buffers(&glyphs, 0.0f32).unwrap();
    assert_eq!(width, 3.0);
}

#[test]
fn empty_run_gives_empty_mesh() {
    let (vertices, indices, width) = TextMesh::<f32>::compute_buffers(&[], 0.0).unwrap();
    assert!(vertices.is_empty());
    assert!(indices.is_empty());
    assert_eq!(width, 0.0);
    let mesh: MeshResult = TextMesh::new(&[], 0.0);
    let mesh = mesh.unwrap();
    assert!(mesh.vertices().is_empty());
    assert!(mesh.indices().is_empty());
    assert_eq!(mesh.width(), 0.0);
}

#[test]
fn set_twice_gives_identical_buffers() {
    let mesh: MeshResult = TextMesh::new(&run(2), 0.0);
    let mut mesh = mesh.unwrap();
    let glyphs = run(9);
    mesh.set(&glyphs, 0.0).unwrap();
    let vertices: Vec<_> =
        mesh.vertices().iter().map(|v| (v.position, v.texture_coordinate)).collect();
    let indices = mesh.indices().to_vec();
    let width = mesh.width();
    mesh.set(&glyphs, 0.0).unwrap();
    let again: Vec<_> =
        mesh.vertices().iter().map(|v| (v.position, v.texture_coordinate)).collect();
    assert_eq!(vertices, again);
    assert_eq!(indices, mesh.indices());
    assert_eq!(width, mesh.width());
    assert_eq!(mesh.vertices().len(), 36);
    assert_eq!(mesh.indices().len(), 54);
}

#[test]
fn largest_mesh_is_accepted() {
    let (vertices, indices, _) = TextMesh::compute_buffers(&run(MAX_GLYPHS), 0.0f32).unwrap();
    assert_eq!(MAX_GLYPHS, 16383);
    assert_eq!(vertices.len(), 65532);
    assert_eq!(*indices.iter().max().unwrap(), 65531);
}

#[test]
fn too_many_glyphs_are_refused() {
    let glyphs = run(MAX_GLYPHS + 1);
    assert_eq!(
        TextMesh::compute_buffers(&glyphs, 0.0f32).err(),
        Some(GlyphLimitExceeded { glyph_count: 16384 })
    );
    let mesh: MeshResult = TextMesh::new(&glyphs, 0.0);
    assert!(matches!(
        mesh,
        Err(TextMeshCreationError::TooManyGlyphs(GlyphLimitExceeded { glyph_count: 16384 }))
    ));
}

#[test]
fn refused_set_keeps_the_mesh() {
    let mesh: MeshResult = TextMesh::new(&run(3), 0.0);
    let mut mesh = mesh.unwrap();
    let before = mesh.indices().to_vec();
    let result = mesh.set(&run(MAX_GLYPHS + 1), 0.0);
    assert_eq!(result, Err(GlyphLimitExceeded { glyph_count: 16384 }));
    assert_eq!(mesh.indices(), &before[..]);
    assert_eq!(mesh.vertices().len(), 12);
    assert_eq!(mesh.width(), 3.0 + 1.0);
}
