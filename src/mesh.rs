use vstd::prelude::*;

verus! {

/// The most vertices a mesh may hold: its indices are 16 bits wide.
pub const MAX_VERTICES: usize = 65535;

/// The most glyphs a mesh may hold: four vertices each, within `MAX_VERTICES`.
pub const MAX_GLYPHS: usize = 16383;

/// An axis-aligned rectangle given by its four corners, in a winding order
/// shared by every quad, and the x of its right edge.
pub struct Quad<T> {
    pub corners: [(T, T); 4],
    pub right: T,
}

/// Where the layout engine put one glyph: its rectangle in the output space,
/// and the region of the atlas that holds its distance field.
pub struct GlyphLayout<T> {
    pub in_mesh: Quad<T>,
    pub in_atlas: Quad<T>,
}

/// One vertex of a glyph quad: where it is drawn, and where the atlas is
/// sampled for it.
pub struct GlyphQuadVertex<T> {
    pub position: (T, T),
    pub texture_coordinate: (T, T),
}

impl<T: Copy> Clone for Quad<T> {
    fn clone(&self) -> (r: Self)
        ensures
            r == *self,
    {
        *self
    }
}

impl<T: Copy> Copy for Quad<T> {

}

impl<T: Copy> Clone for GlyphLayout<T> {
    fn clone(&self) -> (r: Self)
        ensures
            r == *self,
    {
        *self
    }
}

impl<T: Copy> Copy for GlyphLayout<T> {

}

impl<T: Copy> Clone for GlyphQuadVertex<T> {
    fn clone(&self) -> (r: Self)
        ensures
            r == *self,
    {
        *self
    }
}

impl<T: Copy> Copy for GlyphQuadVertex<T> {

}

/// The mesh is refused: it would need more than `MAX_VERTICES` vertices.
#[derive(Debug, Clone, Copy, PartialEq, Eq, Structural)]
pub struct GlyphLimitExceeded {
    pub glyph_count: usize,
}

/// Why a text mesh could not be created: too many glyphs for 16-bit indices,
/// or the device refused the vertex or the index buffer.
#[derive(Debug)]
pub enum TextMeshCreationError<V, I> {
    TooManyGlyphs(GlyphLimitExceeded),
    Vertex(V),
    Index(I),
}

/// The position, within the vertex buffer, of corner `corner` of glyph `glyph`.
pub open spec fn vertex_slot(glyph: int, corner: int) -> int {
    4 * glyph + corner
}

/// The position, within the index buffer, of entry `entry` of glyph `glyph`.
pub open spec fn index_slot(glyph: int, entry: int) -> int {
    6 * glyph + entry
}

/// The corner that entry `entry` (0 to 5) of a glyph's two triangles names:
/// `0, 1, 2` and `2, 3, 0`, sharing the diagonal from corner 0 to corner 2.
pub open spec fn triangle_corner(entry: int) -> int {
    if entry == 0 {
        0
    } else if entry == 1 {
        1
    } else if entry == 2 {
        2
    } else if entry == 3 {
        2
    } else if entry == 4 {
        3
    } else {
        0
    }
}

/// Corner `corner` of `glyph` as a vertex: the mesh quad's corner as position,
/// the atlas quad's same corner as texture coordinate.
pub open spec fn corner_vertex<T>(glyph: GlyphLayout<T>, corner: int) -> GlyphQuadVertex<T> {
    GlyphQuadVertex {
        position: glyph.in_mesh.corners@[corner],
        texture_coordinate: glyph.in_atlas.corners@[corner],
    }
}

/// Whether `glyph_count` glyphs fit in one mesh.
pub open spec fn fits_mesh(glyph_count: nat) -> bool {
    4 * glyph_count <= MAX_VERTICES
}

/// The vertices of the mesh of `glyphs`: four per glyph, in glyph order.
pub open spec fn is_vertex_buffer_of<T>(glyphs: Seq<GlyphLayout<T>>, vertices: Seq<GlyphQuadVertex<T>>) -> bool {
    &&& vertices.len() == 4 * glyphs.len()
    &&& forall|g: int, c: int|
        0 <= g < glyphs.len() && 0 <= c < 4 ==> #[trigger] vertices[vertex_slot(g, c)]
            == corner_vertex(glyphs[g], c)
}

/// The indices of the mesh of `glyph_count` glyphs: for glyph `g` the six
/// values `4g, 4g+1, 4g+2, 4g+2, 4g+3, 4g`.
pub open spec fn is_index_buffer_of(glyph_count: nat, indices: Seq<u16>) -> bool {
    &&& indices.len() == 6 * glyph_count
    &&& forall|g: int, e: int|
        0 <= g < glyph_count && 0 <= e < 6 ==> #[trigger] indices[index_slot(g, e)] as int
            == vertex_slot(g, triangle_corner(e))
}

/// The width of the text: the right edge of the last glyph's mesh quad, or
/// `empty_width` when there is no glyph.
pub open spec fn text_width<T>(glyphs: Seq<GlyphLayout<T>>, empty_width: T) -> T {
    if glyphs.len() == 0 {
        empty_width
    } else {
        glyphs.last().in_mesh.right
    }
}

/// Whether `(vertices, indices, width)` is the mesh of `glyphs`.
pub open spec fn is_mesh_of<T>(
    glyphs: Seq<GlyphLayout<T>>,
    empty_width: T,
    vertices: Seq<GlyphQuadVertex<T>>,
    indices: Seq<u16>,
    width: T,
) -> bool {
    &&& is_vertex_buffer_of(glyphs, vertices)
    &&& is_index_buffer_of(glyphs.len(), indices)
    &&& width == text_width(glyphs, empty_width)
}

/// The geometry of one run of text: four vertices and six 16-bit indices per
/// glyph, and the width of the run.
pub struct TextMesh<T> {
    vertices: Vec<GlyphQuadVertex<T>>,
    indices: Vec<u16>,
    width: T,
}

impl<T> View for TextMesh<T> {
    type V = (Seq<GlyphQuadVertex<T>>, Seq<u16>, T);

    closed spec fn view(&self) -> Self::V {
        (self.vertices@, self.indices@, self.width)
    }
}

impl<T: Copy> TextMesh<T> {
    /// Whether the mesh is that of some glyphs: whole quads, no more than
    /// `MAX_VERTICES` vertices, and each quad's two triangles in its indices.
    pub open spec fn is_well_formed(&self) -> bool {
        &&& self@.0.len() % 4 == 0
        &&& self@.0.len() <= MAX_VERTICES
        &&& is_index_buffer_of(self@.0.len() / 4, self@.1)
    }

    /// Builds the mesh of a run of glyphs: for each glyph, in order, its four
    /// corners as vertices and its two triangles as six indices. The width is the
    /// last glyph's right edge, or `empty_width` for no glyph. Refused when the
    /// vertices would not fit 16-bit indices.
    pub fn compute_buffers(glyphs: &[GlyphLayout<T>], empty_width: T) -> (r: Result<
        (Vec<GlyphQuadVertex<T>>, Vec<u16>, T),
        GlyphLimitExceeded,
    >)
        ensures
            fits_mesh(glyphs@.len()) <==> r is Ok,
            r matches Ok((vertices, indices, width)) ==> is_mesh_of(
                glyphs@,
                empty_width,
                vertices@,
                indices@,
                width,
            ),
            r matches Err(e) ==> e.glyph_count == glyphs@.len(),
    {
        let n = glyphs.len();
        if n > MAX_GLYPHS {
            return Err(GlyphLimitExceeded { glyph_count: n });
        }
        let mut vertices: Vec<GlyphQuadVertex<T>> = Vec::new();
        let mut indices: Vec<u16> = Vec::new();
        let mut width = empty_width;
        let mut i: usize = 0;
        while i < n
            invariant
                n == glyphs@.len(),
                n <= MAX_GLYPHS,
                i <= n,
                is_vertex_buffer_of(glyphs@.take(i as int), vertices@),
                is_index_buffer_of(i as nat, indices@),
                width == text_width(glyphs@.take(i as int), empty_width),
            decreases n - i,
        {
            let glyph = glyphs[i];
            let base: u16 = (4 * i) as u16;
            indices.push(base);
            indices.push(base + 1);
            indices.push(base + 2);
            indices.push(base + 2);
            indices.push(base + 3);
            indices.push(base);
            let mut corner: usize = 0;
            while corner < 4
                invariant
                    corner <= 4,
                    i < n,
                    n == glyphs@.len(),
                    glyph == glyphs@[i as int],
                    vertices@.len() == 4 * i + corner,
                    forall|g: int, c: int|
                        0 <= g < i && 0 <= c < 4 ==> #[trigger] vertices@[vertex_slot(g, c)]
                            == corner_vertex(glyphs@[g], c),
                    forall|c: int|
                        0 <= c < corner ==> #[trigger] vertices@[vertex_slot(i as int, c)]
                            == corner_vertex(glyph, c),
                decreases 4 - corner,
            {
                vertices.push(
                    GlyphQuadVertex {
                        position: glyph.in_mesh.corners[corner],
                        texture_coordinate: glyph.in_atlas.corners[corner],
                    },
                );
                corner = corner + 1;
            }
            width = glyph.in_mesh.right;
            i = i + 1;
        }
        Ok((vertices, indices, width))
    }

    /// The mesh of `glyphs`, or `TooManyGlyphs` when they would need more than
    /// `MAX_VERTICES` vertices.
    pub fn new<V, I>(glyphs: &[GlyphLayout<T>], empty_width: T) -> (r: Result<
        Self,
        TextMeshCreationError<V, I>,
    >)
        ensures
            fits_mesh(glyphs@.len()) <==> r is Ok,
            r matches Ok(mesh) ==> mesh.is_well_formed() && is_mesh_of(
                glyphs@,
                empty_width,
                mesh@.0,
                mesh@.1,
                mesh@.2,
            ),
            r matches Err(e) ==> e == TextMeshCreationError::<V, I>::TooManyGlyphs(
                GlyphLimitExceeded { glyph_count: glyphs@.len() as usize },
            ),
    {
        match Self::compute_buffers(glyphs, empty_width) {
            Ok((vertices, indices, width)) => {
                let mesh = TextMesh { vertices, indices, width };
                proof {
                    lemma_mesh_is_well_formed(glyphs@, empty_width, mesh);
                }
                Ok(mesh)
            },
            Err(e) => Err(TextMeshCreationError::TooManyGlyphs(e)),
        }
    }

    /// Replaces the mesh by that of `glyphs`. When they would need more than
    /// `MAX_VERTICES` vertices the mesh is left as it was.
    pub fn set(&mut self, glyphs: &[GlyphLayout<T>], empty_width: T) -> (r: Result<
        (),
        GlyphLimitExceeded,
    >)
        requires
            old(self).is_well_formed(),
        ensures
            final(self).is_well_formed(),
            fits_mesh(glyphs@.len()) <==> r is Ok,
            r is Ok ==> is_mesh_of(
                glyphs@,
                empty_width,
                final(self)@.0,
                final(self)@.1,
                final(self)@.2,
            ),
            r matches Err(e) ==> e.glyph_count == glyphs@.len() && *final(self) == *old(self),
    {
        let (vertices, indices, width) = Self::compute_buffers(glyphs, empty_width)?;
        self.vertices = vertices;
        self.indices = indices;
        self.width = width;
        proof {
            lemma_mesh_is_well_formed(glyphs@, empty_width, *self);
        }
        Ok(())
    }

    /// The vertices, four per glyph.
    pub fn vertices(&self) -> (r: &[GlyphQuadVertex<T>])
        ensures
            r@ == self@.0,
    {
        self.vertices.as_slice()
    }

    /// The indices, six per glyph.
    pub fn indices(&self) -> (r: &[u16])
        ensures
            r@ == self@.1,
    {
        self.indices.as_slice()
    }

    /// The width of the run of text.
    pub fn width(&self) -> (r: T)
        ensures
            r == self@.2,
    {
        self.width
    }
}

/// The mesh of any glyphs is well formed.
proof fn lemma_mesh_is_well_formed<T: Copy>(glyphs: Seq<GlyphLayout<T>>, empty_width: T, mesh: TextMesh<T>)
    requires
        fits_mesh(glyphs.len()),
        is_mesh_of(glyphs, empty_width, mesh@.0, mesh@.1, mesh@.2),
    ensures
        mesh.is_well_formed(),
{
    assert(mesh@.0.len() / 4 == glyphs.len());
}

/// The mesh of `n` glyphs has `4n` vertices and `6n` indices.
pub proof fn lemma_buffer_lengths<T>(
    glyphs: Seq<GlyphLayout<T>>,
    empty_width: T,
    vertices: Seq<GlyphQuadVertex<T>>,
    indices: Seq<u16>,
    width: T,
)
    requires
        is_mesh_of(glyphs, empty_width, vertices, indices, width),
    ensures
        vertices.len() == 4 * glyphs.len(),
        indices.len() == 6 * glyphs.len(),
{
}

/// Every index of the mesh of `n` glyphs names one of its `4n` vertices.
pub proof fn lemma_indices_in_range(glyph_count: nat, indices: Seq<u16>)
    requires
        is_index_buffer_of(glyph_count, indices),
    ensures
        forall|t: int| 0 <= t < indices.len() ==> (#[trigger] indices[t]) < 4 * glyph_count,
{
    assert forall|t: int| 0 <= t < indices.len() implies (#[trigger] indices[t]) < 4
        * glyph_count by {
        let g = t / 6;
        let e = t % 6;
        assert(t == index_slot(g, e));
        assert(0 <= g < glyph_count);
    }
}

/// The six indices of glyph `g` are `4g, 4g+1, 4g+2, 4g+2, 4g+3, 4g`.
pub proof fn lemma_glyph_indices(glyph_count: nat, indices: Seq<u16>, g: int)
    requires
        is_index_buffer_of(glyph_count, indices),
        0 <= g < glyph_count,
    ensures
        indices.subrange(6 * g, 6 * g + 6).map_values(|x: u16| x as int) == seq![
            4 * g,
            4 * g + 1,
            4 * g + 2,
            4 * g + 2,
            4 * g + 3,
            4 * g,
        ],
{
    let found = indices.subrange(6 * g, 6 * g + 6).map_values(|x: u16| x as int);
    assert(found[0] == indices[index_slot(g, 0)]);
    assert(found[1] == indices[index_slot(g, 1)]);
    assert(found[2] == indices[index_slot(g, 2)]);
    assert(found[3] == indices[index_slot(g, 3)]);
    assert(found[4] == indices[index_slot(g, 4)]);
    assert(found[5] == indices[index_slot(g, 5)]);
    assert(found =~= seq![4 * g, 4 * g + 1, 4 * g + 2, 4 * g + 2, 4 * g + 3, 4 * g]);
}

/// The width of a non-empty run is its last glyph's right edge; that of an
/// empty run is `empty_width`.
pub proof fn lemma_width<T>(
    glyphs: Seq<GlyphLayout<T>>,
    empty_width: T,
    vertices: Seq<GlyphQuadVertex<T>>,
    indices: Seq<u16>,
    width: T,
)
    requires
        is_mesh_of(glyphs, empty_width, vertices, indices, width),
    ensures
        glyphs.len() > 0 ==> width == glyphs[glyphs.len() - 1].in_mesh.right,
        glyphs.len() == 0 ==> width == empty_width,
{
}

/// No glyph gives no vertex, no index, and the width `empty_width`.
pub proof fn lemma_empty_mesh<T>(
    empty_width: T,
    vertices: Seq<GlyphQuadVertex<T>>,
    indices: Seq<u16>,
    width: T,
)
    requires
        is_mesh_of(Seq::<GlyphLayout<T>>::empty(), empty_width, vertices, indices, width),
    ensures
        vertices.len() == 0,
        indices.len() == 0,
        width == empty_width,
{
}

/// The glyphs decide their mesh: two meshes of the same glyphs are equal, so
/// setting a mesh twice to the same glyphs gives the same buffers.
pub proof fn lemma_mesh_determined<T>(
    glyphs: Seq<GlyphLayout<T>>,
    empty_width: T,
    vertices1: Seq<GlyphQuadVertex<T>>,
    indices1: Seq<u16>,
    width1: T,
    vertices2: Seq<GlyphQuadVertex<T>>,
    indices2: Seq<u16>,
    width2: T,
)
    requires
        is_mesh_of(glyphs, empty_width, vertices1, indices1, width1),
        is_mesh_of(glyphs, empty_width, vertices2, indices2, width2),
    ensures
        vertices1 == vertices2,
        indices1 == indices2,
        width1 == width2,
{
    assert forall|v: int| 0 <= v < vertices1.len() implies vertices1[v] == vertices2[v] by {
        assert(v == vertex_slot(v / 4, v % 4));
    }
    assert forall|t: int| 0 <= t < indices1.len() implies indices1[t] == indices2[t] by {
        assert(t == index_slot(t / 6, t % 6));
    }
    assert(vertices1 =~= vertices2);
    assert(indices1 =~= indices2);
}

} // verus!
