use vstd::prelude::*;

verus! {

/// The vertex stage: places `position` by `transform` in the plane z = 1,
/// w = 1, and hands `texture_coordinate` on unchanged as `texture_position`.
pub const VERTEX_SHADER: &'static str = "#version 330\n\
in vec2 position;\n\
in vec2 texture_coordinate;\n\
out vec2 texture_position;\n\
\n\
uniform mat4 transform;\n\
\n\
void main() {\n\
    gl_Position = transform * vec4(position, 1.0, 1.0);\n\
    texture_position = texture_coordinate;\n\
}\n";

/// The fragment stage: the red channel of `distance_field` at
/// `texture_position` is the distance; above one half the texel takes `fill`,
/// otherwise `fill` with alpha zero. The cut is hard, with no smoothing.
pub const FRAGMENT_SHADER: &'static str = "#version 330\n\
in vec2 texture_position;\n\
out vec4 color;\n\
\n\
uniform vec4 fill;\n\
uniform sampler2D distance_field;\n\
\n\
void main() {\n\
    float distance = texture(distance_field, texture_position).r;\n\
    float inside = distance > 0.5 ? 1.0 : 0.0;\n\
    color = fill * vec4(vec3(1.0), inside);\n\
}\n";

/// The program that draws a text mesh in one solid colour from a distance
/// field atlas, as the sources of its two stages.
pub struct SolidTextProgram {
    pub vertex_shader: &'static str,
    pub fragment_shader: &'static str,
}

impl SolidTextProgram {
    /// The program of `VERTEX_SHADER` and `FRAGMENT_SHADER`.
    pub fn new() -> (r: Self)
        ensures
            r.vertex_shader@ == VERTEX_SHADER@,
            r.fragment_shader@ == FRAGMENT_SHADER@,
    {
        SolidTextProgram { vertex_shader: VERTEX_SHADER, fragment_shader: FRAGMENT_SHADER }
    }
}

} // verus!
