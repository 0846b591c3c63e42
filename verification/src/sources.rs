use vstd::prelude::*;
use vstd::string::StringExecFns;

verus! {

/// The name of the composite program's viewport uniform. The name is part of
/// the wire contract between the frame context and the shader backend and
/// must match the source text exactly.
pub fn viewport_uniform_name() -> (s: String)
    ensures
        s@ == "uViewport"@,
{
    String::from_str("uViewport")
}

/// The name of the sampler uniform both programs read their source texture
/// through; like the viewport uniform, it must match the source text exactly.
pub fn sampler_uniform_name() -> (s: String)
    ensures
        s@ == "uSampler"@,
{
    String::from_str("uSampler")
}

/// The text of the composite program's vertex shader: maps pixel coordinates
/// to clip space through the `uViewport` uniform, with the vertical axis
/// growing downward, and passes texture coordinate and color through.
pub open spec fn composite_vertex_source_spec() -> Seq<char> {
    "#version 150

in vec2 aPos;
in vec2 aTexCoords;
in vec4 aColor;

uniform vec2 uViewport;

out vec2 vTexCoords;
out vec4 vColor;

void main() {
    gl_Position = vec4(aPos.x * 2 / uViewport.x - 1, 1 - aPos.y * 2 / uViewport.y, 0, 1);
    vTexCoords = aTexCoords;
    vColor = aColor;
}
"@
}

/// The composite vertex shader source handed to the shader backend.
pub fn composite_vertex_source() -> (s: String)
    ensures
        s@ == composite_vertex_source_spec(),
{
    String::from_str(
        "#version 150

in vec2 aPos;
in vec2 aTexCoords;
in vec4 aColor;

uniform vec2 uViewport;

out vec2 vTexCoords;
out vec4 vColor;

void main() {
    gl_Position = vec4(aPos.x * 2 / uViewport.x - 1, 1 - aPos.y * 2 / uViewport.y, 0, 1);
    vTexCoords = aTexCoords;
    vColor = aColor;
}
",
    )
}

/// The text of the composite program's fragment shader: modulates the
/// interpolated vertex color with the texture bound to `uSampler`.
pub open spec fn composite_fragment_source_spec() -> Seq<char> {
    "#version 150

in vec2 vTexCoords;
in vec4 vColor;

uniform sampler2D uSampler;

out vec4 fragColor;

void main() {
    fragColor = vColor * texture(uSampler, vTexCoords);
}
"@
}

/// The composite fragment shader source handed to the shader backend.
pub fn composite_fragment_source() -> (s: String)
    ensures
        s@ == composite_fragment_source_spec(),
{
    String::from_str(
        "#version 150

in vec2 vTexCoords;
in vec4 vColor;

uniform sampler2D uSampler;

out vec4 fragColor;

void main() {
    fragColor = vColor * texture(uSampler, vTexCoords);
}
",
    )
}

/// The text of the swapchain program's vertex shader: derives the four
/// corners of a full-screen strip from the vertex index alone, so the
/// resolve passes read no vertex buffer.
pub open spec fn swapchain_vertex_source_spec() -> Seq<char> {
    "#version 150

out vec2 vTexCoords;

void main() {
    vec2 corner = vec2(gl_VertexID & 1, gl_VertexID >> 1);
    vTexCoords = corner;
    gl_Position = vec4(corner * 2 - 1, 0, 1);
}
"@
}

/// The swapchain vertex shader source handed to the shader backend.
pub fn swapchain_vertex_source() -> (s: String)
    ensures
        s@ == swapchain_vertex_source_spec(),
{
    String::from_str(
        "#version 150

out vec2 vTexCoords;

void main() {
    vec2 corner = vec2(gl_VertexID & 1, gl_VertexID >> 1);
    vTexCoords = corner;
    gl_Position = vec4(corner * 2 - 1, 0, 1);
}
",
    )
}

/// The text of the swapchain program's fragment shader: resolves the working
/// image bound to `uSampler` with gamma correction (exponent five elevenths,
/// the reciprocal of the display gamma of eleven fifths).
pub open spec fn swapchain_fragment_source_spec() -> Seq<char> {
    "#version 150

in vec2 vTexCoords;

uniform sampler2D uSampler;

out vec4 fragColor;

void main() {
    vec4 working = texture(uSampler, vTexCoords);
    fragColor = vec4(pow(working.rgb, vec3(5) / vec3(11)), working.a);
}
"@
}

/// The swapchain fragment shader source handed to the shader backend.
pub fn swapchain_fragment_source() -> (s: String)
    ensures
        s@ == swapchain_fragment_source_spec(),
{
    String::from_str(
        "#version 150

in vec2 vTexCoords;

uniform sampler2D uSampler;

out vec4 fragColor;

void main() {
    vec4 working = texture(uSampler, vTexCoords);
    fragColor = vec4(pow(working.rgb, vec3(5) / vec3(11)), working.a);
}
",
    )
}

} // verus!
