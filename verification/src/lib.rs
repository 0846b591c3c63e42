//! A minimal immediate-mode 2D rendering core.
//!
//! Callers clear the frame, open a drawing scope, record colored rectangles,
//! and close the scope; closing the scope depth-sorts the recorded commands
//! (stably, ascending), concatenates their vertices into one stream, and
//! produces the exact list of GPU operations a backend must issue to rasterize
//! the stream into a composite target and resolve it, gamma-corrected, to the
//! display. The backend that actually talks to the graphics driver lives
//! outside this crate; everything here is plain data and verified logic.

mod color;
mod flush;
mod geometry;
mod graphics;
mod scope;
mod shader;
mod sources;
mod sort;
mod vertex;

pub use color::Color;
pub use flush::{FlushPlan, GpuOp, ProgramKind, RenderTarget, flush_ops, lemma_one_batch_per_flush,
    stream_of};
pub use geometry::{cross, in_box, in_triangle, lemma_rect_triangles_cover_box,
    lemma_rect_uv_corners};
pub use graphics::Graphics;
pub use shader::{RAW_FRAGMENT_SHADER, RAW_VERTEX_SHADER, SetupError, ShaderKind, compile_outcome,
    kind_from_raw, kind_to_raw, lemma_shader_kind_raw_round_trip, link_outcome,
    validate_shader_kind};
pub use sources::{composite_fragment_source, composite_vertex_source, sampler_uniform_name,
    swapchain_fragment_source, swapchain_vertex_source, viewport_uniform_name};
pub use scope::{Command, CommandView, GraphicsScope, ScopeView};
pub use scope::{lemma_paint_state_not_retroactive, rect_command, spec_draw_rect, spec_set_color,
    spec_set_depth};
pub use sort::{insert_by_depth, lemma_flush_order_sorted, lemma_flush_order_stable, sort_by_depth,
    sorted_by_depth};
pub use vertex::{Attribute, Vertex, attribute_layout, vertex_stride_bytes};
pub use vertex::{SCALAR_BYTES, VERTEX_SCALARS};
