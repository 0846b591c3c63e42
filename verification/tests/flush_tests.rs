use ramune::{Color, GpuOp, GraphicsScope, ProgramKind, RenderTarget};

fn solid(r: u8, g: u8, b: u8) -> Color {
    Color::new(r, g, b, 255)
}

fn full_pass_ops(n_verts: usize) -> Vec<GpuOp> {
    vec![
        GpuOp::UploadVertices,
        GpuOp::BindTarget(RenderTarget::Composite),
        GpuOp::UseProgram(ProgramKind::Composite),
        GpuOp::DrawTriangles(n_verts),
        GpuOp::BindTarget(RenderTarget::Intermediary),
        GpuOp::UseProgram(ProgramKind::Swapchain),
        GpuOp::BindSourceTexture(RenderTarget::Composite),
        GpuOp::DrawScreenStrip,
        GpuOp::BindTarget(RenderTarget::Display),
        GpuOp::BindSourceTexture(RenderTarget::Intermediary),
        GpuOp::DrawScreenStrip,
    ]
}

#[test]
fn empty_scope_flushes_to_nothing() {
    let scope = GraphicsScope::new();
    let plan = scope.finish();
    assert_eq!(plan.vertices.len(), 0);
    assert_eq!(plan.ops.len(), 0);
}

#[test]
fn one_rect_flushes_to_the_full_pass_sequence() {
    let mut scope = GraphicsScope::new();
    scope.draw_rect(0, 0, 10, 10);
    let plan = scope.finish();
    assert_eq!(plan.vertices.len(), 6);
    assert_eq!(plan.ops, full_pass_ops(6));
}

#[test]
fn flush_orders_commands_by_ascending_depth() {
    let mut scope = GraphicsScope::new();
    scope.set_depth(5);
    scope.set_color(solid(50, 0, 0));
    scope.draw_rect(0, 0, 1, 1);
    scope.set_depth(1);
    scope.set_color(solid(0, 60, 0));
    scope.draw_rect(0, 0, 1, 1);
    scope.set_depth(3);
    scope.set_color(solid(0, 0, 70));
    scope.draw_rect(0, 0, 1, 1);
    let plan = scope.finish();
    assert_eq!(plan.vertices.len(), 18);
    // depth 1 first, then 3, then 5, each block of six keeping one color
    for vert in &plan.vertices[0..6] {
        assert_eq!(vert.color, solid(0, 60, 0));
    }
    for vert in &plan.vertices[6..12] {
        assert_eq!(vert.color, solid(0, 0, 70));
    }
    for vert in &plan.vertices[12..18] {
        assert_eq!(vert.color, solid(50, 0, 0));
    }
    assert_eq!(plan.ops, full_pass_ops(18));
}

#[test]
fn negative_depths_sort_before_positive() {
    let mut scope = GraphicsScope::new();
    scope.set_depth(2);
    scope.set_color(solid(9, 9, 9));
    scope.draw_rect(0, 0, 1, 1);
    scope.set_depth(-8);
    scope.set_color(solid(1, 1, 1));
    scope.draw_rect(0, 0, 1, 1);
    let plan = scope.finish();
    assert_eq!(plan.vertices[0].color, solid(1, 1, 1));
    assert_eq!(plan.vertices[6].color, solid(9, 9, 9));
}

#[test]
fn equal_depths_keep_recording_order() {
    let mut scope = GraphicsScope::new();
    scope.set_depth(4);
    scope.set_color(solid(10, 0, 0));
    scope.draw_rect(0, 0, 1, 1);
    scope.set_color(solid(0, 20, 0));
    scope.draw_rect(2, 0, 1, 1);
    scope.set_color(solid(0, 0, 30));
    scope.draw_rect(4, 0, 1, 1);
    let plan = scope.finish();
    assert_eq!(plan.vertices.len(), 18);
    for vert in &plan.vertices[0..6] {
        assert_eq!(vert.color, solid(10, 0, 0));
    }
    for vert in &plan.vertices[6..12] {
        assert_eq!(vert.color, solid(0, 20, 0));
    }
    for vert in &plan.vertices[12..18] {
        assert_eq!(vert.color, solid(0, 0, 30));
    }
}

#[test]
fn equal_depth_ties_keep_order_among_sorted_neighbors() {
    let mut scope = GraphicsScope::new();
    scope.set_depth(2);
    scope.set_color(solid(11, 0, 0));
    scope.draw_rect(0, 0, 1, 1);
    scope.set_depth(1);
    scope.set_color(solid(0, 22, 0));
    scope.draw_rect(0, 0, 1, 1);
    scope.set_depth(2);
    scope.set_color(solid(0, 0, 33));
    scope.draw_rect(0, 0, 1, 1);
    let plan = scope.finish();
    // depth 1 first; among the two depth-2 commands, recording order holds
    assert_eq!(plan.vertices[0].color, solid(0, 22, 0));
    assert_eq!(plan.vertices[6].color, solid(11, 0, 0));
    assert_eq!(plan.vertices[12].color, solid(0, 0, 33));
}

#[test]
fn upload_comes_before_every_draw() {
    let mut scope = GraphicsScope::new();
    scope.draw_rect(0, 0, 2, 2);
    let plan = scope.finish();
    let upload_at = plan.ops.iter().position(|op| *op == GpuOp::UploadVertices).unwrap();
    for (i, op) in plan.ops.iter().enumerate() {
        if matches!(op, GpuOp::DrawTriangles(_) | GpuOp::DrawScreenStrip) {
            assert!(upload_at < i);
        }
    }
}
