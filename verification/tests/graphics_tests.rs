use ramune::{Color, GpuOp, Graphics, ProgramKind, RenderTarget};

#[test]
fn new_graphics_caches_the_viewport_it_was_given() {
    let graphics = Graphics::new(640, 480);
    assert_eq!(graphics.viewport_width, 640);
    assert_eq!(graphics.viewport_height, 480);
    assert_eq!(graphics.clear_color, Color::black());
}

#[test]
fn resize_updates_the_cached_viewport_uniform() {
    let mut graphics = Graphics::new(640, 480);
    graphics.clear(Color::cornflower_blue());
    graphics.set_viewport(800, 600);
    // later flushes project through the new extent; the clear color stands
    assert_eq!(graphics.viewport_width, 800);
    assert_eq!(graphics.viewport_height, 600);
    assert_eq!(graphics.clear_color, Color::cornflower_blue());
}

#[test]
fn flush_plans_are_alike_before_and_after_resize() {
    // the plan hands the backend the same pixel-space stream either way; the
    // projection to screen-relative positions happens through the cached
    // viewport uniform alone
    let mut graphics = Graphics::new(640, 480);
    let mut scope = graphics.push();
    scope.draw_rect(50, 50, 50, 50);
    let before = scope.finish();
    graphics.set_viewport(1280, 960);
    let mut scope = graphics.push();
    scope.draw_rect(50, 50, 50, 50);
    let after = scope.finish();
    assert_eq!(before.vertices, after.vertices);
    assert_eq!(before.ops, after.ops);
    assert_eq!(graphics.viewport_width, 1280);
    assert_eq!(graphics.viewport_height, 960);
}

#[test]
fn clear_touches_only_the_clear_color() {
    let mut graphics = Graphics::new(320, 200);
    graphics.clear(Color::red());
    assert_eq!(graphics.clear_color, Color::red());
    assert_eq!(graphics.viewport_width, 320);
    assert_eq!(graphics.viewport_height, 200);
}

#[test]
fn layered_scene_blends_in_depth_order_over_the_cleared_targets() {
    // clear to red, then a blue square under a half-transparent green one:
    // the composite pass paints blue first and green over it, and the red
    // clear is consumed on the off-screen targets before the resolves
    let mut graphics = Graphics::new(640, 480);
    graphics.clear(Color::red());
    let mut scope = graphics.push();
    scope.set_depth(0);
    scope.set_color(Color::blue());
    scope.draw_rect(0, 0, 10, 10);
    scope.set_depth(1);
    scope.set_color(Color::new(0, 255, 0, 128));
    scope.draw_rect(0, 0, 10, 10);
    let plan = scope.finish();
    assert_eq!(graphics.clear_color, Color::red());
    assert_eq!(plan.vertices.len(), 12);
    for vert in &plan.vertices[0..6] {
        assert_eq!(vert.color, Color::blue());
    }
    for vert in &plan.vertices[6..12] {
        assert_eq!(vert.color, Color::new(0, 255, 0, 128));
    }
    // one rasterization into the composite target, then gamma resolve to the
    // intermediary, then to the display
    assert_eq!(
        plan.ops,
        vec![
            GpuOp::UploadVertices,
            GpuOp::BindTarget(RenderTarget::Composite),
            GpuOp::UseProgram(ProgramKind::Composite),
            GpuOp::DrawTriangles(12),
            GpuOp::BindTarget(RenderTarget::Intermediary),
            GpuOp::UseProgram(ProgramKind::Swapchain),
            GpuOp::BindSourceTexture(RenderTarget::Composite),
            GpuOp::DrawScreenStrip,
            GpuOp::BindTarget(RenderTarget::Display),
            GpuOp::BindSourceTexture(RenderTarget::Intermediary),
            GpuOp::DrawScreenStrip,
        ]
    );
}
