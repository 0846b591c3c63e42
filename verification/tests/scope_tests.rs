use ramune::{Color, Graphics, GraphicsScope, Vertex};

fn solid(r: u8, g: u8, b: u8) -> Color {
    Color::new(r, g, b, 255)
}

#[test]
fn fresh_scope_has_default_paint_state() {
    let scope = GraphicsScope::new();
    assert_eq!(scope.commands.len(), 0);
    assert_eq!(scope.depth, 0);
    assert_eq!(scope.color, Color::white());
}

#[test]
fn draw_rect_emits_exactly_six_vertices() {
    let mut scope = GraphicsScope::new();
    scope.draw_rect(1, 2, 10, 20);
    assert_eq!(scope.commands.len(), 1);
    let verts = &scope.commands[0].verts;
    let white = Color::white();
    let expected = vec![
        Vertex { x: 1, y: 2, u: 0, v: 1, color: white },
        Vertex { x: 1, y: 22, u: 0, v: 0, color: white },
        Vertex { x: 11, y: 2, u: 1, v: 1, color: white },
        Vertex { x: 11, y: 2, u: 1, v: 1, color: white },
        Vertex { x: 1, y: 22, u: 0, v: 0, color: white },
        Vertex { x: 11, y: 22, u: 1, v: 0, color: white },
    ];
    assert_eq!(verts, &expected);
}

#[test]
fn draw_rect_triangles_cover_the_box_corners() {
    let mut scope = GraphicsScope::new();
    scope.draw_rect(3, 4, 7, 9);
    let verts = &scope.commands[0].verts;
    assert_eq!(verts.len(), 6);
    // the two triangles share the diagonal from (x, y + h) to (x + w, y)
    assert_eq!(verts[2], verts[3]);
    assert_eq!(verts[1], verts[4]);
    // together the six vertices name exactly the four corners of the box
    for vert in verts {
        assert!(vert.x == 3 || vert.x == 10);
        assert!(vert.y == 4 || vert.y == 13);
    }
    let mut corners: Vec<(i32, i32)> = verts.iter().map(|vt| (vt.x, vt.y)).collect();
    corners.sort();
    corners.dedup();
    assert_eq!(corners, vec![(3, 4), (3, 13), (10, 4), (10, 13)]);
}

#[test]
fn uv_corners_map_consistently_across_triangles() {
    let mut scope = GraphicsScope::new();
    scope.draw_rect(0, 0, 10, 10);
    let verts = &scope.commands[0].verts;
    // the four logical corners carry exactly the four corners of texture
    // space, and a corner shared by both triangles carries the same uv twice
    for vert in verts {
        assert_eq!(vert.u == 1, vert.x == 10);
        assert_eq!(vert.u == 0, vert.x == 0);
        assert_eq!(vert.v == 1, vert.y == 0);
        assert_eq!(vert.v == 0, vert.y == 10);
    }
    let mut uvs: Vec<(u8, u8)> = verts.iter().map(|vt| (vt.u, vt.v)).collect();
    uvs.sort();
    uvs.dedup();
    assert_eq!(uvs, vec![(0, 0), (0, 1), (1, 0), (1, 1)]);
}

#[test]
fn zero_size_rect_is_recorded_degenerate() {
    let mut scope = GraphicsScope::new();
    scope.draw_rect(5, 5, 0, 0);
    assert_eq!(scope.commands.len(), 1);
    let verts = &scope.commands[0].verts;
    assert_eq!(verts.len(), 6);
    for vert in verts {
        assert_eq!((vert.x, vert.y), (5, 5));
    }
}

#[test]
fn paint_state_applies_only_to_later_commands() {
    let mut scope = GraphicsScope::new();
    scope.set_color(solid(255, 0, 0));
    scope.draw_rect(0, 0, 1, 1);
    scope.set_color(solid(0, 0, 255));
    scope.set_depth(7);
    scope.draw_rect(0, 0, 1, 1);
    // the first command keeps its red paint and depth zero
    assert_eq!(scope.commands[0].depth, 0);
    for vert in &scope.commands[0].verts {
        assert_eq!(vert.color, solid(255, 0, 0));
    }
    // only the second carries the paint set after it was recorded
    assert_eq!(scope.commands[1].depth, 7);
    for vert in &scope.commands[1].verts {
        assert_eq!(vert.color, solid(0, 0, 255));
    }
}

#[test]
fn negative_extent_rect_swaps_corners() {
    let mut scope = GraphicsScope::new();
    scope.draw_rect(10, 10, -4, -6);
    let verts = &scope.commands[0].verts;
    assert_eq!(verts[0].x, 10);
    assert_eq!(verts[0].y, 10);
    assert_eq!(verts[5].x, 6);
    assert_eq!(verts[5].y, 4);
}

#[test]
fn push_yields_a_fresh_scope() {
    let graphics = Graphics::new(640, 480);
    let scope = graphics.push();
    assert_eq!(scope.commands.len(), 0);
    assert_eq!(scope.depth, 0);
    assert_eq!(scope.color, Color::white());
}
