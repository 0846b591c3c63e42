use vstd::prelude::*;
use crate::color::Color;
use crate::scope::rect_command;

verus! {

/// A point lies in the closed axis-aligned box with near corner `(x, y)` and
/// far corner `(x2, y2)`.
pub open spec fn in_box(px: int, py: int, x: int, y: int, x2: int, y2: int) -> bool {
    x <= px <= x2 && y <= py <= y2
}

/// Twice the signed area of the triangle `(ax, ay)`, `(bx, by)`, `(cx, cy)`;
/// its sign tells which side of the directed edge from the first to the
/// second point the third lies on.
pub open spec fn cross(ax: int, ay: int, bx: int, by: int, cx: int, cy: int) -> int {
    (bx - ax) * (cy - ay) - (by - ay) * (cx - ax)
}

/// A point lies in the closed triangle `a`, `b`, `c` (listed in either
/// orientation, with positive area): it is on one side, or on the line, of
/// all three directed edges at once.
pub open spec fn in_triangle(
    px: int,
    py: int,
    ax: int,
    ay: int,
    bx: int,
    by: int,
    cx: int,
    cy: int,
) -> bool {
    let d1 = cross(ax, ay, bx, by, px, py);
    let d2 = cross(bx, by, cx, cy, px, py);
    let d3 = cross(cx, cy, ax, ay, px, py);
    (d1 >= 0 && d2 >= 0 && d3 >= 0) || (d1 <= 0 && d2 <= 0 && d3 <= 0)
}

/// Law: a rectangle command's two triangles tile its box. For a rectangle of
/// positive extent, a point lies in the closed box exactly when it lies in
/// the first triangle (vertices one to three of the command) or in the
/// second (vertices four to six): the six vertices cover the box, all of it
/// and nothing else.
pub proof fn lemma_rect_triangles_cover_box(
    x: i32,
    y: i32,
    x2: i32,
    y2: i32,
    color: Color,
    depth: int,
    px: int,
    py: int,
)
    requires
        x < x2,
        y < y2,
    ensures
        ({
            let vs = rect_command(x, y, x2, y2, color, depth).verts;
            in_box(px, py, x as int, y as int, x2 as int, y2 as int) <==> (in_triangle(
                px,
                py,
                vs[0].x as int,
                vs[0].y as int,
                vs[1].x as int,
                vs[1].y as int,
                vs[2].x as int,
                vs[2].y as int,
            ) || in_triangle(
                px,
                py,
                vs[3].x as int,
                vs[3].y as int,
                vs[4].x as int,
                vs[4].y as int,
                vs[5].x as int,
                vs[5].y as int,
            ))
        }),
{
    let xi = x as int;
    let yi = y as int;
    let x2i = x2 as int;
    let y2i = y2 as int;
    let w = x2i - xi;
    let h = y2i - yi;
    // the first triangle: (x, y), (x, y2), (x2, y); its edge functions
    let a1 = cross(xi, yi, xi, y2i, px, py);
    let b1 = cross(xi, y2i, x2i, yi, px, py);
    let c1 = cross(x2i, yi, xi, yi, px, py);
    // the second triangle: (x2, y), (x, y2), (x2, y2); its edge functions
    let a2 = cross(x2i, yi, xi, y2i, px, py);
    let b2 = cross(xi, y2i, x2i, y2i, px, py);
    let c2 = cross(x2i, y2i, x2i, yi, px, py);
    assert(a1 == -(h * (px - xi))) by (nonlinear_arith)
        requires
            a1 == (xi - xi) * (py - yi) - (y2i - yi) * (px - xi),
            h == y2i - yi,
    ;
    assert(b1 == w * (py - y2i) + h * (px - xi)) by (nonlinear_arith)
        requires
            b1 == (x2i - xi) * (py - y2i) - (yi - y2i) * (px - xi),
            w == x2i - xi,
            h == y2i - yi,
    ;
    assert(c1 == -(w * (py - yi))) by (nonlinear_arith)
        requires
            c1 == (xi - x2i) * (py - yi) - (yi - yi) * (px - x2i),
            w == x2i - xi,
    ;
    assert(a2 == -(w * (py - yi)) - h * (px - x2i)) by (nonlinear_arith)
        requires
            a2 == (xi - x2i) * (py - yi) - (y2i - yi) * (px - x2i),
            w == x2i - xi,
            h == y2i - yi,
    ;
    assert(b2 == w * (py - y2i)) by (nonlinear_arith)
        requires
            b2 == (x2i - xi) * (py - y2i) - (y2i - y2i) * (px - xi),
            w == x2i - xi,
    ;
    assert(c2 == h * (px - x2i)) by (nonlinear_arith)
        requires
            c2 == (x2i - x2i) * (py - y2i) - (yi - y2i) * (px - x2i),
            h == y2i - yi,
    ;
    if in_box(px, py, xi, yi, x2i, y2i) {
        // in the box, the point is in the triangle on its side of the
        // diagonal from (x, y2) to (x2, y)
        if h * (px - xi) + w * (py - yi) <= w * h {
            assert(a1 <= 0 && c1 <= 0) by (nonlinear_arith)
                requires
                    xi <= px <= x2i,
                    yi <= py <= y2i,
                    w > 0,
                    h > 0,
                    a1 == -(h * (px - xi)),
                    c1 == -(w * (py - yi)),
            ;
            assert(b1 <= 0) by (nonlinear_arith)
                requires
                    h * (px - xi) + w * (py - yi) <= w * h,
                    b1 == w * (py - y2i) + h * (px - xi),
                    w == x2i - xi,
                    h == y2i - yi,
            ;
        } else {
            assert(b2 <= 0 && c2 <= 0) by (nonlinear_arith)
                requires
                    xi <= px <= x2i,
                    yi <= py <= y2i,
                    w > 0,
                    h > 0,
                    b2 == w * (py - y2i),
                    c2 == h * (px - x2i),
            ;
            assert(a2 <= 0) by (nonlinear_arith)
                requires
                    h * (px - xi) + w * (py - yi) > w * h,
                    a2 == -(w * (py - yi)) - h * (px - x2i),
                    w == x2i - xi,
                    h == y2i - yi,
            ;
        }
    }
    if a1 >= 0 && b1 >= 0 && c1 >= 0 {
        // this orientation admits no point at all: it pins the point at or
        // beyond the near corner, where the diagonal's edge function is
        // negative
        assert(px <= xi && py <= yi) by (nonlinear_arith)
            requires
                w > 0,
                h > 0,
                a1 >= 0,
                c1 >= 0,
                a1 == -(h * (px - xi)),
                c1 == -(w * (py - yi)),
        ;
        assert(false) by (nonlinear_arith)
            requires
                w > 0,
                h > 0,
                px <= xi,
                py <= yi,
                b1 >= 0,
                b1 == w * (py - y2i) + h * (px - xi),
                h == y2i - yi,
        ;
    }
    if a1 <= 0 && b1 <= 0 && c1 <= 0 {
        assert(xi <= px && yi <= py) by (nonlinear_arith)
            requires
                w > 0,
                h > 0,
                a1 <= 0,
                c1 <= 0,
                a1 == -(h * (px - xi)),
                c1 == -(w * (py - yi)),
        ;
        assert(px <= x2i && py <= y2i) by (nonlinear_arith)
            requires
                w > 0,
                h > 0,
                xi <= px,
                yi <= py,
                b1 <= 0,
                b1 == w * (py - y2i) + h * (px - xi),
                w == x2i - xi,
                h == y2i - yi,
        ;
    }
    if a2 >= 0 && b2 >= 0 && c2 >= 0 {
        // this orientation admits no point either, beyond the far corner
        assert(px >= x2i && py >= y2i) by (nonlinear_arith)
            requires
                w > 0,
                h > 0,
                b2 >= 0,
                c2 >= 0,
                b2 == w * (py - y2i),
                c2 == h * (px - x2i),
        ;
        assert(false) by (nonlinear_arith)
            requires
                w > 0,
                h > 0,
                px >= x2i,
                py >= y2i,
                a2 >= 0,
                a2 == -(w * (py - yi)) - h * (px - x2i),
                h == y2i - yi,
        ;
    }
    if a2 <= 0 && b2 <= 0 && c2 <= 0 {
        assert(px <= x2i && py <= y2i) by (nonlinear_arith)
            requires
                w > 0,
                h > 0,
                b2 <= 0,
                c2 <= 0,
                b2 == w * (py - y2i),
                c2 == h * (px - x2i),
        ;
        assert(xi <= px && yi <= py) by (nonlinear_arith)
            requires
                w > 0,
                h > 0,
                px <= x2i,
                py <= y2i,
                a2 <= 0,
                a2 == -(w * (py - yi)) - h * (px - x2i),
                w == x2i - xi,
                h == y2i - yi,
        ;
    }
}

/// Law: texture coordinates follow the geometry, the same way in both
/// triangles. A rectangle command has exactly six vertices; on each, the
/// horizontal texture coordinate is one exactly on the far vertical edge and
/// zero on the near one, and the vertical texture coordinate is one exactly
/// on the near horizontal edge and zero on the far one. The four geometric
/// corners thus carry exactly the four corners of texture space, however
/// often they appear.
pub proof fn lemma_rect_uv_corners(x: i32, y: i32, x2: i32, y2: i32, color: Color, depth: int)
    requires
        x != x2,
        y != y2,
    ensures
        rect_command(x, y, x2, y2, color, depth).verts.len() == 6,
        forall|i: int|
            0 <= i < 6 ==> ((#[trigger] rect_command(x, y, x2, y2, color, depth).verts[i]).u == 1
                <==> rect_command(x, y, x2, y2, color, depth).verts[i].x == x2),
        forall|i: int|
            0 <= i < 6 ==> ((#[trigger] rect_command(x, y, x2, y2, color, depth).verts[i]).u == 0
                <==> rect_command(x, y, x2, y2, color, depth).verts[i].x == x),
        forall|i: int|
            0 <= i < 6 ==> ((#[trigger] rect_command(x, y, x2, y2, color, depth).verts[i]).v == 1
                <==> rect_command(x, y, x2, y2, color, depth).verts[i].y == y),
        forall|i: int|
            0 <= i < 6 ==> ((#[trigger] rect_command(x, y, x2, y2, color, depth).verts[i]).v == 0
                <==> rect_command(x, y, x2, y2, color, depth).verts[i].y == y2),
{
    let vs = rect_command(x, y, x2, y2, color, depth).verts;
    assert forall|i: int| 0 <= i < 6 implies (((#[trigger] vs[i]).u == 1 <==> vs[i].x == x2) && (
    vs[i].u == 0 <==> vs[i].x == x) && (vs[i].v == 1 <==> vs[i].y == y) && (vs[i].v == 0 <==> vs[i].y
        == y2)) by {
        assert(i == 0 || i == 1 || i == 2 || i == 3 || i == 4 || i == 5);
    }
}

} // verus!
