use vstd::prelude::*;
use crate::color::Color;
use crate::vertex::Vertex;

verus! {

/// One recorded draw command: the vertices of one shape, in the order they
/// are to be rasterized, and the depth captured from the scope's paint state
/// when the command was recorded. The depth never changes afterwards.
pub struct Command {
    pub verts: Vec<Vertex>,
    pub depth: i32,
}

/// The mathematical value of a [`Command`].
pub struct CommandView {
    pub verts: Seq<Vertex>,
    pub depth: int,
}

impl View for Command {
    type V = CommandView;

    open spec fn view(&self) -> CommandView {
        CommandView { verts: self.verts@, depth: self.depth as int }
    }
}

impl DeepView for Command {
    type V = CommandView;

    open spec fn deep_view(&self) -> CommandView {
        self.view()
    }
}

/// The mathematical value of a [`GraphicsScope`]: the commands recorded so
/// far and the current paint state.
pub struct ScopeView {
    pub commands: Seq<CommandView>,
    pub depth: int,
    pub color: Color,
}

/// A short-lived recorder of draw commands. Drawing mutates only the scope's
/// own state; nothing reaches the GPU until the scope is finished, which
/// yields the flush plan of the whole recording at once.
pub struct GraphicsScope {
    pub commands: Vec<Command>,
    pub depth: i32,
    pub color: Color,
}

impl View for GraphicsScope {
    type V = ScopeView;

    open spec fn view(&self) -> ScopeView {
        ScopeView { commands: self.commands.deep_view(), depth: self.depth as int, color: self.color }
    }
}

/// The command one `draw_rect` call records: six vertices forming two
/// triangles that together cover the axis-aligned box with corners `(x, y)`
/// and `(x2, y2)`, each vertex carrying the paint color, the whole command
/// carrying the paint depth. The texture coordinate of each vertex maps the
/// box's corners to the corners of texture space: `u` is 1 on the `x2` edge
/// and 0 on the `x` edge, `v` is 1 on the `y` edge and 0 on the `y2` edge.
pub open spec fn rect_command(x: i32, y: i32, x2: i32, y2: i32, color: Color, depth: int) -> CommandView {
    CommandView {
        verts: seq![
            Vertex { x: x, y: y, u: 0, v: 1, color },
            Vertex { x: x, y: y2, u: 0, v: 0, color },
            Vertex { x: x2, y: y, u: 1, v: 1, color },
            Vertex { x: x2, y: y, u: 1, v: 1, color },
            Vertex { x: x, y: y2, u: 0, v: 0, color },
            Vertex { x: x2, y: y2, u: 1, v: 0, color },
        ],
        depth: depth,
    }
}

/// What `set_depth` does to the scope's value.
pub open spec fn spec_set_depth(s: ScopeView, depth: int) -> ScopeView {
    ScopeView { depth, ..s }
}

/// What `set_color` does to the scope's value.
pub open spec fn spec_set_color(s: ScopeView, color: Color) -> ScopeView {
    ScopeView { color, ..s }
}

/// What `draw_rect` does to the scope's value, `x2` and `y2` being the far
/// corner: it appends one rectangle command under the current paint state and
/// leaves the paint state alone.
pub open spec fn spec_draw_rect(s: ScopeView, x: i32, y: i32, x2: i32, y2: i32) -> ScopeView {
    ScopeView { commands: s.commands.push(rect_command(x, y, x2, y2, s.color, s.depth)), ..s }
}

impl GraphicsScope {
    /// A fresh scope: no commands, depth zero, opaque white paint.
    pub fn new() -> (s: GraphicsScope)
        ensures
            s@.commands == Seq::<CommandView>::empty(),
            s@.depth == 0,
            s@.color == (Color { r: 255, g: 255, b: 255, a: 255 }),
    {
        GraphicsScope { commands: Vec::new(), depth: 0, color: Color::white() }
    }

    /// Set the paint depth that commands recorded from now on will carry.
    /// Commands already recorded keep their depth.
    pub fn set_depth(&mut self, depth: i32)
        ensures
            final(self)@ == spec_set_depth(old(self)@, depth as int),
    {
        self.depth = depth;
    }

    /// Set the paint color that commands recorded from now on will carry.
    /// Commands already recorded keep their color.
    pub fn set_color(&mut self, color: Color)
        ensures
            final(self)@ == spec_set_color(old(self)@, color),
    {
        self.color = color;
    }

    /// Record one axis-aligned rectangle covering `[x, x + width] × [y, y +
    /// height]` as two triangles of six vertices, each vertex painted with
    /// the current color, the command stamped with the current depth.
    pub fn draw_rect(&mut self, x: i32, y: i32, width: i32, height: i32)
        requires
            i32::MIN <= x + width <= i32::MAX,
            i32::MIN <= y + height <= i32::MAX,
        ensures
            final(self)@ == spec_draw_rect(
                old(self)@,
                x,
                y,
                (x + width) as i32,
                (y + height) as i32,
            ),
    {
        let x2 = x + width;
        let y2 = y + height;
        let color = self.color;
        let mut verts: Vec<Vertex> = Vec::new();
        verts.push(Vertex { x: x, y: y, u: 0, v: 1, color });
        verts.push(Vertex { x: x, y: y2, u: 0, v: 0, color });
        verts.push(Vertex { x: x2, y: y, u: 1, v: 1, color });
        verts.push(Vertex { x: x2, y: y, u: 1, v: 1, color });
        verts.push(Vertex { x: x, y: y2, u: 0, v: 0, color });
        verts.push(Vertex { x: x2, y: y2, u: 1, v: 0, color });
        let command = Command { verts, depth: self.depth };
        proof {
            assert(command@.verts =~= rect_command(x, y, x2, y2, color, self.depth as int).verts);
        }
        self.commands.push(command);
        proof {
            assert(self.commands.deep_view() =~= old(self).commands.deep_view().push(
                rect_command(x, y, x2, y2, old(self).color, old(self).depth as int),
            ));
        }
    }
}

/// Law: the paint state never acts backwards in time. Setting the color or
/// the depth leaves every command already recorded untouched, and only the
/// command recorded next carries the paint just set.
pub proof fn lemma_paint_state_not_retroactive(
    s: ScopeView,
    color: Color,
    depth: int,
    x: i32,
    y: i32,
    x2: i32,
    y2: i32,
)
    ensures
        spec_set_color(s, color).commands == s.commands,
        spec_set_depth(s, depth).commands == s.commands,
        spec_draw_rect(spec_set_color(s, color), x, y, x2, y2).commands.drop_last() == s.commands,
        spec_draw_rect(spec_set_depth(s, depth), x, y, x2, y2).commands.drop_last() == s.commands,
        forall|i: int|
            0 <= i < 6 ==> (#[trigger] spec_draw_rect(
                spec_set_color(s, color),
                x,
                y,
                x2,
                y2,
            ).commands.last().verts[i]).color == color,
        spec_draw_rect(spec_set_depth(s, depth), x, y, x2, y2).commands.last().depth == depth,
{
    assert(spec_draw_rect(spec_set_color(s, color), x, y, x2, y2).commands.drop_last()
        =~= s.commands);
    assert(spec_draw_rect(spec_set_depth(s, depth), x, y, x2, y2).commands.drop_last()
        =~= s.commands);
}

} // verus!
