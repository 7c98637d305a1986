//! A pixel-level model of the draw surface, and what it makes true of the
//! render pass: repeating a pass over an unchanged snapshot, or reordering
//! the per-field draws within a pass, leaves the canvas pixel-identical.
//!
//! A canvas is the partial map from pixel coordinates to the color last
//! painted there. A filled circle paints exactly the pixels whose centres
//! lie within the ideal disc over its bounding square; a rectangle paints
//! its box; the label paints within the fixed nominal box of its glyphs.
//! Nothing below depends on a shape's exact outline beyond its staying
//! inside its bounding box.

use vstd::prelude::*;
use crate::render::DrawColor;
use crate::render::DrawOp;
use crate::render::INDICATOR1_CX;
use crate::render::INDICATOR1_CY;
use crate::render::INDICATOR2_CX;
use crate::render::INDICATOR2_CY;
use crate::render::spec_indicator_op;
use crate::render::spec_render_pass;
use crate::status::StatusRecord;

verus! {

/// The nominal width, in pixels, of the box the background label paints in.
pub const LABEL_BOX_WIDTH: u32 = 144;

/// The nominal height, in pixels, of the box the background label paints in.
pub const LABEL_BOX_HEIGHT: u32 = 30;

/// What has been painted so far: each painted pixel's current color.
pub type Canvas = Map<(int, int), DrawColor>;

/// Whether the pixel `(px, py)` lies in the ideal disc of diameter `d` whose
/// bounding square has top-left corner `(x, y)`: the distance from the pixel's
/// centre to the disc's centre is at most the radius, stated over doubled
/// coordinates to stay in the integers.
pub open spec fn in_disc(x: int, y: int, d: int, px: int, py: int) -> bool {
    let dx = 2 * px + 1 - (2 * x + d);
    let dy = 2 * py + 1 - (2 * y + d);
    dx * dx + dy * dy <= d * d
}

/// The set of pixels one draw operation paints.
pub open spec fn covers(op: DrawOp, px: int, py: int) -> bool {
    match op {
        DrawOp::FillRect { x, y, width, height, .. } => {
            &&& x as int <= px < x as int + width as int
            &&& y as int <= py < y as int + height as int
        },
        DrawOp::FillCircle { x, y, diameter, .. } => in_disc(
            x as int,
            y as int,
            diameter as int,
            px,
            py,
        ),
        DrawOp::Label { x, y, .. } => {
            &&& x as int <= px < x as int + LABEL_BOX_WIDTH as int
            &&& y as int <= py < y as int + LABEL_BOX_HEIGHT as int
        },
    }
}

/// The one color a draw operation paints with.
pub open spec fn op_color(op: DrawOp) -> DrawColor {
    match op {
        DrawOp::FillRect { color, .. } => color,
        DrawOp::FillCircle { color, .. } => color,
        DrawOp::Label { color, .. } => color,
    }
}

/// The canvas after one draw operation: every pixel the operation covers now
/// holds its color; every other pixel keeps what it had.
pub open spec fn paint(c: Canvas, op: DrawOp) -> Canvas {
    Map::new(
        |p: (int, int)| c.dom().contains(p) || covers(op, p.0, p.1),
        |p: (int, int)|
            if covers(op, p.0, p.1) {
                op_color(op)
            } else {
                c[p]
            },
    )
}

/// The canvas after a whole sequence of draw operations, first to last.
pub open spec fn paint_all(c: Canvas, ops: Seq<DrawOp>) -> Canvas
    decreases ops.len(),
{
    if ops.len() == 0 {
        c
    } else {
        paint_all(paint(c, ops[0]), ops.drop_first())
    }
}

/// Two draw operations paint no pixel in common.
pub open spec fn ops_disjoint(a: DrawOp, b: DrawOp) -> bool {
    forall|px: int, py: int| covers(a, px, py) ==> !covers(b, px, py)
}

/// Disjointness reads the same from either side.
pub proof fn lemma_disjoint_symmetric(a: DrawOp, b: DrawOp)
    requires
        ops_disjoint(a, b),
    ensures
        ops_disjoint(b, a),
{
    assert forall|px: int, py: int| covers(b, px, py) implies !covers(a, px, py) by {
        if covers(a, px, py) {
            assert(!covers(b, px, py));
        }
    }
}

/// Painting the same operation twice is painting it once.
pub proof fn lemma_paint_idempotent(c: Canvas, a: DrawOp)
    ensures
        paint(paint(c, a), a) == paint(c, a),
{
    assert(paint(paint(c, a), a) =~= paint(c, a));
}

/// Draw operations with no pixel in common can be painted in either order.
pub proof fn lemma_paint_commutes(c: Canvas, a: DrawOp, b: DrawOp)
    requires
        ops_disjoint(a, b),
    ensures
        paint(paint(c, a), b) == paint(paint(c, b), a),
{
    assert(paint(paint(c, a), b) =~= paint(paint(c, b), a));
}

/// A disc stays inside its bounding square.
pub proof fn lemma_disc_in_box(x: int, y: int, d: int, px: int, py: int)
    requires
        d >= 1,
        in_disc(x, y, d, px, py),
    ensures
        x <= px < x + d,
        y <= py < y + d,
{
    let dx = 2 * px + 1 - (2 * x + d);
    let dy = 2 * py + 1 - (2 * y + d);
    assert(dx * dx <= d * d && dy * dy <= d * d) by (nonlinear_arith)
        requires
            dx * dx + dy * dy <= d * d,
    ;
    assert(-d <= dx <= d) by (nonlinear_arith)
        requires
            dx * dx <= d * d,
            d >= 1,
    ;
    assert(-d <= dy <= d) by (nonlinear_arith)
        requires
            dy * dy <= d * d,
            d >= 1,
    ;
}

/// The two indicators' circles never overlap, whatever each one shows.
pub proof fn lemma_indicators_disjoint(on1: bool, on2: bool)
    ensures
        ops_disjoint(
            spec_indicator_op(INDICATOR1_CX, INDICATOR1_CY, on1),
            spec_indicator_op(INDICATOR2_CX, INDICATOR2_CY, on2),
        ),
{
    let a = spec_indicator_op(INDICATOR1_CX, INDICATOR1_CY, on1);
    let b = spec_indicator_op(INDICATOR2_CX, INDICATOR2_CY, on2);
    assert forall|px: int, py: int| covers(a, px, py) implies !covers(b, px, py) by {
        if covers(b, px, py) {
            lemma_disc_in_box(105, 105, 30, px, py);
            lemma_disc_in_box(165, 105, 30, px, py);
        }
    }
}

/// `paint_all` over a two-operation pass, written out.
pub proof fn lemma_paint_all_two(c: Canvas, a: DrawOp, b: DrawOp)
    ensures
        paint_all(c, seq![a, b]) == paint(paint(c, a), b),
{
    let s = seq![a, b];
    assert(s.drop_first() =~= seq![b]);
    assert(s.drop_first().drop_first() =~= Seq::<DrawOp>::empty());
    assert(paint_all(paint(paint(c, a), b), Seq::<DrawOp>::empty()) == paint(paint(c, a), b));
    assert(paint_all(paint(c, a), seq![b]) == paint(paint(c, a), b));
}

/// The render pass with its two per-field draws swapped.
pub open spec fn spec_render_pass_swapped(s: StatusRecord) -> Seq<DrawOp> {
    seq![
        spec_indicator_op(INDICATOR2_CX, INDICATOR2_CY, s.indicator2),
        spec_indicator_op(INDICATOR1_CX, INDICATOR1_CY, s.indicator1),
    ]
}

/// Order-independence across fields: one render pass paints the same canvas
/// whichever indicator is drawn first, because the two circles are disjoint.
pub proof fn lemma_render_pass_order_independent(c: Canvas, s: StatusRecord)
    ensures
        paint_all(c, spec_render_pass(s)) == paint_all(c, spec_render_pass_swapped(s)),
{
    let a = spec_indicator_op(INDICATOR1_CX, INDICATOR1_CY, s.indicator1);
    let b = spec_indicator_op(INDICATOR2_CX, INDICATOR2_CY, s.indicator2);
    lemma_indicators_disjoint(s.indicator1, s.indicator2);
    lemma_paint_all_two(c, a, b);
    lemma_paint_all_two(c, b, a);
    lemma_paint_commutes(c, a, b);
}

/// Idempotent rendering: running the render pass twice over an unchanged
/// snapshot leaves the canvas exactly as one pass does, pixel for pixel; a
/// spurious wake-up redraws identical pixels.
pub proof fn lemma_render_pass_idempotent(c: Canvas, s: StatusRecord)
    ensures
        paint_all(paint_all(c, spec_render_pass(s)), spec_render_pass(s)) == paint_all(
            c,
            spec_render_pass(s),
        ),
{
    let a = spec_indicator_op(INDICATOR1_CX, INDICATOR1_CY, s.indicator1);
    let b = spec_indicator_op(INDICATOR2_CX, INDICATOR2_CY, s.indicator2);
    let once = paint(paint(c, a), b);
    lemma_indicators_disjoint(s.indicator1, s.indicator2);
    lemma_disjoint_symmetric(a, b);
    lemma_paint_all_two(c, a, b);
    lemma_paint_all_two(once, a, b);
    lemma_paint_commutes(paint(c, a), b, a);
    lemma_paint_idempotent(c, a);
    lemma_paint_idempotent(paint(c, a), b);
}

} // verus!
