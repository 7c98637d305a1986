//! The render pass: from one status snapshot to a fixed set of draw calls.
//!
//! The renderer draws a static background once at startup, then, at each
//! wake-up, one filled circle per display-relevant field, at that indicator's
//! fixed screen coordinate, in one of exactly two fixed colors selected by
//! the field's boolean value. Everything here is computed as plain draw
//! operations on pixel-space integer coordinates within the fixed canvas;
//! handing them to the physical pixel bus is the caller's side of the
//! boundary, and a failure there is fatal to the render pass, never
//! swallowed. The operations are a pure function of the snapshot, so a
//! spurious wake-up merely redraws identical pixels.

use vstd::prelude::*;
use crate::status::StatusRecord;
use crate::store::Store;

verus! {

/// The canvas width in pixels.
pub const CANVAS_WIDTH: u32 = 320;

/// The canvas height in pixels.
pub const CANVAS_HEIGHT: u32 = 240;

/// The diameter of an indicator's filled circle, in pixels.
pub const INDICATOR_DIAMETER: u32 = 30;

/// Centre x of the indicator mirroring `indicator1`.
pub const INDICATOR1_CX: i32 = 120;

/// Centre y of the indicator mirroring `indicator1`.
pub const INDICATOR1_CY: i32 = 120;

/// Centre x of the indicator mirroring `indicator2`.
pub const INDICATOR2_CX: i32 = 180;

/// Centre y of the indicator mirroring `indicator2`.
pub const INDICATOR2_CY: i32 = 120;

/// Top-left x of the background label.
pub const LABEL_X: i32 = 60;

/// Top-left y of the background label.
pub const LABEL_Y: i32 = 0;

/// The fixed palette the core draws with.
#[derive(Clone, Copy, PartialEq, Eq, Structural, Debug)]
pub enum DrawColor {
    /// The background fill.
    Black,
    /// The label text.
    White,
    /// An indicator whose field is true.
    Green,
    /// An indicator whose field is false.
    DarkGray,
}

/// One drawing operation, as handed to the draw surface. Coordinates are
/// pixel-space integers; a shape is placed by its bounding box's top-left
/// corner, as the draw surface places it.
#[derive(Clone, Copy, PartialEq, Eq, Structural, Debug)]
pub enum DrawOp {
    /// Fill the axis-aligned rectangle of the given size whose top-left
    /// corner is at `(x, y)`.
    FillRect { x: i32, y: i32, width: u32, height: u32, color: DrawColor },
    /// Fill the circle of the given diameter whose bounding square's
    /// top-left corner is at `(x, y)`.
    FillCircle { x: i32, y: i32, diameter: u32, color: DrawColor },
    /// Draw the fixed background label with its top-left corner at `(x, y)`.
    Label { x: i32, y: i32, color: DrawColor },
}

/// The color an indicator is filled with: exactly two, chosen by the field.
pub open spec fn spec_indicator_color(on: bool) -> DrawColor {
    if on {
        DrawColor::Green
    } else {
        DrawColor::DarkGray
    }
}

/// The one draw operation for an indicator centred at `(cx, cy)` showing
/// `on`: a fixed-diameter filled circle, placed by its bounding square's
/// top-left corner.
pub open spec fn spec_indicator_op(cx: i32, cy: i32, on: bool) -> DrawOp {
    DrawOp::FillCircle {
        x: (cx - (INDICATOR_DIAMETER as i32) / 2) as i32,
        y: (cy - (INDICATOR_DIAMETER as i32) / 2) as i32,
        diameter: INDICATOR_DIAMETER,
        color: spec_indicator_color(on),
    }
}

/// Draws an "LED" on the display: computes the indicator's draw operation
/// from its centre and its field's value.
pub fn render_indicator(cx: i32, cy: i32, on: bool) -> (op: DrawOp)
    requires
        0 <= cx < CANVAS_WIDTH as i32,
        0 <= cy < CANVAS_HEIGHT as i32,
    ensures
        op == spec_indicator_op(cx, cy, on),
{
    let half: i32 = (INDICATOR_DIAMETER / 2) as i32;
    let color: DrawColor = if on {
        DrawColor::Green
    } else {
        DrawColor::DarkGray
    };
    DrawOp::FillCircle { x: cx - half, y: cy - half, diameter: INDICATOR_DIAMETER, color }
}

/// The draw operations of one whole render pass over a snapshot: one circle
/// per display-relevant field, each at its fixed coordinate. A pure function
/// of the snapshot, which is what makes redundant passes harmless.
pub open spec fn spec_render_pass(s: StatusRecord) -> Seq<DrawOp> {
    seq![
        spec_indicator_op(INDICATOR1_CX, INDICATOR1_CY, s.indicator1),
        spec_indicator_op(INDICATOR2_CX, INDICATOR2_CY, s.indicator2),
    ]
}

/// Computes the draw operations of one render pass over the snapshot `s`.
pub fn render_pass(s: StatusRecord) -> (ops: Vec<DrawOp>)
    ensures
        ops@ == spec_render_pass(s),
{
    let mut ops: Vec<DrawOp> = Vec::new();
    ops.push(render_indicator(INDICATOR1_CX, INDICATOR1_CY, s.indicator1));
    ops.push(render_indicator(INDICATOR2_CX, INDICATOR2_CY, s.indicator2));
    proof {
        assert(ops@ =~= spec_render_pass(s));
    }
    ops
}

/// The label text the background shows.
pub open spec fn spec_label_text() -> Seq<char> {
    "Erturk Me"@
}

/// The text drawn once onto the background.
pub fn background_label() -> (s: &'static str)
    ensures
        s@ == spec_label_text(),
{
    "Erturk Me"
}

/// The static background: a full-canvas fill, then the fixed label.
pub open spec fn spec_background() -> Seq<DrawOp> {
    seq![
        DrawOp::FillRect {
            x: 0,
            y: 0,
            width: CANVAS_WIDTH,
            height: CANVAS_HEIGHT,
            color: DrawColor::Black,
        },
        DrawOp::Label { x: LABEL_X, y: LABEL_Y, color: DrawColor::White },
    ]
}

/// Computes the draw operations of the static background, issued exactly
/// once, before the renderer first waits.
pub fn render_background() -> (ops: Vec<DrawOp>)
    ensures
        ops@ == spec_background(),
{
    let mut ops: Vec<DrawOp> = Vec::new();
    ops.push(
        DrawOp::FillRect {
            x: 0,
            y: 0,
            width: CANVAS_WIDTH,
            height: CANVAS_HEIGHT,
            color: DrawColor::Black,
        },
    );
    ops.push(DrawOp::Label { x: LABEL_X, y: LABEL_Y, color: DrawColor::White });
    proof {
        assert(ops@ =~= spec_background());
    }
    ops
}

/// One turn of the renderer's loop, given that its wait has just returned or
/// is being polled: when a change was pending, consumes the one pending
/// notification, takes one consistent snapshot, and yields the render pass
/// for exactly that snapshot; when none was pending, the waiter stays asleep
/// and nothing is drawn. The record itself is never changed by rendering.
pub fn renderer_turn(store: &mut Store) -> (r: Option<Vec<DrawOp>>)
    ensures
        old(store).pending() ==> (r matches Some(ops)
            && ops@ == spec_render_pass(old(store).record())),
        !old(store).pending() ==> r is None,
        !final(store).pending(),
        final(store).record() == old(store).record(),
{
    if store.take_notification() {
        let snapshot: StatusRecord = store.snapshot();
        Some(render_pass(snapshot))
    } else {
        None
    }
}

} // verus!
