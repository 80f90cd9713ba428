use vstd::prelude::*;

use crate::lit::{lit_op_curve, lit_op_fill, lit_op_fill_color, lit_op_line, lit_op_move,
    lit_op_stroke, lit_op_stroke_color, lit_space, push_op_curve, push_op_fill,
    push_op_fill_color, push_op_line, push_op_move, push_op_stroke, push_op_stroke_color,
    push_space};
use crate::numfmt::{color_frac, dec_mpt, push_color_frac, push_mpt};

verus! {

/// A draw color: three channel bytes (red, green, blue).
pub type Color = (u8, u8, u8);

/// Largest coordinate magnitude, in milli-points, that the drawing
/// operations accept; keeps every intermediate sum inside `i64`.
pub const MAX_COORD: i64 = 1_000_000_000;

/// Numerator and denominator of the four-arc cubic Bezier circle constant:
/// 0.551915 is the closest millionth to the validated 0.551915024494.
pub const BEZIER_NUM: u64 = 551_915;
pub const BEZIER_DEN: u64 = 1_000_000;

/// Control-point distance of the four-arc circle approximation:
/// the radius scaled by the Bezier constant, truncated to a milli-point.
pub open spec fn bezier_dist(r: int) -> int {
    r * 551_915 / 1_000_000
}

/// The bytes of `"{r} {g} {b} SC\n"`: three normalized channels and the
/// stroke-color operator.
pub open spec fn stroke_color_ops(color: Color) -> Seq<u8> {
    color_frac(color.0 as nat) + lit_space() + color_frac(color.1 as nat) + lit_space()
        + color_frac(color.2 as nat) + lit_op_stroke_color()
}

/// The bytes of `"{r} {g} {b} sc\n"`: three normalized channels and the
/// fill-color operator.
pub open spec fn fill_color_ops(color: Color) -> Seq<u8> {
    color_frac(color.0 as nat) + lit_space() + color_frac(color.1 as nat) + lit_space()
        + color_frac(color.2 as nat) + lit_op_fill_color()
}

/// The bytes of `"{x0} {y0} m {x1} {y1} l S\n"`: one move, one straight
/// segment, one stroke.
pub open spec fn line_ops(x0: int, y0: int, x1: int, y1: int) -> Seq<u8> {
    dec_mpt(x0) + lit_space() + dec_mpt(y0) + lit_op_move() + dec_mpt(x1) + lit_space() + dec_mpt(
        y1,
    ) + lit_op_line() + lit_op_stroke()
}

/// The bytes of `"{x1} {y1} {x2} {y2} {x3} {y3} c\n"`: one cubic Bezier
/// segment from the current point.
pub open spec fn curve_ops(x1: int, y1: int, x2: int, y2: int, x3: int, y3: int) -> Seq<u8> {
    dec_mpt(x1) + lit_space() + dec_mpt(y1) + lit_space() + dec_mpt(x2) + lit_space() + dec_mpt(
        y2,
    ) + lit_space() + dec_mpt(x3) + lit_space() + dec_mpt(y3) + lit_op_curve()
}

/// The bytes a circle emits: a move to the top point, four Bezier arcs
/// around the circumference, and a fill of the closed path.
pub open spec fn circle_ops(x: int, y: int, r: int) -> Seq<u8> {
    let d = bezier_dist(r);
    dec_mpt(x) + lit_space() + dec_mpt(y - r) + lit_op_move() + curve_ops(
        x - d,
        y - r,
        x - r,
        y - d,
        x - r,
        y,
    ) + curve_ops(x - r, y + d, x - d, y + r, x, y + r) + curve_ops(
        x + d,
        y + r,
        x + r,
        y + d,
        x + r,
        y,
    ) + curve_ops(x + r, y - d, x + d, y - r, x, y - r) + lit_op_fill()
}

/// A visual area where content can be drawn (a page).
///
/// Owns a buffer of page-content operators; every drawing method appends
/// the exact operator bytes its contract names. Coordinates are in
/// milli-points (thousandths of a PDF point).
pub struct Canvas {
    output: Vec<u8>,
}

impl View for Canvas {
    type V = Seq<u8>;

    closed spec fn view(&self) -> Seq<u8> {
        self.output@
    }
}

impl Canvas {
    /// Wrap an operator buffer; drawing appends to its end.
    pub fn new(output: Vec<u8>) -> (c: Canvas)
        ensures
            c@ == output@,
    {
        Canvas { output }
    }

    /// Hand the operator buffer back.
    pub fn into_output(self) -> (r: Vec<u8>)
        ensures
            r@ == self@,
    {
        self.output
    }

    /// Set color for stroking operations.
    pub fn set_stroke_color(&mut self, color: Color)
        ensures
            final(self)@ == old(self)@ + stroke_color_ops(color),
    {
        push_color_frac(&mut self.output, color.0);
        push_space(&mut self.output);
        push_color_frac(&mut self.output, color.1);
        push_space(&mut self.output);
        push_color_frac(&mut self.output, color.2);
        push_op_stroke_color(&mut self.output);
        proof {
            assert(self@ =~= old(self)@ + stroke_color_ops(color));
        }
    }

    /// Set color for non-stroking operations.
    pub fn set_fill_color(&mut self, color: Color)
        ensures
            final(self)@ == old(self)@ + fill_color_ops(color),
    {
        push_color_frac(&mut self.output, color.0);
        push_space(&mut self.output);
        push_color_frac(&mut self.output, color.1);
        push_space(&mut self.output);
        push_color_frac(&mut self.output, color.2);
        push_op_fill_color(&mut self.output);
        proof {
            assert(self@ =~= old(self)@ + fill_color_ops(color));
        }
    }

    /// Stroke a straight segment from (x0, y0) to (x1, y1) as its own path.
    pub fn line(&mut self, x0: i64, y0: i64, x1: i64, y1: i64)
        requires
            x0 > i64::MIN,
            y0 > i64::MIN,
            x1 > i64::MIN,
            y1 > i64::MIN,
        ensures
            final(self)@ == old(self)@ + line_ops(x0 as int, y0 as int, x1 as int, y1 as int),
    {
        push_mpt(&mut self.output, x0);
        push_space(&mut self.output);
        push_mpt(&mut self.output, y0);
        push_op_move(&mut self.output);
        push_mpt(&mut self.output, x1);
        push_space(&mut self.output);
        push_mpt(&mut self.output, y1);
        push_op_line(&mut self.output);
        push_op_stroke(&mut self.output);
        proof {
            assert(self@ =~= old(self)@ + line_ops(x0 as int, y0 as int, x1 as int, y1 as int));
        }
    }

    /// Add a cubic Bezier segment from the current point to (x3, y3) with
    /// (x1, y1) and (x2, y2) as control points; the caller closes the path.
    pub fn curve_to(&mut self, x1: i64, y1: i64, x2: i64, y2: i64, x3: i64, y3: i64)
        requires
            x1 > i64::MIN,
            y1 > i64::MIN,
            x2 > i64::MIN,
            y2 > i64::MIN,
            x3 > i64::MIN,
            y3 > i64::MIN,
        ensures
            final(self)@ == old(self)@ + curve_ops(
                x1 as int,
                y1 as int,
                x2 as int,
                y2 as int,
                x3 as int,
                y3 as int,
            ),
    {
        push_mpt(&mut self.output, x1);
        push_space(&mut self.output);
        push_mpt(&mut self.output, y1);
        push_space(&mut self.output);
        push_mpt(&mut self.output, x2);
        push_space(&mut self.output);
        push_mpt(&mut self.output, y2);
        push_space(&mut self.output);
        push_mpt(&mut self.output, x3);
        push_space(&mut self.output);
        push_mpt(&mut self.output, y3);
        push_op_curve(&mut self.output);
        proof {
            assert(self@ =~= old(self)@ + curve_ops(
                x1 as int,
                y1 as int,
                x2 as int,
                y2 as int,
                x3 as int,
                y3 as int,
            ));
        }
    }

    /// Add a circle approximated by four cubic Bezier arcs and fill it.
    #[verifier::rlimit(100)]
    pub fn circle(&mut self, x: i64, y: i64, r: i64)
        requires
            -MAX_COORD <= x <= MAX_COORD,
            -MAX_COORD <= y <= MAX_COORD,
            0 <= r <= MAX_COORD,
        ensures
            final(self)@ == old(self)@ + circle_ops(x as int, y as int, r as int),
    {
        let top = y - r;
        let bottom = y + r;
        let left = x - r;
        let right = x + r;
        let dist = ((r as u64) * BEZIER_NUM / BEZIER_DEN) as i64;
        proof {
            assert(dist as int == bezier_dist(r as int));
        }
        let up = y - dist;
        let down = y + dist;
        let leftp = x - dist;
        let rightp = x + dist;
        push_mpt(&mut self.output, x);
        push_space(&mut self.output);
        push_mpt(&mut self.output, top);
        push_op_move(&mut self.output);
        self.curve_to(leftp, top, left, up, left, y);
        self.curve_to(left, down, leftp, bottom, x, bottom);
        self.curve_to(rightp, bottom, right, down, right, y);
        self.curve_to(right, up, rightp, top, x, top);
        push_op_fill(&mut self.output);
        proof {
            assert(self@ =~= old(self)@ + circle_ops(x as int, y as int, r as int));
        }
    }
}

} // verus!
