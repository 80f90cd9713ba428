use vstd::prelude::*;

pub mod canvas;
pub mod lit;
pub mod numfmt;
pub mod pdf;

use crate::canvas::{Canvas, Color, MAX_COORD, circle_ops, fill_color_ops, line_ops,
    stroke_color_ops};
use crate::lit::lit_header;
use crate::pdf::{Pdf, UNWRITTEN, finished_doc, full_ops, length_obj_body, obj_bytes,
    page_obj_body, stream_obj_body, zlib_of};

verus! {

/// Milli-points per milli-inch: PDF's fixed 72 points per inch.
pub const PT_PER_INCH: i64 = 72;

/// A length in milli-inches, converted to milli-points.
pub open spec fn to_mpt(v: nat) -> int {
    (v as int) * 72
}

/// A pattern configuration. Lengths (page size, margin, cell spacing) are
/// in milli-inches: thousandths of an inch.
pub struct Config {
    pub width: u32,
    pub height: u32,
    pub margin: u32,
    pub color: Color,
    pub num_x: u32,
    pub num_y: u32,
    pub d: u32,
    pub num_pages: usize,
}

impl Config {
    /// The configuration stays within the drawing range: every coordinate
    /// the patterns touch fits `MAX_COORD`, and the repetition counts leave
    /// room for the one extra row and column of the grid.
    pub open spec fn wf(&self) -> bool {
        &&& to_mpt(self.width as nat) <= MAX_COORD
        &&& to_mpt(self.height as nat) <= MAX_COORD
        &&& self.num_x < u32::MAX
        &&& self.num_y < u32::MAX
        &&& to_mpt(self.margin as nat) + (self.num_x as int + 1) * to_mpt(self.d as nat)
            <= MAX_COORD
        &&& to_mpt(self.margin as nat) + (self.num_y as int + 1) * to_mpt(self.d as nat)
            <= MAX_COORD
    }

    /// Decide `wf` at run time, for callers outside verified code.
    pub fn valid(&self) -> (r: bool)
        ensures
            r == self.wf(),
    {
        let w = self.width as u128 * 72;
        let h = self.height as u128 * 72;
        let m = self.margin as u128 * 72;
        let d = self.d as u128 * 72;
        let nx1 = self.num_x as u128 + 1;
        let ny1 = self.num_y as u128 + 1;
        proof {
            vstd::arithmetic::mul::lemma_mul_upper_bound(
                nx1 as int,
                0x1_0000_0000,
                d as int,
                0x48_0000_0000,
            );
            vstd::arithmetic::mul::lemma_mul_upper_bound(
                ny1 as int,
                0x1_0000_0000,
                d as int,
                0x48_0000_0000,
            );
        }
        let limit = MAX_COORD as u128;
        let r = w <= limit && h <= limit && self.num_x < u32::MAX && self.num_y < u32::MAX && m
            + nx1 * d <= limit && m + ny1 * d <= limit;
        proof {
            assert(to_mpt(self.d as nat) == self.d as int * 72);
            assert(nx1 as int * (d as int) == (self.num_x as int + 1) * to_mpt(self.d as nat))
                by (nonlinear_arith)
                requires
                    nx1 as int == self.num_x as int + 1,
                    d as int == self.d as int * 72,
            ;
            assert(ny1 as int * (d as int) == (self.num_y as int + 1) * to_mpt(self.d as nat))
                by (nonlinear_arith)
                requires
                    ny1 as int == self.num_y as int + 1,
                    d as int == self.d as int * 72,
            ;
        }
        r
    }
}

/// A restartable generator of evenly spaced coordinates: exactly `num`
/// values stepped by `step`, the first produced value equal to `start`.
/// The internal position begins one step before `start`, so the first
/// `next` lands exactly on `start`.
pub struct StepIter {
    current: i64,
    step: i64,
    num: u32,
}

impl StepIter {
    /// The position the last produced value had (one step before the next).
    pub closed spec fn cur(&self) -> int {
        self.current as int
    }

    /// The spacing between produced values.
    pub closed spec fn step_size(&self) -> int {
        self.step as int
    }

    /// How many values are still to come.
    pub closed spec fn remaining(&self) -> nat {
        self.num as nat
    }

    pub fn new(start: i64, step: i64, num: u32) -> (it: StepIter)
        requires
            i64::MIN <= start - step <= i64::MAX,
        ensures
            it.cur() == start - step,
            it.step_size() == step,
            it.remaining() == num,
    {
        StepIter { current: start - step, step, num }
    }

    /// Yield the next coordinate, one step past the last; `None` once `num`
    /// values have been produced.
    pub fn next(&mut self) -> (r: Option<i64>)
        requires
            old(self).remaining() > 0 ==> i64::MIN <= old(self).cur() + old(self).step_size()
                <= i64::MAX,
        ensures
            final(self).step_size() == old(self).step_size(),
            old(self).remaining() == 0 ==> r is None && final(self).cur() == old(self).cur()
                && final(self).remaining() == 0,
            old(self).remaining() > 0 ==> r == Some((old(self).cur() + old(self).step_size())
                as i64) && final(self).cur() == old(self).cur() + old(self).step_size()
                && final(self).remaining() == (old(self).remaining() - 1) as nat,
    {
        if self.num > 0 {
            self.num = self.num - 1;
            self.current = self.current + self.step;
            Some(self.current)
        } else {
            None
        }
    }
}

/// The circles of one dot-grid column at `x`: `count` circles of radius
/// `r`, centered `d` apart starting at (`x`, `margin`).
pub open spec fn dot_col_ops(x: int, margin: int, d: int, r: int, count: nat) -> Seq<u8>
    decreases count,
{
    if count == 0 {
        Seq::empty()
    } else {
        dot_col_ops(x, margin, d, r, (count - 1) as nat) + circle_ops(
            x,
            margin + (count - 1) * d,
            r,
        )
    }
}

/// All dot-grid circles: `nx` columns of `ny` circles, left to right.
pub open spec fn dot_cols_ops(margin: int, d: int, r: int, nx: nat, ny: nat) -> Seq<u8>
    decreases nx,
{
    if nx == 0 {
        Seq::empty()
    } else {
        dot_cols_ops(margin, d, r, (nx - 1) as nat, ny) + dot_col_ops(
            margin + (nx - 1) * d,
            margin,
            d,
            r,
            ny,
        )
    }
}

/// The operator stream the dot pattern draws: the fill color once, then
/// one filled circle per grid point.
pub open spec fn dot_ops(c: Config) -> Seq<u8> {
    fill_color_ops(c.color) + dot_cols_ops(
        to_mpt(c.margin as nat),
        to_mpt(c.d as nat),
        to_mpt(c.d as nat) / 10,
        c.num_x as nat + 1,
        c.num_y as nat + 1,
    )
}

/// `count` vertical full-height lines, spaced `d` apart from the margin.
pub open spec fn vlines_ops(margin: int, d: int, tot_y: int, count: nat) -> Seq<u8>
    decreases count,
{
    if count == 0 {
        Seq::empty()
    } else {
        vlines_ops(margin, d, tot_y, (count - 1) as nat) + line_ops(
            margin + (count - 1) * d,
            margin,
            margin + (count - 1) * d,
            margin + tot_y,
        )
    }
}

/// `count` horizontal full-width lines, spaced `d` apart from the margin.
pub open spec fn hlines_ops(margin: int, d: int, tot_x: int, count: nat) -> Seq<u8>
    decreases count,
{
    if count == 0 {
        Seq::empty()
    } else {
        hlines_ops(margin, d, tot_x, (count - 1) as nat) + line_ops(
            margin,
            margin + (count - 1) * d,
            margin + tot_x,
            margin + (count - 1) * d,
        )
    }
}

/// The operator stream the line-grid pattern draws: the stroke color once,
/// then the vertical lines, then the horizontal ones.
pub open spec fn grid_ops(c: Config) -> Seq<u8> {
    let margin = to_mpt(c.margin as nat);
    let d = to_mpt(c.d as nat);
    stroke_color_ops(c.color) + vlines_ops(margin, d, d * (c.num_y as int), c.num_x as nat + 1)
        + hlines_ops(margin, d, d * (c.num_x as int), c.num_y as nat + 1)
}

/// The document one content stream of operators `ops` yields: the header,
/// the stream pair under identifiers 3 and 4, one page object under
/// identifier 5 referencing the stream, the identifier 5 repeated
/// `num_pages` times in the page list, and the finishing trailer.
pub open spec fn one_stream_doc(ops: Seq<u8>, width: int, height: int, num_pages: nat) -> Seq<u8> {
    let out0 = lit_header();
    let sb = stream_obj_body(3, full_ops(ops));
    let lb = length_obj_body(zlib_of(full_ops(ops)).len());
    let out1 = out0 + obj_bytes(3, sb) + obj_bytes(4, lb);
    let out2 = out1 + obj_bytes(5, page_obj_body(width, height, 3));
    let offsets = seq![
        UNWRITTEN,
        UNWRITTEN,
        UNWRITTEN,
        out0.len() as u64,
        (out0.len() + obj_bytes(3, sb).len()) as u64,
        out1.len() as u64,
    ];
    finished_doc(out2, offsets, Seq::new(num_pages, |k: int| 5u64))
}

/// Draw one dot-grid column: `ny` filled circles of radius `r` at
/// (`x`, `margin + k*d`) for `k` up to `ny`.
#[verifier::rlimit(100)]
fn dot_column(canvas: &mut Canvas, x: i64, margin: i64, d: i64, r: i64, ny: u32)
    requires
        -MAX_COORD <= x <= MAX_COORD,
        0 <= margin,
        0 <= d,
        0 <= r <= MAX_COORD,
        margin + ny as int * d <= MAX_COORD,
    ensures
        final(canvas)@ == old(canvas)@ + dot_col_ops(
            x as int,
            margin as int,
            d as int,
            r as int,
            ny as nat,
        ),
{
    let ghost gm: int = margin as int;
    let ghost gd: int = d as int;
    let ghost gr: int = r as int;
    let ghost gx: int = x as int;
    proof {
        Seq::<u8>::add_empty_right(old(canvas)@, dot_col_ops(gx, gm, gd, gr, 0));
    }
    let mut ys = StepIter::new(margin, d, ny);
    let mut ky: u32 = 0;
    while ky < ny
        invariant
            ky <= ny,
            -MAX_COORD <= gx <= MAX_COORD,
            0 <= gm,
            0 <= gd,
            0 <= gr <= MAX_COORD,
            gm + ny as int * gd <= MAX_COORD,
            x as int == gx,
            margin as int == gm,
            d as int == gd,
            r as int == gr,
            ys.cur() == gm + (ky as int - 1) * gd,
            ys.step_size() == gd,
            ys.remaining() == ny - ky,
            canvas@ == old(canvas)@ + dot_col_ops(gx, gm, gd, gr, ky as nat),
        decreases ny - ky,
    {
        proof {
            assert((ky as int - 1) * gd + gd == ky as int * gd) by (nonlinear_arith);
            vstd::arithmetic::mul::lemma_mul_inequality(ky as int, ny as int, gd);
            vstd::arithmetic::mul::lemma_mul_nonnegative(ky as int, gd);
        }
        let y = ys.next().unwrap();
        canvas.circle(x, y, r);
        ky += 1;
        proof {
            vstd::seq_lib::lemma_concat_associative(
                old(canvas)@,
                dot_col_ops(gx, gm, gd, gr, (ky - 1) as nat),
                circle_ops(gx, gm + (ky - 1) * gd, gr),
            );
        }
    }
}

/// Generate the dot-grid document: one compressed content stream drawing
/// `(num_x+1) * (num_y+1)` filled circles of radius `d/10`, spaced `d`
/// apart starting at the margin, stamped onto `num_pages` pages of the
/// given size.
#[verifier::rlimit(100)]
pub fn dot(config: &Config) -> (doc: Vec<u8>)
    requires
        config.wf(),
    ensures
        doc@ == dot_doc(*config),
{
    let width = config.width as i64 * PT_PER_INCH;
    let height = config.height as i64 * PT_PER_INCH;
    let margin = config.margin as i64 * PT_PER_INCH;
    let d = config.d as i64 * PT_PER_INCH;
    let r = (config.d as u64 * 72 / 10) as i64;
    let nx = config.num_x + 1;
    let ny = config.num_y + 1;
    let ghost gm: int = margin as int;
    let ghost gd: int = d as int;
    let ghost gr: int = r as int;
    proof {
        vstd::arithmetic::mul::lemma_mul_inequality(1, nx as int, gd);
        assert(gr == to_mpt(config.d as nat) / 10);
        assert(0 <= gr <= gd);
    }
    let mut canvas = Canvas::new(Vec::new());
    canvas.set_fill_color(config.color);
    proof {
        Seq::<u8>::add_empty_right(fill_color_ops(config.color), dot_cols_ops(gm, gd, gr, 0, ny as nat));
        Seq::<u8>::add_empty_left(Seq::<u8>::empty(), fill_color_ops(config.color));
    }
    let mut xs = StepIter::new(margin, d, nx);
    let mut kx: u32 = 0;
    #[verifier::spinoff_prover]
    while kx < nx
        invariant
            config.wf(),
            kx <= nx,
            nx == config.num_x + 1,
            ny == config.num_y + 1,
            gm == to_mpt(config.margin as nat),
            gd == to_mpt(config.d as nat),
            gr == to_mpt(config.d as nat) / 10,
            margin as int == gm,
            d as int == gd,
            r as int == gr,
            0 <= gr <= gd,
            gd <= MAX_COORD,
            xs.cur() == gm + (kx as int - 1) * gd,
            xs.step_size() == gd,
            xs.remaining() == nx - kx,
            canvas@ == fill_color_ops(config.color) + dot_cols_ops(gm, gd, gr, kx as nat, ny as nat),
        decreases nx - kx,
    {
        proof {
            assert((kx as int - 1) * gd + gd == kx as int * gd) by (nonlinear_arith);
            vstd::arithmetic::mul::lemma_mul_inequality(kx as int, nx as int, gd);
            vstd::arithmetic::mul::lemma_mul_nonnegative(kx as int, gd);
        }
        let x = xs.next().unwrap();
        dot_column(&mut canvas, x, margin, d, r, ny);
        kx += 1;
        proof {
            vstd::seq_lib::lemma_concat_associative(
                fill_color_ops(config.color),
                dot_cols_ops(gm, gd, gr, (kx - 1) as nat, ny as nat),
                dot_col_ops(gm + (kx - 1) * gd, gm, gd, gr, ny as nat),
            );
        }
    }
    let ops = canvas.into_output();
    proof {
        assert(ops@ == dot_ops(*config));
    }
    finish_one_stream(ops, width, height, config.num_pages)
}

/// Generate the line-grid document: one compressed content stream drawing
/// `num_x+1` vertical and `num_y+1` horizontal lines spanning the grid's
/// extent, stamped onto `num_pages` pages of the given size.
#[verifier::rlimit(100)]
pub fn grid(config: &Config) -> (doc: Vec<u8>)
    requires
        config.wf(),
    ensures
        doc@ == grid_doc(*config),
{
    let width = config.width as i64 * PT_PER_INCH;
    let height = config.height as i64 * PT_PER_INCH;
    let margin = config.margin as i64 * PT_PER_INCH;
    let d = config.d as i64 * PT_PER_INCH;
    let nx = config.num_x + 1;
    let ny = config.num_y + 1;
    let ghost gm: int = margin as int;
    let ghost gd: int = d as int;
    proof {
        vstd::arithmetic::mul::lemma_mul_inequality(config.num_x as int, nx as int, gd);
        vstd::arithmetic::mul::lemma_mul_inequality(config.num_y as int, ny as int, gd);
        vstd::arithmetic::mul::lemma_mul_nonnegative(config.num_x as int, gd);
        vstd::arithmetic::mul::lemma_mul_nonnegative(config.num_y as int, gd);
    }
    let tot_x = d * config.num_x as i64;
    let tot_y = d * config.num_y as i64;
    let mut canvas = Canvas::new(Vec::new());
    canvas.set_stroke_color(config.color);
    proof {
        Seq::<u8>::add_empty_right(
            stroke_color_ops(config.color),
            vlines_ops(gm, gd, gd * config.num_y as int, 0),
        );
        Seq::<u8>::add_empty_left(Seq::<u8>::empty(), stroke_color_ops(config.color));
    }
    let mut xs = StepIter::new(margin, d, nx);
    let mut kx: u32 = 0;
    while kx < nx
        invariant
            config.wf(),
            kx <= nx,
            nx == config.num_x + 1,
            ny == config.num_y + 1,
            gm == to_mpt(config.margin as nat),
            gd == to_mpt(config.d as nat),
            margin as int == gm,
            d as int == gd,
            tot_y as int == gd * config.num_y as int,
            0 <= tot_y as int,
            gm + tot_y as int <= MAX_COORD,
            xs.cur() == gm + (kx as int - 1) * gd,
            xs.step_size() == gd,
            xs.remaining() == nx - kx,
            canvas@ == stroke_color_ops(config.color) + vlines_ops(
                gm,
                gd,
                gd * config.num_y as int,
                kx as nat,
            ),
        decreases nx - kx,
    {
        proof {
            assert((kx as int - 1) * gd + gd == kx as int * gd) by (nonlinear_arith);
            vstd::arithmetic::mul::lemma_mul_inequality(kx as int, nx as int, gd);
            vstd::arithmetic::mul::lemma_mul_nonnegative(kx as int, gd);
        }
        let x = xs.next().unwrap();
        canvas.line(x, margin, x, margin + tot_y);
        kx += 1;
        proof {
            let ghost ty: int = gd * config.num_y as int;
            vstd::seq_lib::lemma_concat_associative(
                stroke_color_ops(config.color),
                vlines_ops(gm, gd, ty, (kx - 1) as nat),
                line_ops(gm + (kx - 1) * gd, gm, gm + (kx - 1) * gd, gm + ty),
            );
            assert(vlines_ops(gm, gd, ty, kx as nat) == vlines_ops(gm, gd, ty, (kx - 1) as nat)
                + line_ops(gm + (kx - 1) * gd, gm, gm + (kx - 1) * gd, gm + ty));
        }
    }
    proof {
        Seq::<u8>::add_empty_right(
            stroke_color_ops(config.color) + vlines_ops(
                gm,
                gd,
                gd * config.num_y as int,
                nx as nat,
            ),
            hlines_ops(gm, gd, gd * config.num_x as int, 0),
        );
    }
    let mut ys = StepIter::new(margin, d, ny);
    let mut ky: u32 = 0;
    while ky < ny
        invariant
            config.wf(),
            ky <= ny,
            nx == config.num_x + 1,
            ny == config.num_y + 1,
            gm == to_mpt(config.margin as nat),
            gd == to_mpt(config.d as nat),
            margin as int == gm,
            d as int == gd,
            tot_x as int == gd * config.num_x as int,
            0 <= tot_x as int,
            gm + tot_x as int <= MAX_COORD,
            ys.cur() == gm + (ky as int - 1) * gd,
            ys.step_size() == gd,
            ys.remaining() == ny - ky,
            canvas@ == stroke_color_ops(config.color) + vlines_ops(
                gm,
                gd,
                gd * config.num_y as int,
                nx as nat,
            ) + hlines_ops(gm, gd, gd * config.num_x as int, ky as nat),
        decreases ny - ky,
    {
        proof {
            assert((ky as int - 1) * gd + gd == ky as int * gd) by (nonlinear_arith);
            vstd::arithmetic::mul::lemma_mul_inequality(ky as int, ny as int, gd);
            vstd::arithmetic::mul::lemma_mul_nonnegative(ky as int, gd);
        }
        let y = ys.next().unwrap();
        canvas.line(margin, y, margin + tot_x, y);
        ky += 1;
        proof {
            let ghost tx: int = gd * config.num_x as int;
            vstd::seq_lib::lemma_concat_associative(
                stroke_color_ops(config.color) + vlines_ops(
                    gm,
                    gd,
                    gd * config.num_y as int,
                    nx as nat,
                ),
                hlines_ops(gm, gd, tx, (ky - 1) as nat),
                line_ops(gm, gm + (ky - 1) * gd, gm + tx, gm + (ky - 1) * gd),
            );
            assert(hlines_ops(gm, gd, tx, ky as nat) == hlines_ops(gm, gd, tx, (ky - 1) as nat)
                + line_ops(gm, gm + (ky - 1) * gd, gm + tx, gm + (ky - 1) * gd));
        }
    }
    let ops = canvas.into_output();
    proof {
        assert(ops@ == grid_ops(*config));
    }
    finish_one_stream(ops, width, height, config.num_pages)
}

/// Open a writer, register `ops` as the one content stream, stamp it onto
/// `num_pages` pages of the given size, and finish the document.
#[verifier::rlimit(100)]
fn finish_one_stream(ops: Vec<u8>, width: i64, height: i64, num_pages: usize) -> (doc: Vec<u8>)
    requires
        0 <= width,
        0 <= height,
    ensures
        doc@ == one_stream_doc(ops@, width as int, height as int, num_pages as nat),
{
    let mut document = Pdf::new();
    let ghost d0 = document;
    let content_oid = document.write_stream(&ops);
    let ghost d1 = document;
    document.write_page_with_obj(width, height, content_oid, num_pages);
    let ghost d2 = document;
    let doc = document.finish();
    proof {
        let sb = stream_obj_body(3, full_ops(ops@));
        let lb = length_obj_body(zlib_of(full_ops(ops@)).len());
        let out1 = lit_header() + obj_bytes(3, sb) + obj_bytes(4, lb);
        assert(d1.out() == out1);
        assert(d2.out() == out1 + obj_bytes(
            5,
            page_obj_body(width as int, height as int, 3),
        ));
        assert(d2.offsets() =~= seq![
            UNWRITTEN,
            UNWRITTEN,
            UNWRITTEN,
            lit_header().len() as u64,
            (lit_header().len() + obj_bytes(3, sb).len()) as u64,
            out1.len() as u64,
        ]);
        assert(d2.pages() =~= Seq::new(num_pages as nat, |k: int| 5u64));
        assert(doc@ == one_stream_doc(ops@, width as int, height as int, num_pages as nat));
    }
    doc
}

/// The complete dot-grid document for a configuration.
pub open spec fn dot_doc(c: Config) -> Seq<u8> {
    one_stream_doc(dot_ops(c), to_mpt(c.width as nat), to_mpt(c.height as nat), c.num_pages as nat)
}

/// The complete line-grid document for a configuration.
pub open spec fn grid_doc(c: Config) -> Seq<u8> {
    one_stream_doc(
        grid_ops(c),
        to_mpt(c.width as nat),
        to_mpt(c.height as nat),
        c.num_pages as nat,
    )
}

} // verus!
