//! The canvas: a raster of pixels that drawing operations change, and the
//! queue in which those operations wait for the canvas's single consumer.

use crate::line::{line_count, line_length, line_point, line_sample};
use crate::raster::{buffer_pixels, get_pixel, grid, new_buffer, put_pixel, Color, PixelBuffer};
use crate::ts_dequeue::TSDequeue;
use vstd::prelude::*;

verus! {

/// A change to the canvas, as producers enqueue it.
#[derive(Clone, Copy, Debug, PartialEq, Eq, Structural)]
pub enum CanvasOperation {
    /// Colour one pixel: position, then red, green, blue.
    Pixel(u32, u32, u8, u8, u8),
    /// Colour the samples of a segment: both end points, then red, green, blue.
    Line(u32, u32, u32, u32, u8, u8, u8),
    /// Wipe the brush area around a position.
    Erase(u32, u32),
    /// Wipe the brush area around every sample of a segment.
    EraseLine(u32, u32, u32, u32),
    /// Wipe the whole canvas.
    Clear,
}

/// The pixels of a raster, by position.
pub type Pixels = Map<(int, int), Color>;

/// Opaque white, the colour of a blank canvas.
pub open spec fn white() -> Color {
    (255u8, 255u8, 255u8, 255u8)
}

/// Colours the pixel at `(x, y)`; a position outside the raster changes nothing.
pub open spec fn draw_at(pixels: Pixels, x: int, y: int, color: Color) -> Pixels {
    if pixels.dom().contains((x, y)) {
        pixels.insert((x, y), color)
    } else {
        pixels
    }
}

/// Whether `p` lies under the erasing brush centred at `(x, y)`: two pixels
/// to either side and one above and below.
pub open spec fn under_brush(p: (int, int), x: int, y: int) -> bool {
    x - 2 <= p.0 <= x + 2 && y - 1 <= p.1 <= y + 1
}

/// Whitens what lies under the brush at `(x, y)`, as far as it is on the raster.
pub open spec fn erase_at(pixels: Pixels, x: int, y: int) -> Pixels {
    Map::new(
        |p: (int, int)| pixels.dom().contains(p),
        |p: (int, int)|
            if under_brush(p, x, y) {
                white()
            } else {
                pixels[p]
            },
    )
}

/// Whitens every pixel.
pub open spec fn cleared(pixels: Pixels) -> Pixels {
    Map::new(|p: (int, int)| pixels.dom().contains(p), |p: (int, int)| white())
}

/// Colours the first `n` samples of a segment, in order.
pub open spec fn draw_line(
    pixels: Pixels,
    x1: int,
    y1: int,
    x2: int,
    y2: int,
    color: Color,
    n: int,
) -> Pixels
    decreases n,
{
    if n <= 0 {
        pixels
    } else {
        let p = line_point(x1, y1, x2, y2, n - 1);
        draw_at(draw_line(pixels, x1, y1, x2, y2, color, n - 1), p.0, p.1, color)
    }
}

/// Erases around the first `n` samples of a segment, in order.
pub open spec fn erase_line(pixels: Pixels, x1: int, y1: int, x2: int, y2: int, n: int) -> Pixels
    decreases n,
{
    if n <= 0 {
        pixels
    } else {
        let p = line_point(x1, y1, x2, y2, n - 1);
        erase_at(erase_line(pixels, x1, y1, x2, y2, n - 1), p.0, p.1)
    }
}

/// The raster after one operation.
pub open spec fn apply(pixels: Pixels, op: CanvasOperation) -> Pixels {
    match op {
        CanvasOperation::Pixel(x, y, r, g, b) => draw_at(pixels, x as int, y as int, (r, g, b, 255u8)),
        CanvasOperation::Line(x1, y1, x2, y2, r, g, b) => draw_line(
            pixels,
            x1 as int,
            y1 as int,
            x2 as int,
            y2 as int,
            (r, g, b, 255u8),
            line_count(x1 as int, y1 as int, x2 as int, y2 as int),
        ),
        CanvasOperation::Erase(x, y) => erase_at(pixels, x as int, y as int),
        CanvasOperation::EraseLine(x1, y1, x2, y2) => erase_line(
            pixels,
            x1 as int,
            y1 as int,
            x2 as int,
            y2 as int,
            line_count(x1 as int, y1 as int, x2 as int, y2 as int),
        ),
        CanvasOperation::Clear => cleared(pixels),
    }
}

/// The raster after a sequence of operations, applied first to last.
pub open spec fn apply_all(pixels: Pixels, ops: Seq<CanvasOperation>) -> Pixels
    decreases ops.len(),
{
    if ops.len() == 0 {
        pixels
    } else {
        apply(apply_all(pixels, ops.drop_last()), ops.last())
    }
}

/// The raster with its pending operations.
pub struct GameCanvas {
    canvas: PixelBuffer,
    width: u32,
    height: u32,
    queue: TSDequeue<CanvasOperation>,
}

/// The brush area around `(x, y)` whitened as far as a column-by-column
/// sweep has come: every column left of `cx`, and column `cx` above `cy`.
spec fn erase_partial(pixels: Pixels, x: int, y: int, cx: int, cy: int) -> Pixels {
    Map::new(
        |p: (int, int)| pixels.dom().contains(p),
        |p: (int, int)|
            if under_brush(p, x, y) && (p.0 < cx || (p.0 == cx && p.1 < cy)) {
                white()
            } else {
                pixels[p]
            },
    )
}

/// The raster whitened as far as a column-by-column sweep has come.
spec fn clear_partial(pixels: Pixels, cx: int, cy: int) -> Pixels {
    Map::new(
        |p: (int, int)| pixels.dom().contains(p),
        |p: (int, int)|
            if p.0 < cx || (p.0 == cx && p.1 < cy) {
                white()
            } else {
                pixels[p]
            },
    )
}

impl GameCanvas {
    /// The colour of every pixel, by position.
    pub closed spec fn pixels(&self) -> Pixels {
        buffer_pixels(self.canvas)
    }

    /// The operations that were enqueued and not yet applied, oldest first.
    pub closed spec fn pending(&self) -> Seq<CanvasOperation> {
        self.queue@
    }

    pub closed spec fn spec_width(&self) -> u32 {
        self.width
    }

    pub closed spec fn spec_height(&self) -> u32 {
        self.height
    }

    /// The raster holds exactly the positions inside its width and height.
    pub closed spec fn wf(&self) -> bool {
        self.pixels().dom() == grid(self.width as int, self.height as int)
    }

    /// A blank canvas: every pixel opaque white, nothing pending.
    pub fn new(width: u32, height: u32) -> (canvas: Self)
        requires
            4 * width * height <= isize::MAX,
        ensures
            canvas.wf(),
            canvas.spec_width() == width,
            canvas.spec_height() == height,
            canvas.pixels() == Map::new(
                |p: (int, int)| grid(width as int, height as int).contains(p),
                |p: (int, int)| white(),
            ),
            canvas.pending() == Seq::<CanvasOperation>::empty(),
    {
        let mut canvas = GameCanvas {
            canvas: new_buffer(width, height),
            width,
            height,
            queue: TSDequeue::new(),
        };
        canvas.clear();
        assert(canvas.pixels() =~= Map::new(
            |p: (int, int)| grid(width as int, height as int).contains(p),
            |p: (int, int)| white(),
        ));
        canvas
    }

    #[verifier::when_used_as_spec(spec_width)]
    pub fn width(&self) -> (w: u32)
        ensures
            w == self.spec_width(),
    {
        self.width
    }

    #[verifier::when_used_as_spec(spec_height)]
    pub fn height(&self) -> (h: u32)
        ensures
            h == self.spec_height(),
    {
        self.height
    }

    /// The colour at `(x, y)`, or `None` outside the raster.
    pub fn pixel(&self, x: u32, y: u32) -> (color: Option<Color>)
        requires
            self.wf(),
        ensures
            color == if x < self.width() && y < self.height() {
                Some(self.pixels()[(x as int, y as int)])
            } else {
                None
            },
    {
        if x < self.width && y < self.height {
            Some(get_pixel(&self.canvas, x, y))
        } else {
            None
        }
    }

    fn draw(&mut self, x: u32, y: u32, r: u8, g: u8, b: u8)
        requires
            old(self).wf(),
        ensures
            final(self).wf(),
            final(self).pixels() == draw_at(old(self).pixels(), x as int, y as int, (r, g, b, 255u8)),
            final(self).width() == old(self).width(),
            final(self).height() == old(self).height(),
            final(self).pending() == old(self).pending(),
    {
        if x < self.width && y < self.height {
            put_pixel(&mut self.canvas, x, y, (r, g, b, 255));
            assert(self.pixels().dom() =~= old(self).pixels().dom());
        }
    }

    fn erase(&mut self, x: u32, y: u32)
        requires
            old(self).wf(),
        ensures
            final(self).wf(),
            final(self).pixels() == erase_at(old(self).pixels(), x as int, y as int),
            final(self).width() == old(self).width(),
            final(self).height() == old(self).height(),
            final(self).pending() == old(self).pending(),
    {
        let x_lo: u32 = if x >= 2 { x - 2 } else { 0 };
        let y_lo: u32 = if y >= 1 { y - 1 } else { 0 };
        let x_hi: u32 = if x < self.width && self.width - x > 3 { x + 3 } else { self.width };
        let y_hi: u32 = if y < self.height && self.height - y > 2 { y + 2 } else { self.height };
        let ghost before = self.pixels();
        let mut cx: u32 = x_lo;
        assert(self.pixels() =~= erase_partial(before, x as int, y as int, cx as int, y_lo as int));
        while cx < x_hi
            invariant
                self.wf(),
                x_lo <= cx,
                x_hi <= self.width,
                y_hi <= self.height,
                x_lo == if x >= 2 { x - 2 } else { 0 },
                y_lo == if y >= 1 { y - 1 } else { 0 },
                x_hi == if x + 3 < self.width { x + 3 } else { self.width as int },
                y_hi == if y + 2 < self.height { y + 2 } else { self.height as int },
                before.dom() == grid(self.width as int, self.height as int),
                self.pixels() == erase_partial(before, x as int, y as int, cx as int, y_lo as int),
                self.width == old(self).width,
                self.height == old(self).height,
                self.queue == old(self).queue,
            decreases x_hi - cx,
        {
            let mut cy: u32 = y_lo;
            while cy < y_hi
                invariant
                    self.wf(),
                    cx < x_hi,
                    x - 2 <= cx <= x + 2,
                    y_lo <= cy,
                    x_hi <= self.width,
                    y_hi <= self.height,
                    y_lo == if y >= 1 { y - 1 } else { 0 },
                    y_hi == if y + 2 < self.height { y + 2 } else { self.height as int },
                    before.dom() == grid(self.width as int, self.height as int),
                    self.pixels() == erase_partial(before, x as int, y as int, cx as int, cy as int),
                    self.width == old(self).width,
                    self.height == old(self).height,
                    self.queue == old(self).queue,
                decreases y_hi - cy,
            {
                put_pixel(&mut self.canvas, cx, cy, (255, 255, 255, 255));
                cy += 1;
                assert(self.pixels() =~= erase_partial(
                    before,
                    x as int,
                    y as int,
                    cx as int,
                    cy as int,
                ));
            }
            cx += 1;
            assert(self.pixels() =~= erase_partial(
                before,
                x as int,
                y as int,
                cx as int,
                y_lo as int,
            ));
        }
        assert(self.pixels() =~= erase_at(before, x as int, y as int));
    }

    fn clear(&mut self)
        requires
            old(self).wf(),
        ensures
            final(self).wf(),
            final(self).pixels() == cleared(old(self).pixels()),
            final(self).width() == old(self).width(),
            final(self).height() == old(self).height(),
            final(self).pending() == old(self).pending(),
    {
        let ghost before = self.pixels();
        let mut cx: u32 = 0;
        assert(self.pixels() =~= clear_partial(before, 0, 0));
        while cx < self.width
            invariant
                self.wf(),
                before.dom() == grid(self.width as int, self.height as int),
                self.pixels() == clear_partial(before, cx as int, 0),
                self.width == old(self).width,
                self.height == old(self).height,
                self.queue == old(self).queue,
            decreases self.width - cx,
        {
            let mut cy: u32 = 0;
            while cy < self.height
                invariant
                    self.wf(),
                    cx < self.width,
                    before.dom() == grid(self.width as int, self.height as int),
                    self.pixels() == clear_partial(before, cx as int, cy as int),
                    self.width == old(self).width,
                    self.height == old(self).height,
                    self.queue == old(self).queue,
                decreases self.height - cy,
            {
                put_pixel(&mut self.canvas, cx, cy, (255, 255, 255, 255));
                cy += 1;
                assert(self.pixels() =~= clear_partial(before, cx as int, cy as int));
            }
            cx += 1;
            assert(self.pixels() =~= clear_partial(before, cx as int, 0));
        }
        assert(self.pixels() =~= cleared(before));
    }
}

impl GameCanvas {
    fn draw_segment(&mut self, x1: u32, y1: u32, x2: u32, y2: u32, r: u8, g: u8, b: u8)
        requires
            old(self).wf(),
        ensures
            final(self).wf(),
            final(self).pixels() == apply(
                old(self).pixels(),
                CanvasOperation::Line(x1, y1, x2, y2, r, g, b),
            ),
            final(self).width() == old(self).width(),
            final(self).height() == old(self).height(),
            final(self).pending() == old(self).pending(),
    {
        let n = line_length(x1, y1, x2, y2);
        let mut i: u32 = 0;
        while i < n
            invariant
                self.wf(),
                i <= n,
                n == line_count(x1 as int, y1 as int, x2 as int, y2 as int),
                self.pixels() == draw_line(
                    old(self).pixels(),
                    x1 as int,
                    y1 as int,
                    x2 as int,
                    y2 as int,
                    (r, g, b, 255u8),
                    i as int,
                ),
                self.width() == old(self).width(),
                self.height() == old(self).height(),
                self.pending() == old(self).pending(),
            decreases n - i,
        {
            let p = line_sample(x1, y1, x2, y2, i);
            self.draw(p.0, p.1, r, g, b);
            i += 1;
        }
    }

    fn erase_segment(&mut self, x1: u32, y1: u32, x2: u32, y2: u32)
        requires
            old(self).wf(),
        ensures
            final(self).wf(),
            final(self).pixels() == apply(
                old(self).pixels(),
                CanvasOperation::EraseLine(x1, y1, x2, y2),
            ),
            final(self).width() == old(self).width(),
            final(self).height() == old(self).height(),
            final(self).pending() == old(self).pending(),
    {
        let n = line_length(x1, y1, x2, y2);
        let mut i: u32 = 0;
        while i < n
            invariant
                self.wf(),
                i <= n,
                n == line_count(x1 as int, y1 as int, x2 as int, y2 as int),
                self.pixels() == erase_line(
                    old(self).pixels(),
                    x1 as int,
                    y1 as int,
                    x2 as int,
                    y2 as int,
                    i as int,
                ),
                self.width() == old(self).width(),
                self.height() == old(self).height(),
                self.pending() == old(self).pending(),
            decreases n - i,
        {
            let p = line_sample(x1, y1, x2, y2, i);
            self.erase(p.0, p.1);
            i += 1;
        }
    }

    /// Applies one operation to the raster.
    pub fn process_operation(&mut self, operation: CanvasOperation)
        requires
            old(self).wf(),
        ensures
            final(self).wf(),
            final(self).pixels() == apply(old(self).pixels(), operation),
            final(self).width() == old(self).width(),
            final(self).height() == old(self).height(),
            final(self).pending() == old(self).pending(),
    {
        match operation {
            CanvasOperation::Pixel(x, y, r, g, b) => {
                self.draw(x, y, r, g, b);
            },
            CanvasOperation::Erase(x, y) => {
                self.erase(x, y);
            },
            CanvasOperation::Clear => {
                self.clear();
            },
            CanvasOperation::Line(x1, y1, x2, y2, r, g, b) => {
                self.draw_segment(x1, y1, x2, y2, r, g, b);
            },
            CanvasOperation::EraseLine(x1, y1, x2, y2) => {
                self.erase_segment(x1, y1, x2, y2);
            },
        }
    }

    /// Puts an operation at the tail of the queue; the raster is not touched.
    pub fn enqueue(&mut self, op: CanvasOperation)
        requires
            old(self).wf(),
        ensures
            final(self).wf(),
            final(self).pending() == old(self).pending().push(op),
            final(self).pixels() == old(self).pixels(),
            final(self).width() == old(self).width(),
            final(self).height() == old(self).height(),
    {
        self.queue.push(op);
    }

    /// The consumer's turn: applies every pending operation, each once, in
    /// the order in which they were enqueued, and leaves the queue empty.
    pub fn process_pending(&mut self)
        requires
            old(self).wf(),
        ensures
            final(self).wf(),
            final(self).pixels() == apply_all(old(self).pixels(), old(self).pending()),
            final(self).pending() == Seq::<CanvasOperation>::empty(),
            final(self).width() == old(self).width(),
            final(self).height() == old(self).height(),
    {
        let ghost all = self.pending();
        let ghost mut done: Seq<CanvasOperation> = Seq::empty();
        while !self.queue.is_empty()
            invariant
                self.wf(),
                all == done + self.pending(),
                all == old(self).pending(),
                self.pixels() == apply_all(old(self).pixels(), done),
                self.width() == old(self).width(),
                self.height() == old(self).height(),
            decreases self.pending().len(),
        {
            let ghost rest = self.pending();
            let op = self.queue.pop();
            self.process_operation(op);
            proof {
                let next = done.push(op);
                assert(next.drop_last() =~= done);
                assert(all =~= next + rest.drop_first());
                done = next;
            }
        }
        assert(all =~= done);
    }
}

/// A pixel drawn at or beyond the raster's width or height leaves every
/// pixel as it was.
pub proof fn lemma_draw_out_of_bounds(pixels: Pixels, width: int, height: int, op: CanvasOperation)
    requires
        pixels.dom() == grid(width, height),
        op matches CanvasOperation::Pixel(x, y, _, _, _) && (x >= width || y >= height),
    ensures
        apply(pixels, op) == pixels,
{
}

/// No operation changes which positions the raster holds.
pub proof fn lemma_apply_keeps_positions(pixels: Pixels, op: CanvasOperation)
    ensures
        apply(pixels, op).dom() == pixels.dom(),
{
    match op {
        CanvasOperation::Line(x1, y1, x2, y2, r, g, b) => {
            lemma_draw_line_keeps_positions(
                pixels,
                x1 as int,
                y1 as int,
                x2 as int,
                y2 as int,
                (r, g, b, 255u8),
                line_count(x1 as int, y1 as int, x2 as int, y2 as int),
            );
        },
        CanvasOperation::EraseLine(x1, y1, x2, y2) => {
            lemma_erase_line_keeps_positions(
                pixels,
                x1 as int,
                y1 as int,
                x2 as int,
                y2 as int,
                line_count(x1 as int, y1 as int, x2 as int, y2 as int),
            );
        },
        CanvasOperation::Pixel(x, y, r, g, b) => {
            assert(apply(pixels, op).dom() =~= pixels.dom());
        },
        CanvasOperation::Erase(x, y) => {
            assert(apply(pixels, op).dom() =~= pixels.dom());
        },
        CanvasOperation::Clear => {
            assert(apply(pixels, op).dom() =~= pixels.dom());
        },
    }
}

proof fn lemma_draw_line_keeps_positions(
    pixels: Pixels,
    x1: int,
    y1: int,
    x2: int,
    y2: int,
    color: Color,
    n: int,
)
    ensures
        draw_line(pixels, x1, y1, x2, y2, color, n).dom() == pixels.dom(),
    decreases n,
{
    if n > 0 {
        lemma_draw_line_keeps_positions(pixels, x1, y1, x2, y2, color, n - 1);
        assert(draw_line(pixels, x1, y1, x2, y2, color, n).dom() =~= pixels.dom());
    }
}

proof fn lemma_erase_line_keeps_positions(pixels: Pixels, x1: int, y1: int, x2: int, y2: int, n: int)
    ensures
        erase_line(pixels, x1, y1, x2, y2, n).dom() == pixels.dom(),
    decreases n,
{
    if n > 0 {
        lemma_erase_line_keeps_positions(pixels, x1, y1, x2, y2, n - 1);
        assert(erase_line(pixels, x1, y1, x2, y2, n).dom() =~= pixels.dom());
    }
}

/// A wipe of the whole canvas hides everything that was applied before it.
pub proof fn lemma_clear_overrides(pixels: Pixels, before: Seq<CanvasOperation>)
    ensures
        apply_all(pixels, before.push(CanvasOperation::Clear)) == cleared(pixels),
{
    let ops = before.push(CanvasOperation::Clear);
    assert(ops.drop_last() =~= before);
    lemma_apply_all_keeps_positions(pixels, before);
    assert(cleared(apply_all(pixels, before)) =~= cleared(pixels));
}

/// No sequence of operations changes which positions the raster holds.
pub proof fn lemma_apply_all_keeps_positions(pixels: Pixels, ops: Seq<CanvasOperation>)
    ensures
        apply_all(pixels, ops).dom() == pixels.dom(),
    decreases ops.len(),
{
    if ops.len() > 0 {
        lemma_apply_all_keeps_positions(pixels, ops.drop_last());
        lemma_apply_keeps_positions(apply_all(pixels, ops.drop_last()), ops.last());
    }
}

} // verus!
