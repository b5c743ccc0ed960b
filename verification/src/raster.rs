use vstd::prelude::*;

verus! {

/// `min(v, bound - 1)`: a coordinate clamped to the last row or column.
pub open spec fn clamp_to_last(v: int, bound: int) -> int {
    if v <= bound - 1 {
        v
    } else {
        bound - 1
    }
}

/// An uploaded picture: RGBA bytes, row after row, `width` pixels a row.
pub struct Image {
    pub data: Vec<u8>,
    pub width: u32,
    pub height: u32,
}

impl Image {
    /// Byte offset of the pixel that `(ix, iy)` reads, after clamping each
    /// coordinate to the last column and row.
    pub open spec fn offset(self, ix: int, iy: int) -> int {
        4 * (clamp_to_last(iy, self.height as int) * self.width + clamp_to_last(ix, self.width as int))
    }

    /// `(ix, iy)` can be read: the picture has a row and a column, and the red,
    /// green and blue bytes of the clamped pixel lie in `data`.
    pub open spec fn can_sample(self, ix: int, iy: int) -> bool {
        &&& self.width > 0
        &&& self.height > 0
        &&& self.offset(ix, iy) + 2 < self.data@.len()
    }

    /// The colour of the picture at `(ix, iy)`, each coordinate clamped to the
    /// last column or row. `None` where the picture is empty or its bytes end
    /// before that pixel's blue byte.
    pub fn sample(&self, ix: usize, iy: usize) -> (rgb: Option<(u8, u8, u8)>)
        ensures
            rgb is Some <==> self.can_sample(ix as int, iy as int),
            rgb matches Some(c) ==> c == (
                self.data@[self.offset(ix as int, iy as int)],
                self.data@[self.offset(ix as int, iy as int) + 1],
                self.data@[self.offset(ix as int, iy as int) + 2],
            ),
            ix < self.width && iy < self.height ==> (rgb is Some <==> 4 * (iy * self.width + ix) + 2
                < self.data@.len()),
            ix < self.width && iy < self.height && rgb is Some ==> rgb == Some(
                (
                    self.data@[4 * (iy * self.width + ix)],
                    self.data@[4 * (iy * self.width + ix) + 1],
                    self.data@[4 * (iy * self.width + ix) + 2],
                ),
            ),
    {
        let len = self.data.len();
        if self.width == 0 || self.height == 0 {
            return None;
        }
        let w = self.width as usize;
        let h = self.height as usize;
        let cx = if ix <= w - 1 { ix } else { w - 1 };
        let cy = if iy <= h - 1 { iy } else { h - 1 };
        let ghost off = self.offset(ix as int, iy as int);
        assert(off == 4 * (cy * w + cx));
        let row = match cy.checked_mul(w) {
            Some(r) => r,
            None => {
                assert(4 * (cy * w + cx) >= cy * w) by (nonlinear_arith)
                    requires
                        cx >= 0,
                        cy * w >= 0,
                ;
                return None;
            },
        };
        let cell = match row.checked_add(cx) {
            Some(c) => c,
            None => return None,
        };
        let idx = match cell.checked_mul(4) {
            Some(i) => i,
            None => return None,
        };
        if idx < len && len - idx > 2 {
            Some((self.data[idx], self.data[idx + 1], self.data[idx + 2]))
        } else {
            None
        }
    }
}

/// Pixels are stored row after row, four bytes each: pixel `(ix, iy)` of the
/// picture starts at byte `4 * (iy * width + ix)`.
pub proof fn lemma_offset_is_row_major(img: Image, ix: int, iy: int)
    requires
        0 <= ix < img.width,
        0 <= iy < img.height,
    ensures
        img.offset(ix, iy) == 4 * (iy * img.width + ix),
{
}

/// A coordinate past the last column reads the last column, and one past the
/// last row reads the last row.
pub proof fn lemma_offset_clamps(img: Image, ix: int, iy: int)
    requires
        img.width > 0,
        img.height > 0,
        0 <= ix,
        0 <= iy,
    ensures
        ix >= img.width ==> img.offset(ix, iy) == img.offset(img.width - 1, iy),
        iy >= img.height ==> img.offset(ix, iy) == img.offset(ix, img.height - 1),
        ix < img.width && iy >= img.height ==> img.offset(ix, iy) == 4 * ((img.height - 1) * img.width + ix),
        ix >= img.width && iy < img.height ==> img.offset(ix, iy) == 4 * (iy * img.width + img.width - 1),
{
}

/// An off-screen RGBA raster of `width * height` pixels, row after row.
pub struct PixelBuffer {
    width: usize,
    height: usize,
    data: Vec<u8>,
}

impl View for PixelBuffer {
    type V = Seq<u8>;

    closed spec fn view(&self) -> Seq<u8> {
        self.data@
    }
}

/// The four bytes of pixel `(x, y)` in a raster `w` pixels wide.
pub open spec fn pixel_at(bytes: Seq<u8>, w: int, x: int, y: int) -> (u8, u8, u8, u8) {
    let i = 4 * (y * w + x);
    (bytes[i], bytes[i + 1], bytes[i + 2], bytes[i + 3])
}

/// The bytes of a `w` by `h` raster after pixel `(x, y)` is set to the opaque
/// colour `c`; a point off the raster leaves them as they were.
pub open spec fn plotted(bytes: Seq<u8>, w: int, h: int, x: int, y: int, c: (u8, u8, u8)) -> Seq<u8> {
    if 0 <= x < w && 0 <= y < h {
        let i = 4 * (y * w + x);
        bytes.update(i, c.0).update(i + 1, c.1).update(i + 2, c.2).update(i + 3, 255u8)
    } else {
        bytes
    }
}

/// The bytes after each point `(x, y, colour)` of `pts` is plotted in turn.
pub open spec fn plotted_all(bytes: Seq<u8>, w: int, h: int, pts: Seq<(isize, isize, (u8, u8, u8))>) -> Seq<u8>
    decreases pts.len(),
{
    if pts.len() == 0 {
        bytes
    } else {
        let p = pts.last();
        plotted(plotted_all(bytes, w, h, pts.drop_last()), w, h, p.0 as int, p.1 as int, p.2)
    }
}

/// The point `p` falls on pixel `(x, y)`.
pub open spec fn hits(p: (isize, isize, (u8, u8, u8)), x: int, y: int) -> bool {
    p.0 as int == x && p.1 as int == y
}

impl PixelBuffer {
    /// The raster holds four bytes for each of its pixels. Every raster that
    /// `new` makes has it, and `clear` and `plot` keep it.
    pub closed spec fn wf(self) -> bool {
        self.data@.len() == 4 * self.width * self.height
    }

    pub closed spec fn spec_width(self) -> int {
        self.width as int
    }

    pub closed spec fn spec_height(self) -> int {
        self.height as int
    }

    /// A transparent black raster of `width * height` pixels.
    pub fn new(width: usize, height: usize) -> (buf: PixelBuffer)
        requires
            4 * width * height <= usize::MAX,
        ensures
            buf.wf(),
            buf.spec_width() == width,
            buf.spec_height() == height,
            buf@.len() == 4 * width * height,
            forall|i: int| 0 <= i < buf@.len() ==> buf@[i] == 0u8,
    {
        assert(4 * width * height == (width * height) * 4) by (nonlinear_arith);
        let len = width * height * 4;
        let data: Vec<u8> = vec![0u8; len];
        PixelBuffer { width, height, data }
    }

    /// The raster's width; the raster holds four bytes for each of its pixels.
    pub fn width(&self) -> (w: usize)
        ensures
            w == self.spec_width(),
    {
        self.width
    }

    pub fn height(&self) -> (h: usize)
        ensures
            h == self.spec_height(),
    {
        self.height
    }

    /// The raw RGBA bytes.
    pub fn bytes(&self) -> (b: &[u8])
        ensures
            b@ == self@,
    {
        self.data.as_slice()
    }

    /// A well-formed raster holds four bytes for each of its pixels.
    pub proof fn lemma_len(self)
        requires
            self.wf(),
        ensures
            self@.len() == 4 * self.spec_width() * self.spec_height(),
    {
    }

    /// Makes every byte zero: the raster is transparent black again.
    pub fn clear(&mut self)
        requires
            old(self).wf(),
        ensures
            final(self).wf(),
            final(self).spec_width() == old(self).spec_width(),
            final(self).spec_height() == old(self).spec_height(),
            final(self)@.len() == old(self)@.len(),
            forall|i: int| 0 <= i < final(self)@.len() ==> final(self)@[i] == 0u8,
    {
        let len = self.data.len();
        let mut i: usize = 0;
        while i < len
            invariant
                len == self.data@.len(),
                self.width == old(self).width,
                self.height == old(self).height,
                len == 4 * self.width * self.height,
                i <= len,
                forall|j: int| 0 <= j < i ==> self.data@[j] == 0u8,
            decreases len - i,
        {
            self.data.set(i, 0);
            i = i + 1;
        }
    }

    /// Writes the opaque colour `color` at pixel `(x, y)` when that pixel lies
    /// on the raster; a point off the raster changes nothing.
    pub fn plot(&mut self, x: isize, y: isize, color: (u8, u8, u8))
        requires
            old(self).wf(),
        ensures
            final(self).wf(),
            final(self).spec_width() == old(self).spec_width(),
            final(self).spec_height() == old(self).spec_height(),
            final(self)@ == plotted(
                old(self)@,
                old(self).spec_width(),
                old(self).spec_height(),
                x as int,
                y as int,
                color,
            ),
    {
        let len = self.data.len();
        if x >= 0 && (x as usize) < self.width && y >= 0 && (y as usize) < self.height {
            let xu = x as usize;
            let yu = y as usize;
            let w = self.width;
            let h = self.height;
            assert(4 * (yu * w + xu) + 3 < 4 * w * h) by (nonlinear_arith)
                requires
                    xu < w,
                    yu < h,
            ;
            assert(yu * w <= yu * w + xu) by (nonlinear_arith)
                requires
                    xu >= 0,
                    yu * w >= 0,
            ;
            let i = (yu * w + xu) * 4;
            self.data.set(i, color.0);
            self.data.set(i + 1, color.1);
            self.data.set(i + 2, color.2);
            self.data.set(i + 3, 255);
        }
    }

    /// Plots every point `(x, y, colour)` of `points`, in order; points off the
    /// raster are skipped.
    pub fn plot_all(&mut self, points: &[(isize, isize, (u8, u8, u8))])
        requires
            old(self).wf(),
        ensures
            final(self).wf(),
            final(self).spec_width() == old(self).spec_width(),
            final(self).spec_height() == old(self).spec_height(),
            final(self)@ == plotted_all(old(self)@, old(self).spec_width(), old(self).spec_height(), points@),
    {
        let mut i: usize = 0;
        while i < points.len()
            invariant
                self.wf(),
                self.spec_width() == old(self).spec_width(),
                self.spec_height() == old(self).spec_height(),
                i <= points@.len(),
                self@ == plotted_all(old(self)@, old(self).spec_width(), old(self).spec_height(), points@.take(i as int)),
            decreases points@.len() - i,
        {
            let (x, y, c) = points[i];
            assert(points@.take(i + 1).drop_last() =~= points@.take(i as int));
            self.plot(x, y, c);
            i = i + 1;
        }
        assert(points@.take(points@.len() as int) =~= points@);
    }
}

/// Plotting a pixel puts that colour, opaque, at the pixel, and leaves every
/// other pixel of the raster as it was.
pub proof fn lemma_plot_touches_one_pixel(
    before: Seq<u8>,
    w: int,
    h: int,
    x: int,
    y: int,
    color: (u8, u8, u8),
    x2: int,
    y2: int,
)
    requires
        before.len() == 4 * w * h,
        0 <= x < w,
        0 <= y < h,
        0 <= x2 < w,
        0 <= y2 < h,
    ensures
        plotted(before, w, h, x, y, color).len() == before.len(),
        pixel_at(plotted(before, w, h, x, y, color), w, x, y) == (color.0, color.1, color.2, 255u8),
        (x2 != x || y2 != y) ==> pixel_at(plotted(before, w, h, x, y, color), w, x2, y2) == pixel_at(
            before,
            w,
            x2,
            y2,
        ),
{
    assert(4 * (y * w + x) + 3 < 4 * w * h) by (nonlinear_arith)
        requires
            0 <= x < w,
            0 <= y < h,
    ;
    assert(4 * (y2 * w + x2) + 3 < 4 * w * h) by (nonlinear_arith)
        requires
            0 <= x2 < w,
            0 <= y2 < h,
    ;
    assert(0 <= y2 * w + x2 && 0 <= y * w + x) by (nonlinear_arith)
        requires
            0 <= x < w,
            0 <= y < h,
            0 <= x2 < w,
            0 <= y2 < h,
    ;
    if x2 != x || y2 != y {
        assert(y2 * w + x2 != y * w + x) by (nonlinear_arith)
            requires
                0 <= x < w,
                0 <= x2 < w,
                x2 != x || y2 != y,
        {
            if y2 == y {
            } else if y2 < y {
                assert(y2 * w + w <= y * w);
            } else {
                assert(y * w + w <= y2 * w);
            }
        }
    }
}

/// After a list of points is plotted, each pixel of the raster holds the
/// colour, opaque, of the last point that fell on it; a pixel that no point
/// fell on is as it was (on a cleared raster: transparent black).
pub proof fn lemma_plot_all_last_point_wins(
    before: Seq<u8>,
    w: int,
    h: int,
    pts: Seq<(isize, isize, (u8, u8, u8))>,
    x: int,
    y: int,
)
    requires
        before.len() == 4 * w * h,
        0 <= x < w,
        0 <= y < h,
    ensures
        plotted_all(before, w, h, pts).len() == before.len(),
        (forall|j: int| 0 <= j < pts.len() ==> !hits(#[trigger] pts[j], x, y)) ==> pixel_at(
            plotted_all(before, w, h, pts),
            w,
            x,
            y,
        ) == pixel_at(before, w, x, y),
        forall|j: int|
            0 <= j < pts.len() && hits(#[trigger] pts[j], x, y) && (forall|k: int|
                j < k < pts.len() ==> !hits(#[trigger] pts[k], x, y)) ==> pixel_at(
                plotted_all(before, w, h, pts),
                w,
                x,
                y,
            ) == (pts[j].2.0, pts[j].2.1, pts[j].2.2, 255u8),
    decreases pts.len(),
{
    if pts.len() > 0 {
        let rest = pts.drop_last();
        let p = pts.last();
        lemma_plot_all_last_point_wins(before, w, h, rest, x, y);
        let mid = plotted_all(before, w, h, rest);
        let px = p.0 as int;
        let py = p.1 as int;
        if 0 <= px < w && 0 <= py < h {
            lemma_plot_touches_one_pixel(mid, w, h, px, py, p.2, x, y);
        }
        assert forall|j: int|
            0 <= j < pts.len() && hits(#[trigger] pts[j], x, y) && (forall|k: int|
                j < k < pts.len() ==> !hits(#[trigger] pts[k], x, y)) implies pixel_at(
                plotted_all(before, w, h, pts),
                w,
                x,
                y,
            ) == (pts[j].2.0, pts[j].2.1, pts[j].2.2, 255u8) by {
            if j < pts.len() - 1 {
                assert(!hits(pts[pts.len() - 1], x, y));
                assert(rest[j] == pts[j]);
                assert forall|k: int| j < k < rest.len() implies !hits(#[trigger] rest[k], x, y) by {
                    assert(rest[k] == pts[k]);
                }
            }
        }
        if forall|j: int| 0 <= j < pts.len() ==> !hits(#[trigger] pts[j], x, y) {
            assert forall|j: int| 0 <= j < rest.len() implies !hits(#[trigger] rest[j], x, y) by {
                assert(rest[j] == pts[j]);
            }
            assert(!hits(pts[pts.len() - 1], x, y));
        }
    }
}

} // verus!
