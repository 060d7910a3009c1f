//! Drawing detections onto a raster: each detection gets a one-pixel
//! bounding-box border and a small filled label tag at the box's top-left
//! corner, both clipped to the image. Drawing follows the detection order,
//! so later detections draw on top; the whole operation is a pure function
//! of the raster and the detection sequence.

use vstd::prelude::*;

use crate::image_data::{copy_bytes, detections_view, DecodedImage, Detection, DetectionView,
    ImageView};

verus! {

/// Width, in pixels, of the filled label tag drawn at a box's corner.
pub const TAG_WIDTH: u32 = 24;

/// Height, in pixels, of the filled label tag drawn at a box's corner.
pub const TAG_HEIGHT: u32 = 10;

pub open spec fn min_int(a: int, b: int) -> int {
    if a <= b {
        a
    } else {
        b
    }
}

pub open spec fn box_left(d: DetectionView, w: int) -> int {
    min_int(d.x, w)
}

pub open spec fn box_right(d: DetectionView, w: int) -> int {
    min_int(d.x + d.width, w)
}

pub open spec fn box_top(d: DetectionView, h: int) -> int {
    min_int(d.y, h)
}

pub open spec fn box_bottom(d: DetectionView, h: int) -> int {
    min_int(d.y + d.height, h)
}

/// Pixel (x, y) lies on the one-pixel border of the detection's box,
/// clipped to a w-by-h image.
pub open spec fn on_box_border(d: DetectionView, w: int, h: int, x: int, y: int) -> bool {
    let x0 = box_left(d, w);
    let x1 = box_right(d, w);
    let y0 = box_top(d, h);
    let y1 = box_bottom(d, h);
    &&& x0 <= x < x1
    &&& y0 <= y < y1
    &&& (x == x0 || x == x1 - 1 || y == y0 || y == y1 - 1)
}

/// Pixel (x, y) lies in the filled label/confidence tag anchored at the
/// box's top-left corner, clipped to the image. The tag is drawn only when
/// some part of the box itself is visible.
pub open spec fn in_label_tag(d: DetectionView, w: int, h: int, x: int, y: int) -> bool {
    let x0 = box_left(d, w);
    let y0 = box_top(d, h);
    &&& x0 < box_right(d, w)
    &&& y0 < box_bottom(d, h)
    &&& x0 <= x < min_int(x0 + TAG_WIDTH as int, w)
    &&& y0 <= y < min_int(y0 + TAG_HEIGHT as int, h)
}

/// Pixel (x, y) is painted in the marker colour when this detection is
/// drawn.
pub open spec fn marks_pixel(d: DetectionView, w: int, h: int, x: int, y: int) -> bool {
    on_box_border(d, w, h, x, y) || in_label_tag(d, w, h, x, y)
}

/// The marker colour, channel by channel: a saturated red.
pub open spec fn marker_channel(c: int) -> u8 {
    if c == 0 {
        255u8
    } else {
        32u8
    }
}

/// The x coordinate of the pixel that byte `i` of a w-wide RGB8 buffer
/// belongs to.
pub open spec fn pixel_x(w: int, i: int) -> int {
    (i / 3) % w
}

/// The y coordinate of the pixel that byte `i` of a w-wide RGB8 buffer
/// belongs to.
pub open spec fn pixel_y(w: int, i: int) -> int {
    (i / 3) / w
}

/// Byte `i` of the raster after one detection is drawn on it.
pub open spec fn drawn_byte(v: ImageView, d: DetectionView, i: int) -> u8 {
    if marks_pixel(
        d,
        v.width as int,
        v.height as int,
        pixel_x(v.width as int, i),
        pixel_y(v.width as int, i),
    ) {
        marker_channel(i % 3)
    } else {
        v.pixels[i]
    }
}

/// The raster after one detection is drawn on it.
pub open spec fn draw_detection(v: ImageView, d: DetectionView) -> ImageView {
    ImageView {
        width: v.width,
        height: v.height,
        pixels: Seq::new(v.pixels.len(), |i: int| drawn_byte(v, d, i)),
    }
}

/// The raster after a whole detection sequence is drawn on it, in order:
/// later detections draw on top of earlier ones.
pub open spec fn annotate_spec(v: ImageView, dets: Seq<DetectionView>) -> ImageView
    decreases dets.len(),
{
    if dets.len() == 0 {
        v
    } else {
        draw_detection(annotate_spec(v, dets.drop_last()), dets.last())
    }
}

/// Law: annotating with no detections leaves the pixel content of the
/// raster exactly as it was.
pub proof fn lemma_annotate_no_detections(v: ImageView)
    ensures
        annotate_spec(v, Seq::<DetectionView>::empty()) == v,
{
}

/// Law: annotation is deterministic — the same raster and the same
/// detection sequence always yield the same annotated raster, so two
/// calls on equal inputs produce pixel-identical output.
pub proof fn lemma_annotate_deterministic(
    v1: ImageView,
    dets1: Seq<DetectionView>,
    v2: ImageView,
    dets2: Seq<DetectionView>,
)
    requires
        v1 == v2,
        dets1 == dets2,
    ensures
        annotate_spec(v1, dets1) == annotate_spec(v2, dets2),
{
}

/// Law: annotation never changes the dimensions of the raster, nor the
/// length of its pixel buffer.
pub proof fn lemma_annotate_preserves_dimensions(v: ImageView, dets: Seq<DetectionView>)
    ensures
        annotate_spec(v, dets).width == v.width,
        annotate_spec(v, dets).height == v.height,
        annotate_spec(v, dets).pixels.len() == v.pixels.len(),
    decreases dets.len(),
{
    if dets.len() > 0 {
        lemma_annotate_preserves_dimensions(v, dets.drop_last());
    }
}

/// Whether drawing `d` paints pixel (x, y) of a w-by-h image.
fn marks_pixel_exec(d: &Detection, w: u32, h: u32, x: u64, y: u64) -> (r: bool)
    ensures
        r == marks_pixel(d@, w as int, h as int, x as int, y as int),
{
    let wq: u64 = w as u64;
    let hq: u64 = h as u64;
    let dx: u64 = d.x as u64;
    let dy: u64 = d.y as u64;
    let xr: u64 = dx + (d.width as u64);
    let yb: u64 = dy + (d.height as u64);
    let x0: u64 = if dx <= wq { dx } else { wq };
    let x1: u64 = if xr <= wq { xr } else { wq };
    let y0: u64 = if dy <= hq { dy } else { hq };
    let y1: u64 = if yb <= hq { yb } else { hq };
    let border: bool = x0 <= x && x < x1 && y0 <= y && y < y1 && (x == x0 || x + 1 == x1 || y == y0
        || y + 1 == y1);
    let txr: u64 = x0 + (TAG_WIDTH as u64);
    let tyr: u64 = y0 + (TAG_HEIGHT as u64);
    let tx1: u64 = if txr <= wq { txr } else { wq };
    let ty1: u64 = if tyr <= hq { tyr } else { hq };
    let tag: bool = x0 < x1 && y0 < y1 && x0 <= x && x < tx1 && y0 <= y && y < ty1;
    border || tag
}

/// Draws one detection onto the raster, byte by byte.
fn draw_detection_exec(img: DecodedImage, d: &Detection) -> (r: DecodedImage)
    requires
        img.wf(),
    ensures
        r@ == draw_detection(img@, d@),
        r.wf(),
{
    let w = img.width;
    let h = img.height;
    let ghost v0 = img@;
    let mut px = img.pixels;
    let n = px.len();
    let mut i: usize = 0;
    while i < n
        invariant
            n == px@.len(),
            px@.len() == v0.pixels.len(),
            v0.pixels.len() == 3 * (w as nat) * (h as nat),
            v0.width == w as nat,
            v0.height == h as nat,
            i <= n,
            forall|j: int| 0 <= j < i ==> px@[j] == drawn_byte(v0, d@, j),
            forall|j: int| i <= j < px@.len() ==> px@[j] == v0.pixels[j],
        decreases n - i,
    {
        proof {
            assert(w > 0 && h > 0) by (nonlinear_arith)
                requires
                    (i as int) < 3 * (w as int) * (h as int),
                    0 <= i,
                    0 <= w,
                    0 <= h,
            ;
        }
        let q: usize = i / 3;
        let x: u64 = (q as u64) % (w as u64);
        let y: u64 = (q as u64) / (w as u64);
        if marks_pixel_exec(d, w, h, x, y) {
            let c: usize = i % 3;
            let val: u8 = if c == 0 {
                255
            } else {
                32
            };
            px.set(i, val);
        }
        proof {
            assert(px@[i as int] == drawn_byte(v0, d@, i as int));
        }
        i += 1;
    }
    proof {
        assert(px@ =~= draw_detection(v0, d@).pixels);
    }
    let r = DecodedImage { width: w, height: h, pixels: px };
    proof {
        assert(r@ =~= draw_detection(v0, d@));
        assert(3 * (r.width as nat) * (r.height as nat) == 3 * (w as nat) * (h as nat));
    }
    r
}

/// Produces a visually annotated copy of the raster: a pure, total
/// function of the raster and the detection sequence. With no detections
/// it returns an untouched copy; with several, they are drawn in input
/// order, later ones on top.
pub fn annotate(img: &DecodedImage, dets: &Vec<Detection>) -> (r: DecodedImage)
    requires
        img.wf(),
    ensures
        r@ == annotate_spec(img@, detections_view(dets@)),
        r.wf(),
{
    let mut cur = img.duplicate();
    let ghost dv = detections_view(dets@);
    proof {
        assert(dv.take(0) =~= Seq::<DetectionView>::empty());
    }
    let mut k: usize = 0;
    while k < dets.len()
        invariant
            k <= dets@.len(),
            dv == detections_view(dets@),
            dv.len() == dets@.len(),
            cur@ == annotate_spec(img@, dv.take(k as int)),
            cur.wf(),
        decreases dets@.len() - k,
    {
        cur = draw_detection_exec(cur, &dets[k]);
        proof {
            let t = dv.take(k as int + 1);
            assert(t.drop_last() =~= dv.take(k as int));
            assert(t.last() == dets@[k as int]@);
        }
        k += 1;
    }
    proof {
        assert(dv.take(dets@.len() as int) =~= dv);
    }
    cur
}

} // verus!
