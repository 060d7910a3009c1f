//! The in-memory raster and detection types that the pipeline works on.

use vstd::prelude::*;

verus! {

/// An RGB8 raster: `pixels` holds three bytes per pixel, row by row.
/// Each invocation owns the rasters it decodes; none is shared.
pub struct DecodedImage {
    pub width: u32,
    pub height: u32,
    pub pixels: Vec<u8>,
}

/// The mathematical content of a [`DecodedImage`].
#[verifier::ext_equal]
pub struct ImageView {
    pub width: nat,
    pub height: nat,
    pub pixels: Seq<u8>,
}

impl ImageView {
    /// A raster is well-formed when its buffer holds exactly three bytes
    /// per pixel.
    pub open spec fn wf(self) -> bool {
        self.pixels.len() == 3 * self.width * self.height
    }
}

impl View for DecodedImage {
    type V = ImageView;

    open spec fn view(&self) -> ImageView {
        ImageView {
            width: self.width as nat,
            height: self.height as nat,
            pixels: self.pixels@,
        }
    }
}

impl DecodedImage {
    pub open spec fn wf(self) -> bool {
        self@.wf()
    }

    /// Builds a raster from its plain parts, if the buffer length matches
    /// the dimensions.
    pub fn new(width: u32, height: u32, pixels: Vec<u8>) -> (r: Option<DecodedImage>)
        ensures
            r matches Some(img) ==> img@ == (ImageView {
                width: width as nat,
                height: height as nat,
                pixels: pixels@,
            }) && img.wf(),
            r is Some <==> pixels@.len() == 3 * width * height,
    {
        proof {
            assert(3 * (width as int) * (height as int) <= 3 * (u32::MAX as int) * (u32::MAX
                as int)) by (nonlinear_arith)
                requires
                    width <= u32::MAX,
                    height <= u32::MAX,
            ;
        }
        let expected: u128 = 3u128 * (width as u128) * (height as u128);
        if (pixels.len() as u128) == expected {
            Some(DecodedImage { width, height, pixels })
        } else {
            None
        }
    }

    /// A fresh raster with the same pixel content: a distinct owned copy,
    /// never an alias of the argument.
    pub fn duplicate(&self) -> (r: DecodedImage)
        ensures
            r@ == self@,
    {
        DecodedImage {
            width: self.width,
            height: self.height,
            pixels: copy_bytes(&self.pixels),
        }
    }
}

/// A fresh byte vector with the same contents.
pub fn copy_bytes(v: &Vec<u8>) -> (r: Vec<u8>)
    ensures
        r@ == v@,
{
    let mut out: Vec<u8> = Vec::new();
    let mut i: usize = 0;
    while i < v.len()
        invariant
            i <= v@.len(),
            out@ == v@.take(i as int),
        decreases v@.len() - i,
    {
        out.push(v[i]);
        proof {
            assert(out@ =~= v@.take(i as int + 1));
        }
        i = i + 1;
    }
    proof {
        assert(v@.take(v@.len() as int) =~= v@);
    }
    out
}

/// One scored bounding box, in image-pixel coordinates. The confidence is
/// carried in thousandths; the handler never re-filters by it and must not
/// fail however the engine reports it.
pub struct Detection {
    pub x: u32,
    pub y: u32,
    pub width: u32,
    pub height: u32,
    pub label: String,
    pub confidence_permille: u32,
}

/// The mathematical content of a [`Detection`].
#[verifier::ext_equal]
pub struct DetectionView {
    pub x: int,
    pub y: int,
    pub width: int,
    pub height: int,
    pub label: Seq<char>,
    pub confidence_permille: int,
}

impl View for Detection {
    type V = DetectionView;

    open spec fn view(&self) -> DetectionView {
        DetectionView {
            x: self.x as int,
            y: self.y as int,
            width: self.width as int,
            height: self.height as int,
            label: self.label@,
            confidence_permille: self.confidence_permille as int,
        }
    }
}

/// The views of a sequence of detections, in the same order.
pub open spec fn detections_view(s: Seq<Detection>) -> Seq<DetectionView> {
    s.map_values(|d: Detection| d@)
}

} // verus!
