//! The presentation surface: the linear RGBA byte buffer that mirrors what is
//! shown on screen, and the compositor operation that fills it from a
//! committed image.

use vstd::prelude::*;
use crate::raster::RgbaImage;

verus! {

/// The presentation surface: a render target of `width * height` pixels whose
/// contents are a linear RGBA byte buffer, four bytes per pixel, row-major.
pub struct Surface {
    width: u32,
    height: u32,
    frame: Vec<u8>,
}

/// The mathematical value of a presentation surface.
#[verifier::ext_equal]
pub ghost struct SurfaceView {
    pub width: nat,
    pub height: nat,
    pub frame: Seq<u8>,
}

impl SurfaceView {
    /// The buffer holds exactly four bytes for every pixel.
    pub open spec fn wf(self) -> bool {
        self.frame.len() == 4 * self.width * self.height
    }
}

impl View for Surface {
    type V = SurfaceView;

    closed spec fn view(&self) -> SurfaceView {
        SurfaceView {
            width: self.width as nat,
            height: self.height as nat,
            frame: self.frame@,
        }
    }
}

impl Surface {
    /// A fresh surface of the given size, cleared to zero bytes.
    pub fn new(width: u32, height: u32) -> (s: Surface)
        requires
            4 * width * height <= usize::MAX,
        ensures
            s@.width == width,
            s@.height == height,
            s@.frame == Seq::new(4 * (width as nat) * (height as nat), |j: int| 0u8),
    {
        proof {
            assert(4 * (width as int) * (height as int) == 4 * ((width as int) * (height
                as int))) by (nonlinear_arith);
            assert((width as int) * (height as int) <= usize::MAX) by (nonlinear_arith)
                requires
                    4 * (width as int) * (height as int) <= usize::MAX,
            ;
        }
        let pixels: usize = (width as usize) * (height as usize);
        let total: usize = 4 * pixels;
        let mut frame: Vec<u8> = Vec::new();
        let mut i: usize = 0;
        while i < total
            invariant
                i <= total,
                frame@.len() == i,
                forall|j: int| 0 <= j < i ==> frame@[j] == 0u8,
            decreases total - i,
        {
            frame.push(0u8);
            i = i + 1;
        }
        Surface { width, height, frame }
    }

    /// Commit an image: resize the surface to the image's dimensions and copy
    /// every pixel's four channel bytes into the buffer, in row-major order,
    /// one-to-one, with no conversion. Prior contents are discarded. An image
    /// with a zero dimension is committed like any other: the buffer simply
    /// becomes empty.
    pub fn commit(&mut self, img: &RgbaImage)
        ensures
            final(self)@.width == img@.width,
            final(self)@.height == img@.height,
            final(self)@.frame == img@.data,
            img@.wf() ==> final(self)@.wf(),
    {
        self.width = img.width;
        self.height = img.height;
        let n = img.data.len();
        let mut frame: Vec<u8> = Vec::new();
        let mut i: usize = 0;
        while i < n
            invariant
                i <= n,
                n == img.data@.len(),
                frame@.len() == i,
                forall|j: int| 0 <= j < i ==> frame@[j] == img.data@[j],
            decreases n - i,
        {
            let b = img.data[i];
            frame.push(b);
            i = i + 1;
        }
        self.frame = frame;
    }

    /// The surface's width in pixels.
    pub fn width(&self) -> (w: u32)
        ensures
            w == self@.width,
    {
        self.width
    }

    /// The surface's height in pixels.
    pub fn height(&self) -> (h: u32)
        ensures
            h == self@.height,
    {
        self.height
    }

    /// The surface's linear RGBA byte buffer.
    pub fn frame(&self) -> (f: &Vec<u8>)
        ensures
            f@ == self@.frame,
    {
        &self.frame
    }
}

} // verus!
