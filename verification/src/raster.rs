//! Decoded images: the RGBA pixel grid that the viewer stages and displays,
//! and the decoder that turns raw file bytes into such a grid.

use vstd::prelude::*;

verus! {

/// A decoded image: `width * height` pixels, four bytes per pixel
/// (red, green, blue, alpha), row-major.
pub struct RgbaImage {
    pub width: u32,
    pub height: u32,
    pub data: Vec<u8>,
}

/// The mathematical value of a decoded image.
#[verifier::ext_equal]
pub ghost struct ImageView {
    pub width: nat,
    pub height: nat,
    pub data: Seq<u8>,
}

impl ImageView {
    /// The pixel data holds exactly four bytes for every pixel.
    pub open spec fn wf(self) -> bool {
        self.data.len() == 4 * self.width * self.height
    }

    /// Channel `c` (0 = red, 1 = green, 2 = blue, 3 = alpha) of pixel `i`
    /// in row-major order.
    pub open spec fn channel(self, i: int, c: int) -> u8 {
        self.data[4 * i + c]
    }
}

impl View for RgbaImage {
    type V = ImageView;

    open spec fn view(&self) -> ImageView {
        ImageView { width: self.width as nat, height: self.height as nat, data: self.data@ }
    }
}

/// What the image codec makes of a byte string: `None` when the bytes are not
/// a decodable image, otherwise the width, height and raw RGBA8 buffer of the
/// decoded picture. The decode is a function of the bytes alone.
pub uninterp spec fn rgba_decode(bytes: Seq<u8>) -> Option<(nat, nat, Seq<u8>)>;

/// The decode result as an image value.
pub open spec fn decode_view(bytes: Seq<u8>) -> Option<ImageView> {
    match rgba_decode(bytes) {
        Some((w, h, d)) => Some(ImageView { width: w, height: h, data: d }),
        None => None,
    }
}

/// Relies on `image::load_from_memory` and `image::DynamicImage::into_rgba8`:
/// a successful decode yields a row-major RGBA8 buffer, and that buffer holds
/// exactly four bytes per pixel (the codec sizes every decoded buffer to
/// `width * height * bytes_per_pixel`).
#[verifier::external_body]
fn decode_rgba_bytes(bytes: &Vec<u8>) -> (r: Option<(u32, u32, Vec<u8>)>)
    ensures
        r matches Some((w, h, d)) ==> rgba_decode(bytes@) == Some(
            ((w as nat), (h as nat), d@),
        ) && d@.len() == 4 * w * h,
        r is None ==> rgba_decode(bytes@) is None,
{
    match image::load_from_memory(bytes.as_slice()) {
        Ok(decoded) => {
            let rgba = decoded.into_rgba8();
            let width = rgba.width();
            let height = rgba.height();
            Some((width, height, rgba.into_raw()))
        },
        Err(_) => None,
    }
}

/// Decode raw file bytes into an image, `None` when they are not a decodable
/// image.
pub fn decode_rgba(bytes: &Vec<u8>) -> (r: Option<RgbaImage>)
    ensures
        r matches Some(img) ==> decode_view(bytes@) == Some(img@) && img@.wf(),
        r is None ==> decode_view(bytes@) is None,
{
    match decode_rgba_bytes(bytes) {
        Some((width, height, data)) => Some(RgbaImage { width, height, data }),
        None => None,
    }
}

} // verus!
