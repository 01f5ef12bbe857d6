//! Turning PNG file bytes into texels ready for upload.

use vstd::prelude::*;

verus! {

/// What png's decoder makes of `bytes`: width, height, samples per pixel and
/// the pixel bytes of the first frame; `None` where it reports an error.
pub uninterp spec fn png_decoded(bytes: Seq<u8>) -> Option<(u32, u32, u32, Seq<u8>)>;

/// Relies on `png::Decoder::read_info`, `png::Reader::info` (width, height and
/// `ColorType::samples`), `png::Reader::output_buffer_size` and
/// `png::Reader::next_frame`: the decoded first frame, or `None` where png
/// reports an error. The decoding depends on the bytes alone.
#[verifier::external_body]
fn decode_png(bytes: &[u8]) -> (r: Option<(u32, u32, u32, Vec<u8>)>)
    ensures
        match r {
            Some((w, h, s, px)) => png_decoded(bytes@) == Some((w, h, s, px@)),
            None => png_decoded(bytes@) is None,
        },
{
    let mut reader = match png::Decoder::new(std::io::Cursor::new(bytes)).read_info() {
        Ok(reader) => reader,
        Err(_) => return None,
    };
    let info = reader.info();
    let (w, h, s) = (info.width, info.height, info.color_type.samples() as u32);
    let mut px = vec![0u8; reader.output_buffer_size()];
    match reader.next_frame(&mut px) {
        Ok(_) => Some((w, h, s, px)),
        Err(_) => None,
    }
}

/// Why PNG bytes give no texture.
#[derive(Clone, Copy, Debug, PartialEq, Eq, Structural)]
pub enum TextureError {
    /// The PNG decoder refused the bytes.
    Decode,
    /// The image has this many samples per pixel; only 3 (RGB) and 4 (RGBA) are taken.
    Channels(u32),
    /// The pixel bytes are not one byte per sample of every pixel.
    Layout,
    /// The texels would not fit in the address space.
    TooLarge,
}

/// An image of `width` by `height` texels, four bytes per texel.
#[derive(Clone, Debug, PartialEq, Eq)]
pub struct Image {
    pub width: u32,
    pub height: u32,
    pub texels: Vec<u8>,
}

/// Each whole RGB triple of `px` as four bytes: blue, green, red and an opaque
/// alpha of 255; trailing bytes too few for a triple are left out.
pub open spec fn bgra_of_rgb(px: Seq<u8>) -> Seq<u8> {
    Seq::new(
        (4 * (px.len() / 3)) as nat,
        |j: int|
            {
                let i = j / 4;
                let c = j % 4;
                if c == 0 {
                    px[3 * i + 2]
                } else if c == 1 {
                    px[3 * i + 1]
                } else if c == 2 {
                    px[3 * i]
                } else {
                    255u8
                }
            },
    )
}

/// Expands RGB pixel bytes to BGRA texels with an opaque alpha.
pub fn expand_rgb(px: &Vec<u8>) -> (r: Vec<u8>)
    requires
        px@.len() / 3 * 4 <= usize::MAX,
    ensures
        r@ == bgra_of_rgb(px@),
{
    let n = px.len() / 3;
    let mut out: Vec<u8> = Vec::with_capacity(4 * n);
    let mut i: usize = 0;
    while i < n
        invariant
            n == px@.len() / 3,
            4 * n <= usize::MAX,
            i <= n,
            out@.len() == 4 * i,
            forall|j: int| 0 <= j < 4 * i ==> #[trigger] out@[j] == bgra_of_rgb(px@)[j],
        decreases n - i,
    {
        let at = 3 * i;
        let (red, green, blue) = (px[at], px[at + 1], px[at + 2]);
        out.push(blue);
        out.push(green);
        out.push(red);
        out.push(255);
        proof {
            assert forall|j: int| 4 * i <= j < 4 * i + 4 implies #[trigger] out@[j] == bgra_of_rgb(
                px@,
            )[j] by {
                assert(j / 4 == i as int);
            }
        }
        i = i + 1;
    }
    assert(out@ =~= bgra_of_rgb(px@));
    out
}

/// The texture that a decoded image of the given size, samples per pixel and
/// pixel bytes gives: four-sample pixels are taken as they are, three-sample
/// pixels are expanded to BGRA with an opaque alpha.
pub open spec fn image_of(w: u32, h: u32, s: u32, px: Seq<u8>) -> Result<
    (u32, u32, Seq<u8>),
    TextureError,
> {
    if s != 3 && s != 4 {
        Err(TextureError::Channels(s))
    } else if px.len() != w * h * s {
        Err(TextureError::Layout)
    } else if s == 4 {
        Ok((w, h, px))
    } else if px.len() / 3 * 4 > usize::MAX {
        Err(TextureError::TooLarge)
    } else {
        Ok((w, h, bgra_of_rgb(px)))
    }
}

/// Whether `r` is the outcome `expected` in values.
pub open spec fn image_matches(
    r: Result<Image, TextureError>,
    expected: Result<(u32, u32, Seq<u8>), TextureError>,
) -> bool {
    match (r, expected) {
        (Ok(img), Ok((w, h, t))) => img.width == w && img.height == h && img.texels@ == t,
        (Err(e), Err(f)) => e == f,
        _ => false,
    }
}

/// The texture of a decoded image of `w` by `h` pixels with `s` samples each.
pub fn image_from_pixels(w: u32, h: u32, s: u32, px: Vec<u8>) -> (r: Result<Image, TextureError>)
    ensures
        image_matches(r, image_of(w, h, s, px@)),
{
    if s != 3 && s != 4 {
        return Err(TextureError::Channels(s));
    }
    assert((w as int) * (h as int) <= 0xffff_ffff_ffff_ffff) by (nonlinear_arith)
        requires
            w <= 0xffff_ffff,
            h <= 0xffff_ffff,
    ;
    let wh: u128 = (w as u128) * (h as u128);
    assert(wh * (s as int) <= 4 * 0xffff_ffff_ffff_ffff) by (nonlinear_arith)
        requires
            wh <= 0xffff_ffff_ffff_ffff,
            s <= 4,
    ;
    let expected: u128 = wh * (s as u128);
    if px.len() as u128 != expected {
        return Err(TextureError::Layout);
    }
    if s == 4 {
        Ok(Image { width: w, height: h, texels: px })
    } else if px.len() / 3 > usize::MAX / 4 {
        Err(TextureError::TooLarge)
    } else {
        Ok(Image { width: w, height: h, texels: expand_rgb(&px) })
    }
}

/// Decodes PNG file bytes into a texture, four bytes per texel.
pub fn create_from_bytes(bytes: &[u8]) -> (r: Result<Image, TextureError>)
    ensures
        match png_decoded(bytes@) {
            None => r == Err::<Image, TextureError>(TextureError::Decode),
            Some((w, h, s, px)) => image_matches(r, image_of(w, h, s, px)),
        },
{
    match decode_png(bytes) {
        None => Err(TextureError::Decode),
        Some((w, h, s, px)) => image_from_pixels(w, h, s, px),
    }
}

} // verus!
