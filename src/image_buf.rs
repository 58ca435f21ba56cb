use vstd::prelude::*;

verus! {

/// An 8-bit RGB pixel buffer of the `image` crate.
#[verifier::external_body]
pub struct Rgb8Buffer {
    buf: image::ImageBuffer<image::Rgb<u8>, Vec<u8>>,
}

/// A 16-bit RGB pixel buffer of the `image` crate.
#[verifier::external_body]
pub struct Rgb16Buffer {
    buf: image::ImageBuffer<image::Rgb<u16>, Vec<u16>>,
}

/// The samples an 8-bit buffer holds, row-major, three per pixel.
pub uninterp spec fn rgb8_samples(b: Rgb8Buffer) -> Seq<u8>;

/// The width and height an 8-bit buffer was made with.
pub uninterp spec fn rgb8_size(b: Rgb8Buffer) -> (nat, nat);

/// The samples a 16-bit buffer holds, row-major, three per pixel.
pub uninterp spec fn rgb16_samples(b: Rgb16Buffer) -> Seq<u16>;

/// The width and height a 16-bit buffer was made with.
pub uninterp spec fn rgb16_size(b: Rgb16Buffer) -> (nat, nat);

/// Position of the first sample of pixel `(x, y)` in a row-major RGB
/// buffer `width` pixels wide.
pub open spec fn sample_base(width: nat, x: nat, y: nat) -> int {
    ((y * width + x) * 3) as int
}

/// The three samples of a pixel inside the image lie inside the buffer.
pub(crate) proof fn lemma_pixel_in_buffer(width: nat, height: nat, x: nat, y: nat)
    requires
        x < width,
        y < height,
    ensures
        0 <= sample_base(width, x, y),
        sample_base(width, x, y) + 2 < 3 * width * height,
{
    assert((y * width + x) * 3 + 2 < 3 * width * height) by (nonlinear_arith)
        requires
            x < width,
            y < height,
    ;
}

/// Relies on image's `ImageBuffer::new`: a zeroed buffer of
/// `3 * width * height` samples. The count is taken in two checked steps,
/// `3 * width` and then that times `height`; it panics when either overflows
/// `usize`.
#[verifier::external_body]
pub(crate) fn rgb8_new(width: u32, height: u32) -> (r: Rgb8Buffer)
    requires
        3 * width <= usize::MAX,
        3 * width * height <= usize::MAX,
    ensures
        rgb8_size(r) == (width as nat, height as nat),
        rgb8_samples(r) == Seq::new((3 * width * height) as nat, |i: int| 0u8),
{
    Rgb8Buffer { buf: image::ImageBuffer::new(width, height) }
}

/// Relies on image's `ImageBuffer::put_pixel`: writes the three samples of
/// pixel `(x, y)` at `(y * width + x) * 3`; it panics outside the buffer.
#[verifier::external_body]
pub(crate) fn rgb8_put(b: &mut Rgb8Buffer, x: u32, y: u32, red: u8, green: u8, blue: u8)
    requires
        x < rgb8_size(*old(b)).0,
        y < rgb8_size(*old(b)).1,
    ensures
        rgb8_size(*final(b)) == rgb8_size(*old(b)),
        rgb8_samples(*final(b)) == rgb8_samples(*old(b)).update(
            sample_base(rgb8_size(*old(b)).0, x as nat, y as nat),
            red,
        ).update(sample_base(rgb8_size(*old(b)).0, x as nat, y as nat) + 1, green).update(
            sample_base(rgb8_size(*old(b)).0, x as nat, y as nat) + 2,
            blue,
        ),
{
    b.buf.put_pixel(x, y, image::Rgb([red, green, blue]))
}

/// Relies on image's `ImageBuffer::into_raw`: the sample container itself.
#[verifier::external_body]
pub(crate) fn rgb8_into_raw(b: Rgb8Buffer) -> (r: Vec<u8>)
    ensures
        r@ == rgb8_samples(b),
{
    b.buf.into_raw()
}

/// Relies on image's `ImageBuffer::from_raw`: `None` unless both checked
/// steps of the sample count, `3 * width` and then `3 * width * height`, fit
/// in `usize` and the container holds at least that many samples; otherwise
/// the buffer keeps the container as it is.
#[verifier::external_body]
pub(crate) fn rgb8_from_raw(width: u32, height: u32, data: Vec<u8>) -> (r: Option<Rgb8Buffer>)
    ensures
        r is Some <==> (3 * width <= usize::MAX && 3 * width * height <= usize::MAX && 3 * width
            * height <= data@.len()),
        r matches Some(b) ==> rgb8_size(b) == (width as nat, height as nat) && rgb8_samples(b)
            == data@,
{
    match image::ImageBuffer::from_raw(width, height, data) {
        Some(buf) => Some(Rgb8Buffer { buf }),
        None => None,
    }
}

/// Relies on image's `ImageBuffer::get_pixel`: the three samples from
/// `(y * width + x) * 3` on; it panics outside the buffer.
#[verifier::external_body]
pub(crate) fn rgb8_get(b: &Rgb8Buffer, x: u32, y: u32) -> (r: (u8, u8, u8))
    requires
        x < rgb8_size(*b).0,
        y < rgb8_size(*b).1,
    ensures
        r.0 == rgb8_samples(*b)[sample_base(rgb8_size(*b).0, x as nat, y as nat)],
        r.1 == rgb8_samples(*b)[sample_base(rgb8_size(*b).0, x as nat, y as nat) + 1],
        r.2 == rgb8_samples(*b)[sample_base(rgb8_size(*b).0, x as nat, y as nat) + 2],
{
    let p = b.buf.get_pixel(x, y);
    (p[0], p[1], p[2])
}

/// Relies on image's `ImageBuffer::new`: a zeroed buffer of
/// `3 * width * height` samples. The count is taken in two checked steps,
/// `3 * width` and then that times `height`; it panics when either overflows
/// `usize`.
#[verifier::external_body]
pub(crate) fn rgb16_new(width: u32, height: u32) -> (r: Rgb16Buffer)
    requires
        3 * width <= usize::MAX,
        3 * width * height <= usize::MAX,
    ensures
        rgb16_size(r) == (width as nat, height as nat),
        rgb16_samples(r) == Seq::new((3 * width * height) as nat, |i: int| 0u16),
{
    Rgb16Buffer { buf: image::ImageBuffer::new(width, height) }
}

/// Relies on image's `ImageBuffer::put_pixel`: writes the three samples of
/// pixel `(x, y)` at `(y * width + x) * 3`; it panics outside the buffer.
#[verifier::external_body]
pub(crate) fn rgb16_put(b: &mut Rgb16Buffer, x: u32, y: u32, red: u16, green: u16, blue: u16)
    requires
        x < rgb16_size(*old(b)).0,
        y < rgb16_size(*old(b)).1,
    ensures
        rgb16_size(*final(b)) == rgb16_size(*old(b)),
        rgb16_samples(*final(b)) == rgb16_samples(*old(b)).update(
            sample_base(rgb16_size(*old(b)).0, x as nat, y as nat),
            red,
        ).update(sample_base(rgb16_size(*old(b)).0, x as nat, y as nat) + 1, green).update(
            sample_base(rgb16_size(*old(b)).0, x as nat, y as nat) + 2,
            blue,
        ),
{
    b.buf.put_pixel(x, y, image::Rgb([red, green, blue]))
}

/// Relies on image's `ImageBuffer::into_raw`: the sample container itself.
#[verifier::external_body]
pub(crate) fn rgb16_into_raw(b: Rgb16Buffer) -> (r: Vec<u16>)
    ensures
        r@ == rgb16_samples(b),
{
    b.buf.into_raw()
}

} // verus!
