use crate::color::{ppm_header, ppm_header_text, ppm_pixel_line, write_color_ppm};
use crate::image_buf::{
    rgb16_into_raw, rgb16_new, rgb16_put, rgb16_samples, rgb16_size, rgb8_into_raw, rgb8_new,
    rgb8_put, rgb8_samples, rgb8_size, sample_base, lemma_pixel_in_buffer, Rgb16Buffer, Rgb8Buffer,
};
use vstd::prelude::*;

verus! {

/// The kind of file a picture is written to.
///
/// `Ppm`: plain-text PPM with 8-bit levels, produced strictly in pixel order;
/// `Rgb8`: an 8-bit-per-channel image kept in memory until saved;
/// `Rgb16`: the same with 16 bits per channel.
#[derive(Debug, Clone, Copy, PartialEq, Eq, Structural)]
pub enum PictureType {
    Ppm,
    Rgb8,
    Rgb16,
}

/// Why a picture refused a request.
#[derive(Debug, Clone, Copy, PartialEq, Eq, Structural)]
pub enum PictureErr {
    /// Width, height or samples per pixel is zero.
    InvalidSize,
    /// A row does not hold exactly `width` pixels.
    RowLength,
    /// A row index at or past the height.
    RowBeyondHeight,
    /// A column index at or past the width.
    ColumnBeyondWidth,
    /// A PPM picture was asked for a pixel other than the next one in order.
    PpmOutOfOrder,
}

/// The red, green and blue levels of one pixel.
pub type Levels = (u16, u16, u16);

/// The largest level a picture of this kind stores.
pub open spec fn max_level_of(kind: PictureType) -> nat {
    match kind {
        PictureType::Rgb16 => 65535,
        _ => 255,
    }
}

pub open spec fn levels_fit(kind: PictureType, p: Levels) -> bool {
    &&& p.0 <= max_level_of(kind)
    &&& p.1 <= max_level_of(kind)
    &&& p.2 <= max_level_of(kind)
}

/// PPM text of a run of pixels, one line each.
pub open spec fn ppm_lines(s: Seq<Levels>) -> Seq<u8>
    decreases s.len(),
{
    if s.len() == 0 {
        seq![]
    } else {
        ppm_lines(s.drop_last()) + ppm_pixel_line(
            s.last().0 as nat,
            s.last().1 as nat,
            s.last().2 as nat,
        )
    }
}

/// `data` with pixel `(x, y)` of a `width`-wide RGB buffer set to `p`.
pub open spec fn put_levels(data: Seq<int>, width: nat, x: nat, y: nat, p: Levels) -> Seq<int> {
    data.update(sample_base(width, x, y), p.0 as int).update(
        sample_base(width, x, y) + 1,
        p.1 as int,
    ).update(sample_base(width, x, y) + 2, p.2 as int)
}

/// `data` with the first `s.len()` pixels of row `y` set to `s`, left to right.
pub open spec fn put_row(data: Seq<int>, width: nat, y: nat, s: Seq<Levels>) -> Seq<int>
    decreases s.len(),
{
    if s.len() == 0 {
        data
    } else {
        put_levels(
            put_row(data, width, y, s.drop_last()),
            width,
            (s.len() - 1) as nat,
            y,
            s.last(),
        )
    }
}

pub open spec fn widen8(s: Seq<u8>) -> Seq<int> {
    s.map_values(|v: u8| v as int)
}

pub open spec fn widen16(s: Seq<u16>) -> Seq<int> {
    s.map_values(|v: u16| v as int)
}

/// What a picture is, abstractly.
pub struct PictureView {
    pub width: nat,
    pub height: nat,
    pub samples: nat,
    pub kind: PictureType,
    /// Next column a PPM picture expects (0 for the other kinds).
    pub x: nat,
    /// Next row a PPM picture expects (0 for the other kinds).
    pub y: nat,
    /// PPM text produced and not yet taken (empty for the other kinds).
    pub ppm_out: Seq<u8>,
    /// Row-major samples of an in-memory image (empty for PPM).
    pub data: Seq<int>,
}

/// A picture just made.
pub open spec fn fresh_view(width: nat, height: nat, samples: nat, kind: PictureType) -> PictureView {
    PictureView {
        width,
        height,
        samples,
        kind,
        x: 0,
        y: 0,
        ppm_out: if kind == PictureType::Ppm {
            ppm_header_text(width, height)
        } else {
            seq![]
        },
        data: if kind == PictureType::Ppm {
            seq![]
        } else {
            Seq::new(3 * width * height, |i: int| 0int)
        },
    }
}

/// The picture after pixel `p` went to `(col, row)`.
pub open spec fn pixel_written(v: PictureView, p: Levels, row: nat, col: nat) -> PictureView {
    if v.kind == PictureType::Ppm {
        PictureView {
            x: if col + 1 == v.width {
                0
            } else {
                col + 1
            },
            y: if col + 1 == v.width {
                row + 1
            } else {
                row
            },
            ppm_out: v.ppm_out + ppm_pixel_line(p.0 as nat, p.1 as nat, p.2 as nat),
            ..v
        }
    } else {
        PictureView { data: put_levels(v.data, v.width, col, row, p), ..v }
    }
}

/// The picture after the whole of row `row` went in as `s`.
pub open spec fn row_written(v: PictureView, s: Seq<Levels>, row: nat) -> PictureView {
    if v.kind == PictureType::Ppm {
        PictureView { x: 0, y: row + 1, ppm_out: v.ppm_out + ppm_lines(s), ..v }
    } else {
        PictureView { data: put_row(v.data, v.width, row, s), ..v }
    }
}

enum PictureBuf {
    Ppm { x: u32, y: u32, pending: Vec<u8> },
    Rgb8 { buf8: Rgb8Buffer },
    Rgb16 { buf16: Rgb16Buffer },
}

/// An output picture: its size, its samples per pixel and its pixels so far.
pub struct Picture {
    width: u32,
    height: u32,
    samples: u32,
    img: PictureBuf,
}

/// What a finished picture hands over to be stored.
pub enum PictureData {
    /// PPM text not yet taken.
    Ppm { bytes: Vec<u8> },
    /// Row-major 8-bit samples.
    Rgb8 { width: u32, height: u32, data: Vec<u8> },
    /// Row-major 16-bit samples.
    Rgb16 { width: u32, height: u32, data: Vec<u16> },
}

impl View for Picture {
    type V = PictureView;

    closed spec fn view(&self) -> PictureView {
        let (kind, x, y, ppm_out, data) = match self.img {
            PictureBuf::Ppm { x, y, pending } => (
                PictureType::Ppm,
                x as nat,
                y as nat,
                pending@,
                Seq::<int>::empty(),
            ),
            PictureBuf::Rgb8 { buf8: buf } => (
                PictureType::Rgb8,
                0nat,
                0nat,
                Seq::<u8>::empty(),
                widen8(rgb8_samples(buf)),
            ),
            PictureBuf::Rgb16 { buf16: buf } => (
                PictureType::Rgb16,
                0nat,
                0nat,
                Seq::<u8>::empty(),
                widen16(rgb16_samples(buf)),
            ),
        };
        PictureView {
            width: self.width as nat,
            height: self.height as nat,
            samples: self.samples as nat,
            kind,
            x,
            y,
            ppm_out,
            data,
        }
    }
}

/// With at least one row, the first step of the sample count is no larger
/// than the whole count.
proof fn lemma_first_step_within(width: nat, height: nat)
    requires
        height >= 1,
    ensures
        3 * width <= 3 * width * height,
{
    assert(3 * width <= 3 * width * height) by (nonlinear_arith)
        requires
            height >= 1,
    ;
}

proof fn lemma_widen8_update(s: Seq<u8>, i: int, v: u8)
    requires
        0 <= i < s.len(),
    ensures
        widen8(s.update(i, v)) == widen8(s).update(i, v as int),
{
    assert(widen8(s.update(i, v)) =~= widen8(s).update(i, v as int));
}

proof fn lemma_widen16_update(s: Seq<u16>, i: int, v: u16)
    requires
        0 <= i < s.len(),
    ensures
        widen16(s.update(i, v)) == widen16(s).update(i, v as int),
{
    assert(widen16(s.update(i, v)) =~= widen16(s).update(i, v as int));
}

/// Appends the PPM lines of `row`.
fn append_ppm_row(pending: &mut Vec<u8>, row: &Vec<Levels>)
    ensures
        final(pending)@ == old(pending)@ + ppm_lines(row@),
{
    let mut i: usize = 0;
    while i < row.len()
        invariant
            i <= row@.len(),
            pending@ == old(pending)@ + ppm_lines(row@.subrange(0, i as int)),
        decreases row@.len() - i,
    {
        let p = row[i];
        write_color_ppm(pending, p.0 as u32, p.1 as u32, p.2 as u32);
        assert(row@.subrange(0, i + 1).drop_last() =~= row@.subrange(0, i as int));
        i = i + 1;
    }
    assert(row@.subrange(0, row@.len() as int) =~= row@);
}

/// Writes `row` into row `y` of an 8-bit buffer.
fn put_row8(buf: &mut Rgb8Buffer, row: &Vec<Levels>, y: u32)
    requires
        row@.len() == rgb8_size(*old(buf)).0,
        y < rgb8_size(*old(buf)).1,
        rgb8_size(*old(buf)).0 <= u32::MAX,
        rgb8_samples(*old(buf)).len() == 3 * rgb8_size(*old(buf)).0 * rgb8_size(*old(buf)).1,
        forall|i: int| 0 <= i < row@.len() ==> levels_fit(PictureType::Rgb8, #[trigger] row@[i]),
    ensures
        rgb8_size(*final(buf)) == rgb8_size(*old(buf)),
        rgb8_samples(*final(buf)).len() == rgb8_samples(*old(buf)).len(),
        widen8(rgb8_samples(*final(buf))) == put_row(
            widen8(rgb8_samples(*old(buf))),
            rgb8_size(*old(buf)).0,
            y as nat,
            row@,
        ),
{
    let ghost w = rgb8_size(*old(buf)).0;
    let ghost h = rgb8_size(*old(buf)).1;
    let mut i: usize = 0;
    while i < row.len()
        invariant
            i <= row@.len() == w <= u32::MAX,
            y < h,
            rgb8_size(*buf) == (w, h),
            rgb8_samples(*buf).len() == 3 * w * h,
            forall|k: int| 0 <= k < row@.len() ==> levels_fit(PictureType::Rgb8, #[trigger] row@[k]),
            widen8(rgb8_samples(*buf)) == put_row(
                widen8(rgb8_samples(*old(buf))),
                w,
                y as nat,
                row@.subrange(0, i as int),
            ),
        decreases row@.len() - i,
    {
        let p = row[i];
        assert(levels_fit(PictureType::Rgb8, row@[i as int]));
        let ghost s0 = rgb8_samples(*buf);
        let ghost b = sample_base(w, i as nat, y as nat);
        proof {
            lemma_pixel_in_buffer(w, h, i as nat, y as nat);
        }
        rgb8_put(buf, i as u32, y, p.0 as u8, p.1 as u8, p.2 as u8);
        proof {
            lemma_widen8_update(s0, b, p.0 as u8);
            lemma_widen8_update(s0.update(b, p.0 as u8), b + 1, p.1 as u8);
            lemma_widen8_update(s0.update(b, p.0 as u8).update(b + 1, p.1 as u8), b + 2, p.2 as u8);
            assert(row@.subrange(0, i + 1).drop_last() =~= row@.subrange(0, i as int));
            assert(row@.subrange(0, i + 1).last() == row@[i as int]);
            assert(put_row(widen8(rgb8_samples(*old(buf))), w, y as nat, row@.subrange(0, i + 1)) == put_levels(
                put_row(widen8(rgb8_samples(*old(buf))), w, y as nat, row@.subrange(0, i as int)),
                w,
                i as nat,
                y as nat,
                row@[i as int],
            ));
        }
        i = i + 1;
    }
    assert(row@.subrange(0, row@.len() as int) =~= row@);
}

/// Writes `row` into row `y` of a 16-bit buffer.
fn put_row16(buf: &mut Rgb16Buffer, row: &Vec<Levels>, y: u32)
    requires
        row@.len() == rgb16_size(*old(buf)).0,
        y < rgb16_size(*old(buf)).1,
        rgb16_size(*old(buf)).0 <= u32::MAX,
        rgb16_samples(*old(buf)).len() == 3 * rgb16_size(*old(buf)).0 * rgb16_size(*old(buf)).1,
    ensures
        rgb16_size(*final(buf)) == rgb16_size(*old(buf)),
        rgb16_samples(*final(buf)).len() == rgb16_samples(*old(buf)).len(),
        widen16(rgb16_samples(*final(buf))) == put_row(
            widen16(rgb16_samples(*old(buf))),
            rgb16_size(*old(buf)).0,
            y as nat,
            row@,
        ),
{
    let ghost w = rgb16_size(*old(buf)).0;
    let ghost h = rgb16_size(*old(buf)).1;
    let mut i: usize = 0;
    while i < row.len()
        invariant
            i <= row@.len() == w <= u32::MAX,
            y < h,
            rgb16_size(*buf) == (w, h),
            rgb16_samples(*buf).len() == 3 * w * h,
            widen16(rgb16_samples(*buf)) == put_row(
                widen16(rgb16_samples(*old(buf))),
                w,
                y as nat,
                row@.subrange(0, i as int),
            ),
        decreases row@.len() - i,
    {
        let p = row[i];
        let ghost s0 = rgb16_samples(*buf);
        let ghost b = sample_base(w, i as nat, y as nat);
        proof {
            lemma_pixel_in_buffer(w, h, i as nat, y as nat);
        }
        rgb16_put(buf, i as u32, y, p.0, p.1, p.2);
        proof {
            lemma_widen16_update(s0, b, p.0);
            lemma_widen16_update(s0.update(b, p.0), b + 1, p.1);
            lemma_widen16_update(s0.update(b, p.0).update(b + 1, p.1), b + 2, p.2);
            assert(row@.subrange(0, i + 1).drop_last() =~= row@.subrange(0, i as int));
            assert(row@.subrange(0, i + 1).last() == row@[i as int]);
            assert(put_row(widen16(rgb16_samples(*old(buf))), w, y as nat, row@.subrange(0, i + 1)) == put_levels(
                put_row(widen16(rgb16_samples(*old(buf))), w, y as nat, row@.subrange(0, i as int)),
                w,
                i as nat,
                y as nat,
                row@[i as int],
            ));
        }
        i = i + 1;
    }
    assert(row@.subrange(0, row@.len() as int) =~= row@);
}

impl Picture {
    /// The buffer matches the size, and a PPM cursor stays within the image
    /// (it rests at the start of row `height` once every pixel is written).
    pub closed spec fn wf(&self) -> bool {
        &&& self.width > 0
        &&& self.height > 0
        &&& self.samples > 0
        &&& match self.img {
            PictureBuf::Ppm { x, y, .. } => x < self.width && y <= self.height && (y == self.height
                ==> x == 0),
            PictureBuf::Rgb8 { buf8: buf } => {
                &&& rgb8_size(buf) == (self.width as nat, self.height as nat)
                &&& rgb8_samples(buf).len() == 3 * self.width * self.height
            },
            PictureBuf::Rgb16 { buf16: buf } => {
                &&& rgb16_size(buf) == (self.width as nat, self.height as nat)
                &&& rgb16_samples(buf).len() == 3 * self.width * self.height
            },
        }
    }

    /// A picture of `width` by `height` pixels, each the sum of
    /// `samples_per_pixel` samples. A PPM picture starts with its header as
    /// pending output; the in-memory kinds start all black.
    pub fn new(width: u32, height: u32, samples_per_pixel: u32, outtype: PictureType) -> (r: Result<
        Picture,
        PictureErr,
    >)
        requires
            outtype != PictureType::Ppm ==> 3 * width * height <= usize::MAX,
        ensures
            r is Err <==> (width == 0 || height == 0 || samples_per_pixel == 0),
            r matches Err(e) ==> e == PictureErr::InvalidSize,
            r matches Ok(p) ==> p.wf() && p@ == fresh_view(
                width as nat,
                height as nat,
                samples_per_pixel as nat,
                outtype,
            ),
    {
        if width == 0 || height == 0 || samples_per_pixel == 0 {
            return Err(PictureErr::InvalidSize);
        }
        proof {
            lemma_first_step_within(width as nat, height as nat);
        }
        let img = match outtype {
            PictureType::Ppm => PictureBuf::Ppm { x: 0, y: 0, pending: ppm_header(width, height) },
            PictureType::Rgb8 => {
                let buf = rgb8_new(width, height);
                assert(widen8(rgb8_samples(buf)) =~= Seq::new(
                    3 * (width as nat) * (height as nat),
                    |i: int| 0int,
                ));
                PictureBuf::Rgb8 { buf8: buf }
            },
            PictureType::Rgb16 => {
                let buf = rgb16_new(width, height);
                assert(widen16(rgb16_samples(buf)) =~= Seq::new(
                    3 * (width as nat) * (height as nat),
                    |i: int| 0int,
                ));
                PictureBuf::Rgb16 { buf16: buf }
            },
        };
        Ok(Picture { width, height, samples: samples_per_pixel, img })
    }

    /// Writes a full row of pixels.
    ///
    /// Refused, in this order, when the row is not exactly `width` long, when
    /// `row_num` is past the last row, and, for PPM, when the picture does not
    /// stand at the start of row `row_num`. A PPM picture then moves to the
    /// start of the next row.
    pub fn write_row(&mut self, row: &Vec<Levels>, row_num: u32) -> (r: Result<(), PictureErr>)
        requires
            old(self).wf(),
            forall|i: int| 0 <= i < row@.len() ==> levels_fit(old(self)@.kind, #[trigger] row@[i]),
        ensures
            final(self).wf(),
            row@.len() != old(self)@.width ==> r == Err::<(), PictureErr>(PictureErr::RowLength),
            row@.len() == old(self)@.width && row_num >= old(self)@.height ==> r == Err::<
                (),
                PictureErr,
            >(PictureErr::RowBeyondHeight),
            row@.len() == old(self)@.width && row_num < old(self)@.height && old(self)@.kind
                == PictureType::Ppm && (old(self)@.x != 0 || old(self)@.y != row_num) ==> r
                == Err::<(), PictureErr>(PictureErr::PpmOutOfOrder),
            r is Ok <==> (row@.len() == old(self)@.width && row_num < old(self)@.height && (old(
                self,
            )@.kind == PictureType::Ppm ==> old(self)@.x == 0 && old(self)@.y == row_num)),
            r is Ok ==> final(self)@ == row_written(old(self)@, row@, row_num as nat),
            r is Err ==> final(self)@ == old(self)@,
    {
        if row.len() != self.width as usize {
            return Err(PictureErr::RowLength);
        }
        if row_num >= self.height {
            return Err(PictureErr::RowBeyondHeight);
        }
        match &mut self.img {
            PictureBuf::Ppm { x, y, pending } => {
                if *x != 0 || *y != row_num {
                    return Err(PictureErr::PpmOutOfOrder);
                }
                append_ppm_row(pending, row);
                *y = row_num + 1;
            },
            PictureBuf::Rgb8 { buf8: buf } => {
                put_row8(buf, row, row_num);
            },
            PictureBuf::Rgb16 { buf16: buf } => {
                put_row16(buf, row, row_num);
            },
        }
        Ok(())
    }

    /// Writes one pixel at `(col, row)`.
    ///
    /// Refused, in this order, when `col` is past the last column, when `row`
    /// is past the last row, and, for PPM, when `(col, row)` is not the next
    /// pixel in order. A PPM picture then moves one pixel on, to the start of
    /// the next row after the last column.
    pub fn write_pixel(&mut self, pixel: Levels, row: u32, col: u32) -> (r: Result<(), PictureErr>)
        requires
            old(self).wf(),
            levels_fit(old(self)@.kind, pixel),
        ensures
            final(self).wf(),
            col >= old(self)@.width ==> r == Err::<(), PictureErr>(PictureErr::ColumnBeyondWidth),
            col < old(self)@.width && row >= old(self)@.height ==> r == Err::<(), PictureErr>(
                PictureErr::RowBeyondHeight,
            ),
            col < old(self)@.width && row < old(self)@.height && old(self)@.kind
                == PictureType::Ppm && (old(self)@.x != col || old(self)@.y != row) ==> r
                == Err::<(), PictureErr>(PictureErr::PpmOutOfOrder),
            r is Ok <==> (col < old(self)@.width && row < old(self)@.height && (old(self)@.kind
                == PictureType::Ppm ==> old(self)@.x == col && old(self)@.y == row)),
            r is Ok ==> final(self)@ == pixel_written(old(self)@, pixel, row as nat, col as nat),
            r is Err ==> final(self)@ == old(self)@,
    {
        if col >= self.width {
            return Err(PictureErr::ColumnBeyondWidth);
        }
        if row >= self.height {
            return Err(PictureErr::RowBeyondHeight);
        }
        let width = self.width;
        let ghost h = self.height as nat;
        match &mut self.img {
            PictureBuf::Ppm { x, y, pending } => {
                if *x != col || *y != row {
                    return Err(PictureErr::PpmOutOfOrder);
                }
                write_color_ppm(pending, pixel.0 as u32, pixel.1 as u32, pixel.2 as u32);
                *x = *x + 1;
                if *x == width {
                    *x = 0;
                    *y = *y + 1;
                }
            },
            PictureBuf::Rgb8 { buf8: buf } => {
                let ghost s0 = rgb8_samples(*buf);
                let ghost b = sample_base(width as nat, col as nat, row as nat);
                proof {
                    lemma_pixel_in_buffer(width as nat, h, col as nat, row as nat);
                }
                rgb8_put(buf, col, row, pixel.0 as u8, pixel.1 as u8, pixel.2 as u8);
                proof {
                    lemma_widen8_update(s0, b, pixel.0 as u8);
                    lemma_widen8_update(s0.update(b, pixel.0 as u8), b + 1, pixel.1 as u8);
                    lemma_widen8_update(
                        s0.update(b, pixel.0 as u8).update(b + 1, pixel.1 as u8),
                        b + 2,
                        pixel.2 as u8,
                    );
                }
            },
            PictureBuf::Rgb16 { buf16: buf } => {
                let ghost s0 = rgb16_samples(*buf);
                let ghost b = sample_base(width as nat, col as nat, row as nat);
                proof {
                    lemma_pixel_in_buffer(width as nat, h, col as nat, row as nat);
                }
                rgb16_put(buf, col, row, pixel.0, pixel.1, pixel.2);
                proof {
                    lemma_widen16_update(s0, b, pixel.0);
                    lemma_widen16_update(s0.update(b, pixel.0), b + 1, pixel.1);
                    lemma_widen16_update(s0.update(b, pixel.0).update(b + 1, pixel.1), b + 2, pixel.2);
                }
            },
        }
        Ok(())
    }

    /// PPM text produced since it was last taken (the header first); empty
    /// for the in-memory kinds.
    pub fn take_ppm_output(&mut self) -> (r: Vec<u8>)
        requires
            old(self).wf(),
        ensures
            final(self).wf(),
            r@ == old(self)@.ppm_out,
            final(self)@ == (PictureView { ppm_out: seq![], ..old(self)@ }),
    {
        match &mut self.img {
            PictureBuf::Ppm { pending, .. } => {
                let out = pending.split_off(0);
                assert(out@ =~= old(self)@.ppm_out);
                assert(pending@ =~= Seq::<u8>::empty());
                out
            },
            _ => Vec::new(),
        }
    }

    /// Hands over what is left to store: the pending PPM text, or the whole
    /// row-major sample buffer of an in-memory picture.
    pub fn into_data(self) -> (r: PictureData)
        requires
            self.wf(),
        ensures
            self@.kind == PictureType::Ppm ==> (r matches PictureData::Ppm { bytes } && bytes@
                == self@.ppm_out),
            self@.kind == PictureType::Rgb8 ==> (r matches PictureData::Rgb8 {
                width,
                height,
                data,
            } && width == self@.width && height == self@.height && widen8(data@) == self@.data),
            self@.kind == PictureType::Rgb16 ==> (r matches PictureData::Rgb16 {
                width,
                height,
                data,
            } && width == self@.width && height == self@.height && widen16(data@) == self@.data),
    {
        let width = self.width;
        let height = self.height;
        match self.img {
            PictureBuf::Ppm { pending, .. } => PictureData::Ppm { bytes: pending },
            PictureBuf::Rgb8 { buf8: buf } => PictureData::Rgb8 { width, height, data: rgb8_into_raw(buf) },
            PictureBuf::Rgb16 { buf16: buf } => PictureData::Rgb16 {
                width,
                height,
                data: rgb16_into_raw(buf),
            },
        }
    }

    pub fn width(&self) -> (r: u32)
        ensures
            r == self@.width,
    {
        self.width
    }

    pub fn height(&self) -> (r: u32)
        ensures
            r == self@.height,
    {
        self.height
    }

    pub fn samples_per_pixel(&self) -> (r: u32)
        ensures
            r == self@.samples,
    {
        self.samples
    }

    pub fn kind(&self) -> (r: PictureType)
        ensures
            r == self@.kind,
    {
        match self.img {
            PictureBuf::Ppm { .. } => PictureType::Ppm,
            PictureBuf::Rgb8 { .. } => PictureType::Rgb8,
            PictureBuf::Rgb16 { .. } => PictureType::Rgb16,
        }
    }

    /// The largest level a pixel of this picture may carry.
    pub fn max_level(&self) -> (r: u16)
        ensures
            r == max_level_of(self@.kind),
    {
        match self.img {
            PictureBuf::Rgb16 { .. } => 65535,
            _ => 255,
        }
    }

    /// Next column a PPM picture expects; `None` for the other kinds.
    pub fn ppm_x(&self) -> (r: Option<u32>)
        ensures
            r == (if self@.kind == PictureType::Ppm {
                Some(self@.x as u32)
            } else {
                None
            }),
    {
        match self.img {
            PictureBuf::Ppm { x, .. } => Some(x),
            _ => None,
        }
    }

    /// Next row a PPM picture expects; `None` for the other kinds.
    pub fn ppm_y(&self) -> (r: Option<u32>)
        ensures
            r == (if self@.kind == PictureType::Ppm {
                Some(self@.y as u32)
            } else {
                None
            }),
    {
        match self.img {
            PictureBuf::Ppm { y, .. } => Some(y),
            _ => None,
        }
    }
}

} // verus!
