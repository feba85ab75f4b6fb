//! Rasters of colors: the frames that painters paint.
use vstd::prelude::*;

use crate::color::Color;
use crate::rect::Rect;

verus! {

/// A complete raster of `width` by `height` colors, stored row by row.
pub struct Frame {
    width: u16,
    height: u16,
    rows: Vec<Vec<Color>>,
}

/// The part of a `width` by `height` raster that a crop to `area` keeps:
/// the area's corner clamped into the raster, and its size clamped to what
/// is left of the raster from there. The result is `(x, y, w, h)`.
pub open spec fn crop_window(width: nat, height: nat, area: Rect) -> (nat, nat, nat, nat) {
    let x = if area.x <= width { area.x as nat } else { width };
    let y = if area.y <= height { area.y as nat } else { height };
    let w = if area.w <= width - x { area.w as nat } else { (width - x) as nat };
    let h = if area.h <= height - y { area.h as nat } else { (height - y) as nat };
    (x, y, w, h)
}

/// Whether `rows` can make a raster: at most 65535 rows of one length, at
/// most 65535.
pub open spec fn uniform_rows(rows: Seq<Vec<Color>>) -> bool {
    &&& rows.len() <= 65535
    &&& rows.len() > 0 ==> rows[0]@.len() <= 65535
    &&& forall|y: int| 0 <= y < rows.len() ==> (#[trigger] rows[y])@.len() == rows[0]@.len()
}

/// The color of pixel `(x, y)` of a `width` pixels wide raster stored as
/// RGBA bytes, row by row.
pub open spec fn rgba_pixel(bytes: Seq<u8>, width: nat, x: int, y: int) -> Color {
    let k = 4 * (y * width + x);
    Color { r: bytes[k], g: bytes[k + 1], b: bytes[k + 2], a: bytes[k + 3] }
}

/// Within a `width` by `height` raster, the four bytes of pixel `(x, y)`
/// lie inside its `4 * width * height` bytes.
proof fn lemma_rgba_index(width: nat, height: nat, x: nat, y: nat)
    requires
        x < width,
        y < height,
    ensures
        4 * (y * width + x) + 4 <= 4 * width * height,
        4 * (y * width + x) + 4 == 4 * (y * width + x + 1),
{
    assert(y * width + x + 1 <= width * height) by (nonlinear_arith)
        requires
            x < width,
            y < height,
    ;
    assert(4 * width * height == 4 * (width * height)) by (nonlinear_arith);
}

/// Relies on `image::imageops::resize` with the Gaussian filter, applied to
/// the RGBA image of `width` by `height` pixels that `rgba` holds row by row
/// (`image::RgbaImage::from_raw` takes the bytes as they are): the result is
/// the RGBA bytes of a `new_width` by `new_height` image, and a copy of the
/// input when the size does not change. It panics on an empty input that is
/// to grow, which `requires` leaves out.
#[verifier::external_body]
fn resize_rgba(width: u32, height: u32, rgba: Vec<u8>, new_width: u32, new_height: u32) -> (r: Vec<u8>)
    requires
        width >= 1,
        height >= 1,
        rgba@.len() == 4 * width * height,
    ensures
        r@.len() == 4 * new_width * new_height,
        new_width == width && new_height == height ==> r@ == rgba@,
{
    let img = image::RgbaImage::from_raw(width, height, rgba).unwrap();
    image::imageops::resize(&img, new_width, new_height, image::imageops::FilterType::Gaussian).into_raw()
}

impl Frame {
    #[verifier::type_invariant]
    closed spec fn well_formed(self) -> bool {
        &&& self.rows@.len() == self.height
        &&& forall|j: int| 0 <= j < self.rows@.len() ==> (#[trigger] self.rows@[j])@.len() == self.width
    }

    /// The width in pixels.
    pub closed spec fn width_spec(self) -> nat {
        self.width as nat
    }

    /// The height in pixels.
    pub closed spec fn height_spec(self) -> nat {
        self.height as nat
    }

    /// The color at column `x` of row `y`.
    pub closed spec fn pixel_spec(self, x: int, y: int) -> Color {
        self.rows@[y]@[x]
    }

    /// Whether `(x, y)` lies in the raster.
    pub open spec fn in_bounds(self, x: int, y: int) -> bool {
        0 <= x < self.width_spec() && 0 <= y < self.height_spec()
    }

    /// The width in pixels.
    pub fn width(&self) -> (w: u16)
        ensures
            w as nat == self.width_spec(),
    {
        self.width
    }

    /// The height in pixels.
    pub fn height(&self) -> (h: u16)
        ensures
            h as nat == self.height_spec(),
    {
        self.height
    }

    /// The color at `(x, y)`, or `None` outside the raster.
    pub fn get(&self, x: u16, y: u16) -> (c: Option<Color>)
        ensures
            self.in_bounds(x as int, y as int) ==> c == Some(self.pixel_spec(x as int, y as int)),
            !self.in_bounds(x as int, y as int) ==> c is None,
    {
        proof {
            use_type_invariant(self);
        }
        if x < self.width && y < self.height {
            Some(self.rows[y as usize][x as usize])
        } else {
            None
        }
    }

    /// A raster from its rows, top first; `None` when the rows differ in
    /// length or a dimension exceeds 65535.
    pub fn from_rows(rows: Vec<Vec<Color>>) -> (f: Option<Frame>)
        ensures
            f is Some <==> uniform_rows(rows@),
            f matches Some(f) ==> {
                &&& f.height_spec() == rows@.len()
                &&& f.width_spec() == if rows@.len() == 0 { 0 } else { rows@[0]@.len() }
                &&& forall|x: int, y: int| #[trigger] f.in_bounds(x, y) ==> f.pixel_spec(x, y) == rows@[y]@[x]
            },
    {
        let n = rows.len();
        if n > 65535 {
            return None;
        }
        let width: usize = if n == 0 { 0 } else { rows[0].len() };
        if width > 65535 {
            return None;
        }
        let mut j: usize = 0;
        while j < n
            invariant
                n == rows@.len(),
                j <= n,
                n > 0 ==> width == rows@[0]@.len(),
                forall|k: int| 0 <= k < j ==> (#[trigger] rows@[k])@.len() == width,
            decreases n - j,
        {
            if rows[j].len() != width {
                return None;
            }
            j += 1;
        }
        Some(Frame { width: width as u16, height: n as u16, rows })
    }

    /// A `width` by `height` raster from its RGBA bytes, row by row; `None`
    /// when there are not exactly `4 * width * height` bytes.
    pub fn from_rgba(width: u16, height: u16, bytes: &Vec<u8>) -> (f: Option<Frame>)
        ensures
            f is Some <==> bytes@.len() == 4 * width * height,
            f matches Some(f) ==> {
                &&& f.width_spec() == width
                &&& f.height_spec() == height
                &&& forall|x: int, y: int| #[trigger] f.in_bounds(x, y) ==> f.pixel_spec(x, y) == rgba_pixel(bytes@, width as nat, x, y)
            },
    {
        let w = width as usize;
        let h = height as usize;
        let n = bytes.len();
        assert(4 * (width as u64) * (height as u64) <= 4 * 65535 * 65535) by (nonlinear_arith)
            requires
                width <= 65535,
                height <= 65535,
        ;
        if n as u64 != 4 * (width as u64) * (height as u64) {
            return None;
        }
        let mut rows: Vec<Vec<Color>> = Vec::new();
        let mut k: usize = 0;
        let mut j: usize = 0;
        while j < h
            invariant
                bytes@.len() == 4 * w * h,
                n == bytes@.len(),
                w == width,
                h == height,
                j <= h,
                k == 4 * (j * w),
                rows@.len() == j,
                forall|m: int| 0 <= m < j ==> (#[trigger] rows@[m])@.len() == w,
                forall|m: int, i: int| 0 <= m < j && 0 <= i < w ==> #[trigger] rows@[m]@[i] == rgba_pixel(bytes@, w as nat, i, m),
            decreases h - j,
        {
            let mut row: Vec<Color> = Vec::new();
            let mut i: usize = 0;
            while i < w
                invariant
                    bytes@.len() == 4 * w * h,
                    n == bytes@.len(),
                    j < h,
                    i <= w,
                    k == 4 * (j * w + i),
                    row@.len() == i,
                    forall|m: int| 0 <= m < i ==> #[trigger] row@[m] == rgba_pixel(bytes@, w as nat, m, j as int),
                decreases w - i,
            {
                proof {
                    lemma_rgba_index(w as nat, h as nat, i as nat, j as nat);
                }
                row.push(Color { r: bytes[k], g: bytes[k + 1], b: bytes[k + 2], a: bytes[k + 3] });
                k = k + 4;
                i += 1;
            }
            assert(4 * (j * w + w) == 4 * ((j + 1) * w)) by (nonlinear_arith);
            rows.push(row);
            j += 1;
        }
        Some(Frame { width, height, rows })
    }

    /// The `width` by `height` RGBA image that `rgba` holds row by row,
    /// resized to exactly `size` with a Gaussian filter; `None` when the
    /// image is empty or there are not exactly `4 * width * height` bytes. A
    /// resize to the size the image has keeps every pixel.
    pub fn fit(width: u32, height: u32, rgba: Vec<u8>, size: (u16, u16)) -> (f: Option<Frame>)
        ensures
            f is Some <==> (width >= 1 && height >= 1 && rgba@.len() == 4 * width * height),
            f matches Some(f) ==> {
                &&& f.width_spec() == size.0
                &&& f.height_spec() == size.1
                &&& (width == size.0 && height == size.1) ==> forall|x: int, y: int| #[trigger] f.in_bounds(x, y) ==> f.pixel_spec(x, y) == rgba_pixel(rgba@, width as nat, x, y)
            },
    {
        if width == 0 || height == 0 {
            return None;
        }
        let n = rgba.len();
        assert(4 * (width as u128) * (height as u128) <= 4 * 0xffff_ffff * 0xffff_ffff) by (nonlinear_arith)
            requires
                width <= 0xffff_ffff,
                height <= 0xffff_ffff,
        ;
        if n as u128 != 4 * (width as u128) * (height as u128) {
            return None;
        }
        let bytes = resize_rgba(width, height, rgba, size.0 as u32, size.1 as u32);
        Frame::from_rgba(size.0, size.1, &bytes)
    }

    /// The raster as RGBA bytes, row by row.
    pub fn to_rgba(&self) -> (bytes: Vec<u8>)
        ensures
            bytes@.len() == 4 * self.width_spec() * self.height_spec(),
            forall|x: int, y: int| #[trigger] self.in_bounds(x, y) ==> rgba_pixel(bytes@, self.width_spec(), x, y) == self.pixel_spec(x, y),
    {
        proof {
            use_type_invariant(self);
        }
        let w = self.width as usize;
        let h = self.height as usize;
        let mut bytes: Vec<u8> = Vec::new();
        let mut j: usize = 0;
        while j < h
            invariant
                self.rows@.len() == h,
                forall|m: int| 0 <= m < self.rows@.len() ==> (#[trigger] self.rows@[m])@.len() == w,
                w == self.width,
                h == self.height,
                j <= h,
                bytes@.len() == 4 * (j * w),
                forall|x: int, y: int| 0 <= x < w && 0 <= y < j ==> #[trigger] rgba_pixel(bytes@, w as nat, x, y) == self.rows@[y]@[x],
            decreases h - j,
        {
            let row = &self.rows[j];
            let mut i: usize = 0;
            while i < w
                invariant
                    row@.len() == w,
                    row@ == self.rows@[j as int]@,
                    j < h,
                    i <= w,
                    bytes@.len() == 4 * (j * w + i),
                    forall|x: int, y: int| 0 <= x < w && 0 <= y < j ==> #[trigger] rgba_pixel(bytes@, w as nat, x, y) == self.rows@[y]@[x],
                    forall|x: int| 0 <= x < i ==> #[trigger] rgba_pixel(bytes@, w as nat, x, j as int) == row@[x],
                decreases w - i,
            {
                proof {
                    lemma_rgba_index(w as nat, h as nat, i as nat, j as nat);
                }
                let c = row[i];
                let ghost before = bytes@;
                bytes.push(c.r);
                bytes.push(c.g);
                bytes.push(c.b);
                bytes.push(c.a);
                proof {
                    assert forall|x: int, y: int| 0 <= x < w && 0 <= y < j implies #[trigger] rgba_pixel(bytes@, w as nat, x, y) == self.rows@[y]@[x] by {
                        lemma_rgba_index(w as nat, h as nat, x as nat, y as nat);
                        assert(4 * (y * w + x) + 4 <= 4 * (j * w)) by (nonlinear_arith)
                            requires
                                0 <= x < w,
                                0 <= y < j,
                        ;
                        assert(rgba_pixel(bytes@, w as nat, x, y) == rgba_pixel(before, w as nat, x, y));
                    }
                    assert forall|x: int| 0 <= x < i + 1 implies #[trigger] rgba_pixel(bytes@, w as nat, x, j as int) == row@[x] by {
                        if x < i {
                            lemma_rgba_index(w as nat, h as nat, x as nat, j as nat);
                            assert(4 * (j * w + x) + 4 <= 4 * (j * w + i)) by (nonlinear_arith)
                                requires
                                    0 <= x < i,
                            ;
                            assert(rgba_pixel(bytes@, w as nat, x, j as int) == rgba_pixel(before, w as nat, x, j as int));
                        }
                    }
                }
                i += 1;
            }
            assert(4 * (j * w + w) == 4 * ((j + 1) * w)) by (nonlinear_arith);
            j += 1;
        }
        assert(4 * (h * w) == 4 * w * h) by (nonlinear_arith);
        bytes
    }

    /// The part of the raster under `area`, as `crop_window` clamps it; its
    /// pixel `(i, j)` is the pixel `(x + i, y + j)` of this raster.
    pub fn crop(&self, area: &Rect) -> (f: Frame)
        ensures
            ({
                let (x, y, w, h) = crop_window(self.width_spec(), self.height_spec(), *area);
                &&& f.width_spec() == w
                &&& f.height_spec() == h
                &&& forall|i: int, j: int| #[trigger] f.in_bounds(i, j) ==> f.pixel_spec(i, j) == self.pixel_spec(x + i, y + j)
            }),
    {
        proof {
            use_type_invariant(self);
        }
        let x = if area.x <= self.width { area.x } else { self.width };
        let y = if area.y <= self.height { area.y } else { self.height };
        let w = if area.w <= self.width - x { area.w } else { self.width - x };
        let h = if area.h <= self.height - y { area.h } else { self.height - y };
        let mut rows: Vec<Vec<Color>> = Vec::new();
        let mut j: u16 = 0;
        while j < h
            invariant
                self.rows@.len() == self.height,
                forall|k: int| 0 <= k < self.rows@.len() ==> (#[trigger] self.rows@[k])@.len() == self.width,
                x + w <= self.width,
                y + h <= self.height,
                j <= h,
                rows@.len() == j,
                forall|k: int| 0 <= k < j ==> (#[trigger] rows@[k])@.len() == w,
                forall|k: int, i: int| 0 <= k < j && 0 <= i < w ==> #[trigger] rows@[k]@[i] == self.rows@[y + k]@[x + i],
            decreases h - j,
        {
            let src = &self.rows[(y + j) as usize];
            let mut row: Vec<Color> = Vec::new();
            let mut i: u16 = 0;
            while i < w
                invariant
                    src@.len() == self.width,
                    x + w <= self.width,
                    i <= w,
                    row@.len() == i,
                    forall|m: int| 0 <= m < i ==> #[trigger] row@[m] == src@[x + m],
                decreases w - i,
            {
                row.push(src[(x + i) as usize]);
                i += 1;
            }
            rows.push(row);
            j += 1;
        }
        Frame { width: w, height: h, rows }
    }
}

} // verus!
