//! Captured pictures: how the video planes of the display driver, or the test
//! picture that stands in for them, become RGBA frames.
use crate::color::RgbColor;
use crate::dile::CaptureSetup;
use crate::dile::DileVtPixelFormat;
use crate::dile::SetupError;
use crate::dile::SetupStage;
use vstd::prelude::*;

verus! {

/// A picture with four bytes per pixel.
pub struct CapturedFrame<'a> {
    pub data: &'a [u8],
    pub width: u32,
    pub height: u32,
    pub is_bgra: bool,
}

/// The layout of a captured picture: its size, and the distance between rows in
/// the planes that it comes from.
#[derive(Debug, Clone, Copy, PartialEq, Eq, Structural)]
pub struct Geometry {
    pub width: u32,
    pub height: u32,
    pub stride: u32,
}

/// The number of bytes of an RGBA picture.
pub open spec fn rgba_len(width: u32, height: u32) -> int {
    width * height * 4
}

/// Rounds a fixed-point value with eight fraction bits down, into a byte.
pub open spec fn to_byte(value: int) -> u8 {
    if value < 0 {
        0
    } else if value / 256 > 255 {
        255
    } else {
        (value / 256) as u8
    }
}

/// The luma of a sample in video range, with black at zero.
pub open spec fn luma(y: u8) -> int {
    if y < 16 {
        0
    } else {
        y - 16
    }
}

/// Red, green, blue and alpha of a BT.709 sample in video range.
pub open spec fn bt709(y: u8, u: u8, v: u8, channel: int) -> u8 {
    if channel == 0 {
        to_byte(298 * luma(y) + 459 * (v - 128) + 128)
    } else if channel == 1 {
        to_byte(298 * luma(y) - 55 * (u - 128) - 136 * (v - 128) + 128)
    } else if channel == 2 {
        to_byte(298 * luma(y) + 541 * (u - 128) + 128)
    } else {
        255
    }
}

/// Byte `channel` of the pixel at (`x`, `y`) of an NV12 picture: full luma
/// resolution, and one interleaved U/V pair for each block of two by two pixels.
pub open spec fn nv12_byte(
    y_plane: Seq<u8>,
    uv_plane: Seq<u8>,
    stride: int,
    x: int,
    y: int,
    channel: int,
) -> u8 {
    bt709(
        y_plane[y * stride + x],
        uv_plane[(y / 2) * stride + (x / 2) * 2],
        uv_plane[(y / 2) * stride + (x / 2) * 2 + 1],
        channel,
    )
}

/// Byte `channel` of a grey pixel.
pub open spec fn gray_byte(y_plane: Seq<u8>, stride: int, x: int, y: int, channel: int) -> u8 {
    if channel == 3 {
        255
    } else {
        y_plane[y * stride + x]
    }
}

/// The planes hold every sample that an NV12 picture of this layout needs.
pub open spec fn nv12_planes_hold(geometry: Geometry, y_len: int, uv_len: int) -> bool {
    geometry.width > 0 && geometry.height > 0 ==> {
        &&& (geometry.height - 1) * geometry.stride + geometry.width <= y_len
        &&& (geometry.height - 1) / 2 * geometry.stride + (geometry.width - 1) / 2 * 2 + 2 <= uv_len
    }
}

/// The plane holds every sample that a luma picture of this layout needs.
pub open spec fn luma_plane_holds(geometry: Geometry, y_len: int) -> bool {
    geometry.width > 0 && geometry.height > 0 ==> (geometry.height - 1) * geometry.stride
        + geometry.width <= y_len
}

/// A picture of which the first `pixels` pixels come from `pixel` and the rest
/// from `before`.
pub open spec fn drawn(
    before: Seq<u8>,
    width: int,
    pixels: int,
    pixel: spec_fn(int, int, int) -> u8,
) -> Seq<u8> {
    Seq::new(
        before.len(),
        |i: int|
            if i < pixels * 4 {
                pixel((i / 4) % width, (i / 4) / width, i % 4)
            } else {
                before[i]
            },
    )
}

/// Pixel `(x, y)` of a picture is pixel number `y * width + x`.
proof fn lemma_pixel_number(width: int, x: int, y: int)
    requires
        0 <= x < width,
        0 <= y,
    ensures
        (y * width + x) / width == y,
        (y * width + x) % width == x,
        y * width + x >= 0,
{
    vstd::arithmetic::div_mod::lemma_fundamental_div_mod_converse(y * width + x, width, y, x);
    assert(y * width >= 0) by (nonlinear_arith)
        requires
            y >= 0,
            width >= 0,
    ;
}

fn put_pixel(
    rgb: &mut Vec<u8>,
    at: usize,
    r: u8,
    g: u8,
    b: u8,
    Ghost(before): Ghost<Seq<u8>>,
    Ghost(width): Ghost<int>,
    Ghost(x): Ghost<int>,
    Ghost(y): Ghost<int>,
    Ghost(pixel): Ghost<spec_fn(int, int, int) -> u8>,
)
    requires
        0 <= x < width,
        0 <= y,
        at == (y * width + x) * 4,
        at + 4 <= old(rgb)@.len(),
        old(rgb)@ == drawn(before, width, y * width + x, pixel),
        pixel(x, y, 0) == r,
        pixel(x, y, 1) == g,
        pixel(x, y, 2) == b,
        pixel(x, y, 3) == 255,
    ensures
        final(rgb)@ == drawn(before, width, y * width + x + 1, pixel),
{
    rgb.set(at, r);
    rgb.set(at + 1, g);
    rgb.set(at + 2, b);
    rgb.set(at + 3, 255);
    proof {
        lemma_pixel_number(width, x, y);
        let n = y * width + x;
        let after = drawn(before, width, n + 1, pixel);
        assert forall|i: int| 0 <= i < rgb@.len() implies rgb@[i] == after[i] by {
            if 4 * n <= i < 4 * n + 4 {
                assert(i / 4 == n);
            }
        }
        assert(rgb@ == after);
    }
}

fn clamp_to_byte(value: i32) -> (byte: u8)
    ensures
        byte == to_byte(value as int),
{
    if value < 0 {
        0
    } else if value / 256 > 255 {
        255
    } else {
        (value / 256) as u8
    }
}

/// Fills `rgb` from the planes of an NV12 picture. Bytes beyond the picture
/// stay as they are.
pub fn convert_nv12_to_rgb(
    geometry: Geometry,
    y_plane: &[u8],
    uv_plane: &[u8],
    rgb: &mut Vec<u8>,
)
    requires
        nv12_planes_hold(geometry, y_plane@.len() as int, uv_plane@.len() as int),
        rgba_len(geometry.width, geometry.height) <= old(rgb)@.len(),
    ensures
        final(rgb)@ == drawn(
            old(rgb)@,
            geometry.width as int,
            geometry.width * geometry.height,
            |x: int, y: int, channel: int|
                nv12_byte(y_plane@, uv_plane@, geometry.stride as int, x, y, channel),
        ),
{
    let width: usize = geometry.width as usize;
    let height: usize = geometry.height as usize;
    let stride: usize = geometry.stride as usize;
    let rgb_len: usize = rgb.len();
    let y_len: usize = y_plane.len();
    let uv_len: usize = uv_plane.len();
    let ghost before = rgb@;
    let ghost pixel = |x: int, y: int, channel: int|
        nv12_byte(y_plane@, uv_plane@, stride as int, x, y, channel);
    assert(rgb@ == drawn(before, width as int, 0, pixel));
    assert(0 * width == 0);
    for y in 0..height
        invariant
            width == geometry.width,
            height == geometry.height,
            stride == geometry.stride,
            nv12_planes_hold(geometry, y_plane@.len() as int, uv_plane@.len() as int),
            width * height * 4 <= before.len(),
            before.len() == rgb_len,
            y_plane@.len() == y_len,
            uv_plane@.len() == uv_len,
            pixel == (|x: int, y: int, channel: int|
                nv12_byte(y_plane@, uv_plane@, stride as int, x, y, channel)),
            rgb@ == drawn(before, width as int, y * width, pixel),
    {
        assert(y * width + 0 == y * width);
        for x in 0..width
            invariant
                y < height,
                width == geometry.width,
                height == geometry.height,
                stride == geometry.stride,
                nv12_planes_hold(geometry, y_plane@.len() as int, uv_plane@.len() as int),
                width * height * 4 <= before.len(),
                before.len() == rgb_len,
            y_plane@.len() == y_len,
            uv_plane@.len() == uv_len,
                pixel == (|x: int, y: int, channel: int|
                    nv12_byte(y_plane@, uv_plane@, stride as int, x, y, channel)),
                rgb@ == drawn(before, width as int, y * width + x, pixel),
        {
            proof {
                lemma_pixel_in_picture(width as int, height as int, x as int, y as int);
                lemma_rows_in_order(y as int, height - 1, stride as int);
                lemma_rows_in_order(y as int / 2, (height - 1) / 2, stride as int);
            }
            let y_value: u8 = y_plane[y * stride + x];
            let uv_offset: usize = (y / 2) * stride + (x / 2) * 2;
            let u_byte: u8 = uv_plane[uv_offset];
            let v_byte: u8 = uv_plane[uv_offset + 1];
            let u_value: i32 = u_byte as i32 - 128;
            let v_value: i32 = v_byte as i32 - 128;
            let c: i32 = if y_value < 16 {
                0
            } else {
                y_value as i32 - 16
            };
            let r = clamp_to_byte(298 * c + 459 * v_value + 128);
            let g = clamp_to_byte(298 * c - 55 * u_value - 136 * v_value + 128);
            let b = clamp_to_byte(298 * c + 541 * u_value + 128);
            let at: usize = (y * width + x) * 4;
            put_pixel(
                rgb,
                at,
                r,
                g,
                b,
                Ghost(before),
                Ghost(width as int),
                Ghost(x as int),
                Ghost(y as int),
                Ghost(pixel),
            );
        }
        assert((y + 1) * width == y * width + width) by (nonlinear_arith);
    }
    assert(height * width == geometry.width * geometry.height) by (nonlinear_arith)
        requires
            width == geometry.width,
            height == geometry.height,
    ;
    assert(rgb@ == drawn(
        before,
        geometry.width as int,
        geometry.width * geometry.height,
        |x: int, y: int, channel: int|
            nv12_byte(y_plane@, uv_plane@, geometry.stride as int, x, y, channel),
    ));
}

proof fn lemma_pixel_in_picture(width: int, height: int, x: int, y: int)
    requires
        0 <= x < width,
        0 <= y < height,
    ensures
        (y * width + x + 1) * 4 <= width * height * 4,
        y * width >= 0,
{
    assert((y + 1) * width <= height * width) by (nonlinear_arith)
        requires
            y + 1 <= height,
            width >= 0,
    ;
    assert((y + 1) * width == y * width + width) by (nonlinear_arith);
    assert(height * width == width * height) by (nonlinear_arith);
    assert(y * width >= 0) by (nonlinear_arith)
        requires
            y >= 0,
            width >= 0,
    ;
}

proof fn lemma_rows_in_order(row: int, last: int, stride: int)
    requires
        0 <= row <= last,
        0 <= stride,
    ensures
        0 <= row * stride <= last * stride,
{
    assert(0 <= row * stride <= last * stride) by (nonlinear_arith)
        requires
            0 <= row <= last,
            0 <= stride,
    ;
}

/// Fills `rgb` with the luma plane as a grey picture.
pub fn convert_luma_to_gray(geometry: Geometry, y_plane: &[u8], rgb: &mut Vec<u8>)
    requires
        luma_plane_holds(geometry, y_plane@.len() as int),
        rgba_len(geometry.width, geometry.height) <= old(rgb)@.len(),
    ensures
        final(rgb)@ == drawn(
            old(rgb)@,
            geometry.width as int,
            geometry.width * geometry.height,
            |x: int, y: int, channel: int|
                gray_byte(y_plane@, geometry.stride as int, x, y, channel),
        ),
{
    let width: usize = geometry.width as usize;
    let height: usize = geometry.height as usize;
    let stride: usize = geometry.stride as usize;
    let rgb_len: usize = rgb.len();
    let y_len: usize = y_plane.len();
    let ghost before = rgb@;
    let ghost pixel = |x: int, y: int, channel: int|
        gray_byte(y_plane@, stride as int, x, y, channel);
    assert(rgb@ == drawn(before, width as int, 0, pixel));
    assert(0 * width == 0);
    for y in 0..height
        invariant
            width == geometry.width,
            height == geometry.height,
            stride == geometry.stride,
            luma_plane_holds(geometry, y_plane@.len() as int),
            width * height * 4 <= before.len(),
            before.len() == rgb_len,
            y_plane@.len() == y_len,
            pixel == (|x: int, y: int, channel: int|
                gray_byte(y_plane@, stride as int, x, y, channel)),
            rgb@ == drawn(before, width as int, y * width, pixel),
    {
        assert(y * width + 0 == y * width);
        for x in 0..width
            invariant
                y < height,
                width == geometry.width,
                height == geometry.height,
                stride == geometry.stride,
                luma_plane_holds(geometry, y_plane@.len() as int),
                width * height * 4 <= before.len(),
                before.len() == rgb_len,
            y_plane@.len() == y_len,
                pixel == (|x: int, y: int, channel: int|
                    gray_byte(y_plane@, stride as int, x, y, channel)),
                rgb@ == drawn(before, width as int, y * width + x, pixel),
        {
            proof {
                lemma_pixel_in_picture(width as int, height as int, x as int, y as int);
                lemma_rows_in_order(y as int, height - 1, stride as int);
            }
            let value: u8 = y_plane[y * stride + x];
            let at: usize = (y * width + x) * 4;
            put_pixel(
                rgb,
                at,
                value,
                value,
                value,
                Ghost(before),
                Ghost(width as int),
                Ghost(x as int),
                Ghost(y as int),
                Ghost(pixel),
            );
        }
        assert((y + 1) * width == y * width + width) by (nonlinear_arith);
    }
    assert(height * width == geometry.width * geometry.height) by (nonlinear_arith)
        requires
            width == geometry.width,
            height == geometry.height,
    ;
    assert(rgb@ == drawn(
        before,
        geometry.width as int,
        geometry.width * geometry.height,
        |x: int, y: int, channel: int| gray_byte(y_plane@, geometry.stride as int, x, y, channel),
    ));
}

/// Fills all of `rgb` from the beginning of a packed plane.
pub fn copy_plane(plane: &[u8], rgb: &mut Vec<u8>)
    requires
        old(rgb)@.len() <= plane@.len(),
    ensures
        final(rgb)@ == plane@.take(old(rgb)@.len() as int),
{
    let len: usize = rgb.len();
    for i in 0..len
        invariant
            rgb@.len() == len,
            len <= plane@.len(),
            forall|k: int| 0 <= k < i ==> rgb@[k] == plane@[k],
    {
        rgb.set(i, plane[i]);
    }
    assert(rgb@ == plane@.take(len as int));
}

/// Byte `channel` of a pixel in column `x` of a picture whose columns each have
/// one colour.
pub open spec fn column_byte(columns: Seq<RgbColor>, x: int, channel: int) -> u8 {
    if channel == 0 {
        columns[x].r
    } else if channel == 1 {
        columns[x].g
    } else if channel == 2 {
        columns[x].b
    } else {
        255
    }
}

fn zeros(len: usize) -> (bytes: Vec<u8>)
    ensures
        bytes@ == Seq::new(len as nat, |i: int| 0u8),
{
    let mut bytes: Vec<u8> = Vec::new();
    for i in 0..len
        invariant
            bytes@ == Seq::new(i as nat, |k: int| 0u8),
    {
        bytes.push(0);
    }
    bytes
}

/// The picture that stands in for the screen where it cannot be captured: a
/// moving rainbow, or black on a television whose capture driver is present but
/// not ready.
pub struct MockCapture {
    width: u32,
    height: u32,
    buffer: Vec<u8>,
    is_tv_hardware: bool,
}

impl MockCapture {
    pub closed spec fn size(&self) -> (u32, u32) {
        (self.width, self.height)
    }

    /// The bytes of the picture.
    pub closed spec fn picture(&self) -> Seq<u8> {
        self.buffer@
    }

    /// Whether this runs on a television.
    pub closed spec fn on_tv(&self) -> bool {
        self.is_tv_hardware
    }

    /// The picture has four bytes for each pixel.
    pub open spec fn wf(&self) -> bool {
        &&& self.picture().len() == rgba_len(self.size().0, self.size().1)
        &&& rgba_len(self.size().0, self.size().1) <= u32::MAX
    }

    /// A black picture. `is_tv_hardware` says whether a capture driver of the
    /// television is installed.
    pub fn new(width: u32, height: u32, is_tv_hardware: bool) -> (capture: Self)
        requires
            rgba_len(width, height) <= u32::MAX,
        ensures
            capture.wf(),
            capture.size() == (width, height),
            capture.on_tv() == is_tv_hardware,
            capture.picture() == Seq::new(rgba_len(width, height) as nat, |i: int| 0u8),
    {
        assert(0 <= width * height) by (nonlinear_arith);
        let size: usize = (width * height * 4) as usize;
        MockCapture { width, height, buffer: zeros(size), is_tv_hardware }
    }

    /// The next picture. Off a television each column `x` takes the colour
    /// `columns[x]`; on one the picture stays as it is.
    pub fn acquire_frame(&mut self, columns: &[RgbColor]) -> (frame: CapturedFrame<'_>)
        requires
            old(self).wf(),
            !old(self).on_tv() ==> columns@.len() == old(self).size().0,
        ensures
            final(self).wf(),
            final(self).size() == old(self).size(),
            final(self).on_tv() == old(self).on_tv(),
            final(self).picture() == if old(self).on_tv() {
                old(self).picture()
            } else {
                drawn(
                    old(self).picture(),
                    old(self).size().0 as int,
                    old(self).size().0 * old(self).size().1,
                    |x: int, y: int, channel: int| column_byte(columns@, x, channel),
                )
            },
            frame.data@ == final(self).picture(),
            frame.width == old(self).size().0,
            frame.height == old(self).size().1,
            !frame.is_bgra,
    {
        if !self.is_tv_hardware {
            self.draw_columns(columns);
        }
        CapturedFrame {
            data: self.buffer.as_slice(),
            width: self.width,
            height: self.height,
            is_bgra: false,
        }
    }

    fn draw_columns(&mut self, columns: &[RgbColor])
        requires
            old(self).wf(),
            columns@.len() == old(self).size().0,
        ensures
            final(self).wf(),
            final(self).size() == old(self).size(),
            final(self).on_tv() == old(self).on_tv(),
            final(self).picture() == drawn(
                old(self).picture(),
                old(self).size().0 as int,
                old(self).size().0 * old(self).size().1,
                |x: int, y: int, channel: int| column_byte(columns@, x, channel),
            ),
    {
        let width: usize = self.width as usize;
        let height: usize = self.height as usize;
        let len: usize = self.buffer.len();
        let ghost before = self.buffer@;
        let ghost pixel = |x: int, y: int, channel: int| column_byte(columns@, x, channel);
        let ghost start = *self;
        assert(before == drawn(before, width as int, 0, pixel));
        assert(0 * width == 0);
        for y in 0..height
            invariant
                start.wf(),
                width == start.width,
                height == start.height,
                self.width == start.width,
                self.height == start.height,
                self.is_tv_hardware == start.is_tv_hardware,
                before.len() == len,
                before.len() == width * height * 4,
                columns@.len() == width,
                pixel == (|x: int, y: int, channel: int| column_byte(columns@, x, channel)),
                self.buffer@ == drawn(before, width as int, y * width, pixel),
        {
            assert(y * width + 0 == y * width);
            for x in 0..width
                invariant
                    y < height,
                    start.wf(),
                    width == start.width,
                    height == start.height,
                    self.width == start.width,
                    self.height == start.height,
                    self.is_tv_hardware == start.is_tv_hardware,
                    before.len() == len,
                    before.len() == width * height * 4,
                    columns@.len() == width,
                    pixel == (|x: int, y: int, channel: int| column_byte(columns@, x, channel)),
                    self.buffer@ == drawn(before, width as int, y * width + x, pixel),
            {
                proof {
                    lemma_pixel_in_picture(width as int, height as int, x as int, y as int);
                }
                let at: usize = (y * width + x) * 4;
                let color = columns[x];
                put_pixel(
                    &mut self.buffer,
                    at,
                    color.r,
                    color.g,
                    color.b,
                    Ghost(before),
                    Ghost(width as int),
                    Ghost(x as int),
                    Ghost(y as int),
                    Ghost(pixel),
                );
            }
            assert((y + 1) * width == y * width + width) by (nonlinear_arith);
        }
        assert(height * width == width * height) by (nonlinear_arith);
        assert(self.buffer@.len() == before.len());
    }

    pub fn resolution(&self) -> (size: (u32, u32))
        ensures
            size == self.size(),
    {
        (self.width, self.height)
    }
}

/// The planes hold what a picture of this format and layout needs.
pub open spec fn planes_hold(
    format: Option<DileVtPixelFormat>,
    geometry: Geometry,
    planes: Seq<&[u8]>,
) -> bool {
    match format {
        Some(DileVtPixelFormat::Yuv420SemiPlanar) => planes.len() >= 2 && nv12_planes_hold(
            geometry,
            planes[0]@.len() as int,
            planes[1]@.len() as int,
        ),
        Some(DileVtPixelFormat::Rgb) => planes.len() >= 1 && rgba_len(
            geometry.width,
            geometry.height,
        ) <= planes[0]@.len(),
        _ => planes.len() >= 1 && luma_plane_holds(geometry, planes[0]@.len() as int),
    }
}

/// The picture that the planes show: NV12 is converted, RGB is taken as it is,
/// and of any other format only the luma is shown, in grey.
pub open spec fn converted(
    format: Option<DileVtPixelFormat>,
    geometry: Geometry,
    planes: Seq<&[u8]>,
    before: Seq<u8>,
) -> Seq<u8> {
    let pixels = geometry.width * geometry.height;
    match format {
        Some(DileVtPixelFormat::Yuv420SemiPlanar) => drawn(
            before,
            geometry.width as int,
            pixels,
            |x: int, y: int, channel: int|
                nv12_byte(planes[0]@, planes[1]@, geometry.stride as int, x, y, channel),
        ),
        Some(DileVtPixelFormat::Rgb) => planes[0]@.take(before.len() as int),
        _ => drawn(
            before,
            geometry.width as int,
            pixels,
            |x: int, y: int, channel: int|
                gray_byte(planes[0]@, geometry.stride as int, x, y, channel),
        ),
    }
}

/// The lengths that the luma and the chroma plane of a layout need.
fn planes_needed(geometry: Geometry) -> (needed: (u64, u64))
    ensures
        forall|y_len: int|
            0 <= y_len ==> (needed.0 <= y_len <==> #[trigger] luma_plane_holds(geometry, y_len)),
        forall|y_len: int, uv_len: int|
            0 <= y_len && 0 <= uv_len ==> (needed.0 <= y_len && needed.1 <= uv_len
                <==> #[trigger] nv12_planes_hold(geometry, y_len, uv_len)),
{
    if geometry.width == 0 || geometry.height == 0 {
        return (0, 0);
    }
    let rows: u64 = (geometry.height - 1) as u64;
    let stride: u64 = geometry.stride as u64;
    proof {
        assert(rows * stride <= 0xffff_fffe * 0xffff_ffff) by (nonlinear_arith)
            requires
                rows <= 0xffff_fffe,
                stride <= 0xffff_ffff,
        ;
        assert(rows / 2 * stride <= 0x7fff_ffff * 0xffff_ffff) by (nonlinear_arith)
            requires
                rows / 2 <= 0x7fff_ffff,
                stride <= 0xffff_ffff,
        ;
    }
    let luma: u64 = rows * stride + geometry.width as u64;
    let chroma: u64 = rows / 2 * stride + (geometry.width - 1) as u64 / 2 * 2 + 2;
    (luma, chroma)
}

/// The picture captured from the display driver's ring of frame buffers.
pub struct DileVtCapture {
    geometry: Geometry,
    pixel_format: Option<DileVtPixelFormat>,
    num_vfbs: usize,
    rgb_buffer: Vec<u8>,
}

impl DileVtCapture {
    pub closed spec fn layout(&self) -> Geometry {
        self.geometry
    }

    pub closed spec fn format(&self) -> Option<DileVtPixelFormat> {
        self.pixel_format
    }

    /// The number of frame buffers in the ring.
    pub closed spec fn ring(&self) -> nat {
        self.num_vfbs as nat
    }

    /// The bytes of the last picture.
    pub closed spec fn picture(&self) -> Seq<u8> {
        self.rgb_buffer@
    }

    /// There is a frame buffer, and four bytes for each pixel.
    pub open spec fn wf(&self) -> bool {
        &&& self.ring() > 0
        &&& self.picture().len() == rgba_len(self.layout().width, self.layout().height)
    }

    /// A black picture, before the first capture. No format stands for one that
    /// is not known.
    pub fn new(geometry: Geometry, pixel_format: Option<DileVtPixelFormat>, num_vfbs: usize) -> (capture:
        Self)
        requires
            num_vfbs > 0,
            rgba_len(geometry.width, geometry.height) <= u32::MAX,
        ensures
            capture.wf(),
            capture.layout() == geometry,
            capture.format() == pixel_format,
            capture.ring() == num_vfbs,
            capture.picture() == Seq::new(
                rgba_len(geometry.width, geometry.height) as nat,
                |i: int| 0u8,
            ),
    {
        assert(0 <= geometry.width * geometry.height) by (nonlinear_arith);
        let size: usize = (geometry.width * geometry.height * 4) as usize;
        DileVtCapture { geometry, pixel_format, num_vfbs, rgb_buffer: zeros(size) }
    }

    /// The capture that a finished setup of the driver makes, or why there is
    /// none.
    pub fn try_new(setup: &CaptureSetup) -> (capture: Result<Self, SetupError>)
        requires
            setup.pending() is None,
            crate::dile::setup_wf(*setup),
            setup.stage is Ready ==> {
                let geometry = crate::dile::picture_geometry(
                    setup.properties,
                    setup.target_width,
                    setup.target_height,
                );
                rgba_len(geometry.width, geometry.height) <= u32::MAX
            },
        ensures
            match setup.stage {
                SetupStage::Failed(error) => capture == Err::<Self, SetupError>(error),
                _ => capture matches Ok(made) && {
                    &&& made.wf()
                    &&& made.layout() == crate::dile::picture_geometry(
                        setup.properties,
                        setup.target_width,
                        setup.target_height,
                    )
                    &&& made.format() == setup.properties.pixel_format
                    &&& made.ring() == setup.capability.num_vfbs
                    &&& made.picture() == Seq::new(
                        rgba_len(made.layout().width, made.layout().height) as nat,
                        |i: int| 0u8,
                    )
                },
            },
    {
        match setup.stage {
            SetupStage::Failed(error) => Err(error),
            _ => Ok(
                DileVtCapture::new(
                    setup.geometry(),
                    setup.properties.pixel_format,
                    setup.capability.num_vfbs as usize,
                ),
            ),
        }
    }

    /// The frame buffer that the driver's running index stands for.
    pub fn buffer_index(&self, current_idx: u32) -> (index: usize)
        requires
            self.wf(),
        ensures
            index == current_idx as int % self.ring() as int,
            index < self.ring(),
    {
        (current_idx as usize) % self.num_vfbs
    }

    /// Whether the planes hold what a picture needs.
    pub fn can_convert(&self, planes: &[&[u8]]) -> (yes: bool)
        ensures
            yes == planes_hold(self.format(), self.layout(), planes@),
    {
        let needed = planes_needed(self.geometry);
        match self.pixel_format {
            Some(DileVtPixelFormat::Yuv420SemiPlanar) => planes.len() >= 2 && needed.0
                <= planes[0].len() as u64 && needed.1 <= planes[1].len() as u64,
            Some(DileVtPixelFormat::Rgb) => {
                let width: u64 = self.geometry.width as u64;
                let height: u64 = self.geometry.height as u64;
                assert(width * height <= 0xffff_ffff * 0xffff_ffff) by (nonlinear_arith)
                    requires
                        width <= 0xffff_ffff,
                        height <= 0xffff_ffff,
                ;
                let pixels: u64 = width * height;
                planes.len() >= 1 && pixels <= planes[0].len() as u64 / 4
            },
            _ => planes.len() >= 1 && needed.0 <= planes[0].len() as u64,
        }
    }

    /// Takes the picture out of the planes of one frame buffer, or repeats the
    /// last picture where the driver named no frame buffer.
    pub fn acquire_frame(&mut self, planes: Option<&[&[u8]]>) -> (frame: CapturedFrame<'_>)
        requires
            old(self).wf(),
            planes matches Some(p) ==> planes_hold(old(self).format(), old(self).layout(), p@),
        ensures
            final(self).wf(),
            final(self).layout() == old(self).layout(),
            final(self).format() == old(self).format(),
            final(self).ring() == old(self).ring(),
            final(self).picture() == (match planes {
                Some(p) => converted(
                    old(self).format(),
                    old(self).layout(),
                    p@,
                    old(self).picture(),
                ),
                None => old(self).picture(),
            }),
            frame.data@ == final(self).picture(),
            frame.width == old(self).layout().width,
            frame.height == old(self).layout().height,
            !frame.is_bgra,
    {
        if let Some(planes) = planes {
            match self.pixel_format {
                Some(DileVtPixelFormat::Yuv420SemiPlanar) => {
                    convert_nv12_to_rgb(
                        self.geometry,
                        planes[0],
                        planes[1],
                        &mut self.rgb_buffer,
                    );
                },
                Some(DileVtPixelFormat::Rgb) => {
                    copy_plane(planes[0], &mut self.rgb_buffer);
                },
                _ => {
                    convert_luma_to_gray(self.geometry, planes[0], &mut self.rgb_buffer);
                },
            }
        }
        CapturedFrame {
            data: self.rgb_buffer.as_slice(),
            width: self.geometry.width,
            height: self.geometry.height,
            is_bgra: false,
        }
    }

    pub fn resolution(&self) -> (size: (u32, u32))
        ensures
            size == (self.layout().width, self.layout().height),
    {
        (self.geometry.width, self.geometry.height)
    }
}

/// A sample without colour comes out grey, and video black comes out black.
pub proof fn neutral_chroma_is_grey(y: u8)
    ensures
        bt709(y, 128, 128, 0) == bt709(y, 128, 128, 1),
        bt709(y, 128, 128, 1) == bt709(y, 128, 128, 2),
        y <= 16 ==> bt709(y, 128, 128, 0) == 0,
        y >= 235 ==> bt709(y, 128, 128, 0) == 255,
{
}

/// The luma and chroma that BT.709 gives to full red, green and blue come out
/// as red, green and blue again, to within one step of a channel.
pub proof fn primaries_come_out_pure()
    ensures
        bt709(63, 102, 240, 0) == 255,
        bt709(63, 102, 240, 1) <= 1,
        bt709(63, 102, 240, 2) <= 1,
        bt709(173, 42, 26, 0) <= 1,
        bt709(173, 42, 26, 1) == 255,
        bt709(173, 42, 26, 2) <= 1,
        bt709(32, 240, 118, 0) <= 1,
        bt709(32, 240, 118, 1) <= 1,
        bt709(32, 240, 118, 2) == 255,
{
}

/// More red chroma makes no pixel less red or more green, and more blue chroma
/// none less blue or more green.
pub proof fn chroma_moves_its_own_colour(y: u8, low: u8, high: u8, other: u8)
    requires
        low <= high,
    ensures
        bt709(y, other, low, 0) <= bt709(y, other, high, 0),
        bt709(y, other, low, 1) >= bt709(y, other, high, 1),
        bt709(y, low, other, 2) <= bt709(y, high, other, 2),
        bt709(y, low, other, 1) >= bt709(y, high, other, 1),
{
}

/// A picture that was converted from luma, with chroma or without, is opaque.
pub proof fn converted_pictures_are_opaque(
    format: Option<DileVtPixelFormat>,
    geometry: Geometry,
    planes: Seq<&[u8]>,
    before: Seq<u8>,
    pixel: int,
)
    requires
        format != Some(DileVtPixelFormat::Rgb),
        before.len() == rgba_len(geometry.width, geometry.height),
        0 <= pixel < geometry.width * geometry.height,
    ensures
        converted(format, geometry, planes, before)[pixel * 4 + 3] == 255,
{
}

/// Where pictures come from: the hardware of type `H`, or the stand-in.
pub enum Capture<H> {
    Hardware(H),
    Mock(MockCapture),
}

impl<H> Capture<H> {
    pub fn is_real_hardware(&self) -> (yes: bool)
        ensures
            yes == (self is Hardware),
    {
        match self {
            Capture::Hardware(_) => true,
            Capture::Mock(_) => false,
        }
    }
}

/// The hardware where it could be opened, else the stand-in.
pub fn create_capture<H, E>(
    hardware: Result<H, E>,
    width: u32,
    height: u32,
    is_tv_hardware: bool,
) -> (capture: Capture<H>)
    requires
        hardware is Err ==> rgba_len(width, height) <= u32::MAX,
    ensures
        match hardware {
            Ok(opened) => capture == Capture::Hardware(opened),
            Err(_) => capture matches Capture::Mock(mock) && mock.wf() && mock.size() == (
                width,
                height,
            ) && mock.on_tv() == is_tv_hardware && mock.picture() == Seq::new(
                rgba_len(width, height) as nat,
                |i: int| 0u8,
            ),
        },
{
    match hardware {
        Ok(opened) => Capture::Hardware(opened),
        Err(_) => Capture::Mock(MockCapture::new(width, height, is_tv_hardware)),
    }
}

proof fn lemma_drawn_pixel(
    before: Seq<u8>,
    width: int,
    height: int,
    pixel: spec_fn(int, int, int) -> u8,
    x: int,
    y: int,
    channel: int,
)
    requires
        0 <= x < width,
        0 <= y < height,
        0 <= channel < 4,
        width * height * 4 <= before.len(),
    ensures
        0 <= (y * width + x) * 4 + channel < before.len(),
        drawn(before, width, width * height, pixel)[(y * width + x) * 4 + channel] == pixel(
            x,
            y,
            channel,
        ),
{
    lemma_pixel_number(width, x, y);
    lemma_pixel_in_picture(width, height, x, y);
    let i = (y * width + x) * 4 + channel;
    assert(i / 4 == y * width + x);
    assert(i % 4 == channel);
}

/// A pixel takes its colour from its own luma sample and from the one chroma pair
/// of its block of two by two pixels, and from nothing else: pixels of any two
/// pictures whose luma samples and whose blocks' pairs are the same come out the
/// same. Block (`i`, `j`) has its pair at byte `j * stride + 2 * i`.
pub proof fn a_chroma_pair_colours_its_own_block(
    geometry: Geometry,
    y_plane: &[u8],
    uv_plane: &[u8],
    rgb: &mut Vec<u8>,
    other_geometry: Geometry,
    other_y_plane: &[u8],
    other_uv_plane: &[u8],
    other_rgb: &mut Vec<u8>,
    x: int,
    y: int,
    i: int,
    j: int,
    other_x: int,
    other_y: int,
    other_i: int,
    other_j: int,
    channel: int,
)
    requires
        call_ensures(convert_nv12_to_rgb, (geometry, y_plane, uv_plane, rgb), ()),
        call_ensures(
            convert_nv12_to_rgb,
            (other_geometry, other_y_plane, other_uv_plane, other_rgb),
            (),
        ),
        rgba_len(geometry.width, geometry.height) <= old(rgb)@.len(),
        rgba_len(other_geometry.width, other_geometry.height) <= old(other_rgb)@.len(),
        0 <= x < geometry.width,
        0 <= y < geometry.height,
        x == 2 * i || x == 2 * i + 1,
        y == 2 * j || y == 2 * j + 1,
        0 <= other_x < other_geometry.width,
        0 <= other_y < other_geometry.height,
        other_x == 2 * other_i || other_x == 2 * other_i + 1,
        other_y == 2 * other_j || other_y == 2 * other_j + 1,
        0 <= channel < 4,
        y_plane@[y * geometry.stride + x] == other_y_plane@[other_y * other_geometry.stride
            + other_x],
        uv_plane@[j * geometry.stride + 2 * i] == other_uv_plane@[other_j * other_geometry.stride
            + 2 * other_i],
        uv_plane@[j * geometry.stride + 2 * i + 1] == other_uv_plane@[other_j
            * other_geometry.stride + 2 * other_i + 1],
    ensures
        final(rgb)@[(y * geometry.width + x) * 4 + channel] == final(other_rgb)@[(other_y
            * other_geometry.width + other_x) * 4 + channel],
{
    assert(y / 2 == j && x / 2 == i);
    assert(other_y / 2 == other_j && other_x / 2 == other_i);
    lemma_drawn_pixel(
        old(rgb)@,
        geometry.width as int,
        geometry.height as int,
        |x: int, y: int, channel: int|
            nv12_byte(y_plane@, uv_plane@, geometry.stride as int, x, y, channel),
        x,
        y,
        channel,
    );
    lemma_drawn_pixel(
        old(other_rgb)@,
        other_geometry.width as int,
        other_geometry.height as int,
        |x: int, y: int, channel: int|
            nv12_byte(other_y_plane@, other_uv_plane@, other_geometry.stride as int, x, y, channel),
        other_x,
        other_y,
        channel,
    );
}

/// Changing one chroma pair changes nothing outside its block: two pictures with
/// the same luma whose chroma differs in the pair of block (`i`, `j`) alone are the
/// same at every pixel of every other block.
pub proof fn a_chroma_pair_stays_in_its_block(
    geometry: Geometry,
    y_plane: &[u8],
    uv_plane: &[u8],
    other_uv_plane: &[u8],
    rgb: &mut Vec<u8>,
    other_rgb: &mut Vec<u8>,
    i: int,
    j: int,
    x: int,
    y: int,
    channel: int,
)
    requires
        call_ensures(convert_nv12_to_rgb, (geometry, y_plane, uv_plane, rgb), ()),
        call_ensures(convert_nv12_to_rgb, (geometry, y_plane, other_uv_plane, other_rgb), ()),
        rgba_len(geometry.width, geometry.height) <= old(rgb)@.len(),
        rgba_len(geometry.width, geometry.height) <= old(other_rgb)@.len(),
        geometry.width <= geometry.stride,
        geometry.stride % 2 == 0,
        0 <= i,
        2 * i < geometry.width,
        0 <= j,
        forall|at: int|
            0 <= at && at != j * geometry.stride + 2 * i && at != j * geometry.stride + 2 * i + 1
                ==> uv_plane@[at] == #[trigger] other_uv_plane@[at],
        0 <= x < geometry.width,
        0 <= y < geometry.height,
        0 <= channel < 4,
        !((x == 2 * i || x == 2 * i + 1) && (y == 2 * j || y == 2 * j + 1)),
    ensures
        final(rgb)@[(y * geometry.width + x) * 4 + channel] == final(other_rgb)@[(y
            * geometry.width + x) * 4 + channel],
{
    let stride = geometry.stride as int;
    let column = x / 2;
    let row = y / 2;
    let at = row * stride + 2 * column;
    assert(2 * column + 2 <= stride);
    assert(2 * i + 2 <= stride);
    assert(row != j || column != i);
    assert(row * stride >= 0) by (nonlinear_arith)
        requires
            row >= 0,
            stride >= 0,
    ;
    if row < j {
        assert((row + 1) * stride <= j * stride) by (nonlinear_arith)
            requires
                row + 1 <= j,
                stride >= 0,
        ;
        assert((row + 1) * stride == row * stride + stride) by (nonlinear_arith);
    } else if j < row {
        assert((j + 1) * stride <= row * stride) by (nonlinear_arith)
            requires
                j + 1 <= row,
                stride >= 0,
        ;
        assert((j + 1) * stride == j * stride + stride) by (nonlinear_arith);
    }
    assert(uv_plane@[at] == other_uv_plane@[at]);
    assert(uv_plane@[at + 1] == other_uv_plane@[at + 1]);
    a_chroma_pair_colours_its_own_block(
        geometry,
        y_plane,
        uv_plane,
        rgb,
        geometry,
        y_plane,
        other_uv_plane,
        other_rgb,
        x,
        y,
        column,
        row,
        x,
        y,
        column,
        row,
        channel,
    );
}

/// Converting a picture leaves the bytes beyond it alone, and none are added.
pub proof fn converting_stays_in_the_picture(
    geometry: Geometry,
    y_plane: &[u8],
    uv_plane: &[u8],
    rgb: &mut Vec<u8>,
    grey: &mut Vec<u8>,
    at: int,
)
    requires
        call_ensures(convert_nv12_to_rgb, (geometry, y_plane, uv_plane, rgb), ()),
        call_ensures(convert_luma_to_gray, (geometry, y_plane, grey), ()),
        old(rgb)@ == old(grey)@,
        geometry.width * geometry.height * 4 <= at < old(rgb)@.len(),
    ensures
        final(rgb)@.len() == old(rgb)@.len(),
        final(grey)@.len() == old(grey)@.len(),
        final(rgb)@[at] == old(rgb)@[at],
        final(grey)@[at] == old(grey)@[at],
{
}

/// A pixel of a luma picture shows its own sample, in grey, and is opaque.
pub proof fn a_luma_sample_is_its_own_pixel(
    geometry: Geometry,
    y_plane: &[u8],
    rgb: &mut Vec<u8>,
    x: int,
    y: int,
)
    requires
        call_ensures(convert_luma_to_gray, (geometry, y_plane, rgb), ()),
        rgba_len(geometry.width, geometry.height) <= old(rgb)@.len(),
        0 <= x < geometry.width,
        0 <= y < geometry.height,
    ensures
        ({
            let sample = y_plane@[y * geometry.stride + x];
            let at = (y * geometry.width + x) * 4;
            &&& final(rgb)@[at] == sample
            &&& final(rgb)@[at + 1] == sample
            &&& final(rgb)@[at + 2] == sample
            &&& final(rgb)@[at + 3] == 255
        }),
{
    let pixel = |x: int, y: int, channel: int|
        gray_byte(y_plane@, geometry.stride as int, x, y, channel);
    let (width, height) = (geometry.width as int, geometry.height as int);
    lemma_drawn_pixel(old(rgb)@, width, height, pixel, x, y, 0);
    lemma_drawn_pixel(old(rgb)@, width, height, pixel, x, y, 1);
    lemma_drawn_pixel(old(rgb)@, width, height, pixel, x, y, 2);
    lemma_drawn_pixel(old(rgb)@, width, height, pixel, x, y, 3);
}

/// A packed plane is taken over byte by byte.
pub proof fn a_packed_plane_is_taken_as_it_is(plane: &[u8], rgb: &mut Vec<u8>, at: int)
    requires
        call_ensures(copy_plane, (plane, rgb), ()),
        old(rgb)@.len() <= plane@.len(),
        0 <= at < old(rgb)@.len(),
    ensures
        final(rgb)@.len() == old(rgb)@.len(),
        final(rgb)@[at] == plane@[at],
{
}

/// A captured frame is what converting its planes gives: as NV12, packed, or as
/// luma alone, by the format that the driver reported.
pub proof fn a_frame_is_its_converted_planes<'a>(
    capture: &'a mut DileVtCapture,
    planes: &[&[u8]],
    frame: CapturedFrame<'a>,
    rgb: &mut Vec<u8>,
)
    requires
        call_ensures(DileVtCapture::acquire_frame, (capture, Some(planes)), frame),
        old(rgb)@ == old(capture).picture(),
        match old(capture).format() {
            Some(DileVtPixelFormat::Yuv420SemiPlanar) => call_ensures(
                convert_nv12_to_rgb,
                (old(capture).layout(), planes@[0], planes@[1], rgb),
                (),
            ),
            Some(DileVtPixelFormat::Rgb) => call_ensures(copy_plane, (planes@[0], rgb), ()),
            _ => call_ensures(
                convert_luma_to_gray,
                (old(capture).layout(), planes@[0], rgb),
                (),
            ),
        },
    ensures
        frame.data@ == final(rgb)@,
        final(capture).picture() == frame.data@,
        (frame.width, frame.height) == (
            old(capture).layout().width,
            old(capture).layout().height,
        ),
        !frame.is_bgra,
{
}

/// Where the driver named no frame buffer, the last picture is shown again.
pub proof fn no_frame_buffer_repeats_the_picture<'a>(
    capture: &'a mut DileVtCapture,
    frame: CapturedFrame<'a>,
)
    requires
        call_ensures(
            DileVtCapture::acquire_frame,
            (capture, None::<&[&[u8]]>),
            frame,
        ),
    ensures
        frame.data@ == old(capture).picture(),
        final(capture).picture() == old(capture).picture(),
        (frame.width, frame.height) == (
            old(capture).layout().width,
            old(capture).layout().height,
        ),
{
}

/// The driver's running index goes round the ring: buffers come in order, and
/// after the last one comes the first.
pub proof fn the_ring_goes_round(
    capture: &DileVtCapture,
    current: u32,
    next: u32,
    index: usize,
    next_index: usize,
)
    requires
        call_ensures(DileVtCapture::buffer_index, (capture, current), index),
        call_ensures(DileVtCapture::buffer_index, (capture, next), next_index),
        capture.wf(),
        next == current + 1,
    ensures
        index < capture.ring(),
        current < capture.ring() ==> index == current,
        next_index == (if index + 1 == capture.ring() {
            0
        } else {
            index + 1
        }),
{
    let n = capture.ring() as int;
    let c = current as int;
    vstd::arithmetic::div_mod::lemma_fundamental_div_mod(c, n);
    let q = c / n;
    let r = c % n;
    assert(q * n == n * q) by (nonlinear_arith);
    if r + 1 == n {
        assert((q + 1) * n == q * n + n) by (nonlinear_arith);
        vstd::arithmetic::div_mod::lemma_fundamental_div_mod_converse(c + 1, n, q + 1, 0);
    } else {
        vstd::arithmetic::div_mod::lemma_fundamental_div_mod_converse(c + 1, n, q, r + 1);
    }
    if c < n {
        vstd::arithmetic::div_mod::lemma_small_mod(c as nat, n as nat);
    }
}

/// Planes can be converted exactly when they hold every sample that some pixel of
/// the picture needs.
pub proof fn planes_are_refused_only_for_a_missing_sample(
    capture: &DileVtCapture,
    planes: &[&[u8]],
    yes: bool,
)
    requires
        call_ensures(DileVtCapture::can_convert, (capture, planes), yes),
        capture.layout().width > 0,
        capture.layout().height > 0,
    ensures
        capture.format() == Some(DileVtPixelFormat::Yuv420SemiPlanar) ==> (yes <==> planes@.len()
            >= 2 && forall|x: int, y: int|
            #![trigger lies_in(capture.layout(), x, y)]
            lies_in(capture.layout(), x, y) ==> y * capture.layout().stride + x
                < planes@[0]@.len() && (y / 2) * capture.layout().stride + (x / 2) * 2 + 1
                < planes@[1]@.len()),
        capture.format() == Some(DileVtPixelFormat::Rgb) ==> (yes <==> planes@.len() >= 1
            && capture.layout().width * capture.layout().height * 4 <= planes@[0]@.len()),
        capture.format() != Some(DileVtPixelFormat::Yuv420SemiPlanar) && capture.format() != Some(
            DileVtPixelFormat::Rgb,
        ) ==> (yes <==> planes@.len() >= 1 && forall|x: int, y: int|
            #![trigger lies_in(capture.layout(), x, y)]
            lies_in(capture.layout(), x, y) ==> y * capture.layout().stride + x
                < planes@[0]@.len()),
{
    let geometry = capture.layout();
    let stride = geometry.stride as int;
    let (right, bottom) = (geometry.width - 1, geometry.height - 1);
    assert(lies_in(geometry, right, bottom));
    assert forall|x: int, y: int| #[trigger] lies_in(geometry, x, y) implies y * stride + x
        <= bottom * stride + right && (y / 2) * stride + (x / 2) * 2 + 1 <= (bottom / 2) * stride
        + (right / 2) * 2 + 1 by {
        lemma_rows_in_order(y, bottom, stride);
        lemma_rows_in_order(y / 2, bottom / 2, stride);
    }
}

/// A pixel of a picture.
pub open spec fn lies_in(geometry: Geometry, x: int, y: int) -> bool {
    0 <= x < geometry.width && 0 <= y < geometry.height
}

/// Off a television the stand-in shows each column in its own colour, from top to
/// bottom; on one it stays as it is.
pub proof fn the_stand_in_shows_its_columns<'a>(
    capture: &'a mut MockCapture,
    columns: &[RgbColor],
    frame: CapturedFrame<'a>,
    x: int,
    y: int,
)
    requires
        call_ensures(MockCapture::acquire_frame, (capture, columns), frame),
        old(capture).wf(),
        !old(capture).on_tv() ==> columns@.len() == old(capture).size().0,
        0 <= x < old(capture).size().0,
        0 <= y < old(capture).size().1,
    ensures
        (frame.width, frame.height) == old(capture).size(),
        !frame.is_bgra,
        old(capture).on_tv() ==> frame.data@ == old(capture).picture(),
        !old(capture).on_tv() ==> {
            let at = (y * frame.width + x) * 4;
            &&& frame.data@[at] == columns@[x].r
            &&& frame.data@[at + 1] == columns@[x].g
            &&& frame.data@[at + 2] == columns@[x].b
            &&& frame.data@[at + 3] == 255
        },
{
    let (width, height) = (old(capture).size().0 as int, old(capture).size().1 as int);
    let pixel = |x: int, y: int, channel: int| column_byte(columns@, x, channel);
    let before = old(capture).picture();
    lemma_drawn_pixel(before, width, height, pixel, x, y, 0);
    lemma_drawn_pixel(before, width, height, pixel, x, y, 1);
    lemma_drawn_pixel(before, width, height, pixel, x, y, 2);
    lemma_drawn_pixel(before, width, height, pixel, x, y, 3);
}

/// A capture begins with a black picture of the size that it was given, four bytes to
/// a pixel.
pub proof fn a_new_picture_is_black(
    width: u32,
    height: u32,
    is_tv_hardware: bool,
    stand_in: MockCapture,
    stand_in_size: (u32, u32),
    geometry: Geometry,
    pixel_format: Option<DileVtPixelFormat>,
    num_vfbs: usize,
    driver: DileVtCapture,
    driver_size: (u32, u32),
)
    requires
        width * height * 4 <= u32::MAX,
        geometry.width * geometry.height * 4 <= u32::MAX,
        num_vfbs > 0,
        call_ensures(MockCapture::new, (width, height, is_tv_hardware), stand_in),
        call_ensures(MockCapture::resolution, (&stand_in,), stand_in_size),
        call_ensures(DileVtCapture::new, (geometry, pixel_format, num_vfbs), driver),
        call_ensures(DileVtCapture::resolution, (&driver,), driver_size),
    ensures
        stand_in_size == (width, height),
        stand_in.on_tv() == is_tv_hardware,
        stand_in.picture().len() == width * height * 4,
        forall|i: int| 0 <= i < stand_in.picture().len() ==> #[trigger] stand_in.picture()[i] == 0,
        driver_size == (geometry.width, geometry.height),
        driver.layout().stride == geometry.stride,
        driver.format() == pixel_format,
        driver.ring() == num_vfbs,
        driver.picture().len() == geometry.width * geometry.height * 4,
        forall|i: int| 0 <= i < driver.picture().len() ==> #[trigger] driver.picture()[i] == 0,
{
    assert(width * height >= 0) by (nonlinear_arith);
    assert(geometry.width * geometry.height >= 0) by (nonlinear_arith);
}

/// A setup that is ready makes a capture of the driver's own picture, format and frame
/// buffers; one that failed makes none, and says why.
pub proof fn a_ready_setup_makes_a_capture(
    setup: &CaptureSetup,
    geometry: Geometry,
    capture: Result<DileVtCapture, SetupError>,
)
    requires
        setup.stage is Ready || setup.stage is Failed,
        crate::dile::setup_wf(*setup),
        call_ensures(CaptureSetup::geometry, (setup,), geometry),
        geometry.width * geometry.height * 4 <= u32::MAX,
        call_ensures(DileVtCapture::try_new, (setup,), capture),
    ensures
        setup.stage is Ready <==> capture is Ok,
        setup.stage matches SetupStage::Failed(error) ==> (capture matches Err(reported) && reported
            == error),
        capture matches Ok(made) ==> made.layout() == geometry && made.format()
            == setup.properties.pixel_format && made.ring() == setup.capability.num_vfbs,
        capture matches Ok(made) ==> forall|i: int|
            0 <= i < made.picture().len() ==> #[trigger] made.picture()[i] == 0,
{
}

/// The hardware is used if it could be opened, as it is; the stand-in only if not.
pub proof fn the_stand_in_is_only_a_stand_in<H, E>(
    hardware: Result<H, E>,
    width: u32,
    height: u32,
    is_tv_hardware: bool,
    capture: Capture<H>,
    genuine: bool,
)
    requires
        width * height * 4 <= u32::MAX,
        call_ensures(create_capture::<H, E>, (hardware, width, height, is_tv_hardware), capture),
        call_ensures(Capture::<H>::is_real_hardware, (&capture,), genuine),
    ensures
        genuine <==> hardware is Ok,
        hardware matches Ok(opened) ==> capture == Capture::Hardware(opened),
        capture matches Capture::Mock(stand_in) ==> stand_in.size() == (width, height)
            && stand_in.on_tv() == is_tv_hardware,
{
}

/// A value in millionths of a step, kept between black and white.
pub open spec fn kept_in_range(millionths: int) -> int {
    if millionths < 0 {
        0
    } else if millionths > 255_000_000 {
        255_000_000
    } else {
        millionths
    }
}

/// Every pixel has the colour that BT.709 gives its samples in video range, each
/// channel to within a step; red, green and blue stand in this order, and every pixel
/// is opaque.
pub proof fn pixels_keep_to_the_standard(
    geometry: Geometry,
    y_plane: &[u8],
    uv_plane: &[u8],
    rgb: &mut Vec<u8>,
    x: int,
    y: int,
)
    requires
        call_ensures(convert_nv12_to_rgb, (geometry, y_plane, uv_plane, rgb), ()),
        rgba_len(geometry.width, geometry.height) <= old(rgb)@.len(),
        0 <= x < geometry.width,
        0 <= y < geometry.height,
    ensures
        ({
            let sample = y_plane@[y * geometry.stride + x];
            let light = if sample > 16 {
                sample - 16
            } else {
                0
            };
            let u = uv_plane@[(y / 2) * geometry.stride + (x / 2) * 2] - 128;
            let v = uv_plane@[(y / 2) * geometry.stride + (x / 2) * 2 + 1] - 128;
            let at = (y * geometry.width + x) * 4;
            let red = kept_in_range(1_164_384 * light + 1_792_741 * v);
            let green = kept_in_range(1_164_384 * light - 213_249 * u - 532_909 * v);
            let blue = kept_in_range(1_164_384 * light + 2_112_402 * u);
            &&& -700_000 <= 1_000_000 * final(rgb)@[at] - red <= 700_000
            &&& -1_000_000 <= 1_000_000 * final(rgb)@[at + 1] - green <= 1_000_000
            &&& -700_000 <= 1_000_000 * final(rgb)@[at + 2] - blue <= 700_000
            &&& final(rgb)@[at + 3] == 255
        }),
{
    let pixel = |x: int, y: int, channel: int|
        nv12_byte(y_plane@, uv_plane@, geometry.stride as int, x, y, channel);
    let width = geometry.width as int;
    let height = geometry.height as int;
    lemma_drawn_pixel(old(rgb)@, width, height, pixel, x, y, 0);
    lemma_drawn_pixel(old(rgb)@, width, height, pixel, x, y, 1);
    lemma_drawn_pixel(old(rgb)@, width, height, pixel, x, y, 2);
    lemma_drawn_pixel(old(rgb)@, width, height, pixel, x, y, 3);
    lemma_standard_colours(
        y_plane@[y * geometry.stride + x],
        uv_plane@[(y / 2) * geometry.stride + (x / 2) * 2],
        uv_plane@[(y / 2) * geometry.stride + (x / 2) * 2 + 1],
    );
}

proof fn lemma_standard_colours(y: u8, u: u8, v: u8)
    ensures
        -700_000 <= 1_000_000 * bt709(y, u, v, 0) - kept_in_range(
            1_164_384 * luma(y) + 1_792_741 * (v - 128),
        ) <= 700_000,
        -1_000_000 <= 1_000_000 * bt709(y, u, v, 1) - kept_in_range(
            1_164_384 * luma(y) - 213_249 * (u - 128) - 532_909 * (v - 128),
        ) <= 1_000_000,
        -700_000 <= 1_000_000 * bt709(y, u, v, 2) - kept_in_range(
            1_164_384 * luma(y) + 2_112_402 * (u - 128),
        ) <= 700_000,
        bt709(y, u, v, 3) == 255,
{
}

/// `byte` is the whole number nearest to `value` 256ths, the larger of two, as far as a
/// byte reaches.
pub open spec fn nearest_byte(byte: u8, value: int) -> bool {
    &&& 0 <= value <= 255 * 256 ==> -128 < 256 * byte - value <= 128
    &&& value < 0 ==> byte == 0
    &&& value > 255 * 256 ==> byte == 255
}

/// The colours of a pixel are rounded to the nearest, not down: each channel is the
/// byte nearest to its sum of the samples in 256ths.
pub proof fn pixels_are_rounded_to_the_nearest(
    geometry: Geometry,
    y_plane: &[u8],
    uv_plane: &[u8],
    rgb: &mut Vec<u8>,
    x: int,
    y: int,
)
    requires
        call_ensures(convert_nv12_to_rgb, (geometry, y_plane, uv_plane, rgb), ()),
        rgba_len(geometry.width, geometry.height) <= old(rgb)@.len(),
        0 <= x < geometry.width,
        0 <= y < geometry.height,
        y_plane@[y * geometry.stride + x] >= 16,
    ensures
        ({
            let light = y_plane@[y * geometry.stride + x] - 16;
            let u = uv_plane@[(y / 2) * geometry.stride + (x / 2) * 2] - 128;
            let v = uv_plane@[(y / 2) * geometry.stride + (x / 2) * 2 + 1] - 128;
            let at = (y * geometry.width + x) * 4;
            &&& nearest_byte(final(rgb)@[at], 298 * light + 459 * v)
            &&& nearest_byte(final(rgb)@[at + 1], 298 * light - 55 * u - 136 * v)
            &&& nearest_byte(final(rgb)@[at + 2], 298 * light + 541 * u)
        }),
{
    let pixel = |x: int, y: int, channel: int|
        nv12_byte(y_plane@, uv_plane@, geometry.stride as int, x, y, channel);
    let width = geometry.width as int;
    let height = geometry.height as int;
    lemma_drawn_pixel(old(rgb)@, width, height, pixel, x, y, 0);
    lemma_drawn_pixel(old(rgb)@, width, height, pixel, x, y, 1);
    lemma_drawn_pixel(old(rgb)@, width, height, pixel, x, y, 2);
}

} // verus!
