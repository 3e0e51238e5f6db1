//! Pixels, pixel grids and the colour distance between them.

use vstd::prelude::*;

verus! {

/// The largest distance two pixels can have: 255 on each of red, green and blue.
pub const MAX_PIXEL_DISTANCE: u32 = 765;

/// One pixel: red, green, blue and alpha, eight bits each.
#[derive(Clone, Copy, Debug, PartialEq, Eq, Structural)]
pub struct Pixel {
    pub r: u8,
    pub g: u8,
    pub b: u8,
    pub a: u8,
}

/// The absolute difference of two channel values.
pub open spec fn channel_gap(x: u8, y: u8) -> int {
    if x >= y {
        x - y
    } else {
        y - x
    }
}

/// The colour distance of two pixels: the channel gaps of red, green and blue,
/// added up. Alpha takes no part.
pub open spec fn color_distance(p: Pixel, q: Pixel) -> int {
    channel_gap(p.r, q.r) + channel_gap(p.g, q.g) + channel_gap(p.b, q.b)
}

/// The colour distances of the first `n` positions of two pixel rows, added up.
pub open spec fn distance_upto(a: Seq<Pixel>, b: Seq<Pixel>, n: nat) -> int
    decreases n,
{
    if n == 0 {
        0
    } else {
        distance_upto(a, b, (n - 1) as nat) + color_distance(a[n - 1], b[n - 1])
    }
}

/// The total distance of two pixel rows of one length.
pub open spec fn total_distance(a: Seq<Pixel>, b: Seq<Pixel>) -> int {
    distance_upto(a, b, a.len())
}

fn gap(x: u8, y: u8) -> (d: u32)
    ensures
        d == channel_gap(x, y),
        d <= 255,
{
    if x >= y {
        (x - y) as u32
    } else {
        (y - x) as u32
    }
}

/// The colour distance of two pixels, between 0 and 765.
pub fn diff_rgba3(rgba1: Pixel, rgba2: Pixel) -> (d: u32)
    ensures
        d == color_distance(rgba1, rgba2),
        d <= MAX_PIXEL_DISTANCE,
{
    gap(rgba1.r, rgba2.r) + gap(rgba1.g, rgba2.g) + gap(rgba1.b, rgba2.b)
}

/// What a pixel grid is: its width, its height, and its pixels row by row from
/// the top left.
pub struct GridView {
    pub width: nat,
    pub height: nat,
    pub pixels: Seq<Pixel>,
}

/// A raster image: `width * height` pixels, row by row from the top left.
#[derive(Debug)]
pub struct PixelGrid {
    width: u32,
    height: u32,
    pixels: Vec<Pixel>,
}

/// The pixels that a row of raw bytes holds, four bytes to a pixel in the
/// order red, green, blue, alpha.
pub open spec fn pixels_of_raw(raw: Seq<u8>) -> Seq<Pixel> {
    Seq::new(
        (raw.len() / 4) as nat,
        |i: int| Pixel { r: raw[4 * i], g: raw[4 * i + 1], b: raw[4 * i + 2], a: raw[4 * i + 3] },
    )
}

/// The byte at position `i` of the raw form of a row of pixels.
pub open spec fn raw_byte(pixels: Seq<Pixel>, i: int) -> u8 {
    let p = pixels[i / 4];
    if i % 4 == 0 {
        p.r
    } else if i % 4 == 1 {
        p.g
    } else if i % 4 == 2 {
        p.b
    } else {
        p.a
    }
}

/// The raw bytes of a row of pixels, four bytes to a pixel.
pub open spec fn raw_of_pixels(pixels: Seq<Pixel>) -> Seq<u8> {
    Seq::new(4 * pixels.len(), |i: int| raw_byte(pixels, i))
}

/// Raw bytes made from pixels give those pixels back.
pub proof fn lemma_raw_round_trip(pixels: Seq<Pixel>)
    ensures
        pixels_of_raw(raw_of_pixels(pixels)) == pixels,
{
    assert(pixels_of_raw(raw_of_pixels(pixels)) =~= pixels);
}

/// The product of two 32-bit numbers is below 2^64.
pub proof fn lemma_area_fits(width: u32, height: u32)
    ensures
        0 <= width as int * height as int <= 0xffff_fffe_0000_0001,
{
    assert(0 <= width as int * height as int <= 0xffff_ffff * 0xffff_ffff) by (nonlinear_arith)
        requires
            0 <= width <= 0xffff_ffff,
            0 <= height <= 0xffff_ffff,
    ;
}

impl View for PixelGrid {
    type V = GridView;

    closed spec fn view(&self) -> GridView {
        GridView {
            width: self.width as nat,
            height: self.height as nat,
            pixels: self.pixels@,
        }
    }
}

impl PixelGrid {
    #[verifier::type_invariant]
    spec fn well_formed(self) -> bool {
        self.pixels@.len() == self.width as nat * self.height as nat
    }

    /// A grid of the given shape, if `pixels` holds exactly `width * height`
    /// pixels.
    pub fn new(width: u32, height: u32, pixels: Vec<Pixel>) -> (grid: Option<PixelGrid>)
        ensures
            grid is Some <==> pixels@.len() == width as nat * height as nat,
            grid matches Some(g) ==> g@ == (GridView {
                width: width as nat,
                height: height as nat,
                pixels: pixels@,
            }),
    {
        proof {
            lemma_area_fits(width, height);
        }
        if pixels.len() as u128 == (width as u128) * (height as u128) {
            Some(PixelGrid { width, height, pixels })
        } else {
            None
        }
    }

    /// A grid of the given shape from exactly `width * height` pixels.
    pub(crate) fn assemble(width: u32, height: u32, pixels: Vec<Pixel>) -> (grid: PixelGrid)
        requires
            pixels@.len() == width as nat * height as nat,
        ensures
            grid@ == (GridView { width: width as nat, height: height as nat, pixels: pixels@ }),
    {
        PixelGrid { width, height, pixels }
    }

    /// A grid of the given shape from raw bytes, four to a pixel, if `raw`
    /// holds exactly `4 * width * height` bytes.
    pub fn from_raw(width: u32, height: u32, raw: &Vec<u8>) -> (grid: Option<PixelGrid>)
        ensures
            grid is Some <==> raw@.len() == 4 * (width as nat * height as nat),
            grid matches Some(g) ==> g@ == (GridView {
                width: width as nat,
                height: height as nat,
                pixels: pixels_of_raw(raw@),
            }),
    {
        proof {
            lemma_area_fits(width, height);
        }
        if raw.len() as u128 != 4 * ((width as u128) * (height as u128)) {
            return None;
        }
        let count: usize = raw.len() / 4;
        let mut pixels: Vec<Pixel> = Vec::with_capacity(count);
        let mut i: usize = 0;
        while i < count
            invariant
                raw@.len() == 4 * count,
                raw@.len() <= usize::MAX,
                i <= count,
                pixels@.len() == i,
                forall|k: int| 0 <= k < i ==> #[trigger] pixels@[k] == pixels_of_raw(raw@)[k],
            decreases count - i,
        {
            let p = Pixel { r: raw[4 * i], g: raw[4 * i + 1], b: raw[4 * i + 2], a: raw[4 * i + 3] };
            pixels.push(p);
            i += 1;
        }
        assert(pixels@ =~= pixels_of_raw(raw@));
        Some(PixelGrid { width, height, pixels })
    }

    /// A grid of the given shape with every pixel equal to `fill`, if that
    /// many pixels can be addressed on this machine.
    pub fn solid(width: u32, height: u32, fill: Pixel) -> (grid: Option<PixelGrid>)
        ensures
            width as nat * height as nat <= usize::MAX <==> grid is Some,
            grid matches Some(g) ==> g@ == (GridView {
                width: width as nat,
                height: height as nat,
                pixels: Seq::new(width as nat * height as nat, |i: int| fill),
            }),
    {
        proof {
            lemma_area_fits(width, height);
        }
        let wide: u128 = (width as u128) * (height as u128);
        if wide > usize::MAX as u128 {
            return None;
        }
        let count: usize = wide as usize;
        let mut pixels: Vec<Pixel> = Vec::new();
        let mut i: usize = 0;
        while i < count
            invariant
                i <= count,
                pixels@.len() == i,
                forall|k: int| 0 <= k < i ==> #[trigger] pixels@[k] == fill,
            decreases count - i,
        {
            pixels.push(fill);
            i += 1;
        }
        assert(pixels@ =~= Seq::new(width as nat * height as nat, |i: int| fill));
        Some(PixelGrid { width, height, pixels })
    }

    /// The number of pixels in a row.
    pub fn width(&self) -> (w: u32)
        ensures
            w == self@.width,
    {
        self.width
    }

    /// The number of rows.
    pub fn height(&self) -> (h: u32)
        ensures
            h == self@.height,
    {
        self.height
    }

    /// The number of pixels.
    pub fn pixel_count(&self) -> (n: usize)
        ensures
            n == self@.pixels.len(),
            n == self@.width * self@.height,
    {
        proof {
            use_type_invariant(self);
        }
        self.pixels.len()
    }

    /// The pixel in column `x` of row `y`, if the grid has one there.
    pub fn get_pixel(&self, x: u32, y: u32) -> (p: Option<Pixel>)
        ensures
            x < self@.width && y < self@.height ==> p == Some(
                self@.pixels[y * self@.width + x],
            ),
            !(x < self@.width && y < self@.height) ==> p is None,
    {
        proof {
            use_type_invariant(self);
        }
        let count: usize = self.pixels.len();
        if x < self.width && y < self.height {
            proof {
                lemma_area_fits(y, self.width);
                assert((y as int) * (self.width as int) + (x as int) < (self.width as int) * (
                self.height as int)) by (nonlinear_arith)
                    requires
                        0 <= x < self.width,
                        0 <= y < self.height,
                ;
                assert(self.pixels@.len() == (self.width as int) * (self.height as int));
                assert((y as u128) * (self.width as u128) == (y as int) * (self.width as int));
            }
            let at: u128 = (y as u128) * (self.width as u128) + (x as u128);
            assert(at < count);
            Some(self.pixels[at as usize])
        } else {
            None
        }
    }

    /// The pixel at position `i`, counted row by row from the top left.
    pub fn pixel_at(&self, i: usize) -> (p: Pixel)
        requires
            i < self@.pixels.len(),
        ensures
            p == self@.pixels[i as int],
    {
        self.pixels[i]
    }

    /// The same grid with position `i` set to `p`; the grid itself where it
    /// has no such position.
    pub fn with_pixel(self, i: usize, p: Pixel) -> (grid: PixelGrid)
        ensures
            i < self@.pixels.len() ==> grid@ == (GridView { pixels: self@.pixels.update(i as int, p), ..self@ }),
            i >= self@.pixels.len() ==> grid@ == self@,
    {
        proof {
            use_type_invariant(&self);
        }
        let PixelGrid { width, height, pixels } = self;
        let mut pixels = pixels;
        if i < pixels.len() {
            pixels.set(i, p);
        }
        PixelGrid { width, height, pixels }
    }

    /// The raw bytes of the grid, four to a pixel.
    pub fn to_raw(&self) -> (raw: Vec<u8>)
        requires
            4 * self@.pixels.len() <= usize::MAX,
        ensures
            raw@ == raw_of_pixels(self@.pixels),
            raw@.len() == 4 * (self@.width * self@.height),
    {
        proof {
            use_type_invariant(self);
        }
        let count: usize = self.pixels.len();
        let mut raw: Vec<u8> = Vec::with_capacity(4 * count);
        let mut i: usize = 0;
        while i < count
            invariant
                count == self.pixels@.len(),
                4 * count <= usize::MAX,
                i <= count,
                raw@.len() == 4 * i,
                forall|k: int| 0 <= k < 4 * i ==> #[trigger] raw@[k] == raw_byte(self.pixels@, k),
            decreases count - i,
        {
            let p = self.pixels[i];
            raw.push(p.r);
            raw.push(p.g);
            raw.push(p.b);
            raw.push(p.a);
            i += 1;
        }
        assert(raw@ =~= raw_of_pixels(self.pixels@));
        raw
    }
}

} // verus!
