//! Device-independent RGBA images and the channel order of their pixels.

use vstd::prelude::*;

verus! {

/// What an image is: its dimensions and its bytes, four per pixel in the
/// order red, green, blue, alpha, row by row from the top.
pub struct ImageModel {
    pub width: nat,
    pub height: nat,
    pub pixels: Seq<u8>,
}

impl ImageModel {
    /// Whether the bytes are exactly those of `width` by `height` pixels.
    pub open spec fn well_formed(self) -> bool {
        self.pixels.len() == 4 * self.width * self.height
    }
}

/// An RGBA image whose buffer holds exactly four bytes for each pixel.
#[derive(Debug)]
pub struct RgbaImage {
    width: u32,
    height: u32,
    pixels: Vec<u8>,
}

impl View for RgbaImage {
    type V = ImageModel;

    closed spec fn view(&self) -> ImageModel {
        ImageModel {
            width: self.width as nat,
            height: self.height as nat,
            pixels: self.pixels@,
        }
    }
}

/// The product of two 32-bit dimensions and four fits 128 bits.
proof fn lemma_byte_count_bound(width: u32, height: u32)
    ensures
        0 <= (width as int) * (height as int) <= 0xffff_ffff * 0xffff_ffff,
        4 * width * height == 4 * ((width as int) * (height as int)),
{
    assert(0 <= (width as int) * (height as int) <= 0xffff_ffff * 0xffff_ffff) by (nonlinear_arith)
        requires
            0 <= width <= 0xffff_ffff,
            0 <= height <= 0xffff_ffff,
    ;
    assert(4 * width * height == 4 * ((width as int) * (height as int))) by (nonlinear_arith);
}

impl RgbaImage {
    #[verifier::type_invariant]
    spec fn buffer_fits(self) -> bool {
        self.pixels@.len() == 4 * self.width * self.height
    }

    /// Makes an image of `width` by `height` pixels from its bytes, where
    /// there are exactly four of them for each pixel.
    pub fn from_raw(width: u32, height: u32, pixels: Vec<u8>) -> (r: Option<RgbaImage>)
        ensures
            r is Some <==> pixels@.len() == 4 * width * height,
            r matches Some(image) ==> image@ == (ImageModel {
                width: width as nat,
                height: height as nat,
                pixels: pixels@,
            }),
    {
        proof {
            lemma_byte_count_bound(width, height);
        }
        let cells: u128 = (width as u128) * (height as u128);
        if pixels.len() as u128 == 4 * cells {
            Some(RgbaImage { width, height, pixels })
        } else {
            None
        }
    }

    /// Makes an image from bytes that are known to be four for each pixel.
    pub(crate) fn from_fitting(width: u32, height: u32, pixels: Vec<u8>) -> (image: RgbaImage)
        requires
            pixels@.len() == 4 * width * height,
        ensures
            image@ == (ImageModel {
                width: width as nat,
                height: height as nat,
                pixels: pixels@,
            }),
    {
        RgbaImage { width, height, pixels }
    }

    /// The number of pixels in a row.
    pub fn width(&self) -> (w: u32)
        ensures
            w == self@.width,
    {
        self.width
    }

    /// The number of rows.
    pub fn height(&self) -> (h: u32)
        ensures
            h == self@.height,
    {
        self.height
    }

    /// The bytes of the image: four for each pixel.
    pub fn pixels(&self) -> (p: &Vec<u8>)
        ensures
            p@ == self@.pixels,
            self@.well_formed(),
    {
        proof {
            use_type_invariant(self);
        }
        &self.pixels
    }

    /// Gives up the image for its bytes.
    pub fn into_raw(self) -> (p: Vec<u8>)
        ensures
            p@ == self@.pixels,
            self@.well_formed(),
    {
        proof {
            use_type_invariant(&self);
        }
        self.pixels
    }
}

/// The bytes of `bgra`, taken four at a time, with the first and the third
/// byte of each four exchanged. Bytes after the last full four are dropped.
pub open spec fn rgba_of_bgra(bgra: Seq<u8>) -> Seq<u8> {
    Seq::new(
        (bgra.len() - bgra.len() % 4) as nat,
        |i: int|
            if i % 4 == 0 {
                bgra[i + 2]
            } else if i % 4 == 2 {
                bgra[i - 2]
            } else {
                bgra[i]
            },
    )
}

/// The four bytes of a 32-bit cell, the least significant first.
pub open spec fn cell_byte(cell: u32, k: int) -> u8 {
    if k == 0 {
        (cell & 0xff) as u8
    } else if k == 1 {
        ((cell >> 8) & 0xff) as u8
    } else if k == 2 {
        ((cell >> 16) & 0xff) as u8
    } else {
        ((cell >> 24) & 0xff) as u8
    }
}

/// The bytes of a buffer of 32-bit cells, each cell's least significant byte
/// first.
pub open spec fn bytes_of_cells(cells: Seq<u32>) -> Seq<u8> {
    Seq::new(4 * cells.len(), |i: int| cell_byte(cells[i / 4], i % 4))
}

/// A pixel given as blue, green, red, alpha comes out as red, green, blue,
/// alpha.
pub proof fn lemma_remap_pixel(b: u8, g: u8, r: u8, a: u8)
    ensures
        rgba_of_bgra(seq![b, g, r, a]) == seq![r, g, b, a],
{
    assert(rgba_of_bgra(seq![b, g, r, a]) =~= seq![r, g, b, a]);
}

/// In a buffer of whole pixels, each pixel keeps its place and its green and
/// alpha bytes, and its blue and red bytes change places.
pub proof fn lemma_remap_each_pixel(bgra: Seq<u8>, p: int)
    requires
        bgra.len() % 4 == 0,
        0 <= p < bgra.len() / 4,
    ensures
        rgba_of_bgra(bgra).len() == bgra.len(),
        rgba_of_bgra(bgra)[4 * p] == bgra[4 * p + 2],
        rgba_of_bgra(bgra)[4 * p + 1] == bgra[4 * p + 1],
        rgba_of_bgra(bgra)[4 * p + 2] == bgra[4 * p],
        rgba_of_bgra(bgra)[4 * p + 3] == bgra[4 * p + 3],
{
}

/// Exchanging blue and red twice gives back the whole pixels of the buffer.
pub proof fn lemma_remap_twice(bgra: Seq<u8>)
    ensures
        rgba_of_bgra(rgba_of_bgra(bgra)) == bgra.take(bgra.len() - bgra.len() % 4),
{
    assert(rgba_of_bgra(rgba_of_bgra(bgra)) =~= bgra.take(bgra.len() - bgra.len() % 4));
}

/// Exchanges the first and the third byte of each four bytes of `bgra`.
pub fn bgra_to_rgba(bgra: &[u8]) -> (rgba: Vec<u8>)
    ensures
        rgba@ == rgba_of_bgra(bgra@),
{
    let whole: usize = bgra.len() - bgra.len() % 4;
    let mut rgba: Vec<u8> = Vec::new();
    let mut i: usize = 0;
    while i < whole
        invariant
            i <= whole,
            i % 4 == 0,
            whole == bgra@.len() - bgra@.len() % 4,
            rgba@.len() == i,
            forall|j: int| 0 <= j < i ==> rgba@[j] == rgba_of_bgra(bgra@)[j],
        decreases whole - i,
    {
        rgba.push(bgra[i + 2]);
        rgba.push(bgra[i + 1]);
        rgba.push(bgra[i]);
        rgba.push(bgra[i + 3]);
        i += 4;
    }
    assert(rgba@ =~= rgba_of_bgra(bgra@));
    rgba
}

/// The RGBA bytes of a buffer of 32-bit cells that each hold one pixel as
/// blue, green, red, alpha from the least significant byte up.
pub fn cells_to_rgba(cells: &[u32]) -> (rgba: Vec<u8>)
    ensures
        rgba@ == rgba_of_bgra(bytes_of_cells(cells@)),
        rgba@.len() == 4 * cells@.len(),
{
    let mut rgba: Vec<u8> = Vec::new();
    let mut i: usize = 0;
    while i < cells.len()
        invariant
            i <= cells.len(),
            rgba@.len() == 4 * i,
            forall|j: int| 0 <= j < 4 * i ==> rgba@[j] == rgba_of_bgra(bytes_of_cells(cells@))[j],
        decreases cells.len() - i,
    {
        let cell: u32 = cells[i];
        rgba.push(((cell >> 16) & 0xff) as u8);
        rgba.push(((cell >> 8) & 0xff) as u8);
        rgba.push((cell & 0xff) as u8);
        rgba.push(((cell >> 24) & 0xff) as u8);
        i += 1;
    }
    assert(rgba@ =~= rgba_of_bgra(bytes_of_cells(cells@)));
    rgba
}

} // verus!
