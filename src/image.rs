use vstd::prelude::*;

verus! {

/// An 8-bit RGB pixel, after tone mapping.
#[derive(Clone, Copy, Debug, PartialEq, Eq, Structural)]
pub struct Pixel {
    pub r: u8,
    pub g: u8,
    pub b: u8,
}

/// ASCII decimal digits of `n`, most significant first, without leading zeros.
pub open spec fn decimal_digits(n: nat) -> Seq<u8>
    decreases n,
{
    if n < 10 {
        seq![(48 + n) as u8]
    } else {
        decimal_digits(n / 10).push((48 + n % 10) as u8)
    }
}

/// The header of a binary pixel map: `P6`, the dimensions, and the maximum
/// channel value 255, each on its own line.
pub open spec fn ppm_header(width: nat, height: nat) -> Seq<u8> {
    // "P6\n", width, " ", height, "\n255\n"
    seq![80u8, 54u8, 10u8] + decimal_digits(width) + seq![32u8] + decimal_digits(height) + seq![
        10u8,
        50u8,
        53u8,
        53u8,
        10u8,
    ]
}

/// The raw bytes of a run of pixels: R, G, B for each pixel in turn.
pub open spec fn pixel_bytes(s: Seq<Pixel>) -> Seq<u8>
    decreases s.len(),
{
    if s.len() == 0 {
        seq![]
    } else {
        pixel_bytes(s.drop_last()) + seq![s.last().r, s.last().g, s.last().b]
    }
}

/// Appends the decimal digits of `n` to `out`.
pub fn push_decimal(out: &mut Vec<u8>, n: usize)
    ensures
        final(out)@ == old(out)@ + decimal_digits(n as nat),
    decreases n,
{
    if n >= 10 {
        push_decimal(out, n / 10);
    }
    let digit: u8 = (n % 10) as u8;
    out.push(48u8 + digit);
    assert(out@ =~= old(out)@ + decimal_digits(n as nat));
}

/// Bytes of a pixel map header, in order: "P6\n", width, " ", height, "\n255\n".
fn push_header(out: &mut Vec<u8>, width: usize, height: usize)
    ensures
        final(out)@ == old(out)@ + ppm_header(width as nat, height as nat),
{
    out.push(80u8);
    out.push(54u8);
    out.push(10u8);
    push_decimal(out, width);
    out.push(32u8);
    push_decimal(out, height);
    out.push(10u8);
    out.push(50u8);
    out.push(53u8);
    out.push(53u8);
    out.push(10u8);
    assert(out@ =~= old(out)@ + ppm_header(width as nat, height as nat));
}

/// Position of pixel `(i, j)` (column `i`, row `j`) in a row-major buffer
/// whose rows hold `width` pixels.
pub open spec fn pixel_index(width: nat, i: nat, j: nat) -> int {
    (j * width + i) as int
}

proof fn lemma_index_in_bounds(width: nat, height: nat, i: nat, j: nat)
    requires
        i < width,
        j < height,
    ensures
        0 <= pixel_index(width, i, j) < width * height,
{
    assert(j * width + i < width * height) by (nonlinear_arith)
        requires
            i < width,
            j < height,
    ;
}

/// A frame of 8-bit pixels, `height` rows of `width` pixels, top row first.
pub struct Image {
    width: usize,
    height: usize,
    pixels: Vec<Pixel>,
}

impl Image {
    /// Number of pixels in a row.
    pub closed spec fn spec_width(&self) -> nat {
        self.width as nat
    }

    /// Number of rows.
    pub closed spec fn spec_height(&self) -> nat {
        self.height as nat
    }

    /// All pixels, row by row, top row first.
    pub closed spec fn spec_pixels(&self) -> Seq<Pixel> {
        self.pixels@
    }

    /// The buffer holds exactly one pixel per position of the frame.
    pub open spec fn wf(&self) -> bool {
        self.spec_pixels().len() == self.spec_width() * self.spec_height()
    }

    /// Pixel in column `i` of row `j`.
    pub open spec fn spec_pixel(&self, i: nat, j: nat) -> Pixel {
        self.spec_pixels()[pixel_index(self.spec_width(), i, j)]
    }

    /// A black frame of the given dimensions.
    pub fn new(width: usize, height: usize) -> (r: Image)
        requires
            width * height <= usize::MAX,
        ensures
            r.wf(),
            r.spec_width() == width,
            r.spec_height() == height,
            forall|k: int|
                0 <= k < r.spec_pixels().len() ==> r.spec_pixels()[k] == (Pixel { r: 0, g: 0, b: 0 }),
    {
        let n: usize = width * height;
        let black = Pixel { r: 0, g: 0, b: 0 };
        let mut pixels: Vec<Pixel> = Vec::with_capacity(n);
        let mut k: usize = 0;
        while k < n
            invariant
                k <= n,
                pixels@.len() == k,
                forall|m: int| 0 <= m < k ==> pixels@[m] == black,
            decreases n - k,
        {
            pixels.push(black);
            k += 1;
        }
        Image { width, height, pixels }
    }

    /// Number of pixels in a row.
    pub fn width(&self) -> (r: usize)
        ensures
            r == self.spec_width(),
    {
        self.width
    }

    /// Number of rows.
    pub fn height(&self) -> (r: usize)
        ensures
            r == self.spec_height(),
    {
        self.height
    }

    /// Pixel in column `i` of row `j`.
    pub fn pixel(&self, i: usize, j: usize) -> (r: Pixel)
        requires
            self.wf(),
            i < self.spec_width(),
            j < self.spec_height(),
        ensures
            r == self.spec_pixel(i as nat, j as nat),
    {
        let len: usize = self.pixels.len();
        proof {
            assert(len == self.width * self.height);
            lemma_index_in_bounds(self.width as nat, self.height as nat, i as nat, j as nat);
        }
        self.pixels[j * self.width + i]
    }

    /// Stores `p` in column `i` of row `j`, leaving every other pixel as it was.
    pub fn set_pixel(&mut self, i: usize, j: usize, p: Pixel)
        requires
            old(self).wf(),
            i < old(self).spec_width(),
            j < old(self).spec_height(),
        ensures
            final(self).wf(),
            final(self).spec_width() == old(self).spec_width(),
            final(self).spec_height() == old(self).spec_height(),
            final(self).spec_pixels() == old(self).spec_pixels().update(
                pixel_index(old(self).spec_width(), i as nat, j as nat),
                p,
            ),
    {
        let len: usize = self.pixels.len();
        proof {
            assert(len == self.width * self.height);
            lemma_index_in_bounds(self.width as nat, self.height as nat, i as nat, j as nat);
        }
        let k: usize = j * self.width + i;
        self.pixels.set(k, p);
    }

    /// The frame as a binary pixel map: the header, then the R, G and B bytes
    /// of every pixel, row by row, top row first.
    pub fn encode_ppm(&self) -> (r: Vec<u8>)
        requires
            self.wf(),
        ensures
            r@ == ppm_header(self.spec_width(), self.spec_height()) + pixel_bytes(
                self.spec_pixels(),
            ),
    {
        let mut out: Vec<u8> = Vec::new();
        push_header(&mut out, self.width, self.height);
        let ghost head = out@;
        let n: usize = self.pixels.len();
        let mut k: usize = 0;
        while k < n
            invariant
                n == self.pixels@.len(),
                k <= n,
                out@ == head + pixel_bytes(self.pixels@.take(k as int)),
            decreases n - k,
        {
            let p = self.pixels[k];
            out.push(p.r);
            out.push(p.g);
            out.push(p.b);
            proof {
                let s = self.pixels@.take(k + 1);
                assert(s.drop_last() =~= self.pixels@.take(k as int));
                assert(out@ =~= head + pixel_bytes(s));
            }
            k += 1;
        }
        assert(self.pixels@.take(n as int) =~= self.pixels@);
        out
    }
}

} // verus!
