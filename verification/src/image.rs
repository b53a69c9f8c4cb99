use vstd::prelude::*;

verus! {

/// The order in which the three colour samples of a pixel are stored.
#[derive(Clone, Copy, Debug, PartialEq, Eq, Structural)]
pub enum ChannelOrder {
    /// Blue, green, red: what the usual decoders hand out.
    Bgr,
    /// Red, green, blue: the order of the tensor's planes.
    Rgb,
}

impl ChannelOrder {
    /// The position inside a pixel of the sample that belongs to `plane`
    /// (0 red, 1 green, 2 blue).
    pub open spec fn spec_slot(self, plane: int) -> int {
        match self {
            ChannelOrder::Bgr => 2 - plane,
            ChannelOrder::Rgb => plane,
        }
    }

    pub fn slot(self, plane: usize) -> (s: usize)
        requires
            plane < 3,
        ensures
            s == self.spec_slot(plane as int),
            s < 3,
    {
        match self {
            ChannelOrder::Bgr => 2 - plane,
            ChannelOrder::Rgb => plane,
        }
    }
}

/// Number of samples of an image of the given size, three to a pixel.
pub open spec fn spec_sample_count(width: nat, height: nat) -> nat {
    3 * (width * height)
}

/// The number of samples of an image of the given size, where it fits the machine word.
pub fn sample_count(width: usize, height: usize) -> (n: Option<usize>)
    ensures
        n is Some <==> spec_sample_count(width as nat, height as nat) <= usize::MAX,
        n is Some ==> n->0 == spec_sample_count(width as nat, height as nat),
{
    match width.checked_mul(height) {
        Some(pixels) => pixels.checked_mul(3),
        None => {
            assert(3 * (width * height) > usize::MAX) by (nonlinear_arith)
                requires
                    width * height > usize::MAX,
            ;
            None
        },
    }
}

/// A decoded colour image: rows of pixels, three 8-bit samples to a pixel,
/// stored row by row with the samples of a pixel side by side.
#[derive(Clone, Debug, PartialEq, Eq)]
pub struct RawImage {
    width: usize,
    height: usize,
    order: ChannelOrder,
    data: Vec<u8>,
}

impl View for RawImage {
    type V = Seq<u8>;

    /// The samples as they are stored.
    closed spec fn view(&self) -> Seq<u8> {
        self.data@
    }
}

impl RawImage {
    pub closed spec fn spec_width(&self) -> nat {
        self.width as nat
    }

    pub closed spec fn spec_height(&self) -> nat {
        self.height as nat
    }

    pub closed spec fn spec_order(&self) -> ChannelOrder {
        self.order
    }

    /// The number of pixels, which is the number of samples of one plane.
    pub open spec fn spec_pixels(&self) -> nat {
        self.spec_width() * self.spec_height()
    }

    /// There are exactly as many samples as the size asks for.
    pub open spec fn well_formed(&self) -> bool {
        self@.len() == spec_sample_count(self.spec_width(), self.spec_height())
    }

    /// An image without a single pixel, as a failed decode leaves it.
    pub open spec fn spec_is_empty(&self) -> bool {
        self.spec_width() == 0 || self.spec_height() == 0
    }

    /// Where the sample `slot` of the pixel at (`row`, `col`) is stored.
    pub open spec fn sample_index(&self, row: int, col: int, slot: int) -> int {
        (row * self.spec_width() + col) * 3 + slot
    }

    /// The sample `slot` of the pixel at (`row`, `col`).
    pub open spec fn pixel(&self, row: int, col: int, slot: int) -> u8 {
        self@[self.sample_index(row, col, slot)]
    }

    /// The sample of the pixel at (`row`, `col`) that belongs to `plane`
    /// (0 red, 1 green, 2 blue), whatever the order of storage.
    pub open spec fn colour(&self, row: int, col: int, plane: int) -> u8 {
        self.pixel(row, col, self.spec_order().spec_slot(plane))
    }

    /// Every pixel has the same red, green and blue.
    pub open spec fn uniform(&self, red: u8, green: u8, blue: u8) -> bool {
        forall|row: int, col: int|
            0 <= row < self.spec_height() && 0 <= col < self.spec_width() ==> {
                &&& #[trigger] self.colour(row, col, 0) == red
                &&& self.colour(row, col, 1) == green
                &&& self.colour(row, col, 2) == blue
            }
    }

    /// Wraps a buffer of samples; `None` where its length is not three
    /// times `width` times `height`.
    pub fn new(width: usize, height: usize, order: ChannelOrder, data: Vec<u8>) -> (image: Option<
        RawImage,
    >)
        ensures
            image is Some <==> data@.len() == spec_sample_count(width as nat, height as nat),
            image is Some ==> {
                &&& image->0.well_formed()
                &&& image->0@ == data@
                &&& image->0.spec_width() == width
                &&& image->0.spec_height() == height
                &&& image->0.spec_order() == order
            },
    {
        let len: usize = data.len();
        match sample_count(width, height) {
            Some(n) => {
                if len == n {
                    Some(RawImage { width, height, order, data })
                } else {
                    None
                }
            },
            None => None,
        }
    }

    /// The image that a failed decode leaves: no pixels at all.
    pub fn empty(order: ChannelOrder) -> (image: RawImage)
        ensures
            image.well_formed(),
            image.spec_is_empty(),
            image.spec_width() == 0,
            image.spec_height() == 0,
            image.spec_order() == order,
            image@.len() == 0,
    {
        let image = RawImage { width: 0, height: 0, order, data: Vec::new() };
        assert(image@.len() == 0);
        assert(spec_sample_count(0, 0) == 0);
        image
    }

    pub fn width(&self) -> (w: usize)
        ensures
            w == self.spec_width(),
    {
        self.width
    }

    pub fn height(&self) -> (h: usize)
        ensures
            h == self.spec_height(),
    {
        self.height
    }

    pub fn order(&self) -> (o: ChannelOrder)
        ensures
            o == self.spec_order(),
    {
        self.order
    }

    pub fn samples(&self) -> (s: &Vec<u8>)
        ensures
            s@ == self@,
    {
        &self.data
    }

    pub fn is_empty(&self) -> (e: bool)
        ensures
            e == self.spec_is_empty(),
    {
        self.width == 0 || self.height == 0
    }
}

} // verus!
