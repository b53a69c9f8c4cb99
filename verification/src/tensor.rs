use vstd::prelude::*;
use crate::image::spec_sample_count;

verus! {

/// What a sample is divided by to give the value that the model sees:
/// a sample `n` stands for `n / SCALE`.
pub const SCALE: u8 = 255;

/// A dense array of four axes over bytes: an `ndarray::Array4<u8>`, of
/// which nothing is known here but what the functions below say.
#[verifier::external_body]
#[derive(Debug, PartialEq, Eq)]
pub struct PlanarArray {
    inner: ndarray::Array4<u8>,
}

/// The extents of an array, axis by axis.
pub uninterp spec fn array_extents(array: PlanarArray) -> Seq<usize>;

/// The elements of an array in its logical order: the last axis runs fastest.
pub uninterp spec fn array_elements(array: PlanarArray) -> Seq<u8>;

/// `ndarray::Array::from_shape_vec` on the shape (1, 3, `height`, `width`)
/// in the default, row-major order.
///
/// Claimed of it: it succeeds only where the shape's size is the vector's
/// length, the array then has that shape and the vector's elements in
/// their order; and with no zero extent a vector of that length is accepted,
/// since no vector is longer than `isize::MAX`.
#[verifier::external_body]
fn array_from_planes(height: usize, width: usize, data: Vec<u8>) -> (array: Option<PlanarArray>)
    ensures
        array is Some ==> {
            &&& data@.len() == spec_sample_count(width as nat, height as nat)
            &&& array_extents(array->0) == seq![1usize, 3usize, height, width]
            &&& array_elements(array->0) == data@
        },
        height > 0 && width > 0 && data@.len() == spec_sample_count(width as nat, height as nat)
            ==> array is Some,
{
    match ndarray::Array4::from_shape_vec((1, 3, height, width), data) {
        Ok(inner) => Some(PlanarArray { inner }),
        Err(_) => None,
    }
}

/// `ndarray::ArrayBase::dim`. Claimed of it: the tuple holds the extents,
/// axis by axis.
#[verifier::external_body]
fn array_dim(array: &PlanarArray) -> (dim: (usize, usize, usize, usize))
    ensures
        array_extents(*array) == seq![dim.0, dim.1, dim.2, dim.3],
{
    array.inner.dim()
}

/// `ndarray::ArrayBase::iter`, collected into a vector. Claimed of it: the
/// elements come in the array's logical order.
#[verifier::external_body]
fn array_to_vec(array: &PlanarArray) -> (elements: Vec<u8>)
    ensures
        elements@ == array_elements(*array),
{
    array.inner.iter().copied().collect()
}

/// Indexing of an `ndarray` array by four indices, which panics out of
/// bounds. Claimed of it: the element at an index is the one that the
/// logical order puts at the index's row-major position.
#[verifier::external_body]
fn array_at(array: &PlanarArray, index: [usize; 4]) -> (element: u8)
    requires
        array_extents(*array).len() == 4,
        forall|axis: int| 0 <= axis < 4 ==> index@[axis] < #[trigger] array_extents(*array)[axis],
    ensures
        element == array_elements(*array)[row_major(array_extents(*array), index@)],
{
    array.inner[index]
}

/// The row-major position of an index into an array of four axes.
pub open spec fn row_major(extents: Seq<usize>, index: Seq<usize>) -> int {
    ((index[0] * extents[1] + index[1]) * extents[2] + index[2]) * extents[3] + index[3]
}

/// A batch of one image as three planes (red, green, blue) of `height`
/// rows and `width` columns: all of red, then all of green, then all of blue,
/// each plane row by row.
#[derive(Debug, PartialEq, Eq)]
pub struct Tensor {
    array: PlanarArray,
}

impl View for Tensor {
    type V = Seq<u8>;

    /// The samples in the order in which the model reads them.
    closed spec fn view(&self) -> Seq<u8> {
        array_elements(self.array)
    }
}

impl Tensor {
    /// The extents, axis by axis: batch, channels, height, width.
    pub closed spec fn spec_shape(&self) -> Seq<usize> {
        array_extents(self.array)
    }

    pub open spec fn spec_height(&self) -> nat {
        self.spec_shape()[2] as nat
    }

    pub open spec fn spec_width(&self) -> nat {
        self.spec_shape()[3] as nat
    }

    /// Four axes, a batch of one, three channels, and as many samples as
    /// the shape asks for.
    pub open spec fn well_formed(&self) -> bool {
        &&& self.spec_shape().len() == 4
        &&& self.spec_shape()[0] == 1
        &&& self.spec_shape()[1] == 3
        &&& self@.len() == spec_sample_count(self.spec_width(), self.spec_height())
    }

    /// Where the sample of `plane` at (`row`, `col`) stands.
    pub open spec fn flat_index(&self, plane: int, row: int, col: int) -> int {
        plane * (self.spec_height() * self.spec_width()) + row * self.spec_width() + col
    }

    /// The sample of `plane` at (`row`, `col`).
    pub open spec fn sample(&self, plane: int, row: int, col: int) -> u8 {
        self@[self.flat_index(plane, row, col)]
    }

    /// Wraps a planar buffer; `None` where an extent is zero or the
    /// buffer's length is not three times `height` times `width`.
    pub fn new(height: usize, width: usize, data: Vec<u8>) -> (tensor: Option<Tensor>)
        ensures
            tensor is Some <==> height > 0 && width > 0 && data@.len() == spec_sample_count(
                width as nat,
                height as nat,
            ),
            tensor is Some ==> {
                &&& tensor->0.well_formed()
                &&& tensor->0@ == data@
                &&& tensor->0.spec_height() == height
                &&& tensor->0.spec_width() == width
            },
    {
        if height == 0 || width == 0 {
            return None;
        }
        match array_from_planes(height, width, data) {
            Some(array) => Some(Tensor { array }),
            None => None,
        }
    }

    pub fn height(&self) -> (h: usize)
        ensures
            h == self.spec_height(),
    {
        array_dim(&self.array).2
    }

    pub fn width(&self) -> (w: usize)
        ensures
            w == self.spec_width(),
    {
        array_dim(&self.array).3
    }

    /// The samples, plane by plane.
    pub fn samples(&self) -> (s: Vec<u8>)
        ensures
            s@ == self@,
    {
        array_to_vec(&self.array)
    }

    /// The sample of `plane` at (`row`, `col`); `None` outside the tensor.
    pub fn get(&self, plane: usize, row: usize, col: usize) -> (s: Option<u8>)
        requires
            self.well_formed(),
        ensures
            s is Some <==> plane < 3 && row < self.spec_height() && col < self.spec_width(),
            s is Some ==> s->0 == self.sample(plane as int, row as int, col as int),
    {
        let dim = array_dim(&self.array);
        if plane < 3 && row < dim.2 && col < dim.3 {
            let index: [usize; 4] = [0, plane, row, col];
            proof {
                let h = dim.2 as int;
                let w = dim.3 as int;
                assert(((0 * 3 + plane) * h + row) * w + col == plane * (h * w) + row * w + col)
                    by (nonlinear_arith);
            }
            Some(array_at(&self.array, index))
        } else {
            None
        }
    }

    /// The logical shape: a batch of one, three channels, then height and width.
    pub fn shape(&self) -> (s: Vec<usize>)
        ensures
            s@ == self.spec_shape(),
            s@.len() == 4,
    {
        let dim = array_dim(&self.array);
        let mut s: Vec<usize> = Vec::new();
        s.push(dim.0);
        s.push(dim.1);
        s.push(dim.2);
        s.push(dim.3);
        assert(s@ =~= self.spec_shape());
        s
    }
}

} // verus!
