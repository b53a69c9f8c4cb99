use vstd::prelude::*;
use vstd::arithmetic::div_mod::lemma_fundamental_div_mod;
use vstd::arithmetic::div_mod::lemma_fundamental_div_mod_converse;
use vstd::arithmetic::div_mod::lemma_mod_bound;
use vstd::arithmetic::div_mod::lemma_multiply_divide_lt;
use crate::error::AppError;
use crate::error::ErrorKind;
use crate::image::RawImage;
use crate::tensor::Tensor;
use crate::tensor::SCALE;

verus! {

/// The samples of `image` plane by plane: all of red, then all of green,
/// then all of blue, each plane row by row.
///
/// The sample at `i` belongs to plane `i / (width * height)` and to the pixel
/// `i % (width * height)`, counted row by row.
pub open spec fn planar_samples(image: &RawImage) -> Seq<u8> {
    let plane = (image.spec_width() * image.spec_height()) as int;
    Seq::new(
        (3 * plane) as nat,
        |i: int| image@[(i % plane) * 3 + image.spec_order().spec_slot(i / plane)],
    )
}

/// The image already has the size that the model asks for.
pub open spec fn fits_target(image: &RawImage, input_width: i32, input_height: i32) -> bool {
    image.spec_width() == input_width && image.spec_height() == input_height
}

/// What is said of an image whose size is not the target size.
pub open spec fn spec_size_message() -> Seq<char> {
    "image size differs from the target size"@
}

/// Sample `p` of plane `c` stands at `c * (width * height) + p` and is the
/// sample of pixel `p` that belongs to that plane.
pub proof fn lemma_planar_at(image: &RawImage, c: int, p: int)
    requires
        0 <= c < 3,
        0 <= p < image.spec_width() * image.spec_height(),
    ensures
        0 <= c * (image.spec_width() * image.spec_height()) + p < planar_samples(image).len(),
        planar_samples(image).len() == 3 * (image.spec_width() * image.spec_height()),
        planar_samples(image)[c * (image.spec_width() * image.spec_height()) + p] == image@[p * 3
            + image.spec_order().spec_slot(c)],
{
    let plane = (image.spec_width() * image.spec_height()) as int;
    let i = c * plane + p;
    assert(0 <= c * plane <= 2 * plane) by (nonlinear_arith)
        requires
            0 <= c <= 2,
            0 <= plane,
    ;
    lemma_fundamental_div_mod_converse(i, plane, c, p);
}

/// A pixel counted row by row splits into its row and its column.
pub proof fn lemma_split_pixel(p: int, width: int, height: int)
    requires
        0 <= width,
        0 <= height,
        0 <= p < width * height,
    ensures
        0 <= p / width < height,
        0 <= p % width < width,
        p == (p / width) * width + p % width,
{
    assert(0 < width) by (nonlinear_arith)
        requires
            0 <= width,
            0 <= height,
            0 <= p < width * height,
    ;
    lemma_fundamental_div_mod(p, width);
    lemma_mod_bound(p, width);
    lemma_multiply_divide_lt(p, width, height);
    assert(width * (p / width) == (p / width) * width) by (nonlinear_arith);
    assert(p / width >= 0) by (nonlinear_arith)
        requires
            0 <= p,
            0 < width,
            p == width * (p / width) + p % width,
            p % width < width,
    ;
}

/// Rejects an image without pixels, before anything else is done with it.
pub fn validate_image(image: &RawImage, image_path: &str) -> (result: Result<(), AppError>)
    ensures
        result is Ok <==> !image.spec_is_empty(),
        result is Err ==> result->Err_0.spec_kind() == ErrorKind::ImageNotFound
            && result->Err_0.spec_detail() == image_path@,
{
    if image.is_empty() {
        Err(AppError::ImageNotFound(image_path.to_string()))
    } else {
        Ok(())
    }
}

/// Reorders the samples from pixel by pixel to plane by plane, red first.
pub fn to_planar(image: &RawImage) -> (out: Vec<u8>)
    requires
        image.well_formed(),
    ensures
        out@ == planar_samples(image),
{
    let data = image.samples();
    let order = image.order();
    let plane: usize = data.len() / 3;
    let mut out: Vec<u8> = Vec::with_capacity(data.len());
    let mut c: usize = 0;
    while c < 3
        invariant
            c <= 3,
            data@ == image@,
            order == image.spec_order(),
            plane == image.spec_width() * image.spec_height(),
            data@.len() == 3 * plane,
            3 * plane <= usize::MAX,
            planar_samples(image).len() == 3 * plane,
            out@.len() == c * plane,
            forall|j: int| 0 <= j < out@.len() ==> out@[j] == planar_samples(image)[j],
        decreases 3 - c,
    {
        let slot = order.slot(c);
        let mut p: usize = 0;
        while p < plane
            invariant
                c < 3,
                p <= plane,
                data@ == image@,
                order == image.spec_order(),
                slot == order.spec_slot(c as int),
                slot < 3,
                plane == image.spec_width() * image.spec_height(),
                data@.len() == 3 * plane,
                3 * plane <= usize::MAX,
                planar_samples(image).len() == 3 * plane,
                out@.len() == c * plane + p,
                forall|j: int| 0 <= j < out@.len() ==> out@[j] == planar_samples(image)[j],
            decreases plane - p,
        {
            proof {
                lemma_planar_at(image, c as int, p as int);
            }
            out.push(data[p * 3 + slot]);
            p += 1;
        }
        proof {
            assert(c * plane + plane == (c + 1) * plane) by (nonlinear_arith);
        }
        c += 1;
    }
    assert(out@ =~= planar_samples(image));
    out
}

/// Builds the tensor that the model reads from a frame that has the
/// target size already.
///
/// A frame without pixels is refused first, under the name of its source;
/// one of another size than the target is refused next: no tensor is ever
/// made from a frame of the wrong size. Otherwise the tensor has the shape
/// (1, 3, `target_height`, `target_width`) and holds the frame's samples
/// plane by plane, red first.
pub fn build(frame: &RawImage, image_path: &str, target_width: i32, target_height: i32) -> (result:
    Result<Tensor, AppError>)
    requires
        frame.well_formed(),
    ensures
        result is Ok <==> !frame.spec_is_empty() && fits_target(frame, target_width, target_height),
        match result {
            Ok(tensor) => {
                &&& tensor.well_formed()
                &&& tensor.spec_width() == target_width
                &&& tensor.spec_height() == target_height
                &&& tensor@.len() == 3 * target_width * target_height
                &&& tensor@.len() > 0
                &&& tensor@ == planar_samples(frame)
            },
            Err(e) => if frame.spec_is_empty() {
                e.spec_kind() == ErrorKind::ImageNotFound && e.spec_detail() == image_path@
            } else {
                e.spec_kind() == ErrorKind::Processing && e.spec_detail() == spec_size_message()
            },
        },
{
    if frame.is_empty() {
        return Err(AppError::ImageNotFound(image_path.to_string()));
    }
    let width = frame.width();
    let height = frame.height();
    if target_width <= 0 || target_height <= 0 || width != target_width as usize || height
        != target_height as usize {
        return Err(AppError::Processing("image size differs from the target size".to_string()));
    }
    let data = to_planar(frame);
    proof {
        assert(3 * (width * height) == 3 * target_width * target_height && 3 * (width * height)
            > 0) by (nonlinear_arith)
            requires
                width == target_width,
                height == target_height,
                width > 0,
                height > 0,
        ;
    }
    match Tensor::new(height, width, data) {
        Some(tensor) => Ok(tensor),
        None => Err(AppError::Processing("image size differs from the target size".to_string())),
    }
}

/// The frame that a resampling left is one to build the tensor from: it
/// came about, and has pixels and the target size.
pub open spec fn usable_frame(
    resized: Result<RawImage, String>,
    input_width: i32,
    input_height: i32,
) -> bool {
    match resized {
        Ok(frame) => !frame.spec_is_empty() && fits_target(&frame, input_width, input_height),
        Err(_) => false,
    }
}

/// Turns a decoded image, and what resampling it to the input size of the
/// model gave, into the tensor that the model reads.
///
/// `resized` is the outcome of the resampling: the frame, or the words
/// with which the image library refused. An image without pixels is not
/// found, whatever the resampling made of it. A resampling that failed is a
/// processing error with the library's words; a frame that does not have the
/// input size is one too. Otherwise the tensor is built from the frame.
pub fn preprocess_image(
    image: &RawImage,
    image_path: &str,
    input_width: i32,
    input_height: i32,
    resized: Result<RawImage, String>,
) -> (result: Result<Tensor, AppError>)
    requires
        image.well_formed(),
        resized is Ok ==> resized->Ok_0.well_formed(),
    ensures
        result is Ok <==> !image.spec_is_empty() && usable_frame(resized, input_width, input_height),
        match result {
            Ok(tensor) => {
                &&& tensor.well_formed()
                &&& tensor.spec_width() == input_width
                &&& tensor.spec_height() == input_height
                &&& tensor@.len() == 3 * input_width * input_height
                &&& tensor@.len() > 0
                &&& tensor@ == planar_samples(&resized->Ok_0)
            },
            Err(e) => if image.spec_is_empty() {
                e.spec_kind() == ErrorKind::ImageNotFound && e.spec_detail() == image_path@
            } else {
                e.spec_kind() == ErrorKind::Processing && e.spec_detail() == (match resized {
                    Ok(_) => spec_size_message(),
                    Err(words) => words@,
                })
            },
        },
{
    if image.is_empty() {
        return Err(AppError::ImageNotFound(image_path.to_string()));
    }
    match resized {
        Ok(frame) => {
            if frame.is_empty() {
                return Err(
                    AppError::Processing("image size differs from the target size".to_string()),
                );
            }
            build(&frame, image_path, input_width, input_height)
        },
        Err(words) => Err(AppError::Processing(words)),
    }
}

/// Every sample of a tensor is a numerator over `SCALE`: the value that it
/// stands for lies between 0 and 1.
pub proof fn samples_in_unit_range(tensor: &Tensor, i: int)
    requires
        0 <= i < tensor@.len(),
    ensures
        0 <= tensor@[i] <= SCALE,
{
}

/// The sample of `plane` at (`row`, `col`) stands at
/// `plane * height * width + row * width + col`, and is the sample of the
/// image's pixel at (`row`, `col`) that belongs to that plane.
pub proof fn planar_layout(image: &RawImage, tensor: &Tensor, plane: int, row: int, col: int)
    requires
        image.well_formed(),
        tensor@ == planar_samples(image),
        tensor.spec_width() == image.spec_width(),
        tensor.spec_height() == image.spec_height(),
        0 <= plane < 3,
        0 <= row < image.spec_height(),
        0 <= col < image.spec_width(),
    ensures
        tensor.flat_index(plane, row, col) == plane * image.spec_height() * image.spec_width() + row
            * image.spec_width() + col,
        0 <= tensor.flat_index(plane, row, col) < tensor@.len(),
        0 <= image.sample_index(row, col, image.spec_order().spec_slot(plane)) < image@.len(),
        tensor.sample(plane, row, col) == image.colour(row, col, plane),
{
    let w = image.spec_width() as int;
    let h = image.spec_height() as int;
    let p = row * w + col;
    assert(0 <= p < w * h) by (nonlinear_arith)
        requires
            0 <= row < h,
            0 <= col < w,
            p == row * w + col,
    ;
    assert(plane * (h * w) == plane * h * w) by (nonlinear_arith);
    assert(h * w == w * h) by (nonlinear_arith);
    lemma_planar_at(image, plane, p);
}

/// A pixel stored as blue, green, red appears in the tensor as red, green,
/// blue: plane 0 holds its third sample, plane 1 its second, plane 2 its first.
pub proof fn bgr_becomes_rgb(image: &RawImage, tensor: &Tensor, row: int, col: int)
    requires
        image.well_formed(),
        image.spec_order() == crate::image::ChannelOrder::Bgr,
        tensor@ == planar_samples(image),
        tensor.spec_width() == image.spec_width(),
        tensor.spec_height() == image.spec_height(),
        0 <= row < image.spec_height(),
        0 <= col < image.spec_width(),
    ensures
        tensor.sample(0, row, col) == image.pixel(row, col, 2),
        tensor.sample(1, row, col) == image.pixel(row, col, 1),
        tensor.sample(2, row, col) == image.pixel(row, col, 0),
{
    planar_layout(image, tensor, 0, row, col);
    planar_layout(image, tensor, 1, row, col);
    planar_layout(image, tensor, 2, row, col);
}

/// An image of one colour gives three planes of one value each: red
/// throughout the first `height * width` samples, green throughout the
/// next, blue throughout the last.
pub proof fn uniform_image_gives_uniform_planes(
    image: &RawImage,
    tensor: &Tensor,
    red: u8,
    green: u8,
    blue: u8,
)
    requires
        image.well_formed(),
        image.uniform(red, green, blue),
        tensor@ == planar_samples(image),
    ensures
        tensor@.len() == 3 * image.spec_pixels(),
        forall|i: int|
            0 <= i < image.spec_pixels() ==> {
                &&& #[trigger] tensor@[i] == red
                &&& tensor@[image.spec_pixels() + i] == green
                &&& tensor@[2 * image.spec_pixels() + i] == blue
            },
{
    let w = image.spec_width() as int;
    let h = image.spec_height() as int;
    let plane = image.spec_pixels() as int;
    assert forall|i: int| 0 <= i < plane implies {
        &&& #[trigger] tensor@[i] == red
        &&& tensor@[plane + i] == green
        &&& tensor@[2 * plane + i] == blue
    } by {
        lemma_split_pixel(i, w, h);
        let row = i / w;
        let col = i % w;
        assert(image.colour(row, col, 0) == red);
        assert(image.sample_index(row, col, image.spec_order().spec_slot(0)) == i * 3
            + image.spec_order().spec_slot(0));
        assert(image.sample_index(row, col, image.spec_order().spec_slot(1)) == i * 3
            + image.spec_order().spec_slot(1));
        assert(image.sample_index(row, col, image.spec_order().spec_slot(2)) == i * 3
            + image.spec_order().spec_slot(2));
        lemma_planar_at(image, 0, i);
        lemma_planar_at(image, 1, i);
        lemma_planar_at(image, 2, i);
        assert(0 * plane + i == i);
        assert(1 * plane + i == plane + i);
    }
}

/// Where red is full and green and blue are nothing in every pixel, the
/// first `height * width` samples of the tensor are all `SCALE` (the value 1)
/// and all that follow are 0.
pub proof fn red_image_fills_first_plane(image: &RawImage, tensor: &Tensor)
    requires
        image.well_formed(),
        image.uniform(SCALE, 0, 0),
        tensor@ == planar_samples(image),
    ensures
        tensor@.len() == 3 * image.spec_pixels(),
        forall|i: int|
            0 <= i < tensor@.len() ==> #[trigger] tensor@[i] == (if i < image.spec_pixels() {
                SCALE
            } else {
                0u8
            }),
{
    let plane = image.spec_pixels() as int;
    uniform_image_gives_uniform_planes(image, tensor, SCALE, 0, 0);
    assert forall|i: int| 0 <= i < tensor@.len() implies #[trigger] tensor@[i] == (if i < plane {
        SCALE
    } else {
        0u8
    }) by {
        if i < plane {
            assert(tensor@[i] == SCALE);
        } else if i < 2 * plane {
            let k = i - plane;
            assert(tensor@[k] == SCALE);
            assert(tensor@[plane + k] == 0);
        } else {
            let k = i - 2 * plane;
            assert(tensor@[k] == SCALE);
            assert(tensor@[2 * plane + k] == 0);
        }
    }
}

} // verus!
