use rust_onnx_infer::error::AppError;
use rust_onnx_infer::error::ErrorKind;
use rust_onnx_infer::image::sample_count;
use rust_onnx_infer::image::ChannelOrder;
use rust_onnx_infer::image::RawImage;
use rust_onnx_infer::image_processing::build;
use rust_onnx_infer::image_processing::preprocess_image;
use rust_onnx_infer::image_processing::to_planar;
use rust_onnx_infer::image_processing::validate_image;
use rust_onnx_infer::tensor::Tensor;
use rust_onnx_infer::tensor::SCALE;

fn image_of(width: usize, height: usize, order: ChannelOrder, pixel: [u8; 3]) -> RawImage {
    let mut data = Vec::new();
    for _ in 0..width * height {
        data.extend_from_slice(&pixel);
    }
    RawImage::new(width, height, order, data).unwrap()
}

fn counting_image(width: usize, height: usize, order: ChannelOrder) -> RawImage {
    let data: Vec<u8> = (0..3 * width * height).map(|i| i as u8).collect();
    RawImage::new(width, height, order, data).unwrap()
}

#[test]
fn tensor_has_three_planes_of_the_target_size() {
    let image = counting_image(4, 3, ChannelOrder::Bgr);
    let tensor = build(&image, "img/cat.jpg", 4, 3).unwrap();
    assert_eq!(tensor.samples().len(), 3 * 4 * 3);
    assert_eq!(tensor.shape(), vec![1, 3, 3, 4]);
    assert_eq!(tensor.height(), 3);
    assert_eq!(tensor.width(), 4);
    for s in tensor.samples() {
        let value = s as f32 / SCALE as f32;
        assert!((0.0..=1.0).contains(&value));
    }
}

#[test]
fn first_channel_fills_first_plane() {
    let image = image_of(5, 2, ChannelOrder::Rgb, [255, 0, 0]);
    let tensor = build(&image, "synthetic", 5, 2).unwrap();
    let samples = tensor.samples();
    assert_eq!(samples.len(), 30);
    for (i, s) in samples.iter().enumerate() {
        let value = *s as f32 / 255.0;
        if i < 10 {
            assert_eq!(value, 1.0);
        } else {
            assert_eq!(value, 0.0);
        }
    }
}

#[test]
fn red_of_a_bgr_image_fills_first_plane() {
    let image = image_of(3, 3, ChannelOrder::Bgr, [0, 0, 255]);
    let tensor = build(&image, "synthetic", 3, 3).unwrap();
    let mut expected = vec![255u8; 9];
    expected.extend_from_slice(&[0u8; 18]);
    assert_eq!(tensor.samples(), expected);
}

#[test]
fn blue_green_red_pixel_comes_out_red_green_blue() {
    let image = image_of(1, 1, ChannelOrder::Bgr, [10, 20, 30]);
    let tensor = build(&image, "pixel", 1, 1).unwrap();
    assert_eq!(tensor.samples(), vec![30, 20, 10]);
    let values: Vec<f32> = tensor.samples().iter().map(|s| *s as f32 / 255.0).collect();
    assert_eq!(values, vec![30.0 / 255.0, 20.0 / 255.0, 10.0 / 255.0]);
}

#[test]
fn permutation_holds_at_every_pixel() {
    let image = counting_image(3, 2, ChannelOrder::Bgr);
    let tensor = build(&image, "counting", 3, 2).unwrap();
    let raw = image.samples();
    for row in 0..2 {
        for col in 0..3 {
            let base = (row * 3 + col) * 3;
            assert_eq!(tensor.get(0, row, col), Some(raw[base + 2]));
            assert_eq!(tensor.get(1, row, col), Some(raw[base + 1]));
            assert_eq!(tensor.get(2, row, col), Some(raw[base]));
        }
    }
}

#[test]
fn rgb_image_keeps_its_channel_order() {
    let image = image_of(1, 1, ChannelOrder::Rgb, [10, 20, 30]);
    let tensor = build(&image, "pixel", 1, 1).unwrap();
    assert_eq!(tensor.samples(), vec![10, 20, 30]);
}

#[test]
fn planar_order_of_a_two_by_two_image() {
    let data = vec![1, 2, 3, 4, 5, 6, 7, 8, 9, 10, 11, 12];
    let image = RawImage::new(2, 2, ChannelOrder::Bgr, data).unwrap();
    assert_eq!(to_planar(&image), vec![3, 6, 9, 12, 2, 5, 8, 11, 1, 4, 7, 10]);
    let tensor = build(&image, "grid", 2, 2).unwrap();
    assert_eq!(tensor.samples(), vec![3, 6, 9, 12, 2, 5, 8, 11, 1, 4, 7, 10]);
}

#[test]
fn index_formula_finds_each_sample() {
    let image = counting_image(4, 3, ChannelOrder::Rgb);
    let tensor = build(&image, "counting", 4, 3).unwrap();
    let samples = tensor.samples();
    for plane in 0..3 {
        for row in 0..3 {
            for col in 0..4 {
                let flat = plane * 3 * 4 + row * 4 + col;
                let expected = image.samples()[(row * 4 + col) * 3 + plane];
                assert_eq!(samples[flat], expected);
                assert_eq!(tensor.get(plane, row, col), Some(expected));
            }
        }
    }
}

#[test]
fn uniform_image_gives_uniform_tensor() {
    let image = image_of(7, 5, ChannelOrder::Bgr, [128, 128, 128]);
    let tensor = build(&image, "gray", 7, 5).unwrap();
    let samples = tensor.samples();
    assert_eq!(samples.len(), 3 * 7 * 5);
    assert!(samples.iter().all(|s| *s == 128));
}

#[test]
fn uniform_colour_gives_one_value_per_plane() {
    let image = image_of(2, 3, ChannelOrder::Bgr, [10, 20, 30]);
    let tensor = build(&image, "colour", 2, 3).unwrap();
    let samples = tensor.samples();
    assert!(samples[0..6].iter().all(|s| *s == 30));
    assert!(samples[6..12].iter().all(|s| *s == 20));
    assert!(samples[12..18].iter().all(|s| *s == 10));
}

#[test]
fn empty_image_is_not_found() {
    let image = RawImage::empty(ChannelOrder::Bgr);
    assert!(image.is_empty());
    assert_eq!(
        build(&image, "img/cat.jpg", 640, 640),
        Err(AppError::ImageNotFound("img/cat.jpg".to_string()))
    );
    assert_eq!(
        validate_image(&image, "img/cat.jpg"),
        Err(AppError::ImageNotFound("img/cat.jpg".to_string()))
    );
}

#[test]
fn image_without_rows_is_not_found() {
    let image = RawImage::new(4, 0, ChannelOrder::Bgr, Vec::new()).unwrap();
    let result = build(&image, "rows", 4, 0);
    assert_eq!(result, Err(AppError::ImageNotFound("rows".to_string())));
    let image = RawImage::new(0, 4, ChannelOrder::Bgr, Vec::new()).unwrap();
    let result = build(&image, "columns", 0, 4);
    assert_eq!(result.unwrap_err().kind(), ErrorKind::ImageNotFound);
}

#[test]
fn image_with_pixels_is_valid() {
    let image = image_of(2, 2, ChannelOrder::Bgr, [1, 2, 3]);
    assert_eq!(validate_image(&image, "img/cat.jpg"), Ok(()));
}

#[test]
fn image_of_another_size_is_refused() {
    let image = image_of(2, 2, ChannelOrder::Bgr, [1, 2, 3]);
    let expected = Err(AppError::Processing("image size differs from the target size".to_string()));
    assert_eq!(build(&image, "small", 1, 1), expected);
    assert_eq!(build(&image, "small", 2, 3), expected);
    assert_eq!(build(&image, "small", -2, 2), expected);
    assert_eq!(build(&image, "small", 0, 0), expected);
}

#[test]
fn raw_image_needs_three_samples_a_pixel() {
    assert!(RawImage::new(2, 2, ChannelOrder::Bgr, vec![0; 11]).is_none());
    assert!(RawImage::new(2, 2, ChannelOrder::Bgr, vec![0; 13]).is_none());
    assert!(RawImage::new(usize::MAX, 2, ChannelOrder::Bgr, Vec::new()).is_none());
    let image = RawImage::new(2, 2, ChannelOrder::Rgb, vec![7; 12]).unwrap();
    assert_eq!(image.width(), 2);
    assert_eq!(image.height(), 2);
    assert_eq!(image.order(), ChannelOrder::Rgb);
    assert_eq!(image.samples(), &vec![7; 12]);
    assert!(!image.is_empty());
}

#[test]
fn sample_count_is_three_a_pixel() {
    assert_eq!(sample_count(640, 640), Some(1_228_800));
    assert_eq!(sample_count(0, 5), Some(0));
    assert_eq!(sample_count(usize::MAX, 2), None);
    assert_eq!(sample_count(usize::MAX / 2, 1), None);
}

#[test]
fn channel_slots() {
    assert_eq!(ChannelOrder::Bgr.slot(0), 2);
    assert_eq!(ChannelOrder::Bgr.slot(1), 1);
    assert_eq!(ChannelOrder::Bgr.slot(2), 0);
    assert_eq!(ChannelOrder::Rgb.slot(0), 0);
    assert_eq!(ChannelOrder::Rgb.slot(2), 2);
}

#[test]
fn tensor_from_planes() {
    let tensor = Tensor::new(2, 3, (0..18).collect()).unwrap();
    assert_eq!(tensor.shape(), vec![1, 3, 2, 3]);
    assert_eq!(tensor.height(), 2);
    assert_eq!(tensor.width(), 3);
    assert_eq!(tensor.samples(), (0..18).collect::<Vec<u8>>());
    assert_eq!(tensor.get(0, 0, 0), Some(0));
    assert_eq!(tensor.get(1, 0, 0), Some(6));
    assert_eq!(tensor.get(2, 1, 2), Some(17));
    assert_eq!(tensor.get(1, 1, 1), Some(10));
    assert_eq!(tensor.get(3, 0, 0), None);
    assert_eq!(tensor.get(0, 2, 0), None);
    assert_eq!(tensor.get(0, 0, 3), None);
}

#[test]
fn tensor_refuses_wrong_length_and_zero_extent() {
    assert!(Tensor::new(2, 3, vec![0; 17]).is_none());
    assert!(Tensor::new(2, 3, vec![0; 19]).is_none());
    assert!(Tensor::new(0, 3, Vec::new()).is_none());
    assert!(Tensor::new(3, 0, Vec::new()).is_none());
    assert!(Tensor::new(usize::MAX, usize::MAX, Vec::new()).is_none());
}

#[test]
fn resampled_frame_becomes_the_tensor() {
    let decoded = counting_image(4, 6, ChannelOrder::Bgr);
    let frame = RawImage::new(2, 1, ChannelOrder::Bgr, vec![1, 2, 3, 4, 5, 6]).unwrap();
    let tensor = preprocess_image(&decoded, "img/cat.jpg", 2, 1, Ok(frame)).unwrap();
    assert_eq!(tensor.shape(), vec![1, 3, 1, 2]);
    assert_eq!(tensor.samples(), vec![3, 6, 2, 5, 1, 4]);
}

#[test]
fn uniform_image_of_any_size_gives_uniform_tensor() {
    for (width, height) in [(1, 1), (2, 2), (9, 4), (3, 17)] {
        let decoded = image_of(width, height, ChannelOrder::Bgr, [128, 128, 128]);
        // A resampling of one colour leaves that colour in every pixel.
        let frame = image_of(4, 3, ChannelOrder::Bgr, [128, 128, 128]);
        let tensor = preprocess_image(&decoded, "gray", 4, 3, Ok(frame)).unwrap();
        let samples = tensor.samples();
        assert_eq!(samples.len(), 3 * 4 * 3);
        assert!(samples.iter().all(|s| *s as f32 / 255.0 == 128.0 / 255.0));
    }
}

#[test]
fn empty_image_is_not_found_whatever_the_resampling_gave() {
    let decoded = RawImage::empty(ChannelOrder::Bgr);
    let expected = Err(AppError::ImageNotFound("img/missing.jpg".to_string()));
    let refused = Err("ssize.empty() in function 'resize'".to_string());
    assert_eq!(preprocess_image(&decoded, "img/missing.jpg", 640, 640, refused), expected);
    let frame = image_of(2, 2, ChannelOrder::Bgr, [1, 2, 3]);
    assert_eq!(preprocess_image(&decoded, "img/missing.jpg", 2, 2, Ok(frame)), expected);
}

#[test]
fn failed_resampling_is_a_processing_error() {
    let decoded = image_of(2, 2, ChannelOrder::Bgr, [1, 2, 3]);
    let result = preprocess_image(&decoded, "img/cat.jpg", 0, 0, Err("dsize is empty".to_string()));
    assert_eq!(result, Err(AppError::Processing("dsize is empty".to_string())));
}

#[test]
fn frame_of_another_size_is_a_processing_error() {
    let decoded = image_of(2, 2, ChannelOrder::Bgr, [1, 2, 3]);
    let expected = Err(AppError::Processing("image size differs from the target size".to_string()));
    let frame = image_of(2, 2, ChannelOrder::Bgr, [1, 2, 3]);
    assert_eq!(preprocess_image(&decoded, "img/cat.jpg", 1, 1, Ok(frame)), expected);
    let frame = RawImage::empty(ChannelOrder::Bgr);
    assert_eq!(preprocess_image(&decoded, "img/cat.jpg", 1, 1, Ok(frame)), expected);
    let frame = RawImage::empty(ChannelOrder::Bgr);
    assert_eq!(preprocess_image(&decoded, "img/cat.jpg", 0, 0, Ok(frame)), expected);
}
