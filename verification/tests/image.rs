use image::{DynamicImage, ImageBuffer};
use zbars::format::Format;
use zbars::img::{ZBarImage, ZBarImageError};

#[test]
fn test_clone_owned() {
    let image = ZBarImage::new(2, 3, Format::from_label("Y800"), vec![0; 2 * 3]).unwrap();
    {
        let _clone = image.clone();
    }
    assert_eq!(image.data(), &[0; 2 * 3]);
}

#[test]
fn format() {
    let format = Format::from_label("Y800");
    let data = vec![0; 2 * 3];
    assert_eq!(ZBarImage::new(2, 3, format, data).unwrap().format(), format);
}

#[test]
fn test_sequence_set_and_get() {
    let mut image = ZBarImage::new(2, 3, Format::from_label("Y800"), vec![0; 2 * 3]).unwrap();
    assert_eq!(image.sequence(), 0);
    image.set_sequence(1);
    assert_eq!(image.sequence(), 1);
    image.set_sequence(999);
    assert_eq!(image.sequence(), 999);
}

#[test]
fn test_set_size_smaller() {
    let mut image = ZBarImage::new(20, 30, Format::from_label("Y800"), vec![0; 20 * 30]).unwrap();
    image.set_size(10, 12);
    assert_eq!(image.width(), 10);
    assert_eq!(image.height(), 12);
}

#[test]
fn test_set_size_larger() {
    let mut image = ZBarImage::new(20, 30, Format::from_label("Y800"), vec![0; 20 * 30]).unwrap();
    image.set_size(100, 120);
    assert_eq!(image.width(), 100);
    assert_eq!(image.height(), 120);
}

#[test]
fn test_width() {
    assert_eq!(
        ZBarImage::new(2, 3, Format::from_label("Y800"), vec![0; 2 * 3]).unwrap().width(),
        2
    );
}

#[test]
fn test_height() {
    assert_eq!(
        ZBarImage::new(2, 3, Format::from_label("Y800"), vec![0; 2 * 3]).unwrap().height(),
        3
    );
}

#[test]
fn image_test_data() {
    let buf: Vec<u8> = vec![0, 1, 2, 3, 4, 5, 6, 7, 8, 9, 10, 11];
    let image = ZBarImage::new(3, 4, Format::from_label("Y800"), buf.clone()).unwrap();
    assert_eq!(image.data(), buf.as_slice());
}

#[test]
fn test_symbols_get_and_set() {
    let mut image = ZBarImage::new(20, 30, Format::from_label("Y800"), vec![0; 20 * 30]).unwrap();
    assert!(image.symbols().is_none());
    image.set_symbols(None);
    assert!(image.symbols().is_none());
}

#[test]
fn image_test_first_symbol() {
    assert!(
        ZBarImage::new(20, 30, Format::from_label("Y800"), vec![0; 20 * 30])
            .unwrap()
            .first_symbol()
            .is_none()
    );
}

#[test]
fn image_test_size() {
    assert_eq!(
        ZBarImage::new(2, 3, Format::from_label("Y800"), vec![0; 2 * 3]).unwrap().size(),
        (2, 3)
    );
}

#[test]
fn test_crop() {
    let image = ZBarImage::new(20, 30, Format::from_label("Y800"), vec![0; 20 * 30]).unwrap();
    assert_eq!(image.crop(), (0, 0, 20, 30));
}

#[test]
fn test_set_crop_smaller() {
    let mut image = ZBarImage::new(20, 30, Format::from_label("Y800"), vec![0; 20 * 30]).unwrap();
    image.set_crop(5, 5, 10, 10);
    assert_eq!(image.crop(), (5, 5, 10, 10));
}

#[test]
fn test_set_crop_larger() {
    let mut image = ZBarImage::new(20, 30, Format::from_label("Y800"), vec![0; 20 * 30]).unwrap();
    image.set_crop(5, 50, 100, 200);
    assert_eq!(image.crop(), (5, 30, 15, 0));
}

#[test]
fn image_new_rejects_mismatched_length() {
    let r = ZBarImage::new(2, 3, Format::from_label("Y800"), vec![0; 5]);
    match r {
        Ok(_) => panic!("mismatched length must be rejected"),
        Err(e) => assert_eq!(e, ZBarImageError::Len(2, 3, 5)),
    }
}

#[test]
fn image_new_accepts_exact_length() {
    let image = ZBarImage::new(4, 2, Format::from_label("Y800"), vec![7; 8]).unwrap();
    assert_eq!(image.width(), 4);
    assert_eq!(image.height(), 2);
    assert_eq!(image.data(), &[7; 8]);
}

#[test]
fn image_read_is_unsupported() {
    assert!(ZBarImage::read("anywhere").is_none());
}

#[test]
fn image_raster_bytes() {
    let image =
        ZBarImage::new(2, 3, Format::from_label("Y800"), vec![1, 2, 3, 4, 5, 6]).unwrap();
    let mut expected = b"P5\n2 3\n255\n".to_vec();
    expected.extend_from_slice(&[1, 2, 3, 4, 5, 6]);
    assert_eq!(image.to_raster_bytes(), expected);
}

#[test]
fn test_from_dyn_image_luma() {
    let data = vec![0, 0, 0];
    let image = ZBarImage::from_dyn_image(
        DynamicImage::ImageLuma8(ImageBuffer::from_vec(1, 3, data).unwrap()),
    );
    assert_eq!(image.data(), &[0, 0, 0]);
}

#[test]
fn test_from_dyn_image_rgb() {
    let data = vec![0, 0, 0];
    let image = ZBarImage::from_dyn_image(
        DynamicImage::ImageRgb8(ImageBuffer::from_vec(1, 1, data).unwrap()),
    );
    assert_eq!(image.data(), &[0]);
}

#[test]
fn from_dyn_image_grayscales_white() {
    let data = vec![255, 255, 255];
    let image = ZBarImage::from_dyn_image(
        DynamicImage::ImageRgb8(ImageBuffer::from_vec(1, 1, data).unwrap()),
    );
    assert_eq!(image.width(), 1);
    assert_eq!(image.height(), 1);
    assert_eq!(image.data(), &[255]);
}

#[test]
fn image_userdata_set_and_get() {
    let userdata = "Hello World".as_bytes().to_owned();
    let mut image1 = ZBarImage::new(1, 1, Format::from_label("Y8"), vec![0]).unwrap();
    let mut image2 = ZBarImage::new(1, 1, Format::from_label("Y8"), vec![0]).unwrap();
    assert!(image1.userdata().is_none());
    image1.set_userdata_borrowed(Some(&userdata));
    image2.set_userdata(Some(userdata.clone()));
    assert_eq!(image1.userdata().unwrap(), image2.userdata().unwrap());
    image1.set_userdata(None);
    assert!(image1.userdata().is_none());
}
