use tfrecord::error::Error;
use tfrecord::image_ext::{
    check_tensor_shape, image_from_samples, summary_image, ColorSpace, PixelFormat,
    TchChannelOrder,
};

#[test]
fn channels_of_each_color_space() {
    assert_eq!(ColorSpace::Luma.num_channels(), 1);
    assert_eq!(ColorSpace::LumaA.num_channels(), 2);
    assert_eq!(ColorSpace::Rgb.num_channels(), 3);
    assert_eq!(ColorSpace::Rgba.num_channels(), 4);
    assert_eq!(ColorSpace::DigitalYuv.num_channels(), 3);
    assert_eq!(ColorSpace::Bgra.num_channels(), 4);
}

#[test]
fn codes_of_each_color_space() {
    assert_eq!(ColorSpace::Luma.code(), 1);
    assert_eq!(ColorSpace::LumaA.code(), 2);
    assert_eq!(ColorSpace::Rgb.code(), 3);
    assert_eq!(ColorSpace::Rgba.code(), 4);
    assert_eq!(ColorSpace::DigitalYuv.code(), 5);
    assert_eq!(ColorSpace::Bgra.code(), 6);
}

#[test]
fn color_space_of_pixel_formats() {
    assert_eq!(ColorSpace::from_pixel_format(PixelFormat::L16), Ok(ColorSpace::Luma));
    assert_eq!(ColorSpace::from_pixel_format(PixelFormat::La8), Ok(ColorSpace::LumaA));
    assert_eq!(ColorSpace::from_pixel_format(PixelFormat::Rgb16), Ok(ColorSpace::Rgb));
    assert_eq!(ColorSpace::from_pixel_format(PixelFormat::Rgba8), Ok(ColorSpace::Rgba));
    assert_eq!(ColorSpace::from_pixel_format(PixelFormat::Bgra8), Ok(ColorSpace::Bgra));
    assert!(matches!(ColorSpace::from_pixel_format(PixelFormat::Bgr8), Err(Error::Conversion(_))));
    assert!(matches!(ColorSpace::from_pixel_format(PixelFormat::Other), Err(Error::Conversion(_))));
}

#[test]
fn tensor_formats() {
    assert_eq!(ColorSpace::Luma.tensor_pixel_format(), Some(PixelFormat::L8));
    assert_eq!(ColorSpace::Rgb.tensor_pixel_format(), Some(PixelFormat::Rgb8));
    assert_eq!(ColorSpace::Rgba.tensor_pixel_format(), Some(PixelFormat::Rgba8));
    assert_eq!(ColorSpace::Bgra.tensor_pixel_format(), None);
}

#[test]
fn tensor_shapes() {
    assert_eq!(TchChannelOrder::CHW.to_chw((3, 4, 5)), (3, 4, 5));
    assert_eq!(TchChannelOrder::HWC.to_chw((4, 5, 3)), (3, 4, 5));
    assert_eq!(check_tensor_shape(ColorSpace::Rgb, TchChannelOrder::HWC, (4, 5, 3)), Ok(()));
    assert!(matches!(
        check_tensor_shape(ColorSpace::Rgba, TchChannelOrder::CHW, (3, 4, 5)),
        Err(Error::Conversion(_))
    ));
    assert!(matches!(
        check_tensor_shape(ColorSpace::Luma, TchChannelOrder::CHW, (-1, 4, 5)),
        Err(Error::Conversion(_))
    ));
}

#[test]
fn image_summary_of_samples() {
    let samples = vec![0u8, 64, 128, 255, 1, 2];
    let img = image_from_samples(&samples, 3, 2, PixelFormat::L8).unwrap();
    assert_eq!(img.width, 3);
    assert_eq!(img.height, 2);
    assert_eq!(img.colorspace, 1);
    assert_eq!(&img.encoded_image_string[..8], &[0x89, b'P', b'N', b'G', 0x0d, 0x0a, 0x1a, 0x0a]);
    assert_ne!(img.encoded_image_string, samples);
}

#[test]
fn image_summary_errors() {
    assert!(matches!(image_from_samples(&[0, 0, 0], 1, 1, PixelFormat::Bgr8), Err(Error::Conversion(_))));
    assert!(matches!(image_from_samples(&[0, 0], 3, 2, PixelFormat::L8), Err(Error::Conversion(_))));
}

#[test]
fn error_helpers() {
    assert_eq!(Error::corruption("x"), Error::Corruption("x".to_string()));
    assert_eq!(Error::conversion("y"), Error::Conversion("y".to_string()));
    assert!(Error::corruption("x").is_corruption());
    assert!(!Error::Io("z".to_string()).is_corruption());
}

#[test]
fn summary_fields() {
    let img = summary_image(640, 480, ColorSpace::Rgba, vec![1, 2, 3]);
    assert_eq!(img.width, 640);
    assert_eq!(img.height, 480);
    assert_eq!(img.colorspace, 4);
    assert_eq!(img.encoded_image_string, vec![1, 2, 3]);
    let wide = summary_image(u32::MAX, 1, ColorSpace::Luma, vec![]);
    assert_eq!(wide.width, -1);
}

#[test]
fn image_summary_needs_encodable_non_empty_image() {
    assert!(matches!(image_from_samples(&[0; 4], 1, 1, PixelFormat::Bgra8), Err(Error::Conversion(_))));
    assert!(matches!(image_from_samples(&[], 0, 3, PixelFormat::L8), Err(Error::Conversion(_))));
    assert!(matches!(image_from_samples(&[], 3, 0, PixelFormat::Rgb8), Err(Error::Conversion(_))));
    assert!(matches!(
        image_from_samples(&[0; 8], u32::MAX, u32::MAX, PixelFormat::Rgba16),
        Err(Error::Conversion(_))
    ));
    let img = image_from_samples(&[7; 16], 2, 1, PixelFormat::Rgba16).unwrap();
    assert_eq!(img.colorspace, 4);
    assert_eq!(&img.encoded_image_string[1..4], b"PNG");
}

#[test]
fn bytes_per_pixel_of_formats() {
    assert_eq!(PixelFormat::L8.bytes_per_pixel(), 1);
    assert_eq!(PixelFormat::La16.bytes_per_pixel(), 4);
    assert_eq!(PixelFormat::Rgb16.bytes_per_pixel(), 6);
    assert_eq!(PixelFormat::Bgra8.bytes_per_pixel(), 4);
    assert_eq!(PixelFormat::Other.bytes_per_pixel(), 0);
}
