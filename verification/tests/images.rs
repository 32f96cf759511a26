use feim::buffer::{AsTyped, AsTypedMut, RawPixBuf};
use feim::byteorder::{fit32, swap_bytes16, to_be_bytes32, u32_from_be_bytes};
use feim::color::{
    BigEndian, Cmyk, Color, Gray, Gray16, Gray16Be, LittleEndian, NativeEndian, Nrgba, Nrgba64,
    Nrgba64Be, Rgb, Rgb48, Rgb48Be,
};
use feim::image::farbfeld::{Farbfeld, FarbfeldDecodeOptions};
use feim::image::jpeg::{Jpeg, JpegBuf, JpegEncodeOptions, JpegPix};
use feim::image::png::{Png, PngBuf, PngEncodeOptions, PngPix};
use feim::image::webp::Webp;
use feim::image::{
    built_in_formats, jpeg, png, BuiltInFormat, Dimensions, Format, Image, ImageMut,
};
use feim::prng::State;
use feim::serialize::{
    try_format, Decode, DecodeError, DecodeSpecialized, Encode, EncodeError, EncodeGeneric,
    EncodeSpecialized, GenericDecodeOptions,
};
use feim::specialized::No;

#[test]
fn bytes_of_a_32_bit_number() {
    assert_eq!(to_be_bytes32(100), [0, 0, 0, 100]);
    assert_eq!(to_be_bytes32(0x0102_0304), [1, 2, 3, 4]);
    assert_eq!(u32_from_be_bytes(1, 2, 3, 4), 0x0102_0304);
    assert_eq!(swap_bytes16(0x1234), 0x3412);
    assert_eq!(fit32(7), Some(7));
    assert_eq!(fit32(0xffff_ffff), Some(u32::MAX));
    if usize::BITS > 32 {
        assert_eq!(fit32((1usize << 32) + 5), None);
    }
}

#[test]
fn buffer_from_bytes_of_the_right_length() {
    let buf: RawPixBuf<Rgb> = RawPixBuf::from_vec(2, 1, vec![1, 2, 3, 4, 5, 6]).unwrap();
    assert_eq!(buf.dimensions(), (2, 1));
    assert_eq!(buf.color_get(0, 0), Rgb { r: 1, g: 2, b: 3 });
    assert_eq!(buf.color_get(1, 0), Rgb { r: 4, g: 5, b: 6 });
    assert_eq!(buf.to_bytes(), vec![1, 2, 3, 4, 5, 6]);
    let r: Result<RawPixBuf<Rgb>, Vec<u8>> = RawPixBuf::from_vec(2, 1, vec![1, 2, 3, 4, 5]);
    assert_eq!(r.err(), Some(vec![1, 2, 3, 4, 5]));
    let r: Result<RawPixBuf<Rgb>, Vec<u8>> = RawPixBuf::from_vec(usize::MAX, 2, vec![]);
    assert!(r.is_err());
    assert!(RawPixBuf::<Gray>::from_slice(3, 2, &[0; 6]).is_some());
    assert!(RawPixBuf::<Gray>::from_slice(3, 2, &[0; 7]).is_none());
}

#[test]
fn sixteen_bit_pixels_lie_in_memory_in_the_byte_order_of_the_machine() {
    let bytes = vec![0x12, 0x34, 0x56, 0x78];
    let buf: RawPixBuf<Gray16Be> = RawPixBuf::from_vec(2, 1, bytes.clone()).unwrap();
    assert_eq!(buf.color_get(0, 0).y(), 0x1234);
    assert_eq!(buf.color_get(1, 0).y(), 0x5678);
    assert_eq!(buf.color_get(0, 0).y, u16::from_ne_bytes([0x12, 0x34]));
    assert_eq!(buf.to_bytes(), bytes);
    let buf: RawPixBuf<Gray16<LittleEndian>> = RawPixBuf::from_vec(2, 1, bytes.clone()).unwrap();
    assert_eq!(buf.color_get(0, 0).y(), 0x3412);
    let buf: RawPixBuf<Gray16<NativeEndian>> = RawPixBuf::from_vec(1, 2, bytes.clone()).unwrap();
    assert_eq!(buf.color_get(0, 1).y(), u16::from_ne_bytes([0x56, 0x78]));
    let px: Vec<u8> = (1..=12).collect();
    let buf: RawPixBuf<Rgb48Be> = RawPixBuf::from_vec(1, 2, px.clone()).unwrap();
    let c = buf.color_get(0, 1);
    assert_eq!((c.r(), c.g(), c.b()), (0x0708, 0x090a, 0x0b0c));
    assert_eq!(buf.to_bytes(), px);
    let px: Vec<u8> = (1..=16).collect();
    let buf: RawPixBuf<Nrgba64Be> = RawPixBuf::from_vec(2, 1, px.clone()).unwrap();
    let c = buf.color_get(1, 0);
    assert_eq!((c.r(), c.g(), c.b(), c.a()), (0x090a, 0x0b0c, 0x0d0e, 0x0f10));
    assert_eq!(buf.to_bytes(), px);
}

#[test]
fn new_buffer_is_all_zero() {
    let buf: RawPixBuf<Cmyk> = RawPixBuf::new(3, 2);
    assert_eq!(buf.to_bytes(), vec![0u8; 24]);
    assert_eq!(buf.as_typed().len(), 6);
    let buf: RawPixBuf<Nrgba64Be> = RawPixBuf::new(2, 2);
    assert_eq!(buf.to_bytes(), vec![0u8; 32]);
    assert!(RawPixBuf::<Gray>::try_new(usize::MAX, 2).is_none());
    assert!(RawPixBuf::<Gray>::try_new(4, 2).is_some());
    let buf = RawPixBuf::filled(2, 2, Gray { y: 7 });
    assert_eq!(buf.to_bytes(), vec![7, 7, 7, 7]);
}

#[test]
fn pixels_are_set_in_row_major_order() {
    let mut buf: RawPixBuf<Gray> = RawPixBuf::new(3, 2);
    buf.pixel_set(1, 0, Gray { y: 5 });
    buf.pixel_set(2, 1, Gray { y: 9 });
    buf.color_set_generic(0, 1, Rgb { r: 255, g: 255, b: 255 });
    assert_eq!(buf.to_bytes(), vec![0, 5, 0, 255, 0, 9]);
    buf.as_typed_mut()[0] = Gray { y: 1 };
    assert_eq!(buf.color_get(0, 0), Gray { y: 1 });
    let copy = buf.clone();
    assert_eq!(copy.to_bytes(), buf.to_bytes());
    assert_eq!(copy.dimensions(), (3, 2));
    assert!(RawPixBuf::from_pixels(2, 2, vec![Gray { y: 0 }; 3]).is_err());
    assert!(RawPixBuf::from_pixels(2, 2, vec![Gray { y: 0 }; 4]).is_ok());
}

#[test]
fn buffer_changes_its_byte_order() {
    let mut buf: RawPixBuf<Gray16<BigEndian>> = RawPixBuf::new(2, 1);
    buf.pixel_set(0, 0, Gray16::be(0x1234));
    buf.pixel_set(1, 0, Gray16::be(0xabcd));
    let le: RawPixBuf<Gray16<LittleEndian>> = buf.encode_as();
    assert_eq!(le.color_get(0, 0).y(), 0x1234);
    assert_eq!(le.to_bytes(), vec![0x34, 0x12, 0xcd, 0xab]);
    let mut buf: RawPixBuf<Nrgba64<NativeEndian>> = RawPixBuf::new(1, 1);
    buf.pixel_set(0, 0, Nrgba64::ne(1, 2, 3, 4));
    let be: RawPixBuf<Nrgba64<BigEndian>> = buf.encode_as();
    assert_eq!(be.to_bytes(), vec![0, 1, 0, 2, 0, 3, 0, 4]);
    let mut buf: RawPixBuf<Rgb48<NativeEndian>> = RawPixBuf::new(1, 1);
    buf.pixel_set(0, 0, Rgb48::ne(0xffff, 2, 3));
    let be: RawPixBuf<Rgb48<BigEndian>> = buf.encode_as();
    assert_eq!(be.to_bytes(), vec![0xff, 0xff, 0, 2, 0, 3]);
}

fn sample() -> RawPixBuf<Nrgba64Be> {
    let mut buf: RawPixBuf<Nrgba64Be> = RawPixBuf::new(2, 2);
    buf.pixel_set(0, 0, Nrgba64::be(0x0102, 0x0304, 0x0506, 0x0708));
    buf.pixel_set(1, 0, Nrgba64::be(0x1112, 0x1314, 0x1516, 0x1718));
    buf.pixel_set(0, 1, Nrgba64::be(0x2122, 0x2324, 0x2526, 0x2728));
    buf.pixel_set(1, 1, Nrgba64::be(0x3132, 0x3334, 0x3536, 0x3738));
    buf
}

#[test]
fn farbfeld_file_of_a_buffer() {
    let file = <Farbfeld as Encode<RawPixBuf<Nrgba64Be>>>::encode((), &sample()).unwrap();
    let mut expected = b"farbfeld".to_vec();
    expected.extend_from_slice(&[0, 0, 0, 2, 0, 0, 0, 2]);
    expected.extend_from_slice(&[1, 2, 3, 4, 5, 6, 7, 8]);
    expected.extend_from_slice(&[0x11, 0x12, 0x13, 0x14, 0x15, 0x16, 0x17, 0x18]);
    expected.extend_from_slice(&[0x21, 0x22, 0x23, 0x24, 0x25, 0x26, 0x27, 0x28]);
    expected.extend_from_slice(&[0x31, 0x32, 0x33, 0x34, 0x35, 0x36, 0x37, 0x38]);
    assert_eq!(file, expected);
    let same = Farbfeld::encode_specialized((), &sample()).unwrap();
    assert_eq!(same, expected);
}

#[test]
fn farbfeld_file_of_any_image() {
    let mut buf: RawPixBuf<Rgb> = RawPixBuf::new(2, 1);
    buf.pixel_set(0, 0, Rgb { r: 0x12, g: 0x34, b: 0x56 });
    buf.pixel_set(1, 0, Rgb { r: 0, g: 0xff, b: 1 });
    let file = <Farbfeld as Encode<RawPixBuf<Rgb>, No>>::encode((), &buf).unwrap();
    let mut expected = b"farbfeld".to_vec();
    expected.extend_from_slice(&[0, 0, 0, 2, 0, 0, 0, 1]);
    if u16::from_ne_bytes([1, 0]) == 1 {
        expected.extend_from_slice(&[0x12, 0x12, 0x34, 0x34, 0x56, 0x56, 0xff, 0xff]);
        expected.extend_from_slice(&[0, 0, 0xff, 0xff, 1, 1, 0xff, 0xff]);
        assert_eq!(file, expected);
    }
    assert_eq!(file.len(), 32);
    assert_eq!(Farbfeld::encode_generic((), &buf).unwrap(), file);
}

#[test]
fn image_too_wide_for_the_header_is_not_encoded() {
    if usize::BITS > 32 {
        let wide: RawPixBuf<Nrgba64Be> = RawPixBuf::new(1usize << 32, 0);
        assert_eq!(
            <Farbfeld as Encode<RawPixBuf<Nrgba64Be>>>::encode((), &wide).err(),
            Some(EncodeError::Unsupported)
        );
        let tall: RawPixBuf<Rgb> = RawPixBuf::new(0, (1usize << 32) + 5);
        assert_eq!(
            <Farbfeld as Encode<RawPixBuf<Rgb>, No>>::encode((), &tall).err(),
            Some(EncodeError::Unsupported)
        );
        assert_eq!(Png::frame(&tall).err(), Some(EncodeError::Unsupported));
        assert_eq!(Png::frame_generic(&tall).err(), Some(EncodeError::Unsupported));
        assert_eq!(Png::frame_of(&PngBuf::Rgb(tall)).err(), Some(EncodeError::Unsupported));
    }
    let edge: RawPixBuf<Nrgba64Be> = RawPixBuf::new(0xffff_ffff, 0);
    let file = <Farbfeld as Encode<RawPixBuf<Nrgba64Be>>>::encode((), &edge).unwrap();
    assert_eq!(&file[8..], &[0xff, 0xff, 0xff, 0xff, 0, 0, 0, 0]);
}

#[test]
fn farbfeld_file_is_read_back() {
    let file = Farbfeld::encode_specialized((), &sample()).unwrap();
    let opts = FarbfeldDecodeOptions::default();
    assert!(opts.check_header);
    let buf: RawPixBuf<Nrgba64Be> = Farbfeld::decode(&file, opts).unwrap();
    assert_eq!(buf.dimensions(), (2, 2));
    assert_eq!(buf.to_bytes(), sample().to_bytes());
    let c = buf.color_get(1, 1);
    assert_eq!((c.r(), c.g(), c.b(), c.a()), (0x3132, 0x3334, 0x3536, 0x3738));
    let again: RawPixBuf<Nrgba64Be> =
        Farbfeld::decode_specialized(&file, FarbfeldDecodeOptions { check_header: true }).unwrap();
    assert_eq!(again.to_bytes(), buf.to_bytes());
}

#[test]
fn farbfeld_decoder_rejects_what_is_no_file() {
    let file = Farbfeld::encode_specialized((), &sample()).unwrap();
    let short = &file[..15];
    let r: Result<RawPixBuf<Nrgba64Be>, DecodeError> =
        Farbfeld::decode(short, FarbfeldDecodeOptions { check_header: true });
    assert_eq!(r.err(), Some(DecodeError::UnexpectedEof));
    let cut = &file[..file.len() - 1];
    let r: Result<RawPixBuf<Nrgba64Be>, DecodeError> =
        Farbfeld::decode(cut, FarbfeldDecodeOptions { check_header: true });
    assert_eq!(r.err(), Some(DecodeError::UnexpectedEof));
    let mut wrong = file.clone();
    wrong[0] = b'g';
    let r: Result<RawPixBuf<Nrgba64Be>, DecodeError> =
        Farbfeld::decode(&wrong, FarbfeldDecodeOptions { check_header: true });
    assert_eq!(r.err(), Some(DecodeError::InvalidMagic));
    let r: Result<RawPixBuf<Nrgba64Be>, DecodeError> =
        Farbfeld::decode(&wrong, FarbfeldDecodeOptions { check_header: false });
    assert_eq!(r.unwrap().to_bytes(), sample().to_bytes());
    let mut long = file.clone();
    long.push(9);
    let r: Result<RawPixBuf<Nrgba64Be>, DecodeError> =
        Farbfeld::decode(&long, FarbfeldDecodeOptions { check_header: true });
    assert_eq!(r.unwrap().to_bytes(), sample().to_bytes());
    let mut huge = b"farbfeld".to_vec();
    huge.extend_from_slice(&[0xff; 8]);
    let r: Result<RawPixBuf<Nrgba64Be>, DecodeError> =
        Farbfeld::decode(&huge, FarbfeldDecodeOptions { check_header: true });
    assert_eq!(r.err(), Some(DecodeError::UnexpectedEof));
}

#[test]
fn magic_strings() {
    assert_eq!(Farbfeld.id(), "feim:ff");
    assert_eq!(Farbfeld.magic(), b"farbfeld????????");
    assert_eq!(Jpeg.id(), "feim:jpeg");
    assert_eq!(Jpeg.magic(), b"\xff\xd8\xff");
    assert_eq!(Png.id(), "feim:png");
    assert_eq!(Png.magic(), b"\x89PNG\r\n\x1a\n");
    assert_eq!(Webp.id(), "feim:webp");
    assert_eq!(Webp.magic(), b"RIFF????WEBPVP8");
    assert!(Farbfeld.is_valid_magic(b"farbfeld\x00\x00\x00\x01\x00\x00\x00\x01rest"));
    assert!(!Farbfeld.is_valid_magic(b"farbfeld\x00\x00\x00\x01"));
    assert!(!Farbfeld.is_valid_magic(b"farbfelt\x00\x00\x00\x01\x00\x00\x00\x01"));
    assert!(Webp.is_valid_magic(b"RIFF\x01\x02\x03\x04WEBPVP8 "));
    assert!(!Webp.is_valid_magic(b"RIFF\x01\x02\x03\x04WEBPVP9 "));
    assert!(Jpeg.is_valid_magic(&[0xff, 0xd8, 0xff, 0xe0]));
}

#[test]
fn format_is_found_by_its_magic_string() {
    assert_eq!(
        built_in_formats(),
        &[BuiltInFormat::Farbfeld, BuiltInFormat::Jpeg, BuiltInFormat::Png, BuiltInFormat::Webp]
    );
    let formats: Vec<&dyn Format> = built_in_formats().iter().map(|f| f as &dyn Format).collect();
    assert_eq!(formats.len(), 4);
    assert_eq!(formats[0].id(), "feim:ff");
    assert_eq!(formats[1].id(), "feim:jpeg");
    assert_eq!(formats[2].id(), "feim:png");
    assert_eq!(formats[3].id(), "feim:webp");
    assert_eq!(try_format(b"\x89PNG\r\n\x1a\n....", &formats), Ok(2));
    assert_eq!(try_format(&[0xff, 0xd8, 0xff], &formats), Ok(1));
    assert_eq!(try_format(b"farbfeld\x00\x00\x00\x01\x00\x00\x00\x01", &formats), Ok(0));
    assert_eq!(try_format(b"GIF89a", &formats), Err(DecodeError::NoMatchingMagic));
    let none: [&dyn Format; 0] = [];
    assert_eq!(try_format(b"", &none), Err(DecodeError::NoMatchingMagic));
    assert_eq!(try_format(b"\x89PNG\r\n\x1a\n", built_in_formats()), Ok(2));
    assert_eq!(try_format(b"RIFF\x00\x00\x00\x00WEBPVP8 ", built_in_formats()), Ok(3));
    assert_eq!(try_format(b"GIF89a", built_in_formats()), Err(DecodeError::NoMatchingMagic));
    let twice: [&dyn Format; 2] = [&Png, &Png];
    assert_eq!(try_format(b"\x89PNG\r\n\x1a\n", &twice), Ok(0));
    assert_eq!(BuiltInFormat::detect(b"RIFF0000WEBPVP8L"), Some(BuiltInFormat::Webp));
    assert_eq!(BuiltInFormat::detect(b"\x89PNG\r\n\x1a\n"), Some(BuiltInFormat::Png));
    assert_eq!(BuiltInFormat::detect(b"nothing"), None);
    assert_eq!(BuiltInFormat::Jpeg.id(), "feim:jpeg");
    assert_eq!(BuiltInFormat::Farbfeld.magic(), Farbfeld.magic());
    assert!(GenericDecodeOptions::default().check_header);
}

#[test]
fn jpeg_options_take_a_quality_up_to_100() {
    assert_eq!(JpegEncodeOptions::new(0).map(|o| o.quality()), Some(0));
    assert_eq!(JpegEncodeOptions::new(100).map(|o| o.quality()), Some(100));
    assert!(JpegEncodeOptions::new(101).is_none());
}

#[test]
fn decoded_jpeg_has_the_colour_of_its_pixel_format() {
    let buf = JpegBuf::from_decoded(jpeg::PixelFormat::RGB24, 2, 1, vec![1, 2, 3, 4, 5, 6]).unwrap();
    assert_eq!(buf.dimensions(), (2, 1));
    assert!(matches!(buf.color_get(1, 0), JpegPix::Rgb(Rgb { r: 4, g: 5, b: 6 })));
    assert_eq!(buf.color_get(0, 0).as_rgba(), (0x0101, 0x0202, 0x0303, 0xffff));
    let frame = Jpeg::frame_of(&buf).unwrap();
    assert_eq!((frame.width, frame.height, frame.color), (2, 1, jpeg::ColorType::Rgb));
    assert_eq!(frame.data, vec![1, 2, 3, 4, 5, 6]);
    let buf = JpegBuf::from_decoded(jpeg::PixelFormat::L8, 2, 2, vec![1, 2, 3, 4]).unwrap();
    assert!(matches!(buf, JpegBuf::Gray(_)));
    assert_eq!(Jpeg::frame_of(&buf).unwrap().color, jpeg::ColorType::Luma);
    let buf = JpegBuf::from_decoded(jpeg::PixelFormat::CMYK32, 1, 1, vec![1, 2, 3, 4]).unwrap();
    assert!(matches!(buf.color_get(0, 0), JpegPix::Cmyk(Cmyk { c: 1, m: 2, y: 3, k: 4 })));
    assert_eq!(Jpeg::frame_of(&buf).unwrap().color, jpeg::ColorType::Cmyk);
    let buf = JpegBuf::from_decoded(jpeg::PixelFormat::L16, 1, 1, vec![0x12, 0x34]).unwrap();
    assert!(matches!(buf.color_get(0, 0), JpegPix::Gray16(c) if c.y() == 0x1234));
    assert_eq!(buf.to_bytes(), vec![0x12, 0x34]);
    assert_eq!(Jpeg::frame_of(&buf).err(), Some(EncodeError::Unsupported));
    assert_eq!(
        JpegBuf::from_decoded(jpeg::PixelFormat::RGB24, 2, 1, vec![1, 2, 3]).err(),
        Some(DecodeError::Malformed)
    );
}

#[test]
fn jpeg_frames_of_buffers() {
    let buf: RawPixBuf<Nrgba> = RawPixBuf::from_vec(1, 1, vec![1, 2, 3, 4]).unwrap();
    let frame = Jpeg::frame(&buf).unwrap();
    assert_eq!((frame.width, frame.height, frame.color), (1, 1, jpeg::ColorType::Rgba));
    let buf: RawPixBuf<Gray> = RawPixBuf::new(0xffff, 1);
    let frame = Jpeg::frame(&buf).unwrap();
    assert_eq!((frame.width, frame.height, frame.color), (0xffff, 1, jpeg::ColorType::Luma));
    let buf: RawPixBuf<Gray> = RawPixBuf::new(0x1_0001, 1);
    assert_eq!(Jpeg::frame(&buf).err(), Some(EncodeError::Unsupported));
    assert_eq!(Jpeg::frame_generic(&buf).err(), Some(EncodeError::Unsupported));
    let buf: RawPixBuf<Gray> = RawPixBuf::new(1, 0x1_0000);
    assert_eq!(Jpeg::frame_of(&JpegBuf::Gray(buf)).err(), Some(EncodeError::Unsupported));
    let buf: RawPixBuf<Gray> = RawPixBuf::from_vec(2, 1, vec![0, 0xff]).unwrap();
    let frame = Jpeg::frame_generic(&buf).unwrap();
    assert_eq!((frame.width, frame.height, frame.color), (2, 1, jpeg::ColorType::Rgb));
    assert_eq!(frame.data, vec![0, 0, 0, 0xff, 0xff, 0xff]);
}

#[test]
fn decoded_png_has_the_colour_of_its_layout() {
    let opts = PngEncodeOptions::default();
    assert_eq!(opts.filter, png::FilterType::NoFilter);
    assert_eq!(opts.compression, png::Compression::Default);
    let data: Vec<u8> = (1..=16).collect();
    let buf =
        PngBuf::from_decoded(png::ColorType::Rgba, png::BitDepth::Sixteen, 2, 1, data.clone()).unwrap();
    assert!(matches!(buf, PngBuf::Nrgba64(_)));
    assert!(matches!(buf.color_get(0, 0), PngPix::Nrgba64(c) if c.r() == 0x0102));
    let frame = Png::frame_of(&buf).unwrap();
    assert_eq!(
        (frame.width, frame.height, frame.color, frame.depth),
        (2, 1, png::ColorType::Rgba, png::BitDepth::Sixteen)
    );
    assert_eq!(frame.data, data);
    let buf = PngBuf::from_decoded(png::ColorType::Rgba, png::BitDepth::Eight, 2, 2, data.clone()).unwrap();
    assert!(matches!(buf.color_get(1, 1), PngPix::Nrgba(Nrgba { r: 13, g: 14, b: 15, a: 16 })));
    let buf =
        PngBuf::from_decoded(png::ColorType::Grayscale, png::BitDepth::Eight, 4, 4, data.clone()).unwrap();
    assert!(matches!(buf.color_get(3, 3), PngPix::Gray(Gray { y: 16 })));
    let buf =
        PngBuf::from_decoded(png::ColorType::Grayscale, png::BitDepth::Sixteen, 4, 2, data.clone()).unwrap();
    assert!(matches!(buf.color_get(0, 1), PngPix::Gray16(c) if c.y() == 0x090a));
    let buf = PngBuf::from_decoded(png::ColorType::Rgb, png::BitDepth::Eight, 1, 1, vec![1, 2, 3]).unwrap();
    assert_eq!(Png::frame_of(&buf).unwrap().color, png::ColorType::Rgb);
    let buf = PngBuf::from_decoded(png::ColorType::Rgb, png::BitDepth::Sixteen, 1, 1, vec![1, 2, 3, 4, 5, 6])
        .unwrap();
    assert_eq!(buf.color_get(0, 0).as_rgba(), (0x0102, 0x0304, 0x0506, 0xffff));
    assert_eq!(
        PngBuf::from_decoded(png::ColorType::Indexed, png::BitDepth::Eight, 1, 1, vec![1]).err(),
        Some(DecodeError::UnsupportedColorType)
    );
    assert_eq!(
        PngBuf::from_decoded(png::ColorType::Grayscale, png::BitDepth::Four, 1, 1, vec![1]).err(),
        Some(DecodeError::UnsupportedColorType)
    );
    assert_eq!(
        PngBuf::from_decoded(png::ColorType::Rgb, png::BitDepth::Eight, 1, 1, vec![1, 2]).err(),
        Some(DecodeError::Malformed)
    );
}

#[test]
fn png_frame_of_any_image_holds_16_bit_colours() {
    let buf: RawPixBuf<Gray> = RawPixBuf::from_vec(1, 2, vec![0, 0x12]).unwrap();
    let frame = Png::frame_generic(&buf).unwrap();
    assert_eq!(
        (frame.width, frame.height, frame.color, frame.depth),
        (1, 2, png::ColorType::Rgba, png::BitDepth::Sixteen)
    );
    if u16::from_ne_bytes([1, 0]) == 1 {
        assert_eq!(
            frame.data,
            vec![0, 0, 0, 0, 0, 0, 0xff, 0xff, 0x12, 0x12, 0x12, 0x12, 0x12, 0x12, 0xff, 0xff]
        );
    }
    let frame = Png::frame(&RawPixBuf::<Rgb48Be>::new(3, 1)).unwrap();
    assert_eq!((frame.color, frame.depth, frame.data.len()), (png::ColorType::Rgb, png::BitDepth::Sixteen, 18));
}

#[test]
fn decoded_images_can_be_set() {
    let mut buf = JpegBuf::from_decoded(jpeg::PixelFormat::L8, 2, 1, vec![0, 0]).unwrap();
    buf.pixel_set(0, 0, JpegPix::Gray(Gray { y: 7 }));
    buf.pixel_set(1, 0, JpegPix::Rgb(Rgb { r: 255, g: 255, b: 255 }));
    assert_eq!(buf.to_bytes(), vec![7, 255]);
    let mut buf =
        PngBuf::from_decoded(png::ColorType::Rgb, png::BitDepth::Eight, 1, 1, vec![0, 0, 0]).unwrap();
    buf.pixel_set(0, 0, PngPix::Gray(Gray { y: 0x80 }));
    assert_eq!(buf.to_bytes(), vec![0x80, 0x80, 0x80]);
}

fn reference_next(s: &mut [u64; 4]) -> u64 {
    let result = s[1].wrapping_mul(5).rotate_left(7).wrapping_mul(9);
    let t = s[1] << 17;
    s[2] ^= s[0];
    s[3] ^= s[1];
    s[1] ^= s[2];
    s[0] ^= s[3];
    s[2] ^= t;
    s[3] = s[3].rotate_left(45);
    result
}

fn reference_seed(nanos: u64) -> [u64; 4] {
    let jump: [u64; 4] =
        [0x76e15d3efefdcbbf, 0xc5004e441c522fb3, 0x77710069854ee241, 0x39109bb02acbe635];
    let mut s = [nanos << 3, nanos << 2, nanos << 1, nanos];
    let mut acc = [0u64; 4];
    for j in jump {
        for b in 0..64 {
            if j & (1u64 << b) != 0 {
                for k in 0..4 {
                    acc[k] ^= s[k];
                }
            }
            reference_next(&mut s);
        }
    }
    acc
}

#[test]
fn generator_draws_the_numbers_of_xoshiro256() {
    let mut state = State::from_seed(0x1234_5678_9abc_def0);
    let mut reference = reference_seed(0x1234_5678_9abc_def0);
    for _ in 0..100 {
        assert_eq!(state.next_state(), reference_next(&mut reference));
    }
    let mut a = State::from_seed(1);
    let mut b = State::from_seed(1);
    assert_eq!(a.next_state(), b.next_state());
    let mut c = State::from_seed(2);
    assert_ne!(a.next_state(), c.next_state());
}

#[test]
fn generator_keeps_the_lower_64_bits_of_a_time() {
    let mut a = State::from_nanos((7u128 << 64) + 0x1234_5678_9abc_def0);
    let mut b = State::from_seed(0x1234_5678_9abc_def0);
    for _ in 0..10 {
        assert_eq!(a.next_state(), b.next_state());
    }
}

#[test]
fn generator_is_seeded_by_the_clock() {
    let state = State::new();
    assert!(state.is_some());
}
