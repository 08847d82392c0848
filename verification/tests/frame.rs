use libfreenect2_rs::float_bits::FloatBits;
use libfreenect2_rs::frame::{AsFrame, Frame, FrameFormat, FrameReference, Freenect2Frame, OwnedFrame};
use libfreenect2_rs::frame_data::{FrameData, FrameDataValue, RGBX};
use libfreenect2_rs::frame_value::FrameValue;
use libfreenect2_rs::pixel_grid::{has_byte_count, pixel_index, PixelGrid};

fn float(value: f32) -> FloatBits {
    FloatBits::from_bits(value.to_bits())
}

fn frame(width: usize, height: usize, bytes_per_pixel: usize, data: &[u8], format: FrameFormat) -> Frame<'_> {
    Frame::new(
        width,
        height,
        bytes_per_pixel,
        data,
        266,
        7,
        float(0.5),
        float(1.0),
        float(6.4),
        0,
        format,
    )
    .unwrap()
}

fn float_bytes(values: &[f32]) -> Vec<u8> {
    values.iter().flat_map(|v| v.to_le_bytes()).collect()
}

#[test]
fn factories_have_the_fixed_shapes() {
    let depth = Frame::depth();
    assert_eq!((depth.width(), depth.height(), depth.bytes_per_pixel()), (512, 424, 4));
    assert_eq!(depth.format(), FrameFormat::Float);
    assert_eq!(depth.raw_data().len(), 512 * 424 * 4);
    assert_eq!(depth.raw_data_len(), 512 * 424 * 4);

    let color = Frame::color_for_depth();
    assert_eq!((color.width(), color.height(), color.bytes_per_pixel()), (512, 424, 4));
    assert_eq!(color.format(), FrameFormat::RGBX);
    assert_eq!(color.raw_data().len(), 512 * 424 * 4);

    let big = Frame::depth_full_color();
    assert_eq!((big.width(), big.height(), big.bytes_per_pixel()), (1920, 1082, 4));
    assert_eq!(big.format(), FrameFormat::Float);
    assert_eq!(big.raw_data().len(), 1920 * 1082 * 4);
    assert_eq!(big.raw_data_len(), big.raw_data().len());
    assert!(big.raw_data().iter().all(|b| *b == 0));
    assert_eq!((big.timestamp(), big.sequence(), big.status()), (0, 0, 0));
}

#[test]
fn frame_needs_a_buffer_of_the_right_length() {
    let data = [0u8; 12];
    let make = |w, h, b| {
        Frame::new(w, h, b, &data, 0, 0, float(0.0), float(0.0), float(0.0), 0, FrameFormat::Raw)
    };
    assert!(make(3, 2, 2).is_some());
    assert!(make(1, 1, 12).is_some());
    assert!(make(3, 2, 3).is_none());
    assert!(make(0, 5, 4).is_none());
    assert!(make(usize::MAX, usize::MAX, 1).is_none());
    assert!(make(usize::MAX, 2, 6).is_none());
    let empty: [u8; 0] = [];
    let make_empty = |w, h, b| {
        Frame::new(w, h, b, &empty, 0, 0, float(0.0), float(0.0), float(0.0), 0, FrameFormat::Raw)
    };
    assert!(make_empty(0, 5, 4).is_some());
    assert!(make_empty(usize::MAX, usize::MAX, 0).is_some());
    assert!(make_empty(1, 1, 1).is_none());
}

#[test]
fn has_byte_count_multiplies_without_overflow() {
    assert!(has_byte_count(512, 424, 4, 512 * 424 * 4));
    assert!(!has_byte_count(512, 424, 4, 512 * 424 * 4 - 1));
    assert!(has_byte_count(0, usize::MAX, usize::MAX, 0));
    assert!(!has_byte_count(usize::MAX, usize::MAX, usize::MAX, 1));
    assert!(!has_byte_count(usize::MAX, 1, 2, usize::MAX));
    assert!(has_byte_count(usize::MAX, 1, 1, usize::MAX));
}

#[test]
fn pixel_index_is_row_major() {
    assert_eq!(pixel_index(512, 424, 4, 512 * 424 * 4, 0, 0), 0);
    assert_eq!(pixel_index(512, 424, 4, 512 * 424 * 4, 3, 0), 12);
    assert_eq!(pixel_index(512, 424, 4, 512 * 424 * 4, 0, 1), 2048);
    assert_eq!(pixel_index(512, 424, 4, 512 * 424 * 4, 511, 423), 512 * 424 * 4 - 4);
    assert_eq!(pixel_index(usize::MAX, usize::MAX, 0, 0, usize::MAX - 1, usize::MAX - 1), 0);
}

#[test]
fn get_pixel_decodes_by_format() {
    let data: Vec<u8> = (1..=24).collect();
    let rgbx = frame(3, 2, 4, &data, FrameFormat::RGBX);
    assert_eq!(rgbx.get_pixel(0, 0), FrameValue::RGBX(RGBX { r: 1, g: 2, b: 3, x: 4 }));
    assert_eq!(rgbx.get_pixel(2, 1), FrameValue::RGBX(RGBX { r: 21, g: 22, b: 23, x: 24 }));
    assert_eq!(rgbx.get_pixel(1, 1), FrameValue::RGBX(RGBX { r: 17, g: 18, b: 19, x: 20 }));

    let bgrx = frame(3, 2, 4, &data, FrameFormat::BGRX);
    assert_eq!(bgrx.get_pixel(0, 0), FrameValue::RGBX(RGBX { r: 3, g: 2, b: 1, x: 4 }));
    assert_eq!(bgrx.get_pixel(2, 1), FrameValue::RGBX(RGBX { r: 23, g: 22, b: 21, x: 24 }));

    let gray = frame(6, 4, 1, &data, FrameFormat::Gray);
    assert_eq!(gray.get_pixel(0, 0), FrameValue::Gray(1));
    assert_eq!(gray.get_pixel(5, 3), FrameValue::Gray(24));
    assert_eq!(gray.get_pixel(1, 2), FrameValue::Gray(14));

    let raw = frame(4, 2, 3, &data, FrameFormat::Raw);
    assert_eq!(raw.get_pixel(0, 0), FrameValue::Raw(vec![1, 2, 3]));
    assert_eq!(raw.get_pixel(3, 1), FrameValue::Raw(vec![22, 23, 24]));

    let invalid = frame(4, 2, 3, &data, FrameFormat::Invalid);
    assert_eq!(invalid.get_pixel(1, 0), FrameValue::Invalid(4));
    assert_eq!(invalid.get_pixel(3, 1), FrameValue::Invalid(22));
}

#[test]
fn get_pixel_decodes_floats() {
    let values = [1.5f32, -2.0, 0.0, 1234.25, f32::INFINITY, 4500.0];
    let data = float_bytes(&values);
    let depth = frame(3, 2, 4, &data, FrameFormat::Float);
    for y in 0..2 {
        for x in 0..3 {
            let expected = values[y * 3 + x];
            let pixel = depth.get_pixel(x, y).expect_float();
            assert_eq!(f32::from_bits(pixel.to_bits()), expected);
        }
    }
    assert_eq!(depth.get_pixel(0, 0), FrameValue::Float(float(1.5)));
}

#[test]
fn iteration_agrees_with_get_pixel() {
    let values: Vec<f32> = (0..12).map(|i| i as f32 * 0.25 - 1.0).collect();
    let data = float_bytes(&values);
    let depth = frame(4, 3, 4, &data, FrameFormat::Float);
    let view = depth.data().expect_float();
    let mut rows = view.iter();
    let mut y = 0;
    while let Some(mut row) = rows.next() {
        let mut x = 0;
        while let Some(value) = row.next() {
            assert_eq!(FrameValue::Float(value), depth.get_pixel(x, y));
            assert_eq!(value, view.get_pixel(x, y));
            assert_eq!(f32::from_bits(value.to_bits()), values[y * 4 + x]);
            x += 1;
        }
        assert_eq!(x, 4);
        assert!(row.next().is_none());
        y += 1;
    }
    assert_eq!(y, 3);
    assert!(rows.next().is_none());

    let mut again = view.iter();
    let mut first = again.next().unwrap();
    assert_eq!(first.next(), Some(float(-1.0)));
}

#[test]
fn iteration_over_colors() {
    let data: Vec<u8> = (0..16).collect();
    let color = frame(2, 2, 4, &data, FrameFormat::BGRX);
    let view = color.data().expect_rgbx();
    let mut seen = Vec::new();
    let mut rows = view.iter();
    while let Some(mut row) = rows.next() {
        while let Some(value) = row.next() {
            seen.push(value);
        }
    }
    assert_eq!(
        seen,
        vec![
            RGBX { r: 2, g: 1, b: 0, x: 3 },
            RGBX { r: 6, g: 5, b: 4, x: 7 },
            RGBX { r: 10, g: 9, b: 8, x: 11 },
            RGBX { r: 14, g: 13, b: 12, x: 15 },
        ]
    );
}

#[test]
fn iteration_over_an_empty_frame() {
    let empty: [u8; 0] = [];
    let none = frame(0, 3, 4, &empty, FrameFormat::Float);
    let view = none.data().expect_float();
    let mut rows = view.iter();
    let mut count = 0;
    while let Some(mut row) = rows.next() {
        assert!(row.next().is_none());
        count += 1;
    }
    assert_eq!(count, 3);
}

#[test]
fn data_fits_the_format() {
    let data: Vec<u8> = (0..16).collect();
    assert!(matches!(frame(2, 2, 4, &data, FrameFormat::RGBX).data(), FrameData::RGBX(_)));
    assert!(matches!(frame(2, 2, 4, &data, FrameFormat::BGRX).data(), FrameData::RGBX(_)));
    assert!(matches!(frame(2, 2, 4, &data, FrameFormat::Float).data(), FrameData::Float(_)));
    assert!(matches!(frame(4, 4, 1, &data, FrameFormat::Gray).data(), FrameData::Gray(_)));
    assert!(matches!(frame(2, 2, 4, &data, FrameFormat::Raw).data(), FrameData::Raw(_)));
    assert!(frame(2, 2, 4, &data, FrameFormat::Invalid).data().is_invalid());
    assert!(!frame(2, 2, 4, &data, FrameFormat::Raw).data().is_invalid());

    let raw = frame(2, 2, 4, &data, FrameFormat::Raw);
    assert_eq!(raw.data().format_name(), "Raw");
    assert_eq!(raw.data().expect_raw().get_pixel(1, 1), 12);
    assert!(raw.data().raw().is_some());
    assert!(raw.data().gray().is_none());
    assert!(raw.data().float().is_none());
    assert!(raw.data().rgbx().is_none());
    let gray = frame(4, 4, 1, &data, FrameFormat::Gray);
    assert_eq!(gray.data().expect_gray().get_pixel(3, 2), 11);
    assert_eq!(gray.data().format_name(), "Gray");
    assert_eq!(frame(2, 2, 4, &data, FrameFormat::Invalid).data().format_name(), "Invalid");
    assert_eq!(frame(2, 2, 4, &data, FrameFormat::Float).data().format_name(), "Float");
    assert_eq!(frame(2, 2, 4, &data, FrameFormat::BGRX).data().format_name(), "RGBX");
}

#[test]
fn channels_of_color_views() {
    let data: Vec<u8> = (10..26).collect();
    let rgbx = frame(2, 2, 4, &data, FrameFormat::RGBX);
    let view = rgbx.data().expect_rgbx();
    assert_eq!((view.red_at(1, 0), view.green_at(1, 0), view.blue_at(1, 0)), (14, 15, 16));
    assert_eq!(view.get_pixel(1, 0), RGBX { r: 14, g: 15, b: 16, x: 17 });
    let bgrx = frame(2, 2, 4, &data, FrameFormat::BGRX);
    let view = bgrx.data().expect_rgbx();
    assert_eq!((view.red_at(0, 1), view.green_at(0, 1), view.blue_at(0, 1)), (20, 19, 18));
    assert_eq!(view.get_pixel(0, 1), RGBX { r: 20, g: 19, b: 18, x: 21 });
    assert_eq!(RGBX { r: 1, g: 2, b: 3, x: 4 }.raw(), [1, 2, 3, 4]);
}

#[test]
fn valid_depth_is_positive_and_not_nan() {
    let values = [1.5f32, -2.0, 0.0, f32::NAN, f32::INFINITY, -0.0, 1.0e-40, -f32::NAN];
    let data = float_bytes(&values);
    let depth = frame(4, 2, 4, &data, FrameFormat::Float);
    let view = depth.data().expect_float();
    assert_eq!(view.get_valid_pixel(0, 0), Some(float(1.5)));
    assert_eq!(view.get_valid_pixel(1, 0), None);
    assert_eq!(view.get_valid_pixel(2, 0), None);
    assert_eq!(view.get_valid_pixel(3, 0), None);
    assert_eq!(view.get_valid_pixel(0, 1), Some(float(f32::INFINITY)));
    assert_eq!(view.get_valid_pixel(1, 1), None);
    assert_eq!(view.get_valid_pixel(2, 1), Some(float(1.0e-40)));
    assert_eq!(view.get_valid_pixel(3, 1), None);
}

#[test]
fn owned_round_trip_keeps_everything() {
    let data: Vec<u8> = (0..24).map(|i| i * 3 + 1).collect();
    let source = Frame::new(
        3,
        2,
        4,
        &data,
        533,
        42,
        float(12.5),
        float(1.25),
        float(2.5),
        9,
        FrameFormat::BGRX,
    )
    .unwrap();
    let owned: OwnedFrame = source.to_owned();
    let back = owned.to_frame();
    assert_eq!(back.width(), source.width());
    assert_eq!(back.height(), source.height());
    assert_eq!(back.bytes_per_pixel(), source.bytes_per_pixel());
    assert_eq!(back.format(), source.format());
    assert_eq!(back.timestamp(), 533);
    assert_eq!(back.sequence(), 42);
    assert_eq!(back.exposure(), float(12.5));
    assert_eq!(back.gain(), float(1.25));
    assert_eq!(back.gamma(), float(2.5));
    assert_eq!(back.status(), 9);
    assert_eq!(back.raw_data(), source.raw_data());
    assert_eq!(owned.raw_data(), &data[..]);
    assert_eq!(owned.get_pixel(1, 1), source.get_pixel(1, 1));

    let copy = owned.clone();
    assert_eq!(copy.raw_data(), owned.raw_data());
    assert_eq!(copy.sequence(), 42);
    assert_eq!(copy.format(), FrameFormat::BGRX);
}

#[test]
fn timestamp_in_milliseconds() {
    let data = [0u8; 4];
    let at = |timestamp| {
        Frame::new(1, 1, 4, &data, timestamp, 0, float(0.0), float(0.0), float(0.0), 0, FrameFormat::Float)
            .unwrap()
            .timestamp_as_millis()
    };
    assert_eq!(at(0), 0);
    assert_eq!(at(7), 0);
    assert_eq!(at(8), 1);
    assert_eq!(at(266), 33);
    assert_eq!(at(533), 66);
    assert_eq!(at(u32::MAX), 536_870_911);
}

#[test]
fn as_frame_borrows_or_views() {
    let data: Vec<u8> = (0..8).collect();
    let source = frame(2, 1, 4, &data, FrameFormat::RGBX);
    let borrowed = source.as_frame();
    assert!(matches!(borrowed, FrameReference::Borrowed(_)));
    assert_eq!(borrowed.get().raw_data(), &data[..]);
    let owned = source.to_owned();
    let viewed = owned.as_frame();
    assert!(matches!(viewed, FrameReference::Owned(_)));
    assert_eq!(viewed.get().raw_data(), &data[..]);
    assert_eq!(viewed.get().timestamp(), 266);
}

#[test]
fn frame_value_accessors() {
    let raw = FrameValue::Raw(vec![1, 2]);
    let invalid = FrameValue::Invalid(3);
    let depth = FrameValue::Float(float(2.0));
    let color = FrameValue::RGBX(RGBX { r: 1, g: 2, b: 3, x: 4 });
    let gray = FrameValue::Gray(9);
    assert_eq!(raw.raw(), Some(&vec![1, 2]));
    assert_eq!(raw.expect_raw(), &vec![1, 2]);
    assert_eq!(raw.float(), None);
    assert_eq!(depth.float(), Some(float(2.0)));
    assert_eq!(depth.expect_float(), float(2.0));
    assert_eq!(depth.gray(), None);
    assert_eq!(color.rgbx(), Some(&RGBX { r: 1, g: 2, b: 3, x: 4 }));
    assert_eq!(color.expect_rgbx(), &RGBX { r: 1, g: 2, b: 3, x: 4 });
    assert_eq!(color.raw(), None);
    assert_eq!(gray.gray(), Some(9));
    assert_eq!(gray.expect_gray(), 9);
    assert_eq!(gray.rgbx(), None);
    assert_eq!(invalid.gray(), None);
    assert_eq!(invalid.raw(), None);
    let names = [raw, invalid, depth, color, gray].map(|v| v.format_name());
    assert_eq!(names, ["raw", "invalid", "float", "RGBX", "gray"]);
}

#[test]
fn pixel_grid_reads_its_geometry() {
    let data: Vec<u8> = (0..24).collect();
    let grid = PixelGrid::new(3, 2, 4, &data).unwrap();
    assert_eq!((grid.width(), grid.height(), grid.bytes_per_pixel()), (3, 2, 4));
    assert_eq!(grid.index(2, 1), 20);
    assert_eq!(grid.pixel_count(), 6);
    assert_eq!(grid.bytes(), &data[..]);
    assert!(PixelGrid::new(3, 2, 5, &data).is_none());
}

#[test]
fn readable_pixels() {
    let data: Vec<u8> = (0..12).collect();
    let narrow = frame(3, 2, 2, &data, FrameFormat::Float);
    assert!(narrow.is_readable(0, 0));
    assert!(narrow.is_readable(1, 1));
    assert!(!narrow.is_readable(2, 1));
    assert!(!narrow.is_readable(3, 0));
    assert!(!narrow.is_readable(0, 2));
    assert!(!narrow.has_image());
    assert_eq!(narrow.get_pixel(1, 1).expect_float().to_bits(), u32::from_le_bytes([8, 9, 10, 11]));
    let gray = frame(3, 2, 2, &data, FrameFormat::Gray);
    assert!(gray.is_readable(2, 1));
    assert!(gray.has_image());
    let raw = frame(3, 4, 1, &data, FrameFormat::Raw);
    assert!(raw.is_readable(2, 3));
    assert!(!raw.is_readable(2, 4));
    assert!(raw.has_image());
    let color = frame(1, 3, 4, &data, FrameFormat::BGRX);
    assert!(color.is_readable(0, 2));
    assert!(color.has_image());
    let empty: [u8; 0] = [];
    let none = frame(0, 7, 0, &empty, FrameFormat::RGBX);
    assert!(!none.is_readable(0, 0));
    assert!(none.has_image());
}
