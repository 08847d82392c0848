use libfreenect2_rs::frame::FrameFormat;
use libfreenect2_rs::frame_type::{FrameType, FrameTypes};
use libfreenect2_rs::native::{LogLevel, LogRoute, PacketPipeline, Severity};

#[test]
fn frame_type_codes() {
    assert_eq!(FrameType::Color.to_native(), 1);
    assert_eq!(FrameType::Ir.to_native(), 2);
    assert_eq!(FrameType::Depth.to_native(), 4);
    assert_eq!(FrameType::from_native(1), Some(FrameType::Color));
    assert_eq!(FrameType::from_native(2), Some(FrameType::Ir));
    assert_eq!(FrameType::from_native(4), Some(FrameType::Depth));
    assert_eq!(FrameType::from_native(0), None);
    assert_eq!(FrameType::from_native(3), None);
    assert_eq!(FrameType::from_native(5), None);
}

#[test]
fn frame_format_codes() {
    let formats = [
        (FrameFormat::Invalid, 0),
        (FrameFormat::Raw, 1),
        (FrameFormat::Float, 2),
        (FrameFormat::BGRX, 4),
        (FrameFormat::RGBX, 5),
        (FrameFormat::Gray, 6),
    ];
    for (format, code) in formats {
        assert_eq!(format.to_native(), code);
        assert_eq!(FrameFormat::from_native(code), format);
    }
    assert_eq!(FrameFormat::from_native(3), FrameFormat::Invalid);
    assert_eq!(FrameFormat::from_native(7), FrameFormat::Invalid);
    assert_eq!(FrameFormat::from_native(u32::MAX), FrameFormat::Invalid);
}

#[test]
fn frame_types_collects_what_occurs() {
    let types = FrameTypes::new(&[FrameType::Depth, FrameType::Color, FrameType::Depth]);
    assert_eq!(types, FrameTypes { color: true, ir: false, depth: true });
    assert!(types.contains(FrameType::Color));
    assert!(!types.contains(FrameType::Ir));
    assert!(!types.is_empty());
    assert!(FrameTypes::new(&[]).is_empty());
    assert_eq!(FrameTypes::new(&[FrameType::Ir]), FrameTypes { color: false, ir: true, depth: false });
}

#[test]
fn log_levels_are_routed() {
    assert_eq!(LogLevel::route(1), LogRoute { severity: Severity::Error, unknown_level: false });
    assert_eq!(LogLevel::route(2), LogRoute { severity: Severity::Warn, unknown_level: false });
    assert_eq!(LogLevel::route(3), LogRoute { severity: Severity::Info, unknown_level: false });
    assert_eq!(LogLevel::route(4), LogRoute { severity: Severity::Debug, unknown_level: false });
    assert_eq!(LogLevel::route(0), LogRoute { severity: Severity::Error, unknown_level: true });
    assert_eq!(LogLevel::route(9), LogRoute { severity: Severity::Error, unknown_level: true });
    assert_eq!(LogLevel::from_native(0), Some(LogLevel::Off));
    assert_eq!(LogLevel::from_native(5), None);
    assert_eq!(LogLevel::Debug.to_native(), 4);
    assert_eq!(LogLevel::Warning.to_native(), 2);
}

#[test]
fn packet_pipeline_codes() {
    assert_eq!(PacketPipeline::CPU.to_native(), 0);
    assert_eq!(PacketPipeline::OpenGL.to_native(), 1);
    assert_eq!(PacketPipeline::OpenCL.to_native(), 2);
    assert_eq!(PacketPipeline::OpenCLKDE.to_native(), 3);
}
